//! The text the game's panels show: the narrative panel, the controls,
//! the inventory, the look panel, the status panel, and how map tiles
//! are drawn.

use vstd::prelude::*;

use crate::game::components::{Health, Position, RenderColor};
use crate::game::log::{texts, GameLog};
use crate::game::map::{tile_glyph, GameMap, TileType};
use crate::text::{decimal, owned, push_int};

verus! {

/// Widget for displaying the game master's narrative.
pub struct NarrativeWidget<'a> {
    title: &'a str,
    text: &'a str,
    atmosphere: Option<&'a str>,
}

impl<'a> View for NarrativeWidget<'a> {
    /// Title, text, and the atmosphere line if any.
    type V = (Seq<char>, Seq<char>, Option<Seq<char>>);

    closed spec fn view(&self) -> (Seq<char>, Seq<char>, Option<Seq<char>>) {
        (
            self.title@,
            self.text@,
            match self.atmosphere {
                Some(a) => Some(a@),
                None => None,
            },
        )
    }
}

/// The lines of the narrative panel: the text, then, with an atmosphere,
/// a blank line and the atmosphere between tildes.
pub open spec fn narrative_lines(text: Seq<char>, atmosphere: Option<Seq<char>>) -> Seq<Seq<char>> {
    match atmosphere {
        Some(a) => seq![text, Seq::empty(), "~ "@ + a + " ~"@],
        None => seq![text],
    }
}

impl<'a> NarrativeWidget<'a> {
    pub fn new(title: &'a str, text: &'a str) -> (w: Self)
        ensures
            w@ == (title@, text@, None::<Seq<char>>),
    {
        Self { title, text, atmosphere: None }
    }

    pub fn with_atmosphere(self, atmosphere: &'a str) -> (w: Self)
        ensures
            w@ == (self@.0, self@.1, Some(atmosphere@)),
    {
        let mut w = self;
        w.atmosphere = Some(atmosphere);
        w
    }

    /// The panel's title, padded with a space on each side.
    pub fn title_text(&self) -> (s: String)
        ensures
            s@ == " "@ + self@.0 + " "@,
    {
        let mut s = owned(" ");
        s.append(self.title);
        s.append(" ");
        s
    }

    /// The lines of the panel.
    pub fn lines(&self) -> (r: Vec<String>)
        ensures
            r@.map_values(|s: String| s@) == narrative_lines(self@.1, self@.2),
    {
        let mut r: Vec<String> = Vec::new();
        r.push(owned(self.text));
        if let Some(atmo) = self.atmosphere {
            r.push(String::new());
            let mut s = owned("~ ");
            s.append(atmo);
            s.append(" ~");
            r.push(s);
        }
        assert(r@.map_values(|s: String| s@) =~= narrative_lines(self@.1, self@.2));
        r
    }
}

/// Widget for the help/controls display.
pub struct HelpWidget {
    targeting_mode: bool,
}

impl View for HelpWidget {
    /// Whether the look-mode controls are shown.
    type V = bool;

    closed spec fn view(&self) -> bool {
        self.targeting_mode
    }
}

/// The controls listed in each mode.
pub open spec fn help_lines(targeting: bool) -> Seq<Seq<char>> {
    if targeting {
        seq![
            "-- LOOK MODE --"@,
            "hjkl/arrows: Move cursor"@,
            "Enter/Space: Select"@,
            "x/Esc: Exit look mode"@,
        ]
    } else {
        seq!["hjkl/arrows: Move"@, ".: Wait"@, "x: Look mode"@, "i: Inventory"@, "q: Quit"@]
    }
}

impl HelpWidget {
    pub fn new(targeting_mode: bool) -> (w: Self)
        ensures
            w@ == targeting_mode,
    {
        Self { targeting_mode }
    }

    /// The lines of the panel.
    pub fn lines(&self) -> (r: Vec<&'static str>)
        ensures
            r@.map_values(|s: &'static str| s@) == help_lines(self@),
    {
        let r = if self.targeting_mode {
            vec![
                "-- LOOK MODE --",
                "hjkl/arrows: Move cursor",
                "Enter/Space: Select",
                "x/Esc: Exit look mode",
            ]
        } else {
            vec!["hjkl/arrows: Move", ".: Wait", "x: Look mode", "i: Inventory", "q: Quit"]
        };
        assert(r@.map_values(|s: &'static str| s@) =~= help_lines(self@));
        r
    }
}

impl Default for HelpWidget {
    fn default() -> (w: Self)
        ensures
            w@ == false,
    {
        Self::new(false)
    }
}

/// Widget for displaying the inventory screen.
pub struct InventoryWidget {}

/// The lines of the inventory panel.
pub open spec fn inventory_lines() -> Seq<Seq<char>> {
    seq!["Your inventory is empty."@, Seq::empty(), "Press 'i' or Esc to close."@]
}

impl InventoryWidget {
    pub fn new() -> (w: Self)
        ensures
            w == (InventoryWidget {}),
    {
        Self {  }
    }

    /// The lines of the panel.
    pub fn lines(&self) -> (r: Vec<&'static str>)
        ensures
            r@.map_values(|s: &'static str| s@) == inventory_lines(),
    {
        let r = vec!["Your inventory is empty.", "", "Press 'i' or Esc to close."];
        proof {
            reveal_strlit("");
            assert(r@[1]@ =~= Seq::<char>::empty());
        }
        assert(r@.map_values(|s: &'static str| s@) =~= inventory_lines());
        r
    }
}

impl Default for InventoryWidget {
    fn default() -> (w: Self)
        ensures
            w == (InventoryWidget {}),
    {
        Self::new()
    }
}

/// Shades the map is drawn in.
#[derive(Debug, Clone, Copy, PartialEq, Eq, Structural)]
pub enum TileShade {
    White,
    Gray,
    Yellow,
    Cyan,
    DarkGray,
}

/// How a tile is drawn: its glyph, bright when in view (walls white,
/// floors gray, doors yellow, stairs cyan), dark gray when only remembered.
pub open spec fn tile_look(tile: TileType, visible: bool) -> (char, TileShade) {
    (
        tile_glyph(tile),
        if !visible {
            TileShade::DarkGray
        } else {
            match tile {
                TileType::Wall => TileShade::White,
                TileType::Floor => TileShade::Gray,
                TileType::Door => TileShade::Yellow,
                TileType::StairsDown | TileType::StairsUp => TileShade::Cyan,
            }
        },
    )
}

/// The glyph and shade of a tile.
pub fn tile_appearance(tile: TileType, visible: bool) -> (r: (char, TileShade))
    ensures
        r == tile_look(tile, visible),
{
    let glyph = tile.glyph();
    let fg = match tile {
        TileType::Wall => if visible {
            TileShade::White
        } else {
            TileShade::DarkGray
        },
        TileType::Floor => if visible {
            TileShade::Gray
        } else {
            TileShade::DarkGray
        },
        TileType::Door => if visible {
            TileShade::Yellow
        } else {
            TileShade::DarkGray
        },
        TileType::StairsDown | TileType::StairsUp => if visible {
            TileShade::Cyan
        } else {
            TileShade::DarkGray
        },
    };
    (glyph, fg)
}

/// Display name of a tile in the look panel.
pub open spec fn tile_label(t: TileType) -> Seq<char> {
    match t {
        TileType::Wall => "Wall"@,
        TileType::Floor => "Floor"@,
        TileType::Door => "Door"@,
        TileType::StairsDown => "Stairs Down"@,
        TileType::StairsUp => "Stairs Up"@,
    }
}

/// The lines of the look panel for a cursor at `(x, y)`: the position,
/// then, on the map, the tile's name when in view, "Not in view" when
/// only remembered, "Unexplored" otherwise.
pub open spec fn look_lines(map: GameMap, x: i32, y: i32) -> Seq<Seq<char>> {
    let first = "Position: ("@ + decimal(x as int) + ", "@ + decimal(y as int) + ")"@;
    if map.on_map(x as int, y as int) {
        let i = map.index_of(x as int, y as int);
        if map.visible@[i] {
            seq![first, "Tile: "@ + tile_label(map.tiles@[i])]
        } else if map.revealed@[i] {
            seq![first, "Not in view"@]
        } else {
            seq![first, "Unexplored"@]
        }
    } else {
        seq![first]
    }
}

/// The lines of the look panel.
pub fn cursor_lines(map: &GameMap, x: i32, y: i32) -> (r: Vec<String>)
    requires
        map.wf(),
    ensures
        r@.map_values(|s: String| s@) == look_lines(*map, x, y),
{
    let mut first = owned("Position: (");
    push_int(&mut first, x as i128);
    first.append(", ");
    push_int(&mut first, y as i128);
    first.append(")");
    let mut r: Vec<String> = Vec::new();
    r.push(first);
    if map.in_bounds(x, y) {
        let idx = map.xy_idx(x, y);
        if map.visible[idx] {
            let name = match map.tiles[idx] {
                TileType::Wall => "Wall",
                TileType::Floor => "Floor",
                TileType::Door => "Door",
                TileType::StairsDown => "Stairs Down",
                TileType::StairsUp => "Stairs Up",
            };
            let mut s = owned("Tile: ");
            s.append(name);
            r.push(s);
        } else if map.revealed[idx] {
            r.push(owned("Not in view"));
        } else {
            r.push(owned("Unexplored"));
        }
    }
    assert(r@.map_values(|s: String| s@) =~= look_lines(*map, x, y));
    r
}

/// The lines of the status panel: hit points, floor and gold.
pub open spec fn status_lines(current: i32, max: i32, floor: i32, gold: i32) -> Seq<Seq<char>> {
    seq![
        "HP: "@ + decimal(current as int) + "/"@ + decimal(max as int),
        "Floor: "@ + decimal(floor as int),
        "Gold: "@ + decimal(gold as int),
    ]
}

/// The lines of the status panel.
pub fn stats_lines(current: i32, max: i32, floor: i32, gold: i32) -> (r: Vec<String>)
    ensures
        r@.map_values(|s: String| s@) == status_lines(current, max, floor, gold),
{
    let mut hp = owned("HP: ");
    push_int(&mut hp, current as i128);
    hp.append("/");
    push_int(&mut hp, max as i128);
    let mut fl = owned("Floor: ");
    push_int(&mut fl, floor as i128);
    let mut gd = owned("Gold: ");
    push_int(&mut gd, gold as i128);
    let r = vec![hp, fl, gd];
    assert(r@.map_values(|s: String| s@) =~= status_lines(current, max, floor, gold));
    r
}

/// Widget for the dungeon map: the map, centered on the player, with the
/// look cursor and the entities to draw on it.
pub struct MapWidget<'a> {
    map: &'a GameMap,
    player_pos: Option<Position>,
    cursor_pos: Option<Position>,
    entities: Vec<(Position, char, RenderColor)>,
}

impl<'a> View for MapWidget<'a> {
    /// The map, the player's and the cursor's positions, and the entities.
    type V = (GameMap, Option<Position>, Option<Position>, Seq<(Position, char, RenderColor)>);

    closed spec fn view(&self) -> (
        GameMap,
        Option<Position>,
        Option<Position>,
        Seq<(Position, char, RenderColor)>,
    ) {
        (*self.map, self.player_pos, self.cursor_pos, self.entities@)
    }
}

impl<'a> MapWidget<'a> {
    pub fn new(map: &'a GameMap) -> (w: Self)
        ensures
            w@ == (*map, None::<Position>, None::<Position>, Seq::<(Position, char, RenderColor)>::empty()),
    {
        Self { map, player_pos: None, cursor_pos: None, entities: Vec::new() }
    }

    pub fn with_player(self, pos: Position) -> (w: Self)
        ensures
            w@ == (self@.0, Some(pos), self@.2, self@.3),
    {
        let mut w = self;
        w.player_pos = Some(pos);
        w
    }

    /// Add a cursor position for targeting/look mode.
    pub fn with_cursor(self, pos: Position) -> (w: Self)
        ensures
            w@ == (self@.0, self@.1, Some(pos), self@.3),
    {
        let mut w = self;
        w.cursor_pos = Some(pos);
        w
    }

    pub fn with_entity(self, pos: Position, glyph: char, color: RenderColor) -> (w: Self)
        ensures
            w@ == (self@.0, self@.1, self@.2, self@.3.push((pos, glyph, color))),
    {
        let mut w = self;
        w.entities.push((pos, glyph, color));
        w
    }

    pub fn with_entities(self, entities: Vec<(Position, char, RenderColor)>) -> (w: Self)
        ensures
            w@ == (self@.0, self@.1, self@.2, entities@),
    {
        let mut w = self;
        w.entities = entities;
        w
    }

    pub fn map(&self) -> (m: &GameMap)
        ensures
            *m == self@.0,
    {
        self.map
    }

    pub fn player_pos(&self) -> (p: Option<Position>)
        ensures
            p == self@.1,
    {
        self.player_pos
    }

    pub fn cursor_pos(&self) -> (p: Option<Position>)
        ensures
            p == self@.2,
    {
        self.cursor_pos
    }

    pub fn entities(&self) -> (e: &Vec<(Position, char, RenderColor)>)
        ensures
            e@ == self@.3,
    {
        &self.entities
    }
}

/// The map point drawn at the top left of a `w` by `h` map area: the
/// player sits at the area's center, or the map's origin without a player.
pub open spec fn view_origin(player: Option<Position>, w: int, h: int) -> (int, int) {
    match player {
        Some(p) => (p.x - w / 2, p.y - h / 2),
        None => (0, 0),
    }
}

/// The tile drawn at screen cell `(sx, sy)` of a `w` by `h` map area:
/// the map point there, when it is on the map and was revealed, drawn as
/// `tile_look` says; nothing otherwise.
pub open spec fn screen_tile(
    map: GameMap,
    player: Option<Position>,
    w: int,
    h: int,
    sx: int,
    sy: int,
) -> Option<(char, TileShade)> {
    let mx = sx + view_origin(player, w, h).0;
    let my = sy + view_origin(player, w, h).1;
    if map.on_map(mx, my) && map.revealed@[map.index_of(mx, my)] {
        Some(tile_look(map.tile_at(mx, my), map.visible@[map.index_of(mx, my)]))
    } else {
        None
    }
}

/// The top left map point of a `w` by `h` area fits in `i32`.
pub open spec fn origin_fits(player: Option<Position>, w: int, h: int) -> bool {
    i32::MIN <= view_origin(player, w, h).0 && i32::MIN <= view_origin(player, w, h).1
}

/// The offset of `pos` from the top left map point fits in `i32`.
pub open spec fn offset_fits(player: Option<Position>, w: int, h: int, pos: Position) -> bool {
    &&& i32::MIN <= pos.x - view_origin(player, w, h).0 <= i32::MAX
    &&& i32::MIN <= pos.y - view_origin(player, w, h).1 <= i32::MAX
}

/// The screen cell of a `w` by `h` map area where the map point `pos` is
/// drawn: its offset from the top left map point, taken as a `u16` each
/// way, when that lies inside the area.
pub open spec fn screen_cell(player: Option<Position>, w: int, h: int, pos: Position) -> Option<
    (u16, u16),
> {
    let sx = (pos.x - view_origin(player, w, h).0) as u16;
    let sy = (pos.y - view_origin(player, w, h).1) as u16;
    if sx < w && sy < h {
        Some((sx, sy))
    } else {
        None
    }
}

/// The tile index the map gives a point: row times width plus column.
pub open spec fn point_index(map: GameMap, pos: Position) -> int {
    pos.y * map.width + pos.x
}

/// Where an entity at `pos` is drawn: its screen cell, when it has one
/// and the map marks the tile at its index as in view.
pub open spec fn entity_cell(map: GameMap, player: Option<Position>, w: int, h: int, pos: Position) -> Option<
    (u16, u16),
> {
    match screen_cell(player, w, h, pos) {
        Some(c) => if 0 <= point_index(map, pos) < map.visible@.len()
            && map.visible@[point_index(map, pos)] {
            Some(c)
        } else {
            None
        },
        None => None,
    }
}

impl<'a> MapWidget<'a> {
    /// The screen cell of a `w` by `h` map area where the map point `pos`
    /// is drawn (used for the player and the cursor).
    pub fn cell_on_screen(&self, pos: Position, w: u16, h: u16) -> (r: Option<(u16, u16)>)
        requires
            origin_fits(self@.1, w as int, h as int),
            offset_fits(self@.1, w as int, h as int, pos),
        ensures
            r == screen_cell(self@.1, w as int, h as int, pos),
    {
        let (ox, oy): (i32, i32) = match self.player_pos {
            Some(p) => (p.x - (w / 2) as i32, p.y - (h / 2) as i32),
            None => (0, 0),
        };
        let sx = (pos.x - ox) as u16;
        let sy = (pos.y - oy) as u16;
        if sx < w && sy < h {
            Some((sx, sy))
        } else {
            None
        }
    }

    /// Where an entity at `pos` is drawn in a `w` by `h` map area, if it
    /// is drawn at all.
    pub fn entity_on_screen(&self, pos: Position, w: u16, h: u16) -> (r: Option<(u16, u16)>)
        requires
            origin_fits(self@.1, w as int, h as int),
            offset_fits(self@.1, w as int, h as int, pos),
            screen_cell(self@.1, w as int, h as int, pos) is Some ==> i32::MIN <= pos.y
                * self@.0.width <= i32::MAX && i32::MIN <= point_index(self@.0, pos) <= i32::MAX,
        ensures
            r == entity_cell(self@.0, self@.1, w as int, h as int, pos),
    {
        match self.cell_on_screen(pos, w, h) {
            Some(c) => {
                let i = pos.y * self.map.width + pos.x;
                if i >= 0 && (i as usize) < self.map.visible.len() && self.map.visible[i as usize] {
                    Some(c)
                } else {
                    None
                }
            },
            None => None,
        }
    }
}

impl<'a> MapWidget<'a> {
    /// The tile drawn at screen cell `(sx, sy)` of a `w` by `h` map area.
    pub fn tile_on_screen(&self, sx: u16, sy: u16, w: u16, h: u16) -> (r: Option<(char, TileShade)>)
        requires
            self@.0.wf(),
        ensures
            r == screen_tile(self@.0, self@.1, w as int, h as int, sx as int, sy as int),
    {
        let (ox, oy): (i64, i64) = match self.player_pos {
            Some(p) => (p.x as i64 - (w / 2) as i64, p.y as i64 - (h / 2) as i64),
            None => (0, 0),
        };
        let mx: i64 = sx as i64 + ox;
        let my: i64 = sy as i64 + oy;
        if mx < 0 || my < 0 || mx >= self.map.width as i64 || my >= self.map.height as i64 {
            return None;
        }
        let x = mx as i32;
        let y = my as i32;
        let idx = self.map.xy_idx(x, y);
        if !self.map.revealed[idx] {
            return None;
        }
        Some(tile_appearance(self.map.tiles[idx], self.map.visible[idx]))
    }
}

/// Widget for the message log: the most recent messages, oldest first.
pub struct LogWidget<'a> {
    log: &'a GameLog,
    max_lines: usize,
}

impl<'a> View for LogWidget<'a> {
    /// The log's messages and how many lines are shown.
    type V = (Seq<Seq<char>>, nat);

    closed spec fn view(&self) -> (Seq<Seq<char>>, nat) {
        (texts(self.log.messages@), self.max_lines as nat)
    }
}

/// The last `max` messages, oldest first.
pub open spec fn shown_messages(msgs: Seq<Seq<char>>, max: nat) -> Seq<Seq<char>> {
    if max < msgs.len() {
        msgs.subrange(msgs.len() - max, msgs.len() as int)
    } else {
        msgs
    }
}

impl<'a> LogWidget<'a> {
    /// A log panel of five lines.
    pub fn new(log: &'a GameLog) -> (w: Self)
        ensures
            w@ == (texts(log.messages@), 5nat),
    {
        Self { log, max_lines: 5 }
    }

    pub fn with_max_lines(self, lines: usize) -> (w: Self)
        ensures
            w@ == (self@.0, lines as nat),
    {
        let mut w = self;
        w.max_lines = lines;
        w
    }

    /// The lines of the panel.
    pub fn lines(&self) -> (r: Vec<String>)
        ensures
            r@.map_values(|s: String| s@) == shown_messages(self@.0, self@.1),
    {
        let n = self.log.messages.len();
        let start = if self.max_lines < n {
            n - self.max_lines
        } else {
            0
        };
        let ghost all = texts(self.log.messages@);
        let mut r: Vec<String> = Vec::new();
        let mut i = start;
        while i < n
            invariant
                start <= i <= n,
                n == self.log.messages@.len(),
                all == texts(self.log.messages@),
                r@.map_values(|s: String| s@) == all.subrange(start as int, i as int),
            decreases n - i,
        {
            let ghost before = r@;
            let line = self.log.messages[i].clone();
            assert(line@ == all[i as int]);
            r.push(line);
            assert(r@.map_values(|s: String| s@) =~= before.map_values(|s: String| s@).push(line@));
            assert(r@.map_values(|s: String| s@) =~= all.subrange(start as int, i + 1));
            i = i + 1;
        }
        assert(all.subrange(0, n as int) =~= all);
        r
    }
}

/// Widget for the player's status.
pub struct StatsWidget {
    health: Health,
    floor: i32,
    gold: i32,
}

impl View for StatsWidget {
    /// Health, floor and gold.
    type V = (Health, i32, i32);

    closed spec fn view(&self) -> (Health, i32, i32) {
        (self.health, self.floor, self.gold)
    }
}

impl StatsWidget {
    pub fn new(health: Health, floor: i32, gold: i32) -> (w: Self)
        ensures
            w@ == (health, floor, gold),
    {
        Self { health, floor, gold }
    }

    /// The health shown.
    pub fn health(&self) -> (h: Health)
        ensures
            h == self@.0,
    {
        self.health
    }

    /// The lines of the panel.
    pub fn lines(&self) -> (r: Vec<String>)
        ensures
            r@.map_values(|s: String| s@) == status_lines(self@.0.current, self@.0.max, self@.1, self@.2),
    {
        stats_lines(self.health.current, self.health.max, self.floor, self.gold)
    }
}

/// Widget for the look panel.
pub struct CursorWidget<'a> {
    position: &'a Position,
    map: &'a GameMap,
}

impl<'a> View for CursorWidget<'a> {
    /// The cursor's position and the map.
    type V = (Position, GameMap);

    closed spec fn view(&self) -> (Position, GameMap) {
        (*self.position, *self.map)
    }
}

impl<'a> CursorWidget<'a> {
    pub fn new(position: &'a Position, map: &'a GameMap) -> (w: Self)
        ensures
            w@ == (*position, *map),
    {
        Self { position, map }
    }

    /// The lines of the panel.
    pub fn lines(&self) -> (r: Vec<String>)
        requires
            self@.1.wf(),
        ensures
            r@.map_values(|s: String| s@) == look_lines(self@.1, self@.0.x, self@.0.y),
    {
        cursor_lines(self.map, self.position.x, self.position.y)
    }
}

} // verus!
