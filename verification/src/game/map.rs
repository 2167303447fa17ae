//! The dungeon map: tiles, rooms, and dungeon generation.

use vstd::prelude::*;

use crate::random::thread_rng_range;
use crate::seqs::{first_where, lemma_first_where_ends, lemma_first_where_step};
use crate::random::thread_rng_ratio;

verus! {

/// Tile types for the dungeon map.
#[derive(Debug, Clone, Copy, PartialEq, Eq, Structural)]
pub enum TileType {
    Wall,
    Floor,
    Door,
    StairsDown,
    StairsUp,
}

/// Map glyph of a tile.
pub open spec fn tile_glyph(t: TileType) -> char {
    match t {
        TileType::Wall => '#',
        TileType::Floor => '.',
        TileType::Door => '+',
        TileType::StairsDown => '>',
        TileType::StairsUp => '<',
    }
}

/// Tiles one can stand on: everything but walls.
pub open spec fn walkable(t: TileType) -> bool {
    t != TileType::Wall
}

/// Tiles that stop a line of sight: walls and doors.
pub open spec fn opaque_tile(t: TileType) -> bool {
    t == TileType::Wall || t == TileType::Door
}

impl TileType {
    pub fn glyph(&self) -> (c: char)
        ensures
            c == tile_glyph(*self),
    {
        match self {
            TileType::Wall => '#',
            TileType::Floor => '.',
            TileType::Door => '+',
            TileType::StairsDown => '>',
            TileType::StairsUp => '<',
        }
    }

    pub fn is_walkable(&self) -> (b: bool)
        ensures
            b == walkable(*self),
    {
        match self {
            TileType::Floor | TileType::Door | TileType::StairsDown | TileType::StairsUp => true,
            TileType::Wall => false,
        }
    }

    pub fn blocks_sight(&self) -> (b: bool)
        ensures
            b == opaque_tile(*self),
    {
        match self {
            TileType::Wall | TileType::Door => true,
            _ => false,
        }
    }
}

/// A room in the dungeon.
#[derive(Debug, Clone, Copy, PartialEq, Eq, Structural)]
pub struct Room {
    pub x: i32,
    pub y: i32,
    pub width: i32,
    pub height: i32,
    pub room_id: usize,
}

impl Room {
    /// The rectangles of two rooms touch or overlap (edges included).
    pub open spec fn meets(self, other: Room) -> bool {
        &&& self.x <= other.x + other.width
        &&& self.x + self.width >= other.x
        &&& self.y <= other.y + other.height
        &&& self.y + self.height >= other.y
    }

    /// A point lies inside the room.
    pub open spec fn holds(self, x: int, y: int) -> bool {
        self.x <= x < self.x + self.width && self.y <= y < self.y + self.height
    }

    /// The center of the room, rounding toward the top left.
    pub open spec fn middle(self) -> (int, int) {
        (self.x + self.width / 2, self.y + self.height / 2)
    }

    /// The room's far edges, `x + width` and `y + height`, fit in `i32`.
    pub open spec fn sums_fit(self) -> bool {
        &&& i32::MIN <= self.x + self.width <= i32::MAX
        &&& i32::MIN <= self.y + self.height <= i32::MAX
    }

    /// The room's corners fit in `i32` arithmetic.
    pub open spec fn fits(self) -> bool {
        &&& 0 <= self.width
        &&& 0 <= self.height
        &&& self.x + self.width <= i32::MAX
        &&& self.y + self.height <= i32::MAX
    }

    pub fn new(x: i32, y: i32, width: i32, height: i32, room_id: usize) -> (r: Self)
        ensures
            r == (Room { x, y, width, height, room_id }),
    {
        Self { x, y, width, height, room_id }
    }

    pub fn center(&self) -> (c: (i32, i32))
        requires
            self.fits(),
        ensures
            c.0 == self.middle().0,
            c.1 == self.middle().1,
    {
        (self.x + self.width / 2, self.y + self.height / 2)
    }

    pub fn intersects(&self, other: &Room) -> (b: bool)
        requires
            self.sums_fit(),
            other.sums_fit(),
        ensures
            b == self.meets(*other),
    {
        self.x <= other.x + other.width && self.x + self.width >= other.x && self.y <= other.y
            + other.height && self.y + self.height >= other.y
    }

    /// Check if a position is inside this room.
    pub fn contains(&self, x: i32, y: i32) -> (b: bool)
        requires
            self.sums_fit(),
        ensures
            b == self.holds(x as int, y as int),
    {
        x >= self.x && x < self.x + self.width && y >= self.y && y < self.y + self.height
    }
}

/// A room holding the point `(x, y)`.
pub open spec fn holding(x: int, y: int) -> spec_fn(Room) -> bool {
    |r: Room| r.holds(x, y)
}

/// Distinct points of a map have distinct tile indices.
pub proof fn lemma_index_injective(width: int, height: int, x: int, y: int, px: int, py: int)
    requires
        0 <= x < width,
        0 <= px < width,
        0 <= y < height,
        0 <= py < height,
        (x, y) != (px, py),
    ensures
        y * width + x != py * width + px,
{
    if y < py {
        assert(y * width + x < py * width + px) by (nonlinear_arith)
            requires
                0 <= x < width,
                0 <= px,
                y < py,
        ;
    } else if py < y {
        assert(py * width + px < y * width + x) by (nonlinear_arith)
            requires
                0 <= px < width,
                0 <= x,
                py < y,
        ;
    }
}

/// Whether two rooms meet does not depend on their order.
pub proof fn lemma_meets_symmetric(a: Room, b: Room)
    ensures
        a.meets(b) == b.meets(a),
{
}

/// A room lies in the interior of a `width` by `height` map, at least one
/// tile away from the border.
pub open spec fn inside_border(r: Room, width: int, height: int) -> bool {
    &&& 1 <= r.x
    &&& 1 <= r.y
    &&& r.x + r.width <= width - 1
    &&& r.y + r.height <= height - 1
}

/// The game map.
#[derive(Debug, Clone)]
pub struct GameMap {
    pub width: i32,
    pub height: i32,
    pub tiles: Vec<TileType>,
    pub rooms: Vec<Room>,
    pub current_floor: i32,
    pub revealed: Vec<bool>,
    pub visible: Vec<bool>,
}

impl GameMap {
    /// The map's three layers each hold one entry per tile.
    pub open spec fn wf(&self) -> bool {
        &&& 0 <= self.width
        &&& 0 <= self.height
        &&& self.width * self.height <= i32::MAX
        &&& self.tiles@.len() == self.width * self.height
        &&& self.revealed@.len() == self.width * self.height
        &&& self.visible@.len() == self.width * self.height
    }

    /// The point lies on the map.
    pub open spec fn on_map(&self, x: int, y: int) -> bool {
        0 <= x < self.width && 0 <= y < self.height
    }

    /// Row-major position of a point.
    pub open spec fn index_of(&self, x: int, y: int) -> int {
        y * self.width + x
    }

    /// The tile at a point.
    pub open spec fn tile_at(&self, x: int, y: int) -> TileType {
        self.tiles@[self.index_of(x, y)]
    }

    /// Every room lies inside the border, and every tile of every room
    /// can be walked on.
    pub open spec fn rooms_open(&self) -> bool {
        &&& forall|i: int|
            0 <= i < self.rooms@.len() ==> #[trigger] inside_border(
                self.rooms@[i],
                self.width as int,
                self.height as int,
            )
        &&& forall|i: int| 0 <= i < self.rooms@.len() ==> #[trigger] room_open(self.tiles@, self.width as int, self.rooms@[i])
    }
}

/// Every tile of room `r` on a map of the given width can be walked on.
pub open spec fn room_open(tiles: Seq<TileType>, width: int, r: Room) -> bool {
    forall|x: int, y: int| #[trigger] r.holds(x, y) ==> walkable(tiles[y * width + x])
}

/// The tile at column `x`, row `y` of a map of the given width.
pub open spec fn cell(tiles: Seq<TileType>, width: int, x: int, y: int) -> TileType {
    tiles[y * width + x]
}

/// Every tile of row `y` between columns `a` and `b` (inclusive, either
/// order) can be walked on.
pub open spec fn row_open(tiles: Seq<TileType>, width: int, a: int, b: int, y: int) -> bool {
    forall|x: int|
        (if a < b {
            a
        } else {
            b
        }) <= x <= (if a < b {
            b
        } else {
            a
        }) ==> walkable(#[trigger] cell(tiles, width, x, y))
}

/// Every tile of column `x` between rows `a` and `b` (inclusive, either
/// order) can be walked on.
pub open spec fn col_open(tiles: Seq<TileType>, width: int, a: int, b: int, x: int) -> bool {
    forall|y: int|
        (if a < b {
            a
        } else {
            b
        }) <= y <= (if a < b {
            b
        } else {
            a
        }) ==> walkable(#[trigger] cell(tiles, width, x, y))
}

/// The centers of two rooms are joined by an L-shaped walkable path:
/// along the first room's row then the second room's column, or along
/// the first room's column then the second room's row.
pub open spec fn joined(tiles: Seq<TileType>, width: int, a: Room, b: Room) -> bool {
    let (ax, ay) = a.middle();
    let (bx, by) = b.middle();
    ||| row_open(tiles, width, ax, bx, ay) && col_open(tiles, width, ay, by, bx)
    ||| col_open(tiles, width, ay, by, ax) && row_open(tiles, width, ax, bx, by)
}

/// Room `i` of the list is joined to room `i - 1`.
pub open spec fn linked(tiles: Seq<TileType>, width: int, rooms: Seq<Room>, i: int) -> bool {
    joined(tiles, width, rooms[i - 1], rooms[i])
}

/// The tiles changed from `before` to `after` were dug out: each is
/// floor or stairs down; the others are untouched.
pub open spec fn dug(before: Seq<TileType>, after: Seq<TileType>) -> bool {
    &&& before.len() == after.len()
    &&& forall|i: int|
        0 <= i < after.len() ==> #[trigger] after[i] == before[i] || after[i] == TileType::Floor
            || after[i] == TileType::StairsDown
}

/// Digging keeps an open room open.
proof fn lemma_dug_keeps_room_open(
    before: Seq<TileType>,
    after: Seq<TileType>,
    width: int,
    height: int,
    r: Room,
)
    requires
        room_open(before, width, r),
        dug(before, after),
        inside_border(r, width, height),
        before.len() == width * height,
    ensures
        room_open(after, width, r),
{
    assert forall|x: int, y: int| #[trigger] r.holds(x, y) implies walkable(after[y * width + x]) by {
        lemma_index_on_map(width, height, x, y);
        assert(walkable(before[y * width + x]));
    }
}

/// Digging keeps every open room of a list open.
proof fn lemma_dug_keeps_rooms_open(
    before: Seq<TileType>,
    after: Seq<TileType>,
    width: int,
    height: int,
    rooms: Seq<Room>,
)
    requires
        forall|i: int| 0 <= i < rooms.len() ==> #[trigger] inside_border(rooms[i], width, height),
        forall|i: int| 0 <= i < rooms.len() ==> #[trigger] room_open(before, width, rooms[i]),
        dug(before, after),
        before.len() == width * height,
    ensures
        forall|i: int| 0 <= i < rooms.len() ==> #[trigger] room_open(after, width, rooms[i]),
{
    assert forall|i: int| 0 <= i < rooms.len() implies #[trigger] room_open(after, width, rooms[i]) by {
        assert(inside_border(rooms[i], width, height));
        assert(room_open(before, width, rooms[i]));
        lemma_dug_keeps_room_open(before, after, width, height, rooms[i]);
    }
}

/// Distinct rows of a map of positive width start at distinct indices.
proof fn lemma_rows_apart(width: int, y1: int, y2: int)
    requires
        width > 0,
        y1 != y2,
    ensures
        y1 * width != y2 * width,
{
    if y1 < y2 {
        assert(y1 * width < y2 * width) by (nonlinear_arith)
            requires
                width > 0,
                y1 < y2,
        ;
    } else {
        assert(y2 * width < y1 * width) by (nonlinear_arith)
            requires
                width > 0,
                y2 < y1,
        ;
    }
}

/// Digging keeps open rows and columns between points of the map open.
proof fn lemma_dug_keeps_lines_open(
    before: Seq<TileType>,
    after: Seq<TileType>,
    width: int,
    height: int,
    a: int,
    b: int,
    fixed: int,
)
    requires
        dug(before, after),
        before.len() == width * height,
        0 <= a < width,
        0 <= b < width,
        0 <= fixed < height,
    ensures
        row_open(before, width, a, b, fixed) ==> row_open(after, width, a, b, fixed),
{
    if row_open(before, width, a, b, fixed) {
        assert forall|x: int|
            (if a < b {
                a
            } else {
                b
            }) <= x <= (if a < b {
                b
            } else {
                a
            }) implies walkable(#[trigger] cell(after, width, x, fixed)) by {
            lemma_index_on_map(width, height, x, fixed);
            assert(walkable(cell(before, width, x, fixed)));
        }
    }
}

/// Digging keeps open columns between points of the map open.
proof fn lemma_dug_keeps_cols_open(
    before: Seq<TileType>,
    after: Seq<TileType>,
    width: int,
    height: int,
    a: int,
    b: int,
    fixed: int,
)
    requires
        dug(before, after),
        before.len() == width * height,
        0 <= a < height,
        0 <= b < height,
        0 <= fixed < width,
    ensures
        col_open(before, width, a, b, fixed) ==> col_open(after, width, a, b, fixed),
{
    if col_open(before, width, a, b, fixed) {
        assert forall|y: int|
            (if a < b {
                a
            } else {
                b
            }) <= y <= (if a < b {
                b
            } else {
                a
            }) implies walkable(#[trigger] cell(after, width, fixed, y)) by {
            lemma_index_on_map(width, height, fixed, y);
            assert(walkable(cell(before, width, fixed, y)));
        }
    }
}

/// Digging keeps joined rooms joined.
proof fn lemma_dug_keeps_joined(
    before: Seq<TileType>,
    after: Seq<TileType>,
    width: int,
    height: int,
    ra: Room,
    rb: Room,
)
    requires
        dug(before, after),
        before.len() == width * height,
        inside_border(ra, width, height),
        inside_border(rb, width, height),
        0 <= ra.width,
        0 <= ra.height,
        0 <= rb.width,
        0 <= rb.height,
        joined(before, width, ra, rb),
    ensures
        joined(after, width, ra, rb),
{
    let (ax, ay) = ra.middle();
    let (bx, by) = rb.middle();
    lemma_dug_keeps_lines_open(before, after, width, height, ax, bx, ay);
    lemma_dug_keeps_lines_open(before, after, width, height, ax, bx, by);
    lemma_dug_keeps_cols_open(before, after, width, height, ay, by, ax);
    lemma_dug_keeps_cols_open(before, after, width, height, ay, by, bx);
}

/// Digging keeps every consecutive pair of a room list joined.
proof fn lemma_dug_keeps_links(
    before: Seq<TileType>,
    after: Seq<TileType>,
    width: int,
    height: int,
    rooms: Seq<Room>,
)
    requires
        dug(before, after),
        before.len() == width * height,
        forall|i: int| 0 <= i < rooms.len() ==> #[trigger] well_placed(rooms[i], width, height),
        forall|i: int| 1 <= i < rooms.len() ==> #[trigger] linked(before, width, rooms, i),
    ensures
        forall|i: int| 1 <= i < rooms.len() ==> #[trigger] linked(after, width, rooms, i),
{
    assert forall|i: int| 1 <= i < rooms.len() implies #[trigger] linked(after, width, rooms, i) by {
        assert(linked(before, width, rooms, i));
        assert(well_placed(rooms[i - 1], width, height));
        assert(well_placed(rooms[i], width, height));
        lemma_dug_keeps_joined(before, after, width, height, rooms[i - 1], rooms[i]);
    }
}

/// The centers of two rooms are joined by an L-shaped walkable path whose
/// horizontal leg comes first (along the first room's row, then the
/// second room's column) or, otherwise, whose vertical leg comes first.
pub open spec fn joined_by(tiles: Seq<TileType>, width: int, a: Room, b: Room, horizontal_first: bool) -> bool {
    let (ax, ay) = a.middle();
    let (bx, by) = b.middle();
    if horizontal_first {
        row_open(tiles, width, ax, bx, ay) && col_open(tiles, width, ay, by, bx)
    } else {
        col_open(tiles, width, ay, by, ax) && row_open(tiles, width, ax, bx, by)
    }
}

/// Digging keeps rooms joined by the same path.
proof fn lemma_dug_keeps_joined_by(
    before: Seq<TileType>,
    after: Seq<TileType>,
    width: int,
    height: int,
    ra: Room,
    rb: Room,
    h: bool,
)
    requires
        dug(before, after),
        before.len() == width * height,
        inside_border(ra, width, height),
        inside_border(rb, width, height),
        0 <= ra.width,
        0 <= ra.height,
        0 <= rb.width,
        0 <= rb.height,
        joined_by(before, width, ra, rb, h),
    ensures
        joined_by(after, width, ra, rb, h),
{
    let (ax, ay) = ra.middle();
    let (bx, by) = rb.middle();
    lemma_dug_keeps_lines_open(before, after, width, height, ax, bx, ay);
    lemma_dug_keeps_lines_open(before, after, width, height, ax, bx, by);
    lemma_dug_keeps_cols_open(before, after, width, height, ay, by, ax);
    lemma_dug_keeps_cols_open(before, after, width, height, ay, by, bx);
}

/// Digging keeps every consecutive pair of a room list joined by the
/// path its flip chose.
proof fn lemma_dug_keeps_links_by(
    before: Seq<TileType>,
    after: Seq<TileType>,
    width: int,
    height: int,
    rooms: Seq<Room>,
    fl: Seq<bool>,
)
    requires
        dug(before, after),
        before.len() == width * height,
        fl.len() == rooms.len(),
        forall|i: int| 0 <= i < rooms.len() ==> #[trigger] well_placed(rooms[i], width, height),
        forall|i: int|
            1 <= i < rooms.len() ==> #[trigger] joined_by(before, width, rooms[i - 1], rooms[i], fl[i]),
    ensures
        forall|i: int|
            1 <= i < rooms.len() ==> #[trigger] joined_by(after, width, rooms[i - 1], rooms[i], fl[i]),
{
    assert forall|i: int| 1 <= i < rooms.len() implies #[trigger] joined_by(
        after,
        width,
        rooms[i - 1],
        rooms[i],
        fl[i],
    ) by {
        assert(joined_by(before, width, rooms[i - 1], rooms[i], fl[i]));
        assert(well_placed(rooms[i - 1], width, height));
        assert(well_placed(rooms[i], width, height));
        lemma_dug_keeps_joined_by(before, after, width, height, rooms[i - 1], rooms[i], fl[i]);
    }
}

/// Putting floor or stairs down on one tile (or on none) is digging.
proof fn lemma_dig_one(s: Seq<TileType>, i: int, t: TileType)
    requires
        t == TileType::Floor || t == TileType::StairsDown,
    ensures
        dug(s, s),
        0 <= i < s.len() ==> dug(s, s.update(i, t)),
{
    if 0 <= i < s.len() {
        let u = s.update(i, t);
        assert forall|k: int| 0 <= k < u.len() implies #[trigger] u[k] == s[k] || u[k]
            == TileType::Floor || u[k] == TileType::StairsDown by {
            if k != i {
                assert(u[k] == s[k]);
            }
        }
    }
}

/// Digging is transitive.
proof fn lemma_dug_trans(a: Seq<TileType>, b: Seq<TileType>, c: Seq<TileType>)
    requires
        dug(a, b),
        dug(b, c),
    ensures
        dug(a, c),
{
    assert forall|i: int| 0 <= i < c.len() implies #[trigger] c[i] == a[i] || c[i] == TileType::Floor
        || c[i] == TileType::StairsDown by {
        assert(b[i] == a[i] || b[i] == TileType::Floor || b[i] == TileType::StairsDown);
    }
}

/// A point on a well-formed map has its index among the tiles.
pub proof fn lemma_index_on_map(width: int, height: int, x: int, y: int)
    requires
        0 <= x < width,
        0 <= y < height,
    ensures
        0 <= y * width + x < width * height,
{
    assert(0 <= y * width) by (nonlinear_arith)
        requires
            0 <= y,
            0 <= width,
    ;
    assert(y * width + x < width * height) by (nonlinear_arith)
        requires
            0 <= x < width,
            0 <= y < height,
    ;
}

/// Setting a tile on the map and reading it back gives what was set, and
/// every other tile of the map reads as it was.
pub proof fn lemma_set_tile_local(m: GameMap, x: int, y: int, t: TileType, px: int, py: int)
    requires
        m.wf(),
        m.on_map(x, y),
        m.on_map(px, py),
    ensures
        m.tiles@.update(m.index_of(x, y), t)[m.index_of(x, y)] == t,
        (px, py) != (x, y) ==> m.tiles@.update(m.index_of(x, y), t)[m.index_of(px, py)]
            == m.tile_at(px, py),
{
    lemma_index_on_map(m.width as int, m.height as int, x, y);
    lemma_index_on_map(m.width as int, m.height as int, px, py);
    if (px, py) != (x, y) {
        lemma_index_injective(m.width as int, m.height as int, x, y, px, py);
    }
}

impl Default for GameMap {
    fn default() -> (m: Self)
        ensures
            m.wf(),
            m.width == 80,
            m.height == 24,
            m.current_floor == 1,
            m.rooms@.len() == 0,
            forall|i: int| 0 <= i < m.tiles@.len() ==> m.tiles@[i] == TileType::Wall,
            forall|i: int| 0 <= i < m.revealed@.len() ==> !m.revealed@[i],
            forall|i: int| 0 <= i < m.visible@.len() ==> !m.visible@[i],
    {
        Self::new(80, 24)
    }
}

impl GameMap {
    /// A map of walls, nothing revealed or visible, on floor 1.
    pub fn new(width: i32, height: i32) -> (m: Self)
        requires
            0 <= width,
            0 <= height,
            width * height <= i32::MAX,
        ensures
            m.wf(),
            m.width == width,
            m.height == height,
            m.current_floor == 1,
            m.rooms@.len() == 0,
            forall|i: int| 0 <= i < m.tiles@.len() ==> m.tiles@[i] == TileType::Wall,
            forall|i: int| 0 <= i < m.revealed@.len() ==> !m.revealed@[i],
            forall|i: int| 0 <= i < m.visible@.len() ==> !m.visible@[i],
    {
        assert(0 <= width * height) by (nonlinear_arith)
            requires
                0 <= width,
                0 <= height,
        ;
        let size = (width * height) as usize;
        let mut tiles: Vec<TileType> = Vec::new();
        let mut revealed: Vec<bool> = Vec::new();
        let mut visible: Vec<bool> = Vec::new();
        let mut i: usize = 0;
        while i < size
            invariant
                i <= size,
                tiles@.len() == i,
                revealed@.len() == i,
                visible@.len() == i,
                forall|j: int| 0 <= j < i ==> tiles@[j] == TileType::Wall,
                forall|j: int| 0 <= j < i ==> !revealed@[j],
                forall|j: int| 0 <= j < i ==> !visible@[j],
            decreases size - i,
        {
            tiles.push(TileType::Wall);
            revealed.push(false);
            visible.push(false);
            i = i + 1;
        }
        Self { width, height, tiles, rooms: Vec::new(), current_floor: 1, revealed, visible }
    }

    /// Convert (x, y) to linear index.
    pub fn xy_idx(&self, x: i32, y: i32) -> (i: usize)
        requires
            self.wf(),
            self.on_map(x as int, y as int),
        ensures
            i == self.index_of(x as int, y as int),
            i < self.width * self.height,
    {
        proof {
            lemma_index_on_map(self.width as int, self.height as int, x as int, y as int);
        }
        (y * self.width + x) as usize
    }

    /// Check if coordinates are within bounds.
    pub fn in_bounds(&self, x: i32, y: i32) -> (b: bool)
        ensures
            b == self.on_map(x as int, y as int),
    {
        x >= 0 && x < self.width && y >= 0 && y < self.height
    }

    /// Get tile at position.
    pub fn get_tile(&self, x: i32, y: i32) -> (t: Option<TileType>)
        requires
            self.wf(),
        ensures
            t == if self.on_map(x as int, y as int) {
                Some(self.tile_at(x as int, y as int))
            } else {
                None
            },
    {
        if self.in_bounds(x, y) {
            Some(self.tiles[self.xy_idx(x, y)])
        } else {
            None
        }
    }

    /// Set tile at position; a point off the map changes nothing.
    pub fn set_tile(&mut self, x: i32, y: i32, tile: TileType)
        requires
            old(self).wf(),
        ensures
            final(self).wf(),
            final(self).tiles@ == if old(self).on_map(x as int, y as int) {
                old(self).tiles@.update(old(self).index_of(x as int, y as int), tile)
            } else {
                old(self).tiles@
            },
            final(self).width == old(self).width,
            final(self).height == old(self).height,
            final(self).rooms@ == old(self).rooms@,
            final(self).current_floor == old(self).current_floor,
            final(self).revealed@ == old(self).revealed@,
            final(self).visible@ == old(self).visible@,
    {
        if self.in_bounds(x, y) {
            let idx = self.xy_idx(x, y);
            self.tiles.set(idx, tile);
        }
    }

    /// Check if a position is walkable.
    pub fn is_walkable(&self, x: i32, y: i32) -> (b: bool)
        requires
            self.wf(),
        ensures
            b == (self.on_map(x as int, y as int) && walkable(self.tile_at(x as int, y as int))),
    {
        match self.get_tile(x, y) {
            Some(t) => t.is_walkable(),
            None => false,
        }
    }

    /// Find which room contains a given position: the first that holds it.
    pub fn room_at(&self, x: i32, y: i32) -> (r: Option<&Room>)
        requires
            forall|i: int| 0 <= i < self.rooms@.len() ==> (#[trigger] self.rooms@[i]).sums_fit(),
        ensures
            match r {
                Some(room) => first_where(self.rooms@, holding(x as int, y as int)) == Some(*room),
                None => first_where(self.rooms@, holding(x as int, y as int)) is None,
            },
    {
        let ghost s = self.rooms@;
        let ghost p = holding(x as int, y as int);
        proof {
            lemma_first_where_ends(s, p);
        }
        let mut i: usize = 0;
        while i < self.rooms.len()
            invariant
                i <= s.len(),
                s == self.rooms@,
                p == holding(x as int, y as int),
                forall|k: int| 0 <= k < s.len() ==> (#[trigger] s[k]).sums_fit(),
                first_where(s, p) == first_where(s.subrange(i as int, s.len() as int), p),
            decreases s.len() - i,
        {
            proof {
                lemma_first_where_step(s, p, i as int);
            }
            if self.rooms[i].contains(x, y) {
                return Some(&self.rooms[i]);
            }
            i = i + 1;
        }
        proof {
            lemma_first_where_ends(s, p);
        }
        None
    }
}

/// A room is placed as the generator places rooms: inside the border,
/// between 4 and 10 tiles on each side.
pub open spec fn well_placed(r: Room, width: int, height: int) -> bool {
    &&& inside_border(r, width, height)
    &&& r.x + r.width <= width - 2
    &&& r.y + r.height <= height - 2
    &&& 4 <= r.width <= 10
    &&& 4 <= r.height <= 10
}

/// No two rooms meet, and room ids grow along the list.
pub open spec fn apart(rooms: Seq<Room>) -> bool {
    forall|i: int, j: int|
        0 <= i < j < rooms.len() ==> !(#[trigger] rooms[j]).meets(#[trigger] rooms[i])
            && rooms[i].room_id < rooms[j].room_id
}

/// Whether room `r` meets some room of the list.
pub open spec fn meets_some(rooms: Seq<Room>, r: Room) -> bool {
    exists|i: int| 0 <= i < rooms.len() && r.meets(#[trigger] rooms[i])
}

/// The rooms kept from the first `n` candidates: each candidate, in
/// order, is kept where it meets no room kept before it.
pub open spec fn kept_rooms(candidates: Seq<Room>, n: int) -> Seq<Room>
    decreases n,
{
    if n <= 0 {
        Seq::empty()
    } else {
        let prev = kept_rooms(candidates, n - 1);
        if meets_some(prev, candidates[n - 1]) {
            prev
        } else {
            prev.push(candidates[n - 1])
        }
    }
}

/// The coin flips of the rooms kept from the first `n` candidates, in
/// the order of `kept_rooms`.
pub open spec fn kept_flips(candidates: Seq<Room>, flips: Seq<bool>, n: int) -> Seq<bool>
    decreases n,
{
    if n <= 0 {
        Seq::empty()
    } else {
        let prev = kept_flips(candidates, flips, n - 1);
        if meets_some(kept_rooms(candidates, n - 1), candidates[n - 1]) {
            prev
        } else {
            prev.push(flips[n - 1])
        }
    }
}

/// Whether room `r` meets any room of the list.
fn meets_any(rooms: &Vec<Room>, r: &Room) -> (b: bool)
    requires
        r.sums_fit(),
        forall|i: int| 0 <= i < rooms@.len() ==> (#[trigger] rooms@[i]).sums_fit(),
    ensures
        b == meets_some(rooms@, *r),
{
    let mut i: usize = 0;
    while i < rooms.len()
        invariant
            r.sums_fit(),
            forall|k: int| 0 <= k < rooms@.len() ==> (#[trigger] rooms@[k]).sums_fit(),
            i <= rooms@.len(),
            forall|j: int| 0 <= j < i ==> !r.meets(#[trigger] rooms@[j]),
        decreases rooms@.len() - i,
    {
        if r.intersects(&rooms[i]) {
            return true;
        }
        i = i + 1;
    }
    false
}

impl GameMap {
    /// Dig out every tile of a room.
    fn carve_room(&mut self, room: &Room)
        requires
            old(self).wf(),
            inside_border(*room, old(self).width as int, old(self).height as int),
            0 <= room.width,
            0 <= room.height,
        ensures
            final(self).wf(),
            final(self).width == old(self).width,
            final(self).height == old(self).height,
            final(self).rooms@ == old(self).rooms@,
            final(self).current_floor == old(self).current_floor,
            final(self).revealed@ == old(self).revealed@,
            final(self).visible@ == old(self).visible@,
            dug(old(self).tiles@, final(self).tiles@),
            forall|x: int, y: int|
                #[trigger] room.holds(x, y) ==> final(self).tile_at(x, y) == TileType::Floor,
    {
        let ghost start = self.tiles@;
        let mut y = room.y;
        while y < room.y + room.height
            invariant
                self.wf(),
                self.width == old(self).width,
                self.height == old(self).height,
                self.rooms@ == old(self).rooms@,
                self.current_floor == old(self).current_floor,
                self.revealed@ == old(self).revealed@,
                self.visible@ == old(self).visible@,
                start == old(self).tiles@,
                inside_border(*room, self.width as int, self.height as int),
                0 <= room.width,
                room.y <= y <= room.y + room.height,
                dug(start, self.tiles@),
                forall|px: int, py: int|
                    room.x <= px < room.x + room.width && room.y <= py < y ==> #[trigger] self.tile_at(
                        px,
                        py,
                    ) == TileType::Floor,
            decreases room.y + room.height - y,
        {
            let mut x = room.x;
            while x < room.x + room.width
                invariant
                    self.wf(),
                    self.width == old(self).width,
                    self.height == old(self).height,
                    self.rooms@ == old(self).rooms@,
                    self.current_floor == old(self).current_floor,
                    self.revealed@ == old(self).revealed@,
                    self.visible@ == old(self).visible@,
                    start == old(self).tiles@,
                    inside_border(*room, self.width as int, self.height as int),
                    room.y <= y < room.y + room.height,
                    room.x <= x <= room.x + room.width,
                    dug(start, self.tiles@),
                    forall|px: int, py: int|
                        (room.x <= px < room.x + room.width && room.y <= py < y) || (room.x <= px < x
                            && py == y) ==> #[trigger] self.tile_at(px, py) == TileType::Floor,
                decreases room.x + room.width - x,
            {
                let ghost before = self.tiles@;
                let ghost m0 = *self;
                self.set_tile(x, y, TileType::Floor);
                proof {
                    lemma_index_on_map(self.width as int, self.height as int, x as int, y as int);
                    lemma_dig_one(before, m0.index_of(x as int, y as int), TileType::Floor);
                    assert forall|px: int, py: int|
                        (room.x <= px < room.x + room.width && room.y <= py < y) || (room.x <= px
                            < x + 1 && py == y) implies #[trigger] self.tile_at(px, py)
                        == TileType::Floor by {
                        lemma_index_on_map(self.width as int, self.height as int, px, py);
                        if px == x && py == y {
                        } else {
                            assert(m0.tile_at(px, py) == TileType::Floor);
                        }
                    }
                    assert(dug(start, self.tiles@)) by {
                        assert(dug(before, self.tiles@));
                        lemma_dug_trans(start, before, self.tiles@);
                    }
                }
                x = x + 1;
            }
            y = y + 1;
        }
    }

    /// Dig out a row of tiles between two columns (inclusive, either order).
    fn carve_horizontal_tunnel(&mut self, x1: i32, x2: i32, y: i32)
        requires
            old(self).wf(),
            x1 < i32::MAX,
            x2 < i32::MAX,
        ensures
            final(self).wf(),
            final(self).width == old(self).width,
            final(self).height == old(self).height,
            final(self).rooms@ == old(self).rooms@,
            final(self).current_floor == old(self).current_floor,
            final(self).revealed@ == old(self).revealed@,
            final(self).visible@ == old(self).visible@,
            dug(old(self).tiles@, final(self).tiles@),
            (0 <= y < old(self).height && 0 <= x1 < old(self).width && 0 <= x2 < old(self).width)
                ==> row_open(final(self).tiles@, final(self).width as int, x1 as int, x2 as int, y as int),
    {
        let (start, end) = if x1 < x2 {
            (x1, x2)
        } else {
            (x2, x1)
        };
        let ghost first = self.tiles@;
        let ghost inside = 0 <= y < self.height && 0 <= start && end < self.width;
        let mut x = start;
        while x <= end
            invariant
                self.wf(),
                self.width == old(self).width,
                self.height == old(self).height,
                self.rooms@ == old(self).rooms@,
                self.current_floor == old(self).current_floor,
                self.revealed@ == old(self).revealed@,
                self.visible@ == old(self).visible@,
                first == old(self).tiles@,
                end < i32::MAX,
                start <= x <= end + 1,
                dug(first, self.tiles@),
                inside == (0 <= y < self.height && 0 <= start && end < self.width),
                inside ==> forall|xx: int|
                    start <= xx < x ==> #[trigger] cell(self.tiles@, self.width as int, xx, y as int)
                        == TileType::Floor,
            decreases end + 1 - x,
        {
            let ghost before = self.tiles@;
            let ghost m0 = *self;
            self.set_tile(x, y, TileType::Floor);
            proof {
                if m0.on_map(x as int, y as int) {
                    lemma_index_on_map(m0.width as int, m0.height as int, x as int, y as int);
                }
                lemma_dig_one(before, m0.index_of(x as int, y as int), TileType::Floor);
                lemma_dug_trans(first, before, self.tiles@);
                if inside {
                    assert forall|xx: int| start <= xx < x + 1 implies #[trigger] cell(
                        self.tiles@,
                        self.width as int,
                        xx,
                        y as int,
                    ) == TileType::Floor by {
                        lemma_index_on_map(m0.width as int, m0.height as int, xx, y as int);
                        if xx != x {
                            assert(cell(before, m0.width as int, xx, y as int) == TileType::Floor);
                        }
                    }
                }
            }
            x = x + 1;
        }
        proof {
            if inside {
                assert forall|xx: int| start <= xx <= end implies walkable(
                    #[trigger] cell(self.tiles@, self.width as int, xx, y as int),
                ) by {
                    assert(cell(self.tiles@, self.width as int, xx, y as int) == TileType::Floor);
                }
            }
        }
    }

    /// Dig out a column of tiles between two rows (inclusive, either order).
    fn carve_vertical_tunnel(&mut self, y1: i32, y2: i32, x: i32)
        requires
            old(self).wf(),
            y1 < i32::MAX,
            y2 < i32::MAX,
        ensures
            final(self).wf(),
            final(self).width == old(self).width,
            final(self).height == old(self).height,
            final(self).rooms@ == old(self).rooms@,
            final(self).current_floor == old(self).current_floor,
            final(self).revealed@ == old(self).revealed@,
            final(self).visible@ == old(self).visible@,
            dug(old(self).tiles@, final(self).tiles@),
            (0 <= x < old(self).width && 0 <= y1 < old(self).height && 0 <= y2 < old(self).height)
                ==> col_open(final(self).tiles@, final(self).width as int, y1 as int, y2 as int, x as int),
    {
        let (start, end) = if y1 < y2 {
            (y1, y2)
        } else {
            (y2, y1)
        };
        let ghost first = self.tiles@;
        let ghost inside = 0 <= x < self.width && 0 <= start && end < self.height;
        let mut y = start;
        while y <= end
            invariant
                self.wf(),
                self.width == old(self).width,
                self.height == old(self).height,
                self.rooms@ == old(self).rooms@,
                self.current_floor == old(self).current_floor,
                self.revealed@ == old(self).revealed@,
                self.visible@ == old(self).visible@,
                first == old(self).tiles@,
                end < i32::MAX,
                start <= y <= end + 1,
                dug(first, self.tiles@),
                inside == (0 <= x < self.width && 0 <= start && end < self.height),
                inside ==> forall|yy: int|
                    start <= yy < y ==> #[trigger] cell(self.tiles@, self.width as int, x as int, yy)
                        == TileType::Floor,
            decreases end + 1 - y,
        {
            let ghost before = self.tiles@;
            let ghost m0 = *self;
            self.set_tile(x, y, TileType::Floor);
            proof {
                if m0.on_map(x as int, y as int) {
                    lemma_index_on_map(m0.width as int, m0.height as int, x as int, y as int);
                }
                lemma_dig_one(before, m0.index_of(x as int, y as int), TileType::Floor);
                lemma_dug_trans(first, before, self.tiles@);
                if inside {
                    assert forall|yy: int| start <= yy < y + 1 implies #[trigger] cell(
                        self.tiles@,
                        self.width as int,
                        x as int,
                        yy,
                    ) == TileType::Floor by {
                        lemma_index_on_map(m0.width as int, m0.height as int, x as int, yy);
                        if yy != y {
                            lemma_rows_apart(m0.width as int, yy, y as int);
                            assert(cell(before, m0.width as int, x as int, yy) == TileType::Floor);
                        }
                    }
                }
            }
            y = y + 1;
        }
        proof {
            if inside {
                assert forall|yy: int| start <= yy <= end implies walkable(
                    #[trigger] cell(self.tiles@, self.width as int, x as int, yy),
                ) by {
                    assert(cell(self.tiles@, self.width as int, x as int, yy) == TileType::Floor);
                }
            }
        }
    }
}

impl GameMap {
    /// Generate a dungeon: ten candidate rooms of 4 to 10 tiles a side at
    /// random places two tiles or more inside the far borders and one
    /// inside the near ones, each with an even coin flip for which leg of
    /// its tunnel comes first, dug by `dig_dungeon`.
    pub fn generate_dungeon(&mut self, rng: &mut rand::rngs::ThreadRng)
        requires
            old(self).wf(),
            old(self).width >= 13,
            old(self).height >= 13,
        ensures
            exists|candidates: Seq<Room>, flips: Seq<bool>|
                #![trigger kept_flips(candidates, flips, 10)]
                candidates.len() == 10 && (forall|k: int|
                    0 <= k < 10 ==> well_placed(
                        #[trigger] candidates[k],
                        final(self).width as int,
                        final(self).height as int,
                    ) && candidates[k].room_id == k) && final(self).rooms@ == kept_rooms(
                    candidates,
                    10,
                ) && (forall|i: int|
                    1 <= i < final(self).rooms@.len() ==> #[trigger] joined_by(
                        final(self).tiles@,
                        final(self).width as int,
                        final(self).rooms@[i - 1],
                        final(self).rooms@[i],
                        kept_flips(candidates, flips, 10)[i],
                    )),
            final(self).wf(),
            final(self).width == old(self).width,
            final(self).height == old(self).height,
            final(self).current_floor == old(self).current_floor,
            final(self).revealed@ == old(self).revealed@,
            final(self).visible@ == old(self).visible@,
            1 <= final(self).rooms@.len() <= 10,
            forall|i: int|
                0 <= i < final(self).rooms@.len() ==> well_placed(
                    #[trigger] final(self).rooms@[i],
                    final(self).width as int,
                    final(self).height as int,
                ) && final(self).rooms@[i].room_id < 10,
            apart(final(self).rooms@),
            final(self).rooms_open(),
            forall|i: int|
                1 <= i < final(self).rooms@.len() ==> #[trigger] linked(
                    final(self).tiles@,
                    final(self).width as int,
                    final(self).rooms@,
                    i,
                ),
            final(self).tile_at(
                final(self).rooms@.last().middle().0,
                final(self).rooms@.last().middle().1,
            ) == TileType::StairsDown,
            dug(old(self).tiles@, final(self).tiles@),
    {
        let mut candidates: Vec<Room> = Vec::new();
        let mut flips: Vec<bool> = Vec::new();
        let mut room_id: usize = 0;
        while room_id < 10
            invariant
                self.wf(),
                self.width >= 13,
                self.height >= 13,
                room_id <= 10,
                candidates@.len() == room_id,
                flips@.len() == room_id,
                forall|k: int|
                    0 <= k < candidates@.len() ==> well_placed(
                        #[trigger] candidates@[k],
                        self.width as int,
                        self.height as int,
                    ) && candidates@[k].room_id == k,
            decreases 10 - room_id,
        {
            let w = thread_rng_range(rng, 4, 10);
            let h = thread_rng_range(rng, 4, 10);
            let x = thread_rng_range(rng, 1, self.width - w - 2);
            let y = thread_rng_range(rng, 1, self.height - h - 2);
            candidates.push(Room::new(x, y, w, h, room_id));
            flips.push(thread_rng_ratio(rng, 1, 2));
            room_id = room_id + 1;
        }
        self.dig_dungeon(&candidates, &flips);
        let ghost kf = kept_flips(candidates@, flips@, 10);
        assert(candidates@.len() == 10 && (forall|k: int|
            0 <= k < 10 ==> well_placed(
                #[trigger] candidates@[k],
                self.width as int,
                self.height as int,
            ) && candidates@[k].room_id == k) && self.rooms@ == kept_rooms(candidates@, 10) && (
        forall|i: int|
            1 <= i < self.rooms@.len() ==> #[trigger] joined_by(
                self.tiles@,
                self.width as int,
                self.rooms@[i - 1],
                self.rooms@[i],
                kept_flips(candidates@, flips@, 10)[i],
            )));
    }

    /// Dig a dungeon from drawn candidate rooms: each candidate, in order,
    /// is kept only where it meets no room kept before it; each kept room
    /// is carved, and each one after the first is joined to the previous
    /// one by an L-shaped tunnel, the horizontal leg first where its coin
    /// flip came up; then stairs down at the center of the last room.
    pub fn dig_dungeon(&mut self, candidates: &Vec<Room>, flips: &Vec<bool>)
        requires
            old(self).wf(),
            1 <= candidates@.len(),
            flips@.len() == candidates@.len(),
            forall|k: int|
                0 <= k < candidates@.len() ==> well_placed(
                    #[trigger] candidates@[k],
                    old(self).width as int,
                    old(self).height as int,
                ) && candidates@[k].room_id == k,
        ensures
            final(self).rooms@ == kept_rooms(candidates@, candidates@.len() as int),
            final(self).wf(),
            final(self).width == old(self).width,
            final(self).height == old(self).height,
            final(self).current_floor == old(self).current_floor,
            final(self).revealed@ == old(self).revealed@,
            final(self).visible@ == old(self).visible@,
            1 <= final(self).rooms@.len() <= candidates@.len(),
            forall|i: int|
                0 <= i < final(self).rooms@.len() ==> well_placed(
                    #[trigger] final(self).rooms@[i],
                    final(self).width as int,
                    final(self).height as int,
                ) && final(self).rooms@[i].room_id < candidates@.len(),
            apart(final(self).rooms@),
            final(self).rooms_open(),
            forall|i: int|
                1 <= i < final(self).rooms@.len() ==> #[trigger] linked(
                    final(self).tiles@,
                    final(self).width as int,
                    final(self).rooms@,
                    i,
                ),
            final(self).tile_at(
                final(self).rooms@.last().middle().0,
                final(self).rooms@.last().middle().1,
            ) == TileType::StairsDown,
            dug(old(self).tiles@, final(self).tiles@),
            forall|i: int|
                1 <= i < final(self).rooms@.len() ==> #[trigger] joined_by(
                    final(self).tiles@,
                    final(self).width as int,
                    final(self).rooms@[i - 1],
                    final(self).rooms@[i],
                    kept_flips(candidates@, flips@, candidates@.len() as int)[i],
                ),
    {
        self.rooms.clear();
        let ghost start = self.tiles@;
        let mut room_id: usize = 0;
        while room_id < candidates.len()
            invariant
                self.rooms@ == kept_rooms(candidates@, room_id as int),
                kept_flips(candidates@, flips@, room_id as int).len() == self.rooms@.len(),
                forall|i: int|
                    1 <= i < self.rooms@.len() ==> #[trigger] joined_by(
                        self.tiles@,
                        self.width as int,
                        self.rooms@[i - 1],
                        self.rooms@[i],
                        kept_flips(candidates@, flips@, room_id as int)[i],
                    ),
                1 <= candidates@.len(),
                flips@.len() == candidates@.len(),
                forall|k: int|
                    0 <= k < candidates@.len() ==> well_placed(
                        #[trigger] candidates@[k],
                        self.width as int,
                        self.height as int,
                    ) && candidates@[k].room_id == k,
                self.wf(),
                self.width == old(self).width,
                self.height == old(self).height,
                self.current_floor == old(self).current_floor,
                self.revealed@ == old(self).revealed@,
                self.visible@ == old(self).visible@,
                start == old(self).tiles@,
                room_id <= candidates@.len(),
                self.rooms@.len() <= room_id,
                room_id > 0 ==> self.rooms@.len() >= 1,
                forall|i: int|
                    0 <= i < self.rooms@.len() ==> well_placed(
                        #[trigger] self.rooms@[i],
                        self.width as int,
                        self.height as int,
                    ) && self.rooms@[i].room_id < room_id,
                apart(self.rooms@),
                self.rooms_open(),
                forall|i: int|
                    1 <= i < self.rooms@.len() ==> #[trigger] linked(
                        self.tiles@,
                        self.width as int,
                        self.rooms@,
                        i,
                    ),
                dug(start, self.tiles@),
            decreases candidates@.len() - room_id,
        {
            let new_room = candidates[room_id];
            let ghost prev_rooms = self.rooms@;
            let ghost wid = self.width as int;
            let ghost hei = self.height as int;
            assert(well_placed(new_room, wid, hei));
            assert forall|i: int| 0 <= i < self.rooms@.len() implies (#[trigger] self.rooms@[i]).fits() by {
                assert(well_placed(self.rooms@[i], wid, hei));
            }
            let intersects = meets_any(&self.rooms, &new_room);
            if !intersects {
                let ghost t0 = self.tiles@;
                self.carve_room(&new_room);
                proof {
                    lemma_dug_keeps_rooms_open(t0, self.tiles@, wid, hei, self.rooms@);
                    lemma_dug_keeps_links(t0, self.tiles@, wid, hei, self.rooms@);
                    lemma_dug_keeps_links_by(
                        t0,
                        self.tiles@,
                        wid,
                        hei,
                        self.rooms@,
                        kept_flips(candidates@, flips@, room_id as int),
                    );
                    assert forall|px: int, py: int| #[trigger] new_room.holds(px, py) implies walkable(
                        self.tiles@[py * wid + px],
                    ) by {
                        assert(self.tile_at(px, py) == TileType::Floor);
                    }
                    assert(room_open(self.tiles@, wid, new_room));
                    lemma_dug_trans(start, t0, self.tiles@);
                }
                if self.rooms.len() > 0 {
                    let (new_x, new_y) = new_room.center();
                    let last = self.rooms.len() - 1;
                    assert(well_placed(self.rooms@[last as int], wid, hei));
                    let (prev_x, prev_y) = self.rooms[last].center();
                    let ghost t1 = self.tiles@;
                    let ghost prev = self.rooms@[last as int];
                    if flips[room_id] {
                        self.carve_horizontal_tunnel(prev_x, new_x, prev_y);
                        let ghost t2 = self.tiles@;
                        self.carve_vertical_tunnel(prev_y, new_y, new_x);
                        proof {
                            lemma_dug_trans(t1, t2, self.tiles@);
                            lemma_dug_keeps_lines_open(
                                t2,
                                self.tiles@,
                                wid,
                                hei,
                                prev_x as int,
                                new_x as int,
                                prev_y as int,
                            );
                        }
                    } else {
                        self.carve_vertical_tunnel(prev_y, new_y, prev_x);
                        let ghost t2 = self.tiles@;
                        self.carve_horizontal_tunnel(prev_x, new_x, new_y);
                        proof {
                            lemma_dug_trans(t1, t2, self.tiles@);
                            lemma_dug_keeps_cols_open(
                                t2,
                                self.tiles@,
                                wid,
                                hei,
                                prev_y as int,
                                new_y as int,
                                prev_x as int,
                            );
                        }
                    }
                    proof {
                        assert(joined(self.tiles@, wid, prev, new_room));
                        assert(joined_by(self.tiles@, wid, prev, new_room, flips@[room_id as int]));
                        lemma_dug_keeps_links(t1, self.tiles@, wid, hei, self.rooms@);
                        lemma_dug_keeps_links_by(
                            t1,
                            self.tiles@,
                            wid,
                            hei,
                            self.rooms@,
                            kept_flips(candidates@, flips@, room_id as int),
                        );
                        lemma_dug_keeps_rooms_open(t1, self.tiles@, wid, hei, self.rooms@);
                        lemma_dug_keeps_room_open(t1, self.tiles@, wid, hei, new_room);
                        lemma_dug_trans(start, t1, self.tiles@);
                    }
                }
                let ghost r0 = self.rooms@;
                self.rooms.push(new_room);
                proof {
                    assert forall|i: int| 0 <= i < self.rooms@.len() implies #[trigger] room_open(
                        self.tiles@,
                        wid,
                        self.rooms@[i],
                    ) by {
                        if i < r0.len() {
                            assert(self.rooms@[i] == r0[i]);
                            assert(room_open(self.tiles@, wid, r0[i]));
                        }
                    }
                    assert forall|i: int| 0 <= i < self.rooms@.len() implies #[trigger] inside_border(
                        self.rooms@[i],
                        wid,
                        hei,
                    ) by {
                        if i < r0.len() {
                            assert(well_placed(r0[i], wid, hei));
                        }
                    }
                    let ghost kf = kept_flips(candidates@, flips@, room_id as int);
                    assert(kept_flips(candidates@, flips@, room_id + 1) == kf.push(flips@[room_id as int]));
                    assert forall|i: int| 1 <= i < self.rooms@.len() implies #[trigger] joined_by(
                        self.tiles@,
                        wid,
                        self.rooms@[i - 1],
                        self.rooms@[i],
                        kf.push(flips@[room_id as int])[i],
                    ) by {
                        if i < r0.len() {
                            assert(self.rooms@[i] == r0[i]);
                            assert(self.rooms@[i - 1] == r0[i - 1]);
                            assert(joined_by(self.tiles@, wid, r0[i - 1], r0[i], kf[i]));
                        } else {
                            assert(self.rooms@[i - 1] == r0[r0.len() - 1]);
                        }
                    }
                    assert forall|i: int| 1 <= i < self.rooms@.len() implies #[trigger] linked(
                        self.tiles@,
                        wid,
                        self.rooms@,
                        i,
                    ) by {
                        if i < r0.len() {
                            assert(linked(self.tiles@, wid, r0, i));
                            assert(self.rooms@[i] == r0[i]);
                            assert(self.rooms@[i - 1] == r0[i - 1]);
                        } else {
                            assert(self.rooms@[i - 1] == r0[r0.len() - 1]);
                        }
                    }
                    assert forall|i: int, j: int|
                        0 <= i < j < self.rooms@.len() implies !(#[trigger] self.rooms@[j]).meets(
                        #[trigger] self.rooms@[i],
                    ) && self.rooms@[i].room_id < self.rooms@[j].room_id by {
                        if j == r0.len() {
                            assert(well_placed(r0[i], wid, hei));
                            assert(!new_room.meets(r0[i]));
                        } else {
                            assert(r0[j] == self.rooms@[j]);
                            assert(r0[i] == self.rooms@[i]);
                        }
                    }
                }
            }
            proof {
                if intersects {
                    assert(self.rooms@ == prev_rooms);
                    assert(kept_flips(candidates@, flips@, room_id + 1) == kept_flips(
                        candidates@,
                        flips@,
                        room_id as int,
                    ));
                }
                assert(self.rooms@ =~= kept_rooms(candidates@, room_id + 1));
            }
            room_id = room_id + 1;
        }
        let last = self.rooms.len() - 1;
        assert(well_placed(self.rooms@[last as int], self.width as int, self.height as int));
        let (cx, cy) = self.rooms[last].center();
        let ghost t3 = self.tiles@;
        let ghost m3 = *self;
        self.set_tile(cx, cy, TileType::StairsDown);
        proof {
            lemma_index_on_map(m3.width as int, m3.height as int, cx as int, cy as int);
            lemma_dig_one(t3, m3.index_of(cx as int, cy as int), TileType::StairsDown);
            lemma_dug_trans(start, t3, self.tiles@);
            assert forall|i: int| 0 <= i < self.rooms@.len() implies #[trigger] inside_border(
                self.rooms@[i],
                self.width as int,
                self.height as int,
            ) by {
                assert(well_placed(self.rooms@[i], self.width as int, self.height as int));
            }
            lemma_dug_keeps_rooms_open(
                t3,
                self.tiles@,
                self.width as int,
                self.height as int,
                self.rooms@,
            );
            lemma_dug_keeps_links(t3, self.tiles@, self.width as int, self.height as int, self.rooms@);
            lemma_dug_keeps_links_by(
                t3,
                self.tiles@,
                self.width as int,
                self.height as int,
                self.rooms@,
                kept_flips(candidates@, flips@, candidates@.len() as int),
            );
        }
    }
}

} // verus!
