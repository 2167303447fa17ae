//! Components of game entities: positions, monsters, items, health,
//! combat stats, narrative text and how an entity is drawn.

use vstd::prelude::*;

verus! {

/// Grid position in the game world.
#[derive(Debug, Clone, Copy, PartialEq, Eq, Hash, Structural)]
pub struct Position {
    pub x: i32,
    pub y: i32,
}

/// Absolute value of an integer.
pub open spec fn abs(a: int) -> int {
    if a < 0 {
        -a
    } else {
        a
    }
}

/// Manhattan distance between two grid points.
pub open spec fn manhattan(a: Position, b: Position) -> int {
    abs(a.x - b.x) + abs(a.y - b.y)
}

impl Position {
    pub fn new(x: i32, y: i32) -> (p: Self)
        ensures
            p == (Position { x, y }),
    {
        Self { x, y }
    }

    /// Manhattan distance to another position.
    pub fn distance(&self, other: &Position) -> (d: i32)
        requires
            i32::MIN < self.x - other.x <= i32::MAX,
            i32::MIN < self.y - other.y <= i32::MAX,
            manhattan(*self, *other) <= i32::MAX,
        ensures
            d == manhattan(*self, *other),
    {
        let dx = self.x - other.x;
        let dy = self.y - other.y;
        let ax = if dx < 0 {
            -dx
        } else {
            dx
        };
        let ay = if dy < 0 {
            -dy
        } else {
            dy
        };
        ax + ay
    }
}

/// Manhattan distance is symmetric, zero exactly from a point to itself,
/// and obeys the triangle inequality.
pub proof fn lemma_distance_metric(a: Position, b: Position, c: Position)
    ensures
        manhattan(a, b) == manhattan(b, a),
        manhattan(a, b) >= 0,
        manhattan(a, b) == 0 <==> a == b,
        manhattan(a, c) <= manhattan(a, b) + manhattan(b, c),
{
}

/// Marker component for the player entity.
#[derive(Debug, Clone, Copy)]
pub struct Player;

impl Default for Player {
    fn default() -> (p: Self)
        ensures
            p == Player,
    {
        Player
    }
}

/// Types of monsters in the game.
#[derive(Debug, Clone, Copy, PartialEq, Eq, Structural)]
pub enum MonsterKind {
    Orc,
    Goblin,
    Troll,
    Wraith,
    Skeleton,
    Demon,
}

/// Map glyph of a monster kind.
pub open spec fn monster_kind_glyph(k: MonsterKind) -> char {
    match k {
        MonsterKind::Orc => 'o',
        MonsterKind::Goblin => 'g',
        MonsterKind::Troll => 'T',
        MonsterKind::Wraith => 'W',
        MonsterKind::Skeleton => 's',
        MonsterKind::Demon => 'D',
    }
}

/// Display name of a monster kind.
pub open spec fn monster_kind_name(k: MonsterKind) -> Seq<char> {
    match k {
        MonsterKind::Orc => "Orc"@,
        MonsterKind::Goblin => "Goblin"@,
        MonsterKind::Troll => "Troll"@,
        MonsterKind::Wraith => "Wraith"@,
        MonsterKind::Skeleton => "Skeleton"@,
        MonsterKind::Demon => "Demon"@,
    }
}

impl MonsterKind {
    pub fn glyph(&self) -> (c: char)
        ensures
            c == monster_kind_glyph(*self),
    {
        match self {
            MonsterKind::Orc => 'o',
            MonsterKind::Goblin => 'g',
            MonsterKind::Troll => 'T',
            MonsterKind::Wraith => 'W',
            MonsterKind::Skeleton => 's',
            MonsterKind::Demon => 'D',
        }
    }

    pub fn name(&self) -> (s: &'static str)
        ensures
            s@ == monster_kind_name(*self),
    {
        match self {
            MonsterKind::Orc => "Orc",
            MonsterKind::Goblin => "Goblin",
            MonsterKind::Troll => "Troll",
            MonsterKind::Wraith => "Wraith",
            MonsterKind::Skeleton => "Skeleton",
            MonsterKind::Demon => "Demon",
        }
    }
}

/// Marker component for monster entities.
#[derive(Debug, Clone, Copy)]
pub struct Monster {
    pub kind: MonsterKind,
}

/// Types of items in the game.
#[derive(Debug, Clone, Copy, PartialEq, Eq, Structural)]
pub enum ItemKind {
    HealthPotion,
    Sword,
    Shield,
    Gold,
    Key,
    Scroll,
    Chest,
}

/// Map glyph of an item kind.
pub open spec fn item_kind_glyph(k: ItemKind) -> char {
    match k {
        ItemKind::HealthPotion => '!',
        ItemKind::Sword => '/',
        ItemKind::Shield => '[',
        ItemKind::Gold => '$',
        ItemKind::Key => '%',
        ItemKind::Scroll => '?',
        ItemKind::Chest => '=',
    }
}

/// Display name of an item kind.
pub open spec fn item_kind_name(k: ItemKind) -> Seq<char> {
    match k {
        ItemKind::HealthPotion => "Health Potion"@,
        ItemKind::Sword => "Sword"@,
        ItemKind::Shield => "Shield"@,
        ItemKind::Gold => "Gold"@,
        ItemKind::Key => "Key"@,
        ItemKind::Scroll => "Scroll"@,
        ItemKind::Chest => "Chest"@,
    }
}

impl ItemKind {
    pub fn glyph(&self) -> (c: char)
        ensures
            c == item_kind_glyph(*self),
    {
        match self {
            ItemKind::HealthPotion => '!',
            ItemKind::Sword => '/',
            ItemKind::Shield => '[',
            ItemKind::Gold => '$',
            ItemKind::Key => '%',
            ItemKind::Scroll => '?',
            ItemKind::Chest => '=',
        }
    }

    pub fn name(&self) -> (s: &'static str)
        ensures
            s@ == item_kind_name(*self),
    {
        match self {
            ItemKind::HealthPotion => "Health Potion",
            ItemKind::Sword => "Sword",
            ItemKind::Shield => "Shield",
            ItemKind::Gold => "Gold",
            ItemKind::Key => "Key",
            ItemKind::Scroll => "Scroll",
            ItemKind::Chest => "Chest",
        }
    }
}

/// Marker component for item entities.
#[derive(Debug, Clone, Copy)]
pub struct Item {
    pub kind: ItemKind,
}

/// Health points for entities that can take damage.
#[derive(Debug, Clone, Copy, PartialEq, Eq, Structural)]
pub struct Health {
    pub current: i32,
    pub max: i32,
}

impl Health {
    pub fn new(max: i32) -> (h: Self)
        ensures
            h == (Health { current: max, max }),
    {
        Self { current: max, max }
    }

    /// Lose `amount` points, never going below zero.
    pub fn take_damage(&mut self, amount: i32)
        requires
            i32::MIN <= old(self).current - amount <= i32::MAX,
        ensures
            final(self).current == if old(self).current - amount > 0 {
                old(self).current - amount
            } else {
                0
            },
            final(self).max == old(self).max,
    {
        let left = self.current - amount;
        self.current = if left > 0 {
            left
        } else {
            0
        };
    }

    /// Regain `amount` points, never going above the maximum.
    pub fn heal(&mut self, amount: i32)
        requires
            i32::MIN <= old(self).current + amount <= i32::MAX,
        ensures
            final(self).current == if old(self).current + amount < old(self).max {
                old(self).current + amount
            } else {
                old(self).max as int
            },
            final(self).max == old(self).max,
    {
        let raised = self.current + amount;
        self.current = if raised < self.max {
            raised
        } else {
            self.max
        };
    }

    pub fn is_dead(&self) -> (b: bool)
        ensures
            b == (self.current <= 0),
    {
        self.current <= 0
    }
}

/// Damage and healing keep health between zero and the maximum when
/// the amounts are not negative.
pub proof fn lemma_health_bounds(h: Health, amount: i32)
    requires
        0 <= h.current <= h.max,
        amount >= 0,
    ensures
        ({
            let hit = if h.current - amount > 0 {
                h.current - amount
            } else {
                0
            };
            0 <= hit <= h.current
        }),
        ({
            let healed = if h.current + amount < h.max {
                h.current + amount
            } else {
                h.max as int
            };
            h.current <= healed <= h.max
        }),
{
}

/// Combat statistics for entities.
#[derive(Debug, Clone, Copy, PartialEq, Eq, Structural)]
pub struct CombatStats {
    pub attack: i32,
    pub defense: i32,
}

impl CombatStats {
    pub fn new(attack: i32, defense: i32) -> (s: Self)
        ensures
            s == (CombatStats { attack, defense }),
    {
        Self { attack, defense }
    }
}

/// Narrative description given by the game master.
#[derive(Debug, Clone)]
pub struct Description {
    /// Short narrative description.
    pub text: String,
    /// Horror-themed atmospheric flavor.
    pub atmosphere: String,
    /// Any special hints or lore.
    pub lore: Option<String>,
}

impl Default for Description {
    fn default() -> (d: Self)
        ensures
            d.text@.len() == 0,
            d.atmosphere@.len() == 0,
            d.lore is None,
    {
        Self { text: String::new(), atmosphere: String::new(), lore: None }
    }
}

/// Dialogue of an NPC, given by the game master.
#[derive(Debug, Clone)]
pub struct Dialogue {
    /// Current dialogue line.
    pub current_line: String,
    /// Available dialogue options.
    pub options: Vec<String>,
    /// NPC's mood/disposition.
    pub mood: String,
}

impl Default for Dialogue {
    fn default() -> (d: Self)
        ensures
            d.current_line@.len() == 0,
            d.options@.len() == 0,
            d.mood@.len() == 0,
    {
        Self { current_line: String::new(), options: Vec::new(), mood: String::new() }
    }
}

/// Color representation for TUI rendering.
#[derive(Debug, Clone, Copy, PartialEq, Eq, Structural)]
pub enum RenderColor {
    Black,
    Red,
    Green,
    Yellow,
    Blue,
    Magenta,
    Cyan,
    White,
    DarkGray,
    LightRed,
    LightGreen,
    LightYellow,
    LightBlue,
    LightMagenta,
    LightCyan,
    Reset,
}

impl Default for RenderColor {
    fn default() -> (c: Self)
        ensures
            c == RenderColor::Reset,
    {
        RenderColor::Reset
    }
}

/// Visual representation in the TUI.
#[derive(Debug, Clone, Copy, PartialEq, Eq, Structural)]
pub struct Renderable {
    pub glyph: char,
    pub fg_color: RenderColor,
    pub bg_color: RenderColor,
}

} // verus!
