//! The gameplay screen's rules: monster stats, what spawns where, when
//! entering a room asks for a description, how narrative replies reach
//! the panel and the log, and the death check.

use vstd::prelude::*;

use crate::ai::bridge::{ActionInterpretation, DeathNarration, LoreDiscovery};
use crate::ai::worker::{NarrativeResponseKind, RoomContentData};
use crate::game::components::{Description, Dialogue, Health, ItemKind, MonsterKind, Position};
use crate::game::log::{logged, texts, GameLog};
use crate::game::map::{holding, GameMap, Room};
use crate::random::{thread_rng_range, thread_rng_ratio};
use crate::seqs::{first_where, lemma_first_where_found};
use crate::text::owned;
use crate::tui::render::CurrentNarrative;

verus! {

/// Hit points of a monster kind.
pub open spec fn monster_hp(k: MonsterKind) -> i32 {
    match k {
        MonsterKind::Goblin => 5,
        MonsterKind::Orc => 10,
        MonsterKind::Skeleton => 8,
        MonsterKind::Wraith => 12,
        MonsterKind::Troll => 20,
        MonsterKind::Demon => 25,
    }
}

/// Attack of a monster kind.
pub open spec fn monster_atk(k: MonsterKind) -> i32 {
    match k {
        MonsterKind::Goblin => 2,
        MonsterKind::Orc => 4,
        MonsterKind::Skeleton => 3,
        MonsterKind::Wraith => 5,
        MonsterKind::Troll => 6,
        MonsterKind::Demon => 8,
    }
}

/// Defense of a monster kind.
pub open spec fn monster_def(k: MonsterKind) -> i32 {
    match k {
        MonsterKind::Goblin => 0,
        MonsterKind::Orc => 1,
        MonsterKind::Skeleton => 1,
        MonsterKind::Wraith => 2,
        MonsterKind::Troll => 3,
        MonsterKind::Demon => 4,
    }
}

pub fn monster_health(kind: MonsterKind) -> (h: i32)
    ensures
        h == monster_hp(kind),
{
    match kind {
        MonsterKind::Goblin => 5,
        MonsterKind::Orc => 10,
        MonsterKind::Skeleton => 8,
        MonsterKind::Wraith => 12,
        MonsterKind::Troll => 20,
        MonsterKind::Demon => 25,
    }
}

pub fn monster_attack(kind: MonsterKind) -> (a: i32)
    ensures
        a == monster_atk(kind),
{
    match kind {
        MonsterKind::Goblin => 2,
        MonsterKind::Orc => 4,
        MonsterKind::Skeleton => 3,
        MonsterKind::Wraith => 5,
        MonsterKind::Troll => 6,
        MonsterKind::Demon => 8,
    }
}

pub fn monster_defense(kind: MonsterKind) -> (d: i32)
    ensures
        d == monster_def(kind),
{
    match kind {
        MonsterKind::Goblin => 0,
        MonsterKind::Orc => 1,
        MonsterKind::Skeleton => 1,
        MonsterKind::Wraith => 2,
        MonsterKind::Troll => 3,
        MonsterKind::Demon => 4,
    }
}

/// Tougher monsters hit harder: the kinds ordered by hit points are also
/// ordered by attack.
pub proof fn lemma_monster_tiers(a: MonsterKind, b: MonsterKind)
    ensures
        monster_hp(a) < monster_hp(b) ==> monster_atk(a) <= monster_atk(b),
        monster_hp(a) > 0,
        monster_def(a) < monster_atk(a),
{
}

/// The monster kind a roll of 0 to 5 picks.
pub open spec fn monster_for(roll: int) -> MonsterKind {
    if roll == 0 {
        MonsterKind::Orc
    } else if roll == 1 {
        MonsterKind::Goblin
    } else if roll == 2 {
        MonsterKind::Troll
    } else if roll == 3 {
        MonsterKind::Wraith
    } else if roll == 4 {
        MonsterKind::Skeleton
    } else {
        MonsterKind::Demon
    }
}

/// The monster kind a roll picks.
pub fn monster_for_roll(roll: i32) -> (k: MonsterKind)
    ensures
        k == monster_for(roll as int),
{
    if roll == 0 {
        MonsterKind::Orc
    } else if roll == 1 {
        MonsterKind::Goblin
    } else if roll == 2 {
        MonsterKind::Troll
    } else if roll == 3 {
        MonsterKind::Wraith
    } else if roll == 4 {
        MonsterKind::Skeleton
    } else {
        MonsterKind::Demon
    }
}

/// A monster kind picked at random, each with the same chance.
pub fn random_monster(rng: &mut rand::rngs::ThreadRng) -> (k: MonsterKind)
    ensures
        exists|roll: int| 0 <= roll <= 5 && k == monster_for(roll),
{
    let roll = thread_rng_range(rng, 0, 5);
    monster_for_roll(roll)
}

/// The item kind a roll of 0 to 6 picks.
pub open spec fn item_for(roll: int) -> ItemKind {
    if roll == 0 {
        ItemKind::HealthPotion
    } else if roll == 1 {
        ItemKind::Sword
    } else if roll == 2 {
        ItemKind::Shield
    } else if roll == 3 {
        ItemKind::Gold
    } else if roll == 4 {
        ItemKind::Key
    } else if roll == 5 {
        ItemKind::Scroll
    } else {
        ItemKind::Chest
    }
}

/// The item kind a roll picks.
pub fn item_for_roll(roll: i32) -> (k: ItemKind)
    ensures
        k == item_for(roll as int),
{
    if roll == 0 {
        ItemKind::HealthPotion
    } else if roll == 1 {
        ItemKind::Sword
    } else if roll == 2 {
        ItemKind::Shield
    } else if roll == 3 {
        ItemKind::Gold
    } else if roll == 4 {
        ItemKind::Key
    } else if roll == 5 {
        ItemKind::Scroll
    } else {
        ItemKind::Chest
    }
}

/// An item kind picked at random, each with the same chance.
pub fn random_item(rng: &mut rand::rngs::ThreadRng) -> (k: ItemKind)
    ensures
        exists|roll: int| 0 <= roll <= 6 && k == item_for(roll),
{
    let roll = thread_rng_range(rng, 0, 6);
    item_for_roll(roll)
}

/// Something to place in the dungeon.
#[derive(Debug, Clone, Copy, PartialEq, Eq, Structural)]
pub enum Spawn {
    Monster { kind: MonsterKind, at: Position },
    Item { kind: ItemKind, at: Position },
}

/// The center of a room as a position.
pub open spec fn room_center(r: Room) -> Position {
    Position { x: (r.x + r.width / 2) as i32, y: (r.y + r.height / 2) as i32 }
}

/// A room whose corners, and two tiles beyond, fit in `i32`.
pub open spec fn spawnable(r: Room) -> bool {
    &&& 0 <= r.x
    &&& 0 <= r.y
    &&& 0 <= r.width
    &&& 0 <= r.height
    &&& r.x + r.width <= i32::MAX - 2
    &&& r.y + r.height <= i32::MAX - 2
}

/// Where a spawn may stand: a monster at the center of a room other than
/// the first, an item within two tiles (each way) of such a center.
pub open spec fn placed_well(s: Spawn, rooms: Seq<Room>) -> bool {
    exists|i: int|
        1 <= i < rooms.len() && match s {
            Spawn::Monster { at, .. } => at == room_center(#[trigger] rooms[i]),
            Spawn::Item { at, .. } => room_center(rooms[i]).x - 2 <= at.x <= room_center(
                rooms[i],
            ).x + 2 && room_center(rooms[i]).y - 2 <= at.y <= room_center(rooms[i]).y + 2,
        }
}

/// Whether a spawn stands where it belongs in room `r`: a monster at its
/// center, an item within two tiles (each way) of it.
pub open spec fn spawn_in(s: Spawn, r: Room) -> bool {
    match s {
        Spawn::Monster { at, .. } => at == room_center(r),
        Spawn::Item { at, .. } => room_center(r).x - 2 <= at.x <= room_center(r).x + 2
            && room_center(r).y - 2 <= at.y <= room_center(r).y + 2,
    }
}

/// `s` is a spawn plan over `rooms`, with `ix[k]` the room of the `k`-th
/// spawn: every spawn is in a room other than the first, placed as
/// `spawn_in` says; rooms come in order; and a room has at most one
/// monster and then at most one item.
pub open spec fn spawn_plan(s: Seq<Spawn>, rooms: Seq<Room>, ix: Seq<int>) -> bool {
    &&& ix.len() == s.len()
    &&& forall|k: int|
        0 <= k < s.len() ==> 1 <= #[trigger] ix[k] < rooms.len() && spawn_in(s[k], rooms[ix[k]])
    &&& forall|k: int, l: int|
        0 <= k < l < s.len() ==> #[trigger] ix[k] <= #[trigger] ix[l] && (ix[k] == ix[l] ==> (
        s[k] is Monster && s[l] is Item))
}

/// An item drawn for a room, with its offsets from the room's center.
#[derive(Debug, Clone, Copy, PartialEq, Eq, Structural)]
pub struct ItemDraw {
    pub kind: ItemKind,
    pub dx: i32,
    pub dy: i32,
}

/// What the dice gave for one room: the monster, if its chance came up,
/// and the item with its offsets from the room's center, if its chance
/// came up.
#[derive(Debug, Clone, Copy, PartialEq, Eq, Structural)]
pub struct RoomDraw {
    pub monster: Option<MonsterKind>,
    pub item: Option<ItemDraw>,
}

/// Offsets of a draw lie in `-2..=2`.
pub open spec fn draw_in_range(d: RoomDraw) -> bool {
    d.item matches Some(it) ==> -2 <= it.dx <= 2 && -2 <= it.dy <= 2
}

/// The spawns of one room for a draw: the monster at its center, then
/// the item at its center moved by the offsets.
pub open spec fn room_spawns(r: Room, d: RoomDraw) -> Seq<Spawn> {
    let c = room_center(r);
    (match d.monster {
        Some(k) => seq![Spawn::Monster { kind: k, at: c }],
        None => Seq::empty(),
    }) + (match d.item {
        Some(it) => seq![
            Spawn::Item {
                kind: it.kind,
                at: Position { x: (c.x + it.dx) as i32, y: (c.y + it.dy) as i32 },
            },
        ],
        None => Seq::empty(),
    })
}

/// The spawns of rooms `1..=n`, in room order, with `draws[k - 1]` the
/// draw of room `k`.
pub open spec fn planned_spawns(rooms: Seq<Room>, draws: Seq<RoomDraw>, n: int) -> Seq<Spawn>
    decreases n,
{
    if n <= 0 {
        Seq::empty()
    } else {
        planned_spawns(rooms, draws, n - 1) + room_spawns(rooms[n], draws[n - 1])
    }
}

/// How many draws a plan over `rooms` takes: one per room but the first.
pub open spec fn draw_count(rooms: Seq<Room>) -> int {
    if rooms.len() == 0 {
        0
    } else {
        rooms.len() - 1
    }
}

/// The spawns for given draws: for each room but the first (where the
/// player starts), in room order, its monster at its center if one was
/// drawn, then its item at the center plus the offsets if one was drawn.
pub fn spawns_from_draws(map: &GameMap, draws: &Vec<RoomDraw>) -> (r: Vec<Spawn>)
    requires
        forall|i: int| 0 <= i < map.rooms@.len() ==> spawnable(#[trigger] map.rooms@[i]),
        draws@.len() == draw_count(map.rooms@),
        forall|k: int| 0 <= k < draws@.len() ==> draw_in_range(#[trigger] draws@[k]),
    ensures
        r@ == planned_spawns(map.rooms@, draws@, draws@.len() as int),
        exists|ix: Seq<int>| spawn_plan(r@, map.rooms@, ix),
        forall|k: int| 0 <= k < r@.len() ==> placed_well(#[trigger] r@[k], map.rooms@),
        r@.len() <= 2 * map.rooms@.len(),
{
    let mut r: Vec<Spawn> = Vec::new();
    let ghost mut ix: Seq<int> = Seq::empty();
    let mut i: usize = 1;
    while i < map.rooms.len()
        invariant
            1 <= i,
            i == 1 || i <= map.rooms@.len(),
            draws@.len() == draw_count(map.rooms@),
            forall|k: int| 0 <= k < draws@.len() ==> draw_in_range(#[trigger] draws@[k]),
            forall|j: int| 0 <= j < map.rooms@.len() ==> spawnable(#[trigger] map.rooms@[j]),
            r@ == planned_spawns(map.rooms@, draws@, i - 1),
            forall|k: int| 0 <= k < r@.len() ==> placed_well(#[trigger] r@[k], map.rooms@),
            spawn_plan(r@, map.rooms@, ix),
            forall|k: int| 0 <= k < ix.len() ==> #[trigger] ix[k] < i,
            r@.len() <= 2 * (i - 1),
        decreases map.rooms@.len() - i,
    {
        let room = map.rooms[i];
        let d = draws[i - 1];
        assert(spawnable(map.rooms@[i as int]));
        assert(draw_in_range(draws@[i - 1]));
        let cx = room.x + room.width / 2;
        let cy = room.y + room.height / 2;
        let ghost start = r@.len();
        let ghost base = r@;
        if let Some(kind) = d.monster {
            let s = Spawn::Monster { kind, at: Position::new(cx, cy) };
            assert(placed_well(s, map.rooms@)) by {
                assert(s matches Spawn::Monster { at, .. } && at == room_center(map.rooms@[i as int]));
            }
            let ghost old_r = r@;
            let ghost old_ix = ix;
            r.push(s);
            proof {
                ix = ix.push(i as int);
                assert(spawn_in(s, map.rooms@[i as int]));
                assert forall|k: int, l: int| 0 <= k < l < r@.len() implies #[trigger] ix[k] <= #[trigger] ix[l]
                    && (ix[k] == ix[l] ==> (r@[k] is Monster && r@[l] is Item)) by {
                    if l < old_r.len() {
                        assert(old_ix[k] <= old_ix[l]);
                    } else {
                        assert(old_ix[k] < i);
                    }
                }
            }
        }
        let ghost mid = r@;
        if let Some(it) = d.item {
            let s = Spawn::Item { kind: it.kind, at: Position::new(cx + it.dx, cy + it.dy) };
            assert(placed_well(s, map.rooms@)) by {
                assert(room_center(map.rooms@[i as int]).x == cx);
            }
            let ghost old_r = r@;
            let ghost old_ix = ix;
            r.push(s);
            proof {
                ix = ix.push(i as int);
                assert(room_center(map.rooms@[i as int]).x == cx);
                assert(spawn_in(s, map.rooms@[i as int]));
                assert forall|k: int, l: int| 0 <= k < l < r@.len() implies #[trigger] ix[k] <= #[trigger] ix[l]
                    && (ix[k] == ix[l] ==> (r@[k] is Monster && r@[l] is Item)) by {
                    if l < old_r.len() {
                        assert(old_ix[k] <= old_ix[l]);
                    } else {
                        assert(old_ix[k] <= i);
                        if old_ix[k] == i {
                            assert(k >= start);
                            assert(r@[k] is Monster);
                        }
                    }
                }
            }
        }
        proof {
            assert(r@ =~= base + room_spawns(map.rooms@[i as int], draws@[i - 1]));
        }
        i = i + 1;
    }
    proof {
        if map.rooms@.len() > 0 {
            assert(i == map.rooms@.len());
        } else {
            assert(draws@.len() == 0);
        }
    }
    r
}

/// Plan what to spawn: in each room but the first (where the player
/// starts), in room order, a random monster with three chances in five,
/// then a random item two tiles or less from the center (each way) with
/// two chances in five; the draws are then placed by `spawns_from_draws`.
pub fn plan_spawns(map: &GameMap, rng: &mut rand::rngs::ThreadRng) -> (r: Vec<Spawn>)
    requires
        forall|i: int| 0 <= i < map.rooms@.len() ==> spawnable(#[trigger] map.rooms@[i]),
    ensures
        exists|draws: Seq<RoomDraw>|
            #![trigger planned_spawns(map.rooms@, draws, draws.len() as int)]
            draws.len() == draw_count(map.rooms@) && (forall|k: int|
                0 <= k < draws.len() ==> draw_in_range(#[trigger] draws[k])) && r@
                == planned_spawns(map.rooms@, draws, draws.len() as int),
        exists|ix: Seq<int>| spawn_plan(r@, map.rooms@, ix),
        forall|k: int| 0 <= k < r@.len() ==> placed_well(#[trigger] r@[k], map.rooms@),
        r@.len() <= 2 * map.rooms@.len(),
{
    let mut draws: Vec<RoomDraw> = Vec::new();
    let mut i: usize = 1;
    while i < map.rooms.len()
        invariant
            1 <= i,
            i == 1 || i <= map.rooms@.len(),
            draws@.len() == i - 1,
            forall|k: int| 0 <= k < draws@.len() ==> draw_in_range(#[trigger] draws@[k]),
        decreases map.rooms@.len() - i,
    {
        let monster = if thread_rng_ratio(rng, 3, 5) {
            Some(random_monster(rng))
        } else {
            None
        };
        let item = if thread_rng_ratio(rng, 2, 5) {
            let ox = thread_rng_range(rng, -2, 2);
            let oy = thread_rng_range(rng, -2, 2);
            let kind = random_item(rng);
            Some(ItemDraw { kind, dx: ox, dy: oy })
        } else {
            None
        };
        draws.push(RoomDraw { monster, item });
        i = i + 1;
    }
    proof {
        if map.rooms@.len() == 0 {
            assert(draws@.len() == 0);
        }
    }
    let r = spawns_from_draws(map, &draws);
    assert(draws@.len() == draw_count(map.rooms@) && (forall|k: int|
        0 <= k < draws@.len() ==> draw_in_range(#[trigger] draws@[k])) && r@ == planned_spawns(
        map.rooms@,
        draws@,
        draws@.len() as int,
    ));
    r
}

/// Where the player starts: the center of the first room, or (40, 12)
/// on a map without rooms.
pub fn player_start(map: &GameMap) -> (p: (i32, i32))
    requires
        map.rooms@.len() > 0 ==> map.rooms@[0].fits(),
    ensures
        p == if map.rooms@.len() > 0 {
            (map.rooms@[0].middle().0 as i32, map.rooms@[0].middle().1 as i32)
        } else {
            (40i32, 12i32)
        },
{
    if map.rooms.len() > 0 {
        map.rooms[0].center()
    } else {
        (40, 12)
    }
}

/// The first lines of the log.
pub open spec fn opening_texts() -> Seq<Seq<char>> {
    seq!["Welcome to NeuroHack. The dungeon awaits..."@, "Use hjkl or arrow keys to move."@]
}

/// The line logged once the dungeon is set up.
pub const DESCENT_TEXT: &'static str = "You descend into the darkness...";

/// A fresh log of up to 100 messages, opening with the welcome lines.
pub fn opening_log() -> (l: GameLog)
    ensures
        l.max_messages == 100,
        texts(l.messages@) == opening_texts(),
{
    let mut l = GameLog::new(100);
    l.add("Welcome to NeuroHack. The dungeon awaits...");
    l.add("Use hjkl or arrow keys to move.");
    assert(texts(l.messages@) =~= opening_texts());
    l
}

/// The contents of a room, as the worker is told: the monsters standing
/// in it, in order, then the items lying in it.
pub open spec fn monsters_in(r: Room, ms: Seq<(Position, MonsterKind)>) -> Seq<RoomContentData>
    decreases ms.len(),
{
    if ms.len() == 0 {
        Seq::empty()
    } else if r.holds(ms.last().0.x as int, ms.last().0.y as int) {
        monsters_in(r, ms.drop_last()).push(RoomContentData::Monster(ms.last().1))
    } else {
        monsters_in(r, ms.drop_last())
    }
}

/// The items lying in a room, in order.
pub open spec fn items_in(r: Room, is: Seq<(Position, ItemKind)>) -> Seq<RoomContentData>
    decreases is.len(),
{
    if is.len() == 0 {
        Seq::empty()
    } else if r.holds(is.last().0.x as int, is.last().0.y as int) {
        items_in(r, is.drop_last()).push(RoomContentData::Item(is.last().1))
    } else {
        items_in(r, is.drop_last())
    }
}

/// What the player's move means for room descriptions: entering a room
/// other than the last one remembered asks for its description, with its
/// contents; staying in it asks nothing; a corridor forgets the room.
/// Returns the room to remember and the description request.
pub fn room_entry(
    map: &GameMap,
    player: Position,
    last_room: Option<usize>,
    monsters: &[(Position, MonsterKind)],
    items: &[(Position, ItemKind)],
) -> (r: (Option<usize>, Option<(Room, Vec<RoomContentData>)>))
    requires
        forall|i: int| 0 <= i < map.rooms@.len() ==> (#[trigger] map.rooms@[i]).sums_fit(),
    ensures
        match first_where(map.rooms@, holding(player.x as int, player.y as int)) {
            None => r.0 is None && r.1 is None,
            Some(room) => if last_room == Some(room.room_id) {
                r.0 == last_room && r.1 is None
            } else {
                r.0 == Some(room.room_id) && (r.1 matches Some((q, cs)) && q == room && cs@
                    == monsters_in(room, monsters@) + items_in(room, items@))
            },
        },
{
    match map.room_at(player.x, player.y) {
        None => (None, None),
        Some(room) => {
            proof {
                lemma_first_where_found(map.rooms@, holding(player.x as int, player.y as int));
                let k = choose|k: int| 0 <= k < map.rooms@.len() && map.rooms@[k] == *room;
                assert(map.rooms@[k].sums_fit());
            }
            if last_room == Some(room.room_id) {
                return (last_room, None);
            }
            let mut contents: Vec<RoomContentData> = Vec::new();
            let mut i: usize = 0;
            while i < monsters.len()
                invariant
                    room.sums_fit(),
                    i <= monsters@.len(),
                    contents@ == monsters_in(*room, monsters@.take(i as int)),
                decreases monsters@.len() - i,
            {
                proof {
                    assert(monsters@.take(i + 1).drop_last() =~= monsters@.take(i as int));
                }
                let (pos, kind) = monsters[i];
                if room.contains(pos.x, pos.y) {
                    contents.push(RoomContentData::Monster(kind));
                }
                i = i + 1;
            }
            proof {
                assert(monsters@.take(monsters@.len() as int) =~= monsters@);
            }
            let ghost base = contents@;
            let mut j: usize = 0;
            while j < items.len()
                invariant
                    room.sums_fit(),
                    j <= items@.len(),
                    contents@ == base + items_in(*room, items@.take(j as int)),
                decreases items@.len() - j,
            {
                proof {
                    assert(items@.take(j + 1).drop_last() =~= items@.take(j as int));
                }
                let (pos, kind) = items[j];
                if room.contains(pos.x, pos.y) {
                    contents.push(RoomContentData::Item(kind));
                    proof {
                        assert(contents@ =~= base + items_in(*room, items@.take(j + 1)));
                    }
                }
                j = j + 1;
            }
            proof {
                assert(items@.take(items@.len() as int) =~= items@);
            }
            (Some(room.room_id), Some((*room, contents)))
        },
    }
}

/// The log after a narrative reply: a room description and an action's
/// result and consequence are logged, a monster's line is logged in
/// quotes, lore logs its inscription (as read) and its history; a death
/// narration and an error log nothing.
pub open spec fn narrative_log(
    msgs: Seq<Seq<char>>,
    kind: NarrativeResponseKind,
    max: nat,
) -> Seq<Seq<char>> {
    match kind {
        NarrativeResponseKind::RoomDescription(d) => logged(msgs, d.text@, max),
        NarrativeResponseKind::MonsterDialogue(d) => logged(
            msgs,
            "\""@ + d.current_line@ + "\""@,
            max,
        ),
        NarrativeResponseKind::ActionResult(a) => {
            let once = logged(msgs, a.description@, max);
            match a.consequence {
                Some(c) => logged(once, c@, max),
                None => once,
            }
        },
        NarrativeResponseKind::DeathNarration(_) => msgs,
        NarrativeResponseKind::LoreDiscovery(l) => {
            let read = match l.inscription {
                Some(i) => logged(msgs, "You read: \""@ + i@ + "\""@, max),
                None => msgs,
            };
            logged(read, l.history@, max)
        },
        NarrativeResponseKind::Error(_) => msgs,
    }
}

/// Show a narrative reply: a room description fills the panel (titled
/// "Room", atmosphere below) and a death narration too (titled "Death",
/// the epitaph with the final words below); the log takes what
/// `narrative_log` states.
pub fn apply_narrative(
    kind: &NarrativeResponseKind,
    narrative: &mut CurrentNarrative,
    log: &mut GameLog,
)
    ensures
        texts(final(log).messages@) == narrative_log(
            texts(old(log).messages@),
            *kind,
            old(log).max_messages as nat,
        ),
        final(log).max_messages == old(log).max_messages,
        match *kind {
            NarrativeResponseKind::RoomDescription(d) => final(narrative).title@ == "Room"@
                && final(narrative).text@ == d.text@ && final(narrative).atmosphere == Some(
                d.atmosphere,
            ) && final(narrative).visible,
            NarrativeResponseKind::DeathNarration(d) => final(narrative).title@ == "Death"@
                && final(narrative).text@ == d.epitaph@ && final(narrative).atmosphere == Some(
                d.final_words,
            ) && final(narrative).visible,
            _ => *final(narrative) == *old(narrative),
        },
{
    match kind {
        NarrativeResponseKind::RoomDescription(desc) => {
            narrative.title = owned("Room");
            narrative.text = desc.text.clone();
            narrative.atmosphere = Some(desc.atmosphere.clone());
            narrative.visible = true;
            log.add(desc.text.as_str());
        },
        NarrativeResponseKind::MonsterDialogue(dialogue) => {
            let mut s = owned("\"");
            s.append(dialogue.current_line.as_str());
            s.append("\"");
            log.add(s.as_str());
        },
        NarrativeResponseKind::ActionResult(result) => {
            log.add(result.description.as_str());
            if let Some(consequence) = &result.consequence {
                log.add(consequence.as_str());
            }
        },
        NarrativeResponseKind::DeathNarration(death) => {
            narrative.title = owned("Death");
            narrative.text = death.epitaph.clone();
            narrative.atmosphere = Some(death.final_words.clone());
            narrative.visible = true;
        },
        NarrativeResponseKind::LoreDiscovery(lore) => {
            if let Some(inscription) = &lore.inscription {
                let mut s = owned("You read: \"");
                s.append(inscription.as_str());
                s.append("\"");
                log.add(s.as_str());
            }
            log.add(lore.history.as_str());
        },
        NarrativeResponseKind::Error(_) => {},
    }
}

/// The line logged when the player dies.
pub open spec fn death_text() -> Seq<char> {
    "You have died. The dungeon claims another soul..."@
}

/// Whether the player has died; if so, say so in the log.
pub fn check_player_death(health: &Health, log: &mut GameLog) -> (dead: bool)
    ensures
        dead == (health.current <= 0),
        dead ==> texts(final(log).messages@) == logged(
            texts(old(log).messages@),
            death_text(),
            old(log).max_messages as nat,
        ),
        !dead ==> final(log).messages@ == old(log).messages@,
        final(log).max_messages == old(log).max_messages,
{
    if health.is_dead() {
        log.add("You have died. The dungeon claims another soul...");
        true
    } else {
        false
    }
}

} // verus!
