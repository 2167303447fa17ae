//! Turn rules: where a move leads, and what a melee blow does.

use vstd::prelude::*;

use super::components::{CombatStats, Health, Position};
use super::log::{logged, texts, GameLog};
use super::map::{walkable, GameMap};
use crate::text::{decimal, owned, push_int};

verus! {

/// What a move request turns into.
#[derive(Debug, Clone, Copy, PartialEq, Eq, Structural)]
pub enum MoveOutcome {
    /// A monster stands on the destination: attack it (its index in the
    /// list of monster positions).
    Attack(usize),
    /// The destination can be walked on: step there.
    Step(Position),
    /// A wall or the edge of the map is in the way.
    Bump,
}

/// The message logged when a move is blocked.
pub open spec fn bump_text() -> Seq<char> {
    "You bump into a wall."@
}

/// Resolve a move of `(dx, dy)` from `from`: attack a monster standing on
/// the destination (the first in the list), else step onto a walkable
/// tile, else bump (and say so in the log).
pub fn resolve_move(
    map: &GameMap,
    log: &mut GameLog,
    from: Position,
    dx: i32,
    dy: i32,
    monsters: &[Position],
) -> (out: MoveOutcome)
    requires
        map.wf(),
        i32::MIN <= from.x + dx <= i32::MAX,
        i32::MIN <= from.y + dy <= i32::MAX,
    ensures
        ({
            let dest = Position { x: (from.x + dx) as i32, y: (from.y + dy) as i32 };
            match out {
                MoveOutcome::Attack(i) => 0 <= i < monsters@.len() && monsters@[i as int] == dest
                    && forall|j: int| 0 <= j < i ==> monsters@[j] != dest,
                MoveOutcome::Step(p) => p == dest && (forall|j: int|
                    0 <= j < monsters@.len() ==> monsters@[j] != dest) && map.on_map(
                    dest.x as int,
                    dest.y as int,
                ) && walkable(map.tile_at(dest.x as int, dest.y as int)),
                MoveOutcome::Bump => (forall|j: int|
                    0 <= j < monsters@.len() ==> monsters@[j] != dest) && !(map.on_map(
                    dest.x as int,
                    dest.y as int,
                ) && walkable(map.tile_at(dest.x as int, dest.y as int))),
            }
        }),
        out is Bump ==> texts(final(log).messages@) == logged(
            texts(old(log).messages@),
            bump_text(),
            old(log).max_messages as nat,
        ),
        !(out is Bump) ==> final(log).messages@ == old(log).messages@,
        final(log).max_messages == old(log).max_messages,
{
    let new_x = from.x + dx;
    let new_y = from.y + dy;
    let mut i: usize = 0;
    while i < monsters.len()
        invariant
            i <= monsters@.len(),
            new_x == from.x + dx,
            new_y == from.y + dy,
            forall|j: int| 0 <= j < i ==> monsters@[j] != (Position { x: new_x, y: new_y }),
        decreases monsters@.len() - i,
    {
        if monsters[i].x == new_x && monsters[i].y == new_y {
            return MoveOutcome::Attack(i);
        }
        i = i + 1;
    }
    if map.is_walkable(new_x, new_y) {
        MoveOutcome::Step(Position { x: new_x, y: new_y })
    } else {
        log.add("You bump into a wall.");
        MoveOutcome::Bump
    }
}

/// Name of a combatant in log messages: "You"/"you" for the player, the
/// monster's name (or "Something"/"something" when it has none), and
/// "Something"/"something" for anything else. The capital form is for
/// the attacker, who opens the sentence.
pub open spec fn combatant_label(
    is_player: bool,
    is_monster: bool,
    name: Option<Seq<char>>,
    attacker: bool,
) -> Seq<char> {
    if is_player {
        if attacker {
            "You"@
        } else {
            "you"@
        }
    } else if is_monster && name is Some {
        name->0
    } else if attacker {
        "Something"@
    } else {
        "something"@
    }
}

/// The label of a combatant, as `combatant_label` states.
pub fn combatant_name(is_player: bool, is_monster: bool, name: Option<&str>, attacker: bool) -> (s:
    String)
    ensures
        s@ == combatant_label(
            is_player,
            is_monster,
            match name {
                Some(n) => Some(n@),
                None => None,
            },
            attacker,
        ),
{
    if is_player {
        if attacker {
            owned("You")
        } else {
            owned("you")
        }
    } else if is_monster && name.is_some() {
        match name {
            Some(n) => owned(n),
            None => owned("something"),
        }
    } else if attacker {
        owned("Something")
    } else {
        owned("something")
    }
}

/// Melee damage: attack minus defense, never negative.
pub open spec fn melee_damage(attack: int, defense: int) -> int {
    if attack - defense > 0 {
        attack - defense
    } else {
        0
    }
}

/// The line logged for a blow.
pub open spec fn blow_text(a: Seq<char>, d: Seq<char>, damage: int) -> Seq<char> {
    if damage > 0 {
        a + " hits "@ + d + " for "@ + decimal(damage) + " damage!"@
    } else {
        a + " attacks "@ + d + " but does no damage."@
    }
}

/// Resolve one melee blow: the defender loses `attack - defense` hit
/// points (none when that is not positive); the log tells the blow, and
/// that the defender is slain when its health drops to zero or below.
/// Returns the damage dealt.
pub fn resolve_melee(
    attacker_name: &str,
    defender_name: &str,
    attacker: &CombatStats,
    defender: &CombatStats,
    health: &mut Health,
    log: &mut GameLog,
) -> (damage: i32)
    requires
        i32::MIN <= attacker.attack - defender.defense <= i32::MAX,
        i32::MIN <= old(health).current - melee_damage(attacker.attack as int, defender.defense as int)
            <= i32::MAX,
    ensures
        damage == melee_damage(attacker.attack as int, defender.defense as int),
        final(health).current == if old(health).current - damage > 0 {
            old(health).current - damage
        } else {
            0
        },
        final(health).max == old(health).max,
        ({
            let once = logged(
                texts(old(log).messages@),
                blow_text(attacker_name@, defender_name@, damage as int),
                old(log).max_messages as nat,
            );
            texts(final(log).messages@) == if final(health).current <= 0 {
                logged(once, defender_name@ + " is slain!"@, old(log).max_messages as nat)
            } else {
                once
            }
        }),
        final(log).max_messages == old(log).max_messages,
{
    let diff = attacker.attack - defender.defense;
    let damage = if diff > 0 {
        diff
    } else {
        0
    };
    health.take_damage(damage);
    let mut line = owned(attacker_name);
    if damage > 0 {
        line.append(" hits ");
        line.append(defender_name);
        line.append(" for ");
        push_int(&mut line, damage as i128);
        line.append(" damage!");
    } else {
        line.append(" attacks ");
        line.append(defender_name);
        line.append(" but does no damage.");
    }
    log.add(line.as_str());
    if health.is_dead() {
        let mut slain = owned(defender_name);
        slain.append(" is slain!");
        log.add(slain.as_str());
    }
    damage
}

} // verus!
