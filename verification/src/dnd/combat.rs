//! Combat: attack rolls against AC, damage, critical hits and saving throws.

use vstd::prelude::*;

use super::ability::{modifier_of, Ability, AbilityScores};
use super::components::{proficiency_for, ArmorClass, Level, Proficiencies};
use super::dice::{is_d20_roll, sides_of, Dice, DiceRoll, DiceRoller};
use super::weapons::{
    damage_type_name, weapon_attack_ability, weapon_damage, weapon_damage_type,
    weapon_properties, DamageType, Weapon, WeaponProperty, WeaponType,
};
use crate::text::{decimal, push_int};

use bevy::ecs::entity::Entity;

verus! {

/// Advantage/disadvantage state.
#[derive(Debug, Clone, Copy, PartialEq, Eq, Structural)]
pub enum AttackModifier {
    Normal,
    Advantage,
    Disadvantage,
}

impl Default for AttackModifier {
    fn default() -> (m: Self)
        ensures
            m == AttackModifier::Normal,
    {
        AttackModifier::Normal
    }
}

/// Message for initiating an attack.
#[derive(Debug, Clone, Copy)]
pub struct AttackMessage {
    pub attacker: Entity,
    pub defender: Entity,
    pub weapon: Option<WeaponType>,
    pub advantage: AttackModifier,
}

/// Message for applying damage.
#[derive(Debug, Clone, Copy)]
pub struct DamageMessage {
    pub target: Entity,
    pub amount: i32,
    pub damage_type: DamageType,
    pub source: Option<Entity>,
    pub is_critical: bool,
}

/// Result of an attack roll.
#[derive(Debug, Clone)]
pub struct AttackResult {
    /// The d20 roll.
    pub attack_roll: DiceRoll,
    /// Total attack bonus applied.
    pub attack_bonus: i32,
    /// Final attack total.
    pub total: i32,
    /// Target's AC.
    pub target_ac: i32,
    /// Whether the attack hit.
    pub hit: bool,
    /// Whether this was a critical hit (natural 20).
    pub critical: bool,
    /// Whether this was a critical miss (natural 1).
    pub fumble: bool,
    /// Damage roll (if hit).
    pub damage: Option<DiceRoll>,
    /// Total damage dealt.
    pub damage_total: i32,
    /// Type of damage.
    pub damage_type: DamageType,
}

/// A d20 roll shows a natural 1.
pub open spec fn natural_1(r: DiceRoll) -> bool {
    r.dice.die_type == super::dice::DiceType::D20 && r.dice.count == 1 && r.rolls@.len() > 0
        && r.rolls@[0] == 1
}

/// A d20 roll shows a natural 20.
pub open spec fn natural_20(r: DiceRoll) -> bool {
    r.dice.die_type == super::dice::DiceType::D20 && r.dice.count == 1 && r.rolls@.len() > 0
        && r.rolls@[0] == 20
}

impl AttackResult {
    /// Create a miss result.
    pub fn miss(attack_roll: DiceRoll, attack_bonus: i32, target_ac: i32) -> (r: Self)
        requires
            i32::MIN <= attack_roll.total + attack_bonus <= i32::MAX,
        ensures
            r.attack_roll == attack_roll,
            r.attack_bonus == attack_bonus,
            r.total == attack_roll.total + attack_bonus,
            r.target_ac == target_ac,
            !r.hit,
            !r.critical,
            r.fumble == natural_1(attack_roll),
            r.damage is None,
            r.damage_total == 0,
            r.damage_type == DamageType::Bludgeoning,
    {
        let total = attack_roll.total + attack_bonus;
        let fumble = attack_roll.is_natural_1();
        Self {
            attack_roll,
            attack_bonus,
            total,
            target_ac,
            hit: false,
            critical: false,
            fumble,
            damage: None,
            damage_total: 0,
            damage_type: DamageType::Bludgeoning,
        }
    }

    /// Create a hit result.
    pub fn hit(
        attack_roll: DiceRoll,
        attack_bonus: i32,
        target_ac: i32,
        damage: DiceRoll,
        damage_type: DamageType,
    ) -> (r: Self)
        requires
            i32::MIN <= attack_roll.total + attack_bonus <= i32::MAX,
        ensures
            r.attack_roll == attack_roll,
            r.attack_bonus == attack_bonus,
            r.total == attack_roll.total + attack_bonus,
            r.target_ac == target_ac,
            r.hit,
            r.critical == natural_20(attack_roll),
            !r.fumble,
            r.damage == Some(damage),
            r.damage_total == damage.total,
            r.damage_type == damage_type,
    {
        let total = attack_roll.total + attack_bonus;
        let critical = attack_roll.is_natural_20();
        let damage_total = damage.total;
        Self {
            attack_roll,
            attack_bonus,
            total,
            target_ac,
            hit: true,
            critical,
            fumble: false,
            damage_total,
            damage: Some(damage),
            damage_type,
        }
    }

    /// Create a critical hit result.
    pub fn critical_hit(
        attack_roll: DiceRoll,
        attack_bonus: i32,
        target_ac: i32,
        damage: DiceRoll,
        damage_type: DamageType,
    ) -> (r: Self)
        requires
            i32::MIN <= attack_roll.total + attack_bonus <= i32::MAX,
        ensures
            r.attack_roll == attack_roll,
            r.attack_bonus == attack_bonus,
            r.total == attack_roll.total + attack_bonus,
            r.target_ac == target_ac,
            r.hit,
            r.critical,
            !r.fumble,
            r.damage == Some(damage),
            r.damage_total == damage.total,
            r.damage_type == damage_type,
    {
        let total = attack_roll.total + attack_bonus;
        let damage_total = damage.total;
        Self {
            attack_roll,
            attack_bonus,
            total,
            target_ac,
            hit: true,
            critical: true,
            fumble: false,
            damage_total,
            damage: Some(damage),
            damage_type,
        }
    }

    /// Text of the result: a critical miss, a critical hit or hit with its
    /// damage, or a miss with the roll against the AC.
    pub open spec fn description_text(self) -> Seq<char> {
        if self.fumble {
            "Critical miss!"@
        } else if self.critical {
            "Critical hit! "@ + decimal(self.damage_total as int) + seq![' '] + damage_type_name(
                self.damage_type,
            ) + " damage!"@
        } else if self.hit {
            "Hit for "@ + decimal(self.damage_total as int) + seq![' '] + damage_type_name(
                self.damage_type,
            ) + " damage."@
        } else {
            "Miss. ("@ + decimal(self.total as int) + " vs AC "@ + decimal(self.target_ac as int)
                + seq![')']
        }
    }

    /// Get a description of the result.
    pub fn description(&self) -> (s: String)
        ensures
            s@ == self.description_text(),
    {
        if self.fumble {
            String::from_str("Critical miss!")
        } else if self.critical {
            let mut s = String::from_str("Critical hit! ");
            push_int(&mut s, self.damage_total as i128);
            s.append(" ");
            s.append(self.damage_type.name());
            s.append(" damage!");
            proof {
                reveal_strlit(" ");
                assert(s@ =~= self.description_text());
            }
            s
        } else if self.hit {
            let mut s = String::from_str("Hit for ");
            push_int(&mut s, self.damage_total as i128);
            s.append(" ");
            s.append(self.damage_type.name());
            s.append(" damage.");
            proof {
                reveal_strlit(" ");
                assert(s@ =~= self.description_text());
            }
            s
        } else {
            let mut s = String::from_str("Miss. (");
            push_int(&mut s, self.total as i128);
            s.append(" vs AC ");
            push_int(&mut s, self.target_ac as i128);
            s.append(")");
            proof {
                reveal_strlit(")");
                assert(s@ =~= self.description_text());
            }
            s
        }
    }
}

/// The ability a weapon attack uses: for finesse weapons the higher of
/// STR and DEX (STR on a tie), otherwise the weapon's own ability.
pub open spec fn attack_ability_for(scores: AbilityScores, w: WeaponType) -> Ability {
    if weapon_properties(w).contains(WeaponProperty::Finesse) {
        if modifier_of(scores.dexterity as int) > modifier_of(scores.strength as int) {
            Ability::Dexterity
        } else {
            Ability::Strength
        }
    } else {
        weapon_attack_ability(w)
    }
}

/// Attack bonus: ability modifier, proficiency bonus when proficient, and
/// the weapon's magic bonus.
pub open spec fn attack_bonus_for(
    scores: AbilityScores,
    profs: Proficiencies,
    level: Level,
    weapon: Weapon,
) -> int {
    modifier_of(scores.score(attack_ability_for(scores, weapon.weapon_type)) as int) + (if profs.weapon_proficient(weapon.weapon_type) {
        proficiency_for(level.value as int) as int
    } else {
        0
    }) + weapon.magic_bonus
}

/// Damage bonus: ability modifier plus the weapon's magic bonus.
pub open spec fn damage_bonus_for(scores: AbilityScores, weapon: Weapon) -> int {
    modifier_of(scores.score(attack_ability_for(scores, weapon.weapon_type)) as int)
        + weapon.magic_bonus
}

/// The ability used for a weapon attack.
fn attack_ability(ability_scores: &AbilityScores, weapon: &Weapon) -> (a: Ability)
    requires
        ability_scores.in_range(),
    ensures
        a == attack_ability_for(*ability_scores, weapon.weapon_type),
{
    let data = weapon.data();
    if data.has_property(WeaponProperty::Finesse) {
        if ability_scores.dex_mod() > ability_scores.str_mod() {
            Ability::Dexterity
        } else {
            Ability::Strength
        }
    } else {
        data.attack_ability()
    }
}

/// Calculate attack bonus for a weapon attack.
pub fn calculate_attack_bonus(
    ability_scores: &AbilityScores,
    proficiencies: &Proficiencies,
    level: &Level,
    weapon: &Weapon,
) -> (b: i32)
    requires
        ability_scores.in_range(),
        i32::MIN <= attack_bonus_for(*ability_scores, *proficiencies, *level, *weapon)
            <= i32::MAX,
    ensures
        b == attack_bonus_for(*ability_scores, *proficiencies, *level, *weapon),
{
    let ability = attack_ability(ability_scores, weapon);
    let ability_mod = ability_scores.modifier(ability);
    let prof_bonus = if proficiencies.is_weapon_proficient(weapon) {
        level.proficiency_bonus()
    } else {
        0
    };
    proof {
        let s = ability_scores.score(ability) as int;
        assert(i32::MIN + 10 <= s <= i32::MAX);
        assert((i32::MIN + 10 - 10) / 2 <= modifier_of(s) <= (i32::MAX - 10) / 2) by (nonlinear_arith)
            requires
                i32::MIN + 10 <= s <= i32::MAX,
        ;
    }
    ability_mod + prof_bonus + weapon.magic_bonus
}

/// Calculate damage bonus for a weapon attack.
pub fn calculate_damage_bonus(ability_scores: &AbilityScores, weapon: &Weapon) -> (b: i32)
    requires
        ability_scores.in_range(),
        i32::MIN <= damage_bonus_for(*ability_scores, *weapon) <= i32::MAX,
    ensures
        b == damage_bonus_for(*ability_scores, *weapon),
{
    let ability = attack_ability(ability_scores, weapon);
    ability_scores.modifier(ability) + weapon.magic_bonus
}

/// Damage dice of a weapon attack: the weapon's dice (doubled in number
/// on a critical hit) with the damage bonus as modifier.
pub open spec fn attack_damage_dice(w: WeaponType, critical: bool, bonus: int) -> Dice {
    Dice {
        count: if critical {
            (weapon_damage(w).count * 2) as i32
        } else {
            weapon_damage(w).count
        },
        die_type: weapon_damage(w).die_type,
        modifier: bonus as i32,
    }
}

/// A critical hit rolls twice as many of the weapon's damage dice as a
/// normal hit, of the same die, with the same damage bonus; a normal hit
/// rolls exactly the weapon's dice (e.g. a critical with a 1d8 weapon
/// rolls 2d8).
pub proof fn lemma_critical_doubles_dice(w: WeaponType, bonus: int)
    requires
        i32::MIN <= bonus <= i32::MAX,
    ensures
        attack_damage_dice(w, true, bonus).count == 2 * weapon_damage(w).count,
        attack_damage_dice(w, false, bonus).count == weapon_damage(w).count,
        attack_damage_dice(w, true, bonus).die_type == weapon_damage(w).die_type,
        attack_damage_dice(w, false, bonus).die_type == weapon_damage(w).die_type,
        attack_damage_dice(w, true, bonus).modifier == bonus,
        attack_damage_dice(w, false, bonus).modifier == bonus,
{
    assert(0 <= weapon_damage(w).count <= 2);
}

/// The bounds under which an attack can be computed without leaving `i32`.
pub open spec fn attack_fits(
    scores: AbilityScores,
    profs: Proficiencies,
    level: Level,
    weapon: Weapon,
) -> bool {
    &&& scores.in_range()
    &&& i32::MIN + 20 <= attack_bonus_for(scores, profs, level, weapon) <= i32::MAX - 20
    &&& i32::MIN <= damage_bonus_for(scores, weapon) <= i32::MAX
    &&& attack_damage_dice(weapon.weapon_type, true, damage_bonus_for(scores, weapon)).fits()
    &&& attack_damage_dice(weapon.weapon_type, false, damage_bonus_for(scores, weapon)).fits()
}

/// The attack roll is natural 1: always a miss. Otherwise a natural 20
/// always hits as a critical, and any other roll hits when roll plus bonus
/// reaches the AC. A hit rolls the weapon's damage dice (twice as many on
/// a critical) plus the damage bonus.
pub open spec fn attack_outcome_ok(
    r: AttackResult,
    scores: AbilityScores,
    profs: Proficiencies,
    level: Level,
    weapon: Weapon,
    target_ac: i32,
) -> bool {
    let bonus = attack_bonus_for(scores, profs, level, weapon);
    &&& is_d20_roll(r.attack_roll)
    &&& r.attack_bonus == bonus
    &&& r.total == r.attack_roll.total + bonus
    &&& r.target_ac == target_ac
    &&& r.fumble == natural_1(r.attack_roll)
    &&& r.critical == (!natural_1(r.attack_roll) && natural_20(r.attack_roll))
    &&& r.hit == (!natural_1(r.attack_roll) && (natural_20(r.attack_roll) || r.total >= target_ac))
    &&& r.hit ==> {
        &&& r.damage matches Some(d) && d.dice == attack_damage_dice(
            weapon.weapon_type,
            r.critical,
            damage_bonus_for(scores, weapon),
        ) && r.damage_total == d.total && d.dice.min_total() <= d.total <= d.dice.max_total()
        &&& r.damage_type == weapon_damage_type(weapon.weapon_type)
    }
    &&& !r.hit ==> r.damage is None && r.damage_total == 0 && r.damage_type
        == DamageType::Bludgeoning
}

/// Perform a weapon attack.
pub fn make_attack(
    dice_roller: &mut DiceRoller,
    ability_scores: &AbilityScores,
    proficiencies: &Proficiencies,
    level: &Level,
    weapon: &Weapon,
    target_ac: i32,
    modifier: AttackModifier,
) -> (r: AttackResult)
    requires
        attack_fits(*ability_scores, *proficiencies, *level, *weapon),
    ensures
        attack_outcome_ok(r, *ability_scores, *proficiencies, *level, *weapon, target_ac),
        r.hit ==> (r.damage matches Some(d) && d.dice.count == (if r.critical {
            2 * weapon_damage(weapon.weapon_type).count
        } else {
            weapon_damage(weapon.weapon_type).count as int
        }) && d.dice.die_type == weapon_damage(weapon.weapon_type).die_type && d.dice.modifier
            == damage_bonus_for(*ability_scores, *weapon)),
{
    proof {
        lemma_critical_doubles_dice(weapon.weapon_type, damage_bonus_for(*ability_scores, *weapon));
    }
    let attack_bonus = calculate_attack_bonus(ability_scores, proficiencies, level, weapon);
    let attack_roll = match modifier {
        AttackModifier::Normal => dice_roller.roll_d20(),
        AttackModifier::Advantage => dice_roller.roll_d20_advantage(),
        AttackModifier::Disadvantage => dice_roller.roll_d20_disadvantage(),
    };
    if attack_roll.is_natural_1() {
        return AttackResult::miss(attack_roll, attack_bonus, target_ac);
    }
    let is_critical = attack_roll.is_natural_20();
    let total = attack_roll.total + attack_bonus;
    if is_critical || total >= target_ac {
        let data = weapon.data();
        let damage_bonus = calculate_damage_bonus(ability_scores, weapon);
        let damage_dice = if is_critical {
            Dice::new(data.damage.count * 2, data.damage.die_type, damage_bonus)
        } else {
            Dice::new(data.damage.count, data.damage.die_type, damage_bonus)
        };
        let damage_roll = dice_roller.roll(&damage_dice);
        if is_critical {
            AttackResult::critical_hit(
                attack_roll,
                attack_bonus,
                target_ac,
                damage_roll,
                data.damage_type,
            )
        } else {
            AttackResult::hit(attack_roll, attack_bonus, target_ac, damage_roll, data.damage_type)
        }
    } else {
        AttackResult::miss(attack_roll, attack_bonus, target_ac)
    }
}

/// Saving throw DC: 8 + proficiency bonus + the ability's modifier.
pub fn calculate_save_dc(ability_scores: &AbilityScores, level: &Level, ability: Ability) -> (dc:
    i32)
    requires
        ability_scores.score(ability) >= i32::MIN + 10,
    ensures
        dc == 8 + proficiency_for(level.value as int) + modifier_of(
            ability_scores.score(ability) as int,
        ),
{
    let m = ability_scores.modifier(ability);
    proof {
        let s = ability_scores.score(ability) as int;
        assert(modifier_of(s) <= (i32::MAX - 10) / 2) by (nonlinear_arith)
            requires
                s <= i32::MAX,
        ;
    }
    8 + level.proficiency_bonus() + m
}

/// Perform a saving throw: a d20 (with advantage or disadvantage) plus the
/// save modifier, succeeding when it reaches the DC.
pub fn make_saving_throw(
    dice_roller: &mut DiceRoller,
    ability_scores: &AbilityScores,
    proficiencies: &Proficiencies,
    level: &Level,
    ability: Ability,
    dc: i32,
    modifier: AttackModifier,
) -> (r: (DiceRoll, bool))
    requires
        ability_scores.in_range(),
        i32::MIN + 20 <= proficiencies.save_modifier_spec(
            ability,
            *ability_scores,
            proficiency_for(level.value as int) as int,
        ) <= i32::MAX - 20,
    ensures
        is_d20_roll(r.0),
        r.1 == (r.0.total + proficiencies.save_modifier_spec(
            ability,
            *ability_scores,
            proficiency_for(level.value as int) as int,
        ) >= dc),
{
    let roll = match modifier {
        AttackModifier::Normal => dice_roller.roll_d20(),
        AttackModifier::Advantage => dice_roller.roll_d20_advantage(),
        AttackModifier::Disadvantage => dice_roller.roll_d20_disadvantage(),
    };
    let save_bonus = proficiencies.save_modifier(
        ability,
        ability_scores,
        level.proficiency_bonus(),
    );
    let total = roll.total + save_bonus;
    (roll, total >= dc)
}

/// The weapon an attack uses: the one the attack names, else the one the
/// attacker wields, else an unarmed strike.
pub fn select_attack_weapon(requested: Option<WeaponType>, equipped: Option<&Weapon>) -> (w: Weapon)
    ensures
        match requested {
            Some(t) => w.weapon_type == t && w.flavor_name is None && w.magic_bonus == 0
                && !w.equipped,
            None => match equipped {
                Some(e) => w.weapon_type == e.weapon_type && w.flavor_name == e.flavor_name
                    && w.magic_bonus == e.magic_bonus && w.equipped == e.equipped,
                None => w.weapon_type == WeaponType::Unarmed && w.flavor_name is None
                    && w.magic_bonus == 0 && !w.equipped,
            },
        },
{
    match requested {
        Some(t) => Weapon::new(t),
        None => match equipped {
            Some(e) => Weapon {
                weapon_type: e.weapon_type,
                flavor_name: match &e.flavor_name {
                    Some(n) => Some(n.clone()),
                    None => None,
                },
                magic_bonus: e.magic_bonus,
                equipped: e.equipped,
            },
            None => Weapon::new(WeaponType::Unarmed),
        },
    }
}

/// The weapon an attack uses, as `select_attack_weapon` picks it.
pub open spec fn chosen_weapon(requested: Option<WeaponType>, equipped: Option<Weapon>) -> Weapon {
    match requested {
        Some(t) => Weapon { weapon_type: t, flavor_name: None, magic_bonus: 0, equipped: false },
        None => match equipped {
            Some(e) => e,
            None => Weapon {
                weapon_type: WeaponType::Unarmed,
                flavor_name: None,
                magic_bonus: 0,
                equipped: false,
            },
        },
    }
}

/// Resolve one attack message: the attacker strikes with the weapon the
/// message names, else the one it wields, else unarmed, against the
/// defender's total AC; a hit yields the damage to apply to the defender.
pub fn process_attack(
    dice_roller: &mut DiceRoller,
    message: &AttackMessage,
    ability_scores: &AbilityScores,
    proficiencies: &Proficiencies,
    level: &Level,
    equipped_weapon: Option<&Weapon>,
    target_ac: &ArmorClass,
) -> (r: (AttackResult, Option<DamageMessage>))
    requires
        attack_fits(
            *ability_scores,
            *proficiencies,
            *level,
            chosen_weapon(
                message.weapon,
                match equipped_weapon {
                    Some(w) => Some(*w),
                    None => None,
                },
            ),
        ),
        i32::MIN <= target_ac.base + target_ac.shield_bonus <= i32::MAX,
        i32::MIN <= target_ac.total_spec() <= i32::MAX,
    ensures
        attack_outcome_ok(
            r.0,
            *ability_scores,
            *proficiencies,
            *level,
            chosen_weapon(
                message.weapon,
                match equipped_weapon {
                    Some(w) => Some(*w),
                    None => None,
                },
            ),
            target_ac.total_spec() as i32,
        ),
        r.1 == if r.0.hit {
            Some(
                DamageMessage {
                    target: message.defender,
                    amount: r.0.damage_total,
                    damage_type: r.0.damage_type,
                    source: Some(message.attacker),
                    is_critical: r.0.critical,
                },
            )
        } else {
            None
        },
{
    let weapon = select_attack_weapon(message.weapon, equipped_weapon);
    let result = make_attack(
        dice_roller,
        ability_scores,
        proficiencies,
        level,
        &weapon,
        target_ac.total(),
        message.advantage,
    );
    let damage = if result.hit {
        Some(
            DamageMessage {
                target: message.defender,
                amount: result.damage_total,
                damage_type: result.damage_type,
                source: Some(message.attacker),
                is_critical: result.critical,
            },
        )
    } else {
        None
    };
    (result, damage)
}

} // verus!
