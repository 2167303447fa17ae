//! Character sheet pieces: level, hit points, armor class, skills,
//! proficiencies and equipment.

use vstd::prelude::*;

use super::ability::{modifier_of, Ability, AbilityScores};
use super::armor::{armor_ac, armor_category, armor_stealth_disadvantage, Armor, ArmorCategory, ArmorType};
use super::dice::{sides_of, Dice, DiceType};
use super::weapons::{weapon_category, Weapon, WeaponCategory, WeaponType};
use crate::text::owned;

verus! {

/// Proficiency bonus by character level: +2 at levels 1-4, rising by one
/// every four levels to +6 at 17-20, and +2 outside 1-20.
pub open spec fn proficiency_for(level: int) -> i32 {
    if 1 <= level <= 4 {
        2
    } else if 5 <= level <= 8 {
        3
    } else if 9 <= level <= 12 {
        4
    } else if 13 <= level <= 16 {
        5
    } else if 17 <= level <= 20 {
        6
    } else {
        2
    }
}

/// Proficiency bonus by character level.
pub fn proficiency_bonus(level: i32) -> (b: i32)
    ensures
        b == proficiency_for(level as int),
{
    match level {
        1..=4 => 2,
        5..=8 => 3,
        9..=12 => 4,
        13..=16 => 5,
        17..=20 => 6,
        _ => 2,
    }
}

/// The bonus never falls as the level rises through 1-20, and always lies in 2..=6.
pub proof fn lemma_proficiency_monotone(l1: int, l2: int)
    ensures
        1 <= l1 <= l2 <= 20 ==> proficiency_for(l1) <= proficiency_for(l2),
        2 <= proficiency_for(l1) <= 6,
{
}

/// Character or monster level/CR.
#[derive(Debug, Clone, Copy, PartialEq, Eq, Structural)]
pub struct Level {
    /// Character level (1-20) or monster CR as effective level.
    pub value: i32,
}

impl Default for Level {
    fn default() -> (l: Self)
        ensures
            l.value == 1,
    {
        Self { value: 1 }
    }
}

impl Level {
    pub fn new(value: i32) -> (l: Self)
        ensures
            l.value == value,
    {
        Self { value }
    }

    /// Get the proficiency bonus for this level.
    pub fn proficiency_bonus(&self) -> (b: i32)
        ensures
            b == proficiency_for(self.value as int),
    {
        proficiency_bonus(self.value)
    }
}

/// Hit Points component (D&D style with hit dice).
#[derive(Debug, Clone, Copy, PartialEq, Eq, Structural)]
pub struct HitPoints {
    /// Current hit points.
    pub current: i32,
    /// Maximum hit points.
    pub max: i32,
    /// Temporary hit points.
    pub temp: i32,
    /// Hit dice (e.g., "2d8" for 2 levels with d8 hit die).
    pub hit_dice_count: i32,
    /// Hit die type.
    pub hit_die_type: DiceType,
    /// Remaining hit dice for short rests.
    pub hit_dice_remaining: i32,
}

impl Default for HitPoints {
    fn default() -> (hp: Self)
        ensures
            hp == HitPoints::full(10),
    {
        Self::new(10)
    }
}

/// Max HP at a level: the hit die's maximum plus CON at first level, then
/// half the die plus one plus CON per further level, never below 1.
pub open spec fn max_hp_for_level(level: int, sides: int, con_modifier: int) -> int {
    let total = (sides + con_modifier) + (level - 1) * (sides / 2 + 1 + con_modifier);
    if total < 1 {
        1
    } else {
        total
    }
}

impl HitPoints {
    /// Full hit points `max` with a single d8 hit die.
    pub open spec fn full(max: i32) -> HitPoints {
        HitPoints {
            current: max,
            max,
            temp: 0,
            hit_dice_count: 1,
            hit_die_type: DiceType::D8,
            hit_dice_remaining: 1,
        }
    }

    /// Hit points after taking `damage`: temporary hit points absorb first,
    /// the rest comes off current hit points, which stop at 0.
    pub open spec fn after_damage(self, damage: int) -> HitPoints {
        if self.temp > 0 && self.temp >= damage {
            HitPoints { temp: (self.temp - damage) as i32, ..self }
        } else if self.temp > 0 {
            let remaining = damage - self.temp;
            HitPoints {
                temp: 0,
                current: if self.current - remaining > 0 {
                    (self.current - remaining) as i32
                } else {
                    0
                },
                ..self
            }
        } else {
            HitPoints {
                current: if self.current - damage > 0 {
                    (self.current - damage) as i32
                } else {
                    0
                },
                ..self
            }
        }
    }

    /// The subtraction that `after_damage` makes stays within `i32`.
    pub open spec fn damage_fits(self, damage: int) -> bool {
        if self.temp > 0 {
            if self.temp >= damage {
                i32::MIN <= self.temp - damage <= i32::MAX
            } else {
                i32::MIN <= self.current - (damage - self.temp) <= i32::MAX
            }
        } else {
            i32::MIN <= self.current - damage <= i32::MAX
        }
    }

    /// Create hit points for a character with given max HP.
    pub fn new(max: i32) -> (hp: Self)
        ensures
            hp == HitPoints::full(max),
    {
        Self {
            current: max,
            max,
            temp: 0,
            hit_dice_count: 1,
            hit_die_type: DiceType::D8,
            hit_dice_remaining: 1,
        }
    }

    /// Create hit points with hit dice info.
    pub fn with_hit_dice(self, count: i32, die_type: DiceType) -> (hp: Self)
        ensures
            hp == (HitPoints {
                hit_dice_count: count,
                hit_die_type: die_type,
                hit_dice_remaining: count,
                ..self
            }),
    {
        let mut hp = self;
        hp.hit_dice_count = count;
        hp.hit_die_type = die_type;
        hp.hit_dice_remaining = count;
        hp
    }

    /// Calculate starting HP: max hit die + CON modifier at first level,
    /// average + CON for each further level.
    pub fn calculate_for_level(level: i32, hit_die: DiceType, con_modifier: i32) -> (hp: Self)
        requires
            i32::MIN <= sides_of(hit_die) + con_modifier <= i32::MAX,
            i32::MIN <= sides_of(hit_die) / 2 + 1 + con_modifier <= i32::MAX,
            i32::MIN <= level - 1 <= i32::MAX,
            i32::MIN <= (level - 1) * (sides_of(hit_die) / 2 + 1 + con_modifier) <= i32::MAX,
            i32::MIN <= (sides_of(hit_die) + con_modifier) + (level - 1) * (sides_of(hit_die) / 2
                + 1 + con_modifier) <= i32::MAX,
        ensures
            hp.max == max_hp_for_level(level as int, sides_of(hit_die), con_modifier as int),
            hp.current == hp.max,
            hp.temp == 0,
            hp.hit_dice_count == level,
            hp.hit_die_type == hit_die,
            hp.hit_dice_remaining == level,
    {
        let sides = hit_die.sides();
        let first_level_hp = sides + con_modifier;
        let per_level_avg = (sides / 2 + 1) + con_modifier;
        let additional_hp = (level - 1) * per_level_avg;
        let total = first_level_hp + additional_hp;
        let max_hp = if total < 1 {
            1
        } else {
            total
        };
        Self {
            current: max_hp,
            max: max_hp,
            temp: 0,
            hit_dice_count: level,
            hit_die_type: hit_die,
            hit_dice_remaining: level,
        }
    }

    /// Take damage, consuming temp HP first.
    pub fn take_damage(&mut self, damage: i32)
        requires
            old(self).damage_fits(damage as int),
        ensures
            *final(self) == old(self).after_damage(damage as int),
    {
        let mut remaining = damage;
        if self.temp > 0 {
            if self.temp >= remaining {
                self.temp = self.temp - remaining;
                return;
            } else {
                remaining = remaining - self.temp;
                self.temp = 0;
            }
        }
        let left = self.current - remaining;
        self.current = if left > 0 {
            left
        } else {
            0
        };
    }

    /// Heal hit points (can't exceed max).
    pub fn heal(&mut self, amount: i32)
        requires
            i32::MIN <= old(self).current + amount <= i32::MAX,
        ensures
            *final(self) == (HitPoints {
                current: if old(self).current + amount < old(self).max {
                    (old(self).current + amount) as i32
                } else {
                    old(self).max
                },
                ..*old(self)
            }),
    {
        let raised = self.current + amount;
        self.current = if raised < self.max {
            raised
        } else {
            self.max
        };
    }

    /// Add temporary hit points (doesn't stack: the higher value stays).
    pub fn add_temp_hp(&mut self, amount: i32)
        ensures
            *final(self) == (HitPoints {
                temp: if old(self).temp >= amount {
                    old(self).temp
                } else {
                    amount
                },
                ..*old(self)
            }),
    {
        self.temp = if self.temp >= amount {
            self.temp
        } else {
            amount
        };
    }

    /// Check if at 0 HP.
    pub fn is_unconscious(&self) -> (b: bool)
        ensures
            b == (self.current <= 0),
    {
        self.current <= 0
    }

    /// Check if dead (massive damage rule simplified).
    pub fn is_dead(&self) -> (b: bool)
        requires
            self.max > i32::MIN,
        ensures
            b == (self.current <= -self.max),
    {
        self.current <= -self.max
    }

    /// Get the hit dice expression.
    pub fn hit_dice(&self) -> (d: Dice)
        ensures
            d == (Dice { count: self.hit_dice_count, die_type: self.hit_die_type, modifier: 0 }),
    {
        Dice::simple(self.hit_dice_count, self.hit_die_type)
    }
}

/// Damage never drives current hit points below zero, never raises them,
/// and healing never lifts them above the maximum.
pub proof fn lemma_hit_point_bounds(hp: HitPoints, damage: int, amount: int)
    requires
        hp.current >= 0,
        damage >= 0,
        hp.damage_fits(damage),
    ensures
        0 <= hp.after_damage(damage).current <= hp.current,
        hp.after_damage(damage).temp <= hp.temp || hp.temp <= 0,
        hp.current <= hp.max && amount >= 0 ==> hp.current <= (if hp.current + amount < hp.max {
            hp.current + amount
        } else {
            hp.max as int
        }) <= hp.max,
{
}

/// Armor Class component.
#[derive(Debug, Clone, Copy, PartialEq, Eq, Structural)]
pub struct ArmorClass {
    /// Base AC (from armor or unarmored defense).
    pub base: i32,
    /// Bonus from shield.
    pub shield_bonus: i32,
    /// Bonus from magic items or spells.
    pub misc_bonus: i32,
    /// Whether wearing armor that grants stealth disadvantage.
    pub stealth_disadvantage: bool,
}

impl Default for ArmorClass {
    fn default() -> (ac: Self)
        ensures
            ac == (ArmorClass {
                base: 10,
                shield_bonus: 0,
                misc_bonus: 0,
                stealth_disadvantage: false,
            }),
    {
        Self { base: 10, shield_bonus: 0, misc_bonus: 0, stealth_disadvantage: false }
    }
}

impl ArmorClass {
    /// Total AC: base plus shield plus other bonuses.
    pub open spec fn total_spec(self) -> int {
        self.base + self.shield_bonus + self.misc_bonus
    }

    /// Create AC from a specific value.
    pub fn new(base: i32) -> (ac: Self)
        ensures
            ac == (ArmorClass { base, shield_bonus: 0, misc_bonus: 0, stealth_disadvantage: false }),
    {
        Self { base, shield_bonus: 0, misc_bonus: 0, stealth_disadvantage: false }
    }

    /// Calculate AC from armor and DEX modifier.
    pub fn from_armor(armor: &Armor, dex_modifier: i32) -> (ac: Self)
        requires
            i32::MIN <= armor_ac(armor.armor_type, dex_modifier as int) <= i32::MAX,
            i32::MIN <= armor_ac(armor.armor_type, dex_modifier as int) + armor.magic_bonus
                <= i32::MAX,
        ensures
            ac == (ArmorClass {
                base: (armor_ac(armor.armor_type, dex_modifier as int) + armor.magic_bonus) as i32,
                shield_bonus: 0,
                misc_bonus: 0,
                stealth_disadvantage: armor_stealth_disadvantage(armor.armor_type),
            }),
    {
        let data = armor.data();
        Self {
            base: armor.calculate_ac(dex_modifier),
            shield_bonus: 0,
            misc_bonus: 0,
            stealth_disadvantage: data.stealth_disadvantage,
        }
    }

    /// Add shield bonus.
    pub fn with_shield(self) -> (ac: Self)
        ensures
            ac == (ArmorClass { shield_bonus: 2, ..self }),
    {
        let mut ac = self;
        ac.shield_bonus = 2;
        ac
    }

    /// Add miscellaneous bonus.
    pub fn with_bonus(self, bonus: i32) -> (ac: Self)
        ensures
            ac == (ArmorClass { misc_bonus: bonus, ..self }),
    {
        let mut ac = self;
        ac.misc_bonus = bonus;
        ac
    }

    /// Get total AC.
    pub fn total(&self) -> (t: i32)
        requires
            i32::MIN <= self.base + self.shield_bonus <= i32::MAX,
            i32::MIN <= self.total_spec() <= i32::MAX,
        ensures
            t == self.total_spec(),
    {
        self.base + self.shield_bonus + self.misc_bonus
    }
}

/// Skill proficiency level.
#[derive(Debug, Clone, Copy, PartialEq, Eq, Structural)]
pub enum SkillRank {
    /// No proficiency.
    Untrained,
    Proficient,
    /// Double proficiency bonus.
    Expertise,
}

impl Default for SkillRank {
    fn default() -> (r: Self)
        ensures
            r == SkillRank::Untrained,
    {
        SkillRank::Untrained
    }
}

/// How many times the proficiency bonus a rank adds.
pub open spec fn rank_multiplier(r: SkillRank) -> i32 {
    match r {
        SkillRank::Untrained => 0,
        SkillRank::Proficient => 1,
        SkillRank::Expertise => 2,
    }
}

impl SkillRank {
    /// Get the proficiency multiplier.
    pub fn multiplier(&self) -> (m: i32)
        ensures
            m == rank_multiplier(*self),
    {
        match self {
            SkillRank::Untrained => 0,
            SkillRank::Proficient => 1,
            SkillRank::Expertise => 2,
        }
    }
}

/// D&D Skills component.
#[derive(Debug, Clone, Copy, PartialEq, Eq, Structural)]
pub struct Skills {
    // STR skills
    pub athletics: SkillRank,

    // DEX skills
    pub acrobatics: SkillRank,
    pub sleight_of_hand: SkillRank,
    pub stealth: SkillRank,

    // INT skills
    pub arcana: SkillRank,
    pub history: SkillRank,
    pub investigation: SkillRank,
    pub nature: SkillRank,
    pub religion: SkillRank,

    // WIS skills
    pub animal_handling: SkillRank,
    pub insight: SkillRank,
    pub medicine: SkillRank,
    pub perception: SkillRank,
    pub survival: SkillRank,

    // CHA skills
    pub deception: SkillRank,
    pub intimidation: SkillRank,
    pub performance: SkillRank,
    pub persuasion: SkillRank,
}

/// All skills and their governing abilities.
#[derive(Debug, Clone, Copy, PartialEq, Eq, Hash, Structural)]
pub enum Skill {
    Athletics,
    Acrobatics,
    SleightOfHand,
    Stealth,
    Arcana,
    History,
    Investigation,
    Nature,
    Religion,
    AnimalHandling,
    Insight,
    Medicine,
    Perception,
    Survival,
    Deception,
    Intimidation,
    Performance,
    Persuasion,
}

/// The ability that governs a skill.
pub open spec fn skill_ability(s: Skill) -> Ability {
    match s {
        Skill::Athletics => Ability::Strength,
        Skill::Acrobatics => Ability::Dexterity,
        Skill::SleightOfHand => Ability::Dexterity,
        Skill::Stealth => Ability::Dexterity,
        Skill::Arcana => Ability::Intelligence,
        Skill::History => Ability::Intelligence,
        Skill::Investigation => Ability::Intelligence,
        Skill::Nature => Ability::Intelligence,
        Skill::Religion => Ability::Intelligence,
        Skill::AnimalHandling => Ability::Wisdom,
        Skill::Insight => Ability::Wisdom,
        Skill::Medicine => Ability::Wisdom,
        Skill::Perception => Ability::Wisdom,
        Skill::Survival => Ability::Wisdom,
        Skill::Deception => Ability::Charisma,
        Skill::Intimidation => Ability::Charisma,
        Skill::Performance => Ability::Charisma,
        Skill::Persuasion => Ability::Charisma,
    }
}

/// Each skill is governed by its SRD ability: Athletics by Strength;
/// Acrobatics, Sleight of Hand and Stealth by Dexterity; Arcana, History,
/// Investigation, Nature and Religion by Intelligence; Animal Handling,
/// Insight, Medicine, Perception and Survival by Wisdom; Deception,
/// Intimidation, Performance and Persuasion by Charisma; no skill by
/// Constitution.
pub proof fn lemma_skill_abilities(s: Skill)
    ensures
        (skill_ability(s) == Ability::Strength) <==> s == Skill::Athletics,
        (skill_ability(s) == Ability::Dexterity) <==> (s == Skill::Acrobatics || s
            == Skill::SleightOfHand || s == Skill::Stealth),
        (skill_ability(s) == Ability::Intelligence) <==> (s == Skill::Arcana || s == Skill::History
            || s == Skill::Investigation || s == Skill::Nature || s == Skill::Religion),
        (skill_ability(s) == Ability::Wisdom) <==> (s == Skill::AnimalHandling || s == Skill::Insight
            || s == Skill::Medicine || s == Skill::Perception || s == Skill::Survival),
        (skill_ability(s) == Ability::Charisma) <==> (s == Skill::Deception || s
            == Skill::Intimidation || s == Skill::Performance || s == Skill::Persuasion),
        skill_ability(s) != Ability::Constitution,
{
}

impl Skill {
    /// Get the ability that governs this skill.
    pub fn ability(&self) -> (a: Ability)
        ensures
            a == skill_ability(*self),
    {
        match self {
            Skill::Athletics => Ability::Strength,
            Skill::Acrobatics | Skill::SleightOfHand | Skill::Stealth => Ability::Dexterity,
            Skill::Arcana
            | Skill::History
            | Skill::Investigation
            | Skill::Nature
            | Skill::Religion => Ability::Intelligence,
            Skill::AnimalHandling
            | Skill::Insight
            | Skill::Medicine
            | Skill::Perception
            | Skill::Survival => Ability::Wisdom,
            Skill::Deception | Skill::Intimidation | Skill::Performance | Skill::Persuasion => {
                Ability::Charisma
            },
        }
    }
}

impl Default for Skills {
    fn default() -> (s: Self)
        ensures
            s.all_untrained(),
    {
        Self {
            athletics: SkillRank::Untrained,
            acrobatics: SkillRank::Untrained,
            sleight_of_hand: SkillRank::Untrained,
            stealth: SkillRank::Untrained,
            arcana: SkillRank::Untrained,
            history: SkillRank::Untrained,
            investigation: SkillRank::Untrained,
            nature: SkillRank::Untrained,
            religion: SkillRank::Untrained,
            animal_handling: SkillRank::Untrained,
            insight: SkillRank::Untrained,
            medicine: SkillRank::Untrained,
            perception: SkillRank::Untrained,
            survival: SkillRank::Untrained,
            deception: SkillRank::Untrained,
            intimidation: SkillRank::Untrained,
            performance: SkillRank::Untrained,
            persuasion: SkillRank::Untrained,
        }
    }
}

impl Skills {
    /// No skill has any proficiency.
    pub open spec fn all_untrained(self) -> bool {
        &&& self.athletics == SkillRank::Untrained
        &&& self.acrobatics == SkillRank::Untrained
        &&& self.sleight_of_hand == SkillRank::Untrained
        &&& self.stealth == SkillRank::Untrained
        &&& self.arcana == SkillRank::Untrained
        &&& self.history == SkillRank::Untrained
        &&& self.investigation == SkillRank::Untrained
        &&& self.nature == SkillRank::Untrained
        &&& self.religion == SkillRank::Untrained
        &&& self.animal_handling == SkillRank::Untrained
        &&& self.insight == SkillRank::Untrained
        &&& self.medicine == SkillRank::Untrained
        &&& self.perception == SkillRank::Untrained
        &&& self.survival == SkillRank::Untrained
        &&& self.deception == SkillRank::Untrained
        &&& self.intimidation == SkillRank::Untrained
        &&& self.performance == SkillRank::Untrained
        &&& self.persuasion == SkillRank::Untrained
    }

    /// The rank of one skill.
    pub open spec fn rank(self, skill: Skill) -> SkillRank {
        match skill {
            Skill::Athletics => self.athletics,
            Skill::Acrobatics => self.acrobatics,
            Skill::SleightOfHand => self.sleight_of_hand,
            Skill::Stealth => self.stealth,
            Skill::Arcana => self.arcana,
            Skill::History => self.history,
            Skill::Investigation => self.investigation,
            Skill::Nature => self.nature,
            Skill::Religion => self.religion,
            Skill::AnimalHandling => self.animal_handling,
            Skill::Insight => self.insight,
            Skill::Medicine => self.medicine,
            Skill::Perception => self.perception,
            Skill::Survival => self.survival,
            Skill::Deception => self.deception,
            Skill::Intimidation => self.intimidation,
            Skill::Performance => self.performance,
            Skill::Persuasion => self.persuasion,
        }
    }

    /// These skills with one rank replaced.
    pub open spec fn with(self, skill: Skill, rank: SkillRank) -> Skills {
        match skill {
            Skill::Athletics => Skills { athletics: rank, ..self },
            Skill::Acrobatics => Skills { acrobatics: rank, ..self },
            Skill::SleightOfHand => Skills { sleight_of_hand: rank, ..self },
            Skill::Stealth => Skills { stealth: rank, ..self },
            Skill::Arcana => Skills { arcana: rank, ..self },
            Skill::History => Skills { history: rank, ..self },
            Skill::Investigation => Skills { investigation: rank, ..self },
            Skill::Nature => Skills { nature: rank, ..self },
            Skill::Religion => Skills { religion: rank, ..self },
            Skill::AnimalHandling => Skills { animal_handling: rank, ..self },
            Skill::Insight => Skills { insight: rank, ..self },
            Skill::Medicine => Skills { medicine: rank, ..self },
            Skill::Perception => Skills { perception: rank, ..self },
            Skill::Survival => Skills { survival: rank, ..self },
            Skill::Deception => Skills { deception: rank, ..self },
            Skill::Intimidation => Skills { intimidation: rank, ..self },
            Skill::Performance => Skills { performance: rank, ..self },
            Skill::Persuasion => Skills { persuasion: rank, ..self },
        }
    }

    /// Get the rank for a specific skill.
    pub fn get(&self, skill: Skill) -> (r: SkillRank)
        ensures
            r == self.rank(skill),
    {
        match skill {
            Skill::Athletics => self.athletics,
            Skill::Acrobatics => self.acrobatics,
            Skill::SleightOfHand => self.sleight_of_hand,
            Skill::Stealth => self.stealth,
            Skill::Arcana => self.arcana,
            Skill::History => self.history,
            Skill::Investigation => self.investigation,
            Skill::Nature => self.nature,
            Skill::Religion => self.religion,
            Skill::AnimalHandling => self.animal_handling,
            Skill::Insight => self.insight,
            Skill::Medicine => self.medicine,
            Skill::Perception => self.perception,
            Skill::Survival => self.survival,
            Skill::Deception => self.deception,
            Skill::Intimidation => self.intimidation,
            Skill::Performance => self.performance,
            Skill::Persuasion => self.persuasion,
        }
    }

    /// Set the rank for a specific skill.
    pub fn set(&mut self, skill: Skill, rank: SkillRank)
        ensures
            *final(self) == old(self).with(skill, rank),
    {
        match skill {
            Skill::Athletics => self.athletics = rank,
            Skill::Acrobatics => self.acrobatics = rank,
            Skill::SleightOfHand => self.sleight_of_hand = rank,
            Skill::Stealth => self.stealth = rank,
            Skill::Arcana => self.arcana = rank,
            Skill::History => self.history = rank,
            Skill::Investigation => self.investigation = rank,
            Skill::Nature => self.nature = rank,
            Skill::Religion => self.religion = rank,
            Skill::AnimalHandling => self.animal_handling = rank,
            Skill::Insight => self.insight = rank,
            Skill::Medicine => self.medicine = rank,
            Skill::Perception => self.perception = rank,
            Skill::Survival => self.survival = rank,
            Skill::Deception => self.deception = rank,
            Skill::Intimidation => self.intimidation = rank,
            Skill::Performance => self.performance = rank,
            Skill::Persuasion => self.persuasion = rank,
        }
    }

    /// Skill modifier: the governing ability's modifier plus the
    /// proficiency bonus times the rank's multiplier.
    pub open spec fn modifier_spec(
        self,
        skill: Skill,
        scores: AbilityScores,
        proficiency_bonus: int,
    ) -> int {
        modifier_of(scores.score(skill_ability(skill)) as int) + proficiency_bonus * rank_multiplier(
            self.rank(skill),
        )
    }

    /// Calculate skill modifier.
    pub fn modifier(&self, skill: Skill, ability_scores: &AbilityScores, proficiency_bonus: i32) -> (m:
        i32)
        requires
            ability_scores.in_range(),
            i32::MIN <= proficiency_bonus * 2 <= i32::MAX,
            i32::MIN <= self.modifier_spec(skill, *ability_scores, proficiency_bonus as int)
                <= i32::MAX,
        ensures
            m == self.modifier_spec(skill, *ability_scores, proficiency_bonus as int),
    {
        let ability_mod = ability_scores.modifier(skill.ability());
        let prof_multiplier = self.get(skill).multiplier();
        proof {
            assert(i32::MIN <= proficiency_bonus * prof_multiplier <= i32::MAX) by (nonlinear_arith)
                requires
                    0 <= prof_multiplier <= 2,
                    i32::MIN <= proficiency_bonus * 2 <= i32::MAX,
            ;
        }
        ability_mod + (proficiency_bonus * prof_multiplier)
    }
}

/// Proficiency with weapons, armor, tools, and saving throws.
#[derive(Debug, Clone)]
pub struct Proficiencies {
    // Weapon proficiencies
    pub simple_weapons: bool,
    pub martial_weapons: bool,
    pub specific_weapons: Vec<WeaponType>,
    // Armor proficiencies
    pub light_armor: bool,
    pub medium_armor: bool,
    pub heavy_armor: bool,
    pub shields: bool,
    // Saving throw proficiencies
    pub strength_save: bool,
    pub dexterity_save: bool,
    pub constitution_save: bool,
    pub intelligence_save: bool,
    pub wisdom_save: bool,
    pub charisma_save: bool,
}

impl Default for Proficiencies {
    fn default() -> (p: Self)
        ensures
            !p.simple_weapons && !p.martial_weapons && p.specific_weapons@.len() == 0,
            !p.light_armor && !p.medium_armor && !p.heavy_armor && !p.shields,
            !p.strength_save && !p.dexterity_save && !p.constitution_save,
            !p.intelligence_save && !p.wisdom_save && !p.charisma_save,
    {
        Self {
            simple_weapons: false,
            martial_weapons: false,
            specific_weapons: Vec::new(),
            light_armor: false,
            medium_armor: false,
            heavy_armor: false,
            shields: false,
            strength_save: false,
            dexterity_save: false,
            constitution_save: false,
            intelligence_save: false,
            wisdom_save: false,
            charisma_save: false,
        }
    }
}

impl Proficiencies {
    /// Proficient with a weapon type: listed by name, or by its category
    /// (never with improvised weapons).
    pub open spec fn weapon_proficient(self, w: WeaponType) -> bool {
        self.specific_weapons@.contains(w) || match weapon_category(w) {
            WeaponCategory::Simple => self.simple_weapons,
            WeaponCategory::Martial => self.martial_weapons,
            WeaponCategory::Improvised => false,
        }
    }

    /// Proficient in the saving throws of an ability.
    pub open spec fn save_proficient(self, ability: Ability) -> bool {
        match ability {
            Ability::Strength => self.strength_save,
            Ability::Dexterity => self.dexterity_save,
            Ability::Constitution => self.constitution_save,
            Ability::Intelligence => self.intelligence_save,
            Ability::Wisdom => self.wisdom_save,
            Ability::Charisma => self.charisma_save,
        }
    }

    /// Saving throw modifier: the ability modifier, plus the proficiency
    /// bonus when proficient.
    pub open spec fn save_modifier_spec(
        self,
        ability: Ability,
        scores: AbilityScores,
        proficiency_bonus: int,
    ) -> int {
        modifier_of(scores.score(ability) as int) + if self.save_proficient(ability) {
            proficiency_bonus
        } else {
            0
        }
    }

    /// Check if proficient with a weapon.
    pub fn is_weapon_proficient(&self, weapon: &Weapon) -> (b: bool)
        ensures
            b == self.weapon_proficient(weapon.weapon_type),
    {
        let data = weapon.data();
        let mut i: usize = 0;
        while i < self.specific_weapons.len()
            invariant
                i <= self.specific_weapons@.len(),
                forall|j: int| 0 <= j < i ==> self.specific_weapons@[j] != weapon.weapon_type,
            decreases self.specific_weapons@.len() - i,
        {
            if self.specific_weapons[i] == weapon.weapon_type {
                assert(self.specific_weapons@[i as int] == weapon.weapon_type);
                return true;
            }
            i = i + 1;
        }
        match data.category {
            WeaponCategory::Simple => self.simple_weapons,
            WeaponCategory::Martial => self.martial_weapons,
            WeaponCategory::Improvised => false,
        }
    }

    /// Check if proficient with armor.
    pub fn is_armor_proficient(&self, armor: &Armor) -> (b: bool)
        ensures
            b == match armor_category(armor.armor_type) {
                ArmorCategory::Light => self.light_armor,
                ArmorCategory::Medium => self.medium_armor,
                ArmorCategory::Heavy => self.heavy_armor,
                ArmorCategory::Shield => self.shields,
            },
    {
        let data = armor.data();
        match data.category {
            ArmorCategory::Light => self.light_armor,
            ArmorCategory::Medium => self.medium_armor,
            ArmorCategory::Heavy => self.heavy_armor,
            ArmorCategory::Shield => self.shields,
        }
    }

    /// Check if proficient in a saving throw.
    pub fn has_save_proficiency(&self, ability: Ability) -> (b: bool)
        ensures
            b == self.save_proficient(ability),
    {
        match ability {
            Ability::Strength => self.strength_save,
            Ability::Dexterity => self.dexterity_save,
            Ability::Constitution => self.constitution_save,
            Ability::Intelligence => self.intelligence_save,
            Ability::Wisdom => self.wisdom_save,
            Ability::Charisma => self.charisma_save,
        }
    }

    /// Calculate saving throw modifier.
    pub fn save_modifier(
        &self,
        ability: Ability,
        ability_scores: &AbilityScores,
        proficiency_bonus: i32,
    ) -> (m: i32)
        requires
            ability_scores.in_range(),
            i32::MIN <= self.save_modifier_spec(ability, *ability_scores, proficiency_bonus as int)
                <= i32::MAX,
        ensures
            m == self.save_modifier_spec(ability, *ability_scores, proficiency_bonus as int),
    {
        let ability_mod = ability_scores.modifier(ability);
        if self.has_save_proficiency(ability) {
            ability_mod + proficiency_bonus
        } else {
            ability_mod
        }
    }
}

/// Equipment slots and inventory.
#[derive(Debug, Clone, Copy, PartialEq, Eq, Structural)]
pub struct Equipment {
    /// Currently equipped armor (body slot).
    pub armor: Option<ArmorType>,
    /// Currently equipped shield (off-hand).
    pub shield: bool,
    /// Currently wielded weapon (main hand).
    pub main_hand: Option<WeaponType>,
    /// Off-hand weapon (for dual wielding).
    pub off_hand: Option<WeaponType>,
}

impl Default for Equipment {
    fn default() -> (e: Self)
        ensures
            e == (Equipment { armor: None, shield: false, main_hand: None, off_hand: None }),
    {
        Self { armor: None, shield: false, main_hand: None, off_hand: None }
    }
}

impl Equipment {
    /// Check if wielding a shield.
    pub fn has_shield(&self) -> (b: bool)
        ensures
            b == self.shield,
    {
        self.shield
    }

    /// Check if dual wielding: a weapon in each hand and no shield.
    pub fn is_dual_wielding(&self) -> (b: bool)
        ensures
            b == (self.main_hand is Some && self.off_hand is Some && !self.shield),
    {
        self.main_hand.is_some() && self.off_hand.is_some() && !self.shield
    }
}

/// Complete character sheet combining all D&D components.
#[derive(Debug, Clone)]
pub struct CharacterSheet {
    /// Character name.
    pub name: String,
    /// Character level.
    pub level: i32,
    /// Experience points (optional, for tracking).
    pub xp: i32,
}

impl Default for CharacterSheet {
    fn default() -> (c: Self)
        ensures
            c.name@ == "Adventurer"@,
            c.level == 1,
            c.xp == 0,
    {
        Self { name: owned("Adventurer"), level: 1, xp: 0 }
    }
}

impl CharacterSheet {
    pub fn new(name: &str, level: i32) -> (c: Self)
        ensures
            c.name@ == name@,
            c.level == level,
            c.xp == 0,
    {
        Self { name: owned(name), level, xp: 0 }
    }

    /// Get proficiency bonus based on level.
    pub fn proficiency_bonus(&self) -> (b: i32)
        ensures
            b == proficiency_for(self.level as int),
    {
        proficiency_bonus(self.level)
    }
}

} // verus!
