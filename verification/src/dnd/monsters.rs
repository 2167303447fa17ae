//! D&D 5e monster templates: SRD stat blocks that spawned monsters use.
//! The flavor layer may rename and describe a monster; its mechanical
//! stats stay those of the stat block.

use vstd::prelude::*;

use super::ability::AbilityScores;
use super::armor::ArmorType;
use super::dice::{Dice, DiceType};
use super::weapons::{DamageType, WeaponType};
use crate::seqs::{first_where, lemma_first_where_ends, lemma_first_where_step};
use crate::text::{lowercase, owned, str_eq, to_lowercase};

verus! {

/// Challenge Rating for monsters.
#[derive(Debug, Clone, Copy, PartialEq, Eq, Structural)]
pub enum ChallengeRating {
    Zero,
    /// 1/8
    Eighth,
    /// 1/4
    Quarter,
    /// 1/2
    Half,
    One,
    Two,
    Three,
    Four,
    Five,
    Six,
    Seven,
    Eight,
    Nine,
    Ten,
}

/// Experience points awarded for defeating a creature of a challenge rating.
pub open spec fn cr_xp(cr: ChallengeRating) -> i32 {
    match cr {
        ChallengeRating::Zero => 0,
        ChallengeRating::Eighth => 25,
        ChallengeRating::Quarter => 50,
        ChallengeRating::Half => 100,
        ChallengeRating::One => 200,
        ChallengeRating::Two => 450,
        ChallengeRating::Three => 700,
        ChallengeRating::Four => 1100,
        ChallengeRating::Five => 1800,
        ChallengeRating::Six => 2300,
        ChallengeRating::Seven => 2900,
        ChallengeRating::Eight => 3900,
        ChallengeRating::Nine => 5000,
        ChallengeRating::Ten => 5900,
    }
}

/// Position of a challenge rating on the scale, from zero upward.
pub open spec fn cr_rank(cr: ChallengeRating) -> int {
    match cr {
        ChallengeRating::Zero => 0,
        ChallengeRating::Eighth => 1,
        ChallengeRating::Quarter => 2,
        ChallengeRating::Half => 3,
        ChallengeRating::One => 4,
        ChallengeRating::Two => 5,
        ChallengeRating::Three => 6,
        ChallengeRating::Four => 7,
        ChallengeRating::Five => 8,
        ChallengeRating::Six => 9,
        ChallengeRating::Seven => 10,
        ChallengeRating::Eight => 11,
        ChallengeRating::Nine => 12,
        ChallengeRating::Ten => 13,
    }
}

/// Proficiency bonus of a creature of a challenge rating: +2 up to CR 4,
/// +3 from CR 5 to 8, +4 from CR 9.
pub open spec fn cr_proficiency(cr: ChallengeRating) -> i32 {
    if cr_rank(cr) <= 7 {
        2
    } else if cr_rank(cr) <= 11 {
        3
    } else {
        4
    }
}

/// Display text of a challenge rating.
pub open spec fn cr_text(cr: ChallengeRating) -> Seq<char> {
    match cr {
        ChallengeRating::Zero => "0"@,
        ChallengeRating::Eighth => "1/8"@,
        ChallengeRating::Quarter => "1/4"@,
        ChallengeRating::Half => "1/2"@,
        ChallengeRating::One => "1"@,
        ChallengeRating::Two => "2"@,
        ChallengeRating::Three => "3"@,
        ChallengeRating::Four => "4"@,
        ChallengeRating::Five => "5"@,
        ChallengeRating::Six => "6"@,
        ChallengeRating::Seven => "7"@,
        ChallengeRating::Eight => "8"@,
        ChallengeRating::Nine => "9"@,
        ChallengeRating::Ten => "10"@,
    }
}

impl ChallengeRating {
    /// Get the XP value for this CR.
    pub fn xp(&self) -> (x: i32)
        ensures
            x == cr_xp(*self),
    {
        match self {
            ChallengeRating::Zero => 0,
            ChallengeRating::Eighth => 25,
            ChallengeRating::Quarter => 50,
            ChallengeRating::Half => 100,
            ChallengeRating::One => 200,
            ChallengeRating::Two => 450,
            ChallengeRating::Three => 700,
            ChallengeRating::Four => 1100,
            ChallengeRating::Five => 1800,
            ChallengeRating::Six => 2300,
            ChallengeRating::Seven => 2900,
            ChallengeRating::Eight => 3900,
            ChallengeRating::Nine => 5000,
            ChallengeRating::Ten => 5900,
        }
    }

    /// Get the proficiency bonus for this CR.
    pub fn proficiency_bonus(&self) -> (b: i32)
        ensures
            b == cr_proficiency(*self),
    {
        match self {
            ChallengeRating::Zero
            | ChallengeRating::Eighth
            | ChallengeRating::Quarter
            | ChallengeRating::Half
            | ChallengeRating::One
            | ChallengeRating::Two
            | ChallengeRating::Three
            | ChallengeRating::Four => 2,
            ChallengeRating::Five
            | ChallengeRating::Six
            | ChallengeRating::Seven
            | ChallengeRating::Eight => 3,
            ChallengeRating::Nine | ChallengeRating::Ten => 4,
        }
    }

    /// Display string for the CR.
    pub fn display(&self) -> (s: &'static str)
        ensures
            s@ == cr_text(*self),
    {
        match self {
            ChallengeRating::Zero => "0",
            ChallengeRating::Eighth => "1/8",
            ChallengeRating::Quarter => "1/4",
            ChallengeRating::Half => "1/2",
            ChallengeRating::One => "1",
            ChallengeRating::Two => "2",
            ChallengeRating::Three => "3",
            ChallengeRating::Four => "4",
            ChallengeRating::Five => "5",
            ChallengeRating::Six => "6",
            ChallengeRating::Seven => "7",
            ChallengeRating::Eight => "8",
            ChallengeRating::Nine => "9",
            ChallengeRating::Ten => "10",
        }
    }
}

/// A higher challenge rating is worth at least as much XP and has at
/// least the proficiency bonus of a lower one.
pub proof fn lemma_cr_monotone(a: ChallengeRating, b: ChallengeRating)
    requires
        cr_rank(a) <= cr_rank(b),
    ensures
        cr_xp(a) <= cr_xp(b),
        cr_proficiency(a) <= cr_proficiency(b),
{
}

/// Size category for creatures.
#[derive(Debug, Clone, Copy, PartialEq, Eq, Structural)]
pub enum CreatureSize {
    Tiny,
    Small,
    Medium,
    Large,
    Huge,
    Gargantuan,
}

impl Default for CreatureSize {
    fn default() -> (s: Self)
        ensures
            s == CreatureSize::Medium,
    {
        CreatureSize::Medium
    }
}

/// Hit die of a creature of a size.
pub open spec fn size_hit_die(s: CreatureSize) -> DiceType {
    match s {
        CreatureSize::Tiny => DiceType::D4,
        CreatureSize::Small => DiceType::D6,
        CreatureSize::Medium => DiceType::D8,
        CreatureSize::Large => DiceType::D10,
        CreatureSize::Huge => DiceType::D12,
        CreatureSize::Gargantuan => DiceType::D20,
    }
}

impl CreatureSize {
    /// Get the hit die type for this size.
    pub fn hit_die(&self) -> (d: DiceType)
        ensures
            d == size_hit_die(*self),
    {
        match self {
            CreatureSize::Tiny => DiceType::D4,
            CreatureSize::Small => DiceType::D6,
            CreatureSize::Medium => DiceType::D8,
            CreatureSize::Large => DiceType::D10,
            CreatureSize::Huge => DiceType::D12,
            CreatureSize::Gargantuan => DiceType::D20,
        }
    }
}

/// Creature type (for damage resistances/immunities).
#[derive(Debug, Clone, Copy, PartialEq, Eq, Structural)]
pub enum CreatureType {
    Aberration,
    Beast,
    Celestial,
    Construct,
    Dragon,
    Elemental,
    Fey,
    Fiend,
    Giant,
    Humanoid,
    Monstrosity,
    Ooze,
    Plant,
    Undead,
}

/// Known monster types from the SRD.
#[derive(Debug, Clone, Copy, PartialEq, Eq, Hash, Structural)]
pub enum MonsterType {
    // CR 1/4
    Skeleton,
    Zombie,
    Goblin,
    Kobold,
    // CR 1/2
    Orc,
    Hobgoblin,
    // CR 1
    Ghoul,
    Bugbear,
    // CR 2
    Ogre,
    Ghast,
    // Higher CR
    Troll,
    Wraith,
    // Demons (various CR)
    Imp,
    Quasit,
}

/// SRD name of a monster.
pub open spec fn monster_name(m: MonsterType) -> Seq<char> {
    match m {
        MonsterType::Skeleton => "Skeleton"@,
        MonsterType::Zombie => "Zombie"@,
        MonsterType::Goblin => "Goblin"@,
        MonsterType::Kobold => "Kobold"@,
        MonsterType::Orc => "Orc"@,
        MonsterType::Hobgoblin => "Hobgoblin"@,
        MonsterType::Ghoul => "Ghoul"@,
        MonsterType::Bugbear => "Bugbear"@,
        MonsterType::Ogre => "Ogre"@,
        MonsterType::Ghast => "Ghast"@,
        MonsterType::Troll => "Troll"@,
        MonsterType::Wraith => "Wraith"@,
        MonsterType::Imp => "Imp"@,
        MonsterType::Quasit => "Quasit"@,
    }
}

/// Size of a monster.
pub open spec fn monster_size(m: MonsterType) -> CreatureSize {
    match m {
        MonsterType::Skeleton => CreatureSize::Medium,
        MonsterType::Zombie => CreatureSize::Medium,
        MonsterType::Goblin => CreatureSize::Small,
        MonsterType::Kobold => CreatureSize::Small,
        MonsterType::Orc => CreatureSize::Medium,
        MonsterType::Hobgoblin => CreatureSize::Medium,
        MonsterType::Ghoul => CreatureSize::Medium,
        MonsterType::Bugbear => CreatureSize::Medium,
        MonsterType::Ogre => CreatureSize::Large,
        MonsterType::Ghast => CreatureSize::Medium,
        MonsterType::Troll => CreatureSize::Large,
        MonsterType::Wraith => CreatureSize::Medium,
        MonsterType::Imp => CreatureSize::Tiny,
        MonsterType::Quasit => CreatureSize::Tiny,
    }
}

/// Creature type of a monster.
pub open spec fn monster_creature_type(m: MonsterType) -> CreatureType {
    match m {
        MonsterType::Skeleton => CreatureType::Undead,
        MonsterType::Zombie => CreatureType::Undead,
        MonsterType::Goblin => CreatureType::Humanoid,
        MonsterType::Kobold => CreatureType::Humanoid,
        MonsterType::Orc => CreatureType::Humanoid,
        MonsterType::Hobgoblin => CreatureType::Humanoid,
        MonsterType::Ghoul => CreatureType::Undead,
        MonsterType::Bugbear => CreatureType::Humanoid,
        MonsterType::Ogre => CreatureType::Giant,
        MonsterType::Ghast => CreatureType::Undead,
        MonsterType::Troll => CreatureType::Giant,
        MonsterType::Wraith => CreatureType::Undead,
        MonsterType::Imp => CreatureType::Fiend,
        MonsterType::Quasit => CreatureType::Fiend,
    }
}

/// Challenge rating of a monster.
pub open spec fn monster_cr(m: MonsterType) -> ChallengeRating {
    match m {
        MonsterType::Skeleton => ChallengeRating::Quarter,
        MonsterType::Zombie => ChallengeRating::Quarter,
        MonsterType::Goblin => ChallengeRating::Quarter,
        MonsterType::Kobold => ChallengeRating::Eighth,
        MonsterType::Orc => ChallengeRating::Half,
        MonsterType::Hobgoblin => ChallengeRating::Half,
        MonsterType::Ghoul => ChallengeRating::One,
        MonsterType::Bugbear => ChallengeRating::One,
        MonsterType::Ogre => ChallengeRating::Two,
        MonsterType::Ghast => ChallengeRating::Two,
        MonsterType::Troll => ChallengeRating::Five,
        MonsterType::Wraith => ChallengeRating::Five,
        MonsterType::Imp => ChallengeRating::One,
        MonsterType::Quasit => ChallengeRating::One,
    }
}

/// Ability scores of a monster.
pub open spec fn monster_scores(m: MonsterType) -> AbilityScores {
    match m {
        MonsterType::Skeleton => AbilityScores { strength: 10, dexterity: 14, constitution: 15, intelligence: 6, wisdom: 8, charisma: 5 },
        MonsterType::Zombie => AbilityScores { strength: 13, dexterity: 6, constitution: 16, intelligence: 3, wisdom: 6, charisma: 5 },
        MonsterType::Goblin => AbilityScores { strength: 8, dexterity: 14, constitution: 10, intelligence: 10, wisdom: 8, charisma: 8 },
        MonsterType::Kobold => AbilityScores { strength: 7, dexterity: 15, constitution: 9, intelligence: 8, wisdom: 7, charisma: 8 },
        MonsterType::Orc => AbilityScores { strength: 16, dexterity: 12, constitution: 16, intelligence: 7, wisdom: 11, charisma: 10 },
        MonsterType::Hobgoblin => AbilityScores { strength: 13, dexterity: 12, constitution: 12, intelligence: 10, wisdom: 10, charisma: 9 },
        MonsterType::Ghoul => AbilityScores { strength: 13, dexterity: 15, constitution: 10, intelligence: 7, wisdom: 10, charisma: 6 },
        MonsterType::Bugbear => AbilityScores { strength: 15, dexterity: 14, constitution: 13, intelligence: 8, wisdom: 11, charisma: 9 },
        MonsterType::Ogre => AbilityScores { strength: 19, dexterity: 8, constitution: 16, intelligence: 5, wisdom: 7, charisma: 7 },
        MonsterType::Ghast => AbilityScores { strength: 16, dexterity: 17, constitution: 10, intelligence: 11, wisdom: 10, charisma: 8 },
        MonsterType::Troll => AbilityScores { strength: 18, dexterity: 13, constitution: 20, intelligence: 7, wisdom: 9, charisma: 7 },
        MonsterType::Wraith => AbilityScores { strength: 6, dexterity: 16, constitution: 16, intelligence: 12, wisdom: 14, charisma: 15 },
        MonsterType::Imp => AbilityScores { strength: 6, dexterity: 17, constitution: 13, intelligence: 11, wisdom: 12, charisma: 14 },
        MonsterType::Quasit => AbilityScores { strength: 5, dexterity: 17, constitution: 10, intelligence: 7, wisdom: 10, charisma: 10 },
    }
}

/// Armor class of a monster.
pub open spec fn monster_ac(m: MonsterType) -> i32 {
    match m {
        MonsterType::Skeleton => 13,
        MonsterType::Zombie => 8,
        MonsterType::Goblin => 15,
        MonsterType::Kobold => 12,
        MonsterType::Orc => 13,
        MonsterType::Hobgoblin => 18,
        MonsterType::Ghoul => 12,
        MonsterType::Bugbear => 16,
        MonsterType::Ogre => 11,
        MonsterType::Ghast => 13,
        MonsterType::Troll => 15,
        MonsterType::Wraith => 13,
        MonsterType::Imp => 13,
        MonsterType::Quasit => 13,
    }
}

/// Armor a monster wears, if any.
pub open spec fn monster_armor(m: MonsterType) -> Option<ArmorType> {
    match m {
        MonsterType::Skeleton => None,
        MonsterType::Zombie => None,
        MonsterType::Goblin => Some(ArmorType::Leather),
        MonsterType::Kobold => None,
        MonsterType::Orc => Some(ArmorType::Hide),
        MonsterType::Hobgoblin => Some(ArmorType::ChainMail),
        MonsterType::Ghoul => None,
        MonsterType::Bugbear => Some(ArmorType::Hide),
        MonsterType::Ogre => Some(ArmorType::Hide),
        MonsterType::Ghast => None,
        MonsterType::Troll => None,
        MonsterType::Wraith => None,
        MonsterType::Imp => None,
        MonsterType::Quasit => None,
    }
}

/// Hit dice of a monster.
pub open spec fn monster_hit_dice(m: MonsterType) -> Dice {
    match m {
        MonsterType::Skeleton => Dice { count: 2, die_type: DiceType::D8, modifier: 4 },
        MonsterType::Zombie => Dice { count: 3, die_type: DiceType::D8, modifier: 9 },
        MonsterType::Goblin => Dice { count: 2, die_type: DiceType::D6, modifier: 0 },
        MonsterType::Kobold => Dice { count: 2, die_type: DiceType::D6, modifier: -2i32 },
        MonsterType::Orc => Dice { count: 2, die_type: DiceType::D8, modifier: 6 },
        MonsterType::Hobgoblin => Dice { count: 2, die_type: DiceType::D8, modifier: 2 },
        MonsterType::Ghoul => Dice { count: 5, die_type: DiceType::D8, modifier: 0 },
        MonsterType::Bugbear => Dice { count: 5, die_type: DiceType::D8, modifier: 5 },
        MonsterType::Ogre => Dice { count: 7, die_type: DiceType::D10, modifier: 21 },
        MonsterType::Ghast => Dice { count: 8, die_type: DiceType::D8, modifier: 0 },
        MonsterType::Troll => Dice { count: 8, die_type: DiceType::D10, modifier: 40 },
        MonsterType::Wraith => Dice { count: 9, die_type: DiceType::D8, modifier: 27 },
        MonsterType::Imp => Dice { count: 3, die_type: DiceType::D4, modifier: 3 },
        MonsterType::Quasit => Dice { count: 3, die_type: DiceType::D4, modifier: 0 },
    }
}

/// Speed of a monster, in feet.
pub open spec fn monster_speed(m: MonsterType) -> i32 {
    match m {
        MonsterType::Skeleton => 30,
        MonsterType::Zombie => 20,
        MonsterType::Goblin => 30,
        MonsterType::Kobold => 30,
        MonsterType::Orc => 30,
        MonsterType::Hobgoblin => 30,
        MonsterType::Ghoul => 30,
        MonsterType::Bugbear => 30,
        MonsterType::Ogre => 40,
        MonsterType::Ghast => 30,
        MonsterType::Troll => 30,
        MonsterType::Wraith => 60,
        MonsterType::Imp => 20,
        MonsterType::Quasit => 40,
    }
}

/// Primary weapon of a monster.
pub open spec fn monster_weapon(m: MonsterType) -> WeaponType {
    match m {
        MonsterType::Skeleton => WeaponType::Shortsword,
        MonsterType::Zombie => WeaponType::Unarmed,
        MonsterType::Goblin => WeaponType::Scimitar,
        MonsterType::Kobold => WeaponType::Dagger,
        MonsterType::Orc => WeaponType::Greataxe,
        MonsterType::Hobgoblin => WeaponType::Longsword,
        MonsterType::Ghoul => WeaponType::Unarmed,
        MonsterType::Bugbear => WeaponType::Morningstar,
        MonsterType::Ogre => WeaponType::Greatclub,
        MonsterType::Ghast => WeaponType::Unarmed,
        MonsterType::Troll => WeaponType::Unarmed,
        MonsterType::Wraith => WeaponType::Unarmed,
        MonsterType::Imp => WeaponType::Dagger,
        MonsterType::Quasit => WeaponType::Dagger,
    }
}

/// Damage vulnerabilities of a monster.
pub open spec fn monster_vulnerabilities(m: MonsterType) -> Seq<DamageType> {
    match m {
        MonsterType::Skeleton => seq![DamageType::Bludgeoning],
        MonsterType::Zombie => Seq::<DamageType>::empty(),
        MonsterType::Goblin => Seq::<DamageType>::empty(),
        MonsterType::Kobold => Seq::<DamageType>::empty(),
        MonsterType::Orc => Seq::<DamageType>::empty(),
        MonsterType::Hobgoblin => Seq::<DamageType>::empty(),
        MonsterType::Ghoul => Seq::<DamageType>::empty(),
        MonsterType::Bugbear => Seq::<DamageType>::empty(),
        MonsterType::Ogre => Seq::<DamageType>::empty(),
        MonsterType::Ghast => Seq::<DamageType>::empty(),
        MonsterType::Troll => Seq::<DamageType>::empty(),
        MonsterType::Wraith => Seq::<DamageType>::empty(),
        MonsterType::Imp => Seq::<DamageType>::empty(),
        MonsterType::Quasit => Seq::<DamageType>::empty(),
    }
}

/// Damage resistances of a monster.
pub open spec fn monster_resistances(m: MonsterType) -> Seq<DamageType> {
    match m {
        MonsterType::Skeleton => Seq::<DamageType>::empty(),
        MonsterType::Zombie => Seq::<DamageType>::empty(),
        MonsterType::Goblin => Seq::<DamageType>::empty(),
        MonsterType::Kobold => Seq::<DamageType>::empty(),
        MonsterType::Orc => Seq::<DamageType>::empty(),
        MonsterType::Hobgoblin => Seq::<DamageType>::empty(),
        MonsterType::Ghoul => Seq::<DamageType>::empty(),
        MonsterType::Bugbear => Seq::<DamageType>::empty(),
        MonsterType::Ogre => Seq::<DamageType>::empty(),
        MonsterType::Ghast => seq![DamageType::Necrotic],
        MonsterType::Troll => Seq::<DamageType>::empty(),
        MonsterType::Wraith => seq![DamageType::Acid, DamageType::Cold, DamageType::Fire, DamageType::Lightning, DamageType::Thunder],
        MonsterType::Imp => seq![DamageType::Cold],
        MonsterType::Quasit => seq![DamageType::Cold, DamageType::Fire, DamageType::Lightning],
    }
}

/// Damage immunities of a monster.
pub open spec fn monster_immunities(m: MonsterType) -> Seq<DamageType> {
    match m {
        MonsterType::Skeleton => seq![DamageType::Poison],
        MonsterType::Zombie => seq![DamageType::Poison],
        MonsterType::Goblin => Seq::<DamageType>::empty(),
        MonsterType::Kobold => Seq::<DamageType>::empty(),
        MonsterType::Orc => Seq::<DamageType>::empty(),
        MonsterType::Hobgoblin => Seq::<DamageType>::empty(),
        MonsterType::Ghoul => seq![DamageType::Poison],
        MonsterType::Bugbear => Seq::<DamageType>::empty(),
        MonsterType::Ogre => Seq::<DamageType>::empty(),
        MonsterType::Ghast => seq![DamageType::Poison],
        MonsterType::Troll => Seq::<DamageType>::empty(),
        MonsterType::Wraith => seq![DamageType::Necrotic, DamageType::Poison],
        MonsterType::Imp => seq![DamageType::Fire, DamageType::Poison],
        MonsterType::Quasit => seq![DamageType::Poison],
    }
}

/// Darkvision range (feet) and passive perception of a monster.
pub open spec fn monster_senses(m: MonsterType) -> (i32, i32) {
    match m {
        MonsterType::Skeleton => (60, 9),
        MonsterType::Zombie => (60, 8),
        MonsterType::Goblin => (60, 9),
        MonsterType::Kobold => (60, 8),
        MonsterType::Orc => (60, 10),
        MonsterType::Hobgoblin => (60, 10),
        MonsterType::Ghoul => (60, 10),
        MonsterType::Bugbear => (60, 10),
        MonsterType::Ogre => (60, 8),
        MonsterType::Ghast => (60, 10),
        MonsterType::Troll => (60, 12),
        MonsterType::Wraith => (60, 12),
        MonsterType::Imp => (120, 11),
        MonsterType::Quasit => (120, 10),
    }
}

/// Glyph of a monster on the map.
pub open spec fn monster_glyph(m: MonsterType) -> char {
    match m {
        MonsterType::Skeleton => 's',
        MonsterType::Zombie => 'Z',
        MonsterType::Goblin => 'g',
        MonsterType::Kobold => 'k',
        MonsterType::Orc => 'o',
        MonsterType::Hobgoblin => 'H',
        MonsterType::Ghoul => 'G',
        MonsterType::Bugbear => 'B',
        MonsterType::Ogre => 'O',
        MonsterType::Ghast => 'G',
        MonsterType::Troll => 'T',
        MonsterType::Wraith => 'W',
        MonsterType::Imp => 'i',
        MonsterType::Quasit => 'q',
    }
}

/// SRD stat block of a monster.
#[derive(Debug, Clone)]
pub struct MonsterData {
    pub name: &'static str,
    pub size: CreatureSize,
    pub creature_type: CreatureType,
    pub challenge_rating: ChallengeRating,
    pub ability_scores: AbilityScores,
    pub armor_class: i32,
    pub armor_type: Option<ArmorType>,
    pub hit_dice: Dice,
    pub speed: i32,
    pub primary_weapon: WeaponType,
    pub damage_vulnerabilities: Vec<DamageType>,
    pub damage_resistances: Vec<DamageType>,
    pub damage_immunities: Vec<DamageType>,
    pub darkvision: i32,
    pub passive_perception: i32,
}

impl MonsterData {
    /// This data is the SRD stat block of monster `m`.
    pub open spec fn describes(self, m: MonsterType) -> bool {
        &&& self.name@ == monster_name(m)
        &&& self.size == monster_size(m)
        &&& self.creature_type == monster_creature_type(m)
        &&& self.challenge_rating == monster_cr(m)
        &&& self.ability_scores == monster_scores(m)
        &&& self.armor_class == monster_ac(m)
        &&& self.armor_type == monster_armor(m)
        &&& self.hit_dice == monster_hit_dice(m)
        &&& self.speed == monster_speed(m)
        &&& self.primary_weapon == monster_weapon(m)
        &&& self.damage_vulnerabilities@ =~= monster_vulnerabilities(m)
        &&& self.damage_resistances@ =~= monster_resistances(m)
        &&& self.damage_immunities@ =~= monster_immunities(m)
        &&& (self.darkvision, self.passive_perception) == monster_senses(m)
    }
}

impl MonsterType {
    /// Get the SRD data for this monster type.
    pub fn data(&self) -> (d: MonsterData)
        ensures
            d.describes(*self),
    {
        match self {
            MonsterType::Skeleton => MonsterData {
                name: "Skeleton",
                size: CreatureSize::Medium,
                creature_type: CreatureType::Undead,
                challenge_rating: ChallengeRating::Quarter,
                ability_scores: AbilityScores {
                    strength: 10,
                    dexterity: 14,
                    constitution: 15,
                    intelligence: 6,
                    wisdom: 8,
                    charisma: 5,
                },
                armor_class: 13,
                armor_type: None,
                hit_dice: Dice { count: 2, die_type: DiceType::D8, modifier: 4 },
                speed: 30,
                primary_weapon: WeaponType::Shortsword,
                damage_vulnerabilities: vec![DamageType::Bludgeoning],
                damage_resistances: vec![],
                damage_immunities: vec![DamageType::Poison],
                darkvision: 60,
                passive_perception: 9,
            },
            MonsterType::Zombie => MonsterData {
                name: "Zombie",
                size: CreatureSize::Medium,
                creature_type: CreatureType::Undead,
                challenge_rating: ChallengeRating::Quarter,
                ability_scores: AbilityScores {
                    strength: 13,
                    dexterity: 6,
                    constitution: 16,
                    intelligence: 3,
                    wisdom: 6,
                    charisma: 5,
                },
                armor_class: 8,
                armor_type: None,
                hit_dice: Dice { count: 3, die_type: DiceType::D8, modifier: 9 },
                speed: 20,
                primary_weapon: WeaponType::Unarmed,
                damage_vulnerabilities: vec![],
                damage_resistances: vec![],
                damage_immunities: vec![DamageType::Poison],
                darkvision: 60,
                passive_perception: 8,
            },
            MonsterType::Goblin => MonsterData {
                name: "Goblin",
                size: CreatureSize::Small,
                creature_type: CreatureType::Humanoid,
                challenge_rating: ChallengeRating::Quarter,
                ability_scores: AbilityScores {
                    strength: 8,
                    dexterity: 14,
                    constitution: 10,
                    intelligence: 10,
                    wisdom: 8,
                    charisma: 8,
                },
                armor_class: 15,
                armor_type: Some(ArmorType::Leather),
                hit_dice: Dice { count: 2, die_type: DiceType::D6, modifier: 0 },
                speed: 30,
                primary_weapon: WeaponType::Scimitar,
                damage_vulnerabilities: vec![],
                damage_resistances: vec![],
                damage_immunities: vec![],
                darkvision: 60,
                passive_perception: 9,
            },
            MonsterType::Kobold => MonsterData {
                name: "Kobold",
                size: CreatureSize::Small,
                creature_type: CreatureType::Humanoid,
                challenge_rating: ChallengeRating::Eighth,
                ability_scores: AbilityScores {
                    strength: 7,
                    dexterity: 15,
                    constitution: 9,
                    intelligence: 8,
                    wisdom: 7,
                    charisma: 8,
                },
                armor_class: 12,
                armor_type: None,
                hit_dice: Dice { count: 2, die_type: DiceType::D6, modifier: -2i32 },
                speed: 30,
                primary_weapon: WeaponType::Dagger,
                damage_vulnerabilities: vec![],
                damage_resistances: vec![],
                damage_immunities: vec![],
                darkvision: 60,
                passive_perception: 8,
            },
            MonsterType::Orc => MonsterData {
                name: "Orc",
                size: CreatureSize::Medium,
                creature_type: CreatureType::Humanoid,
                challenge_rating: ChallengeRating::Half,
                ability_scores: AbilityScores {
                    strength: 16,
                    dexterity: 12,
                    constitution: 16,
                    intelligence: 7,
                    wisdom: 11,
                    charisma: 10,
                },
                armor_class: 13,
                armor_type: Some(ArmorType::Hide),
                hit_dice: Dice { count: 2, die_type: DiceType::D8, modifier: 6 },
                speed: 30,
                primary_weapon: WeaponType::Greataxe,
                damage_vulnerabilities: vec![],
                damage_resistances: vec![],
                damage_immunities: vec![],
                darkvision: 60,
                passive_perception: 10,
            },
            MonsterType::Hobgoblin => MonsterData {
                name: "Hobgoblin",
                size: CreatureSize::Medium,
                creature_type: CreatureType::Humanoid,
                challenge_rating: ChallengeRating::Half,
                ability_scores: AbilityScores {
                    strength: 13,
                    dexterity: 12,
                    constitution: 12,
                    intelligence: 10,
                    wisdom: 10,
                    charisma: 9,
                },
                armor_class: 18,
                armor_type: Some(ArmorType::ChainMail),
                hit_dice: Dice { count: 2, die_type: DiceType::D8, modifier: 2 },
                speed: 30,
                primary_weapon: WeaponType::Longsword,
                damage_vulnerabilities: vec![],
                damage_resistances: vec![],
                damage_immunities: vec![],
                darkvision: 60,
                passive_perception: 10,
            },
            MonsterType::Ghoul => MonsterData {
                name: "Ghoul",
                size: CreatureSize::Medium,
                creature_type: CreatureType::Undead,
                challenge_rating: ChallengeRating::One,
                ability_scores: AbilityScores {
                    strength: 13,
                    dexterity: 15,
                    constitution: 10,
                    intelligence: 7,
                    wisdom: 10,
                    charisma: 6,
                },
                armor_class: 12,
                armor_type: None,
                hit_dice: Dice { count: 5, die_type: DiceType::D8, modifier: 0 },
                speed: 30,
                primary_weapon: WeaponType::Unarmed,
                damage_vulnerabilities: vec![],
                damage_resistances: vec![],
                damage_immunities: vec![DamageType::Poison],
                darkvision: 60,
                passive_perception: 10,
            },
            MonsterType::Bugbear => MonsterData {
                name: "Bugbear",
                size: CreatureSize::Medium,
                creature_type: CreatureType::Humanoid,
                challenge_rating: ChallengeRating::One,
                ability_scores: AbilityScores {
                    strength: 15,
                    dexterity: 14,
                    constitution: 13,
                    intelligence: 8,
                    wisdom: 11,
                    charisma: 9,
                },
                armor_class: 16,
                armor_type: Some(ArmorType::Hide),
                hit_dice: Dice { count: 5, die_type: DiceType::D8, modifier: 5 },
                speed: 30,
                primary_weapon: WeaponType::Morningstar,
                damage_vulnerabilities: vec![],
                damage_resistances: vec![],
                damage_immunities: vec![],
                darkvision: 60,
                passive_perception: 10,
            },
            MonsterType::Ogre => MonsterData {
                name: "Ogre",
                size: CreatureSize::Large,
                creature_type: CreatureType::Giant,
                challenge_rating: ChallengeRating::Two,
                ability_scores: AbilityScores {
                    strength: 19,
                    dexterity: 8,
                    constitution: 16,
                    intelligence: 5,
                    wisdom: 7,
                    charisma: 7,
                },
                armor_class: 11,
                armor_type: Some(ArmorType::Hide),
                hit_dice: Dice { count: 7, die_type: DiceType::D10, modifier: 21 },
                speed: 40,
                primary_weapon: WeaponType::Greatclub,
                damage_vulnerabilities: vec![],
                damage_resistances: vec![],
                damage_immunities: vec![],
                darkvision: 60,
                passive_perception: 8,
            },
            MonsterType::Ghast => MonsterData {
                name: "Ghast",
                size: CreatureSize::Medium,
                creature_type: CreatureType::Undead,
                challenge_rating: ChallengeRating::Two,
                ability_scores: AbilityScores {
                    strength: 16,
                    dexterity: 17,
                    constitution: 10,
                    intelligence: 11,
                    wisdom: 10,
                    charisma: 8,
                },
                armor_class: 13,
                armor_type: None,
                hit_dice: Dice { count: 8, die_type: DiceType::D8, modifier: 0 },
                speed: 30,
                primary_weapon: WeaponType::Unarmed,
                damage_vulnerabilities: vec![],
                damage_resistances: vec![DamageType::Necrotic],
                damage_immunities: vec![DamageType::Poison],
                darkvision: 60,
                passive_perception: 10,
            },
            MonsterType::Troll => MonsterData {
                name: "Troll",
                size: CreatureSize::Large,
                creature_type: CreatureType::Giant,
                challenge_rating: ChallengeRating::Five,
                ability_scores: AbilityScores {
                    strength: 18,
                    dexterity: 13,
                    constitution: 20,
                    intelligence: 7,
                    wisdom: 9,
                    charisma: 7,
                },
                armor_class: 15,
                armor_type: None,
                hit_dice: Dice { count: 8, die_type: DiceType::D10, modifier: 40 },
                speed: 30,
                primary_weapon: WeaponType::Unarmed,
                damage_vulnerabilities: vec![],
                damage_resistances: vec![],
                damage_immunities: vec![],
                darkvision: 60,
                passive_perception: 12,
            },
            MonsterType::Wraith => MonsterData {
                name: "Wraith",
                size: CreatureSize::Medium,
                creature_type: CreatureType::Undead,
                challenge_rating: ChallengeRating::Five,
                ability_scores: AbilityScores {
                    strength: 6,
                    dexterity: 16,
                    constitution: 16,
                    intelligence: 12,
                    wisdom: 14,
                    charisma: 15,
                },
                armor_class: 13,
                armor_type: None,
                hit_dice: Dice { count: 9, die_type: DiceType::D8, modifier: 27 },
                speed: 60,
                primary_weapon: WeaponType::Unarmed,
                damage_vulnerabilities: vec![],
                damage_resistances: vec![DamageType::Acid, DamageType::Cold, DamageType::Fire, DamageType::Lightning, DamageType::Thunder],
                damage_immunities: vec![DamageType::Necrotic, DamageType::Poison],
                darkvision: 60,
                passive_perception: 12,
            },
            MonsterType::Imp => MonsterData {
                name: "Imp",
                size: CreatureSize::Tiny,
                creature_type: CreatureType::Fiend,
                challenge_rating: ChallengeRating::One,
                ability_scores: AbilityScores {
                    strength: 6,
                    dexterity: 17,
                    constitution: 13,
                    intelligence: 11,
                    wisdom: 12,
                    charisma: 14,
                },
                armor_class: 13,
                armor_type: None,
                hit_dice: Dice { count: 3, die_type: DiceType::D4, modifier: 3 },
                speed: 20,
                primary_weapon: WeaponType::Dagger,
                damage_vulnerabilities: vec![],
                damage_resistances: vec![DamageType::Cold],
                damage_immunities: vec![DamageType::Fire, DamageType::Poison],
                darkvision: 120,
                passive_perception: 11,
            },
            MonsterType::Quasit => MonsterData {
                name: "Quasit",
                size: CreatureSize::Tiny,
                creature_type: CreatureType::Fiend,
                challenge_rating: ChallengeRating::One,
                ability_scores: AbilityScores {
                    strength: 5,
                    dexterity: 17,
                    constitution: 10,
                    intelligence: 7,
                    wisdom: 10,
                    charisma: 10,
                },
                armor_class: 13,
                armor_type: None,
                hit_dice: Dice { count: 3, die_type: DiceType::D4, modifier: 0 },
                speed: 40,
                primary_weapon: WeaponType::Dagger,
                damage_vulnerabilities: vec![],
                damage_resistances: vec![DamageType::Cold, DamageType::Fire, DamageType::Lightning],
                damage_immunities: vec![DamageType::Poison],
                darkvision: 120,
                passive_perception: 10,
            },
        }
    }

    /// Get a glyph for TUI rendering.
    pub fn glyph(&self) -> (c: char)
        ensures
            c == monster_glyph(*self),
    {
        match self {
            MonsterType::Skeleton => 's',
            MonsterType::Zombie => 'Z',
            MonsterType::Goblin => 'g',
            MonsterType::Kobold => 'k',
            MonsterType::Orc => 'o',
            MonsterType::Hobgoblin => 'H',
            MonsterType::Ghoul => 'G',
            MonsterType::Bugbear => 'B',
            MonsterType::Ogre => 'O',
            MonsterType::Ghast => 'G',
            MonsterType::Troll => 'T',
            MonsterType::Wraith => 'W',
            MonsterType::Imp => 'i',
            MonsterType::Quasit => 'q',
        }
    }
}

/// Template for spawning a monster with SRD stats.
#[derive(Debug, Clone)]
pub struct MonsterTemplate {
    /// Base monster type.
    pub monster_type: MonsterType,
    /// Custom name given by the flavor layer (e.g., "Snaggletooth the Rotting").
    pub custom_name: Option<String>,
    /// Visual description given by the flavor layer.
    pub visual_description: Option<String>,
    /// Weapon flavor given by the flavor layer (e.g., "Rusted Pickaxe").
    pub weapon_flavor: Option<String>,
    /// Armor flavor given by the flavor layer (e.g., "Moldy Leather Armor").
    pub armor_flavor: Option<String>,
}

impl MonsterTemplate {
    /// Create a new monster template.
    pub fn new(monster_type: MonsterType) -> (t: Self)
        ensures
            t.monster_type == monster_type,
            t.custom_name is None,
            t.visual_description is None,
            t.weapon_flavor is None,
            t.armor_flavor is None,
    {
        Self {
            monster_type,
            custom_name: None,
            visual_description: None,
            weapon_flavor: None,
            armor_flavor: None,
        }
    }

    /// Set a custom name.
    pub fn with_name(self, name: &str) -> (t: Self)
        ensures
            t.monster_type == self.monster_type,
            t.custom_name matches Some(n) && n@ == name@,
            t.visual_description == self.visual_description,
            t.weapon_flavor == self.weapon_flavor,
            t.armor_flavor == self.armor_flavor,
    {
        let mut t = self;
        t.custom_name = Some(owned(name));
        t
    }

    /// Set a visual description.
    pub fn with_description(self, desc: &str) -> (t: Self)
        ensures
            t.monster_type == self.monster_type,
            t.custom_name == self.custom_name,
            t.visual_description matches Some(d) && d@ == desc@,
            t.weapon_flavor == self.weapon_flavor,
            t.armor_flavor == self.armor_flavor,
    {
        let mut t = self;
        t.visual_description = Some(owned(desc));
        t
    }

    /// Get the display name (custom or default).
    pub fn display_name(&self) -> (s: String)
        ensures
            s@ == match self.custom_name {
                Some(n) => n@,
                None => monster_name(self.monster_type),
            },
    {
        match &self.custom_name {
            Some(name) => owned(name.as_str()),
            None => owned(self.monster_type.data().name),
        }
    }

    /// Get the base monster data.
    pub fn data(&self) -> (d: MonsterData)
        ensures
            d.describes(self.monster_type),
    {
        self.monster_type.data()
    }
}

/// The monsters listed in the monster database, in lookup order.
pub open spec fn monster_catalog() -> Seq<MonsterType> {
    seq![
        MonsterType::Skeleton,
        MonsterType::Zombie,
        MonsterType::Goblin,
        MonsterType::Kobold,
        MonsterType::Orc,
        MonsterType::Hobgoblin,
        MonsterType::Ghoul,
        MonsterType::Bugbear,
        MonsterType::Ogre,
        MonsterType::Ghast,
        MonsterType::Troll,
        MonsterType::Wraith,
        MonsterType::Imp,
        MonsterType::Quasit,
    ]
}

/// A monster of challenge rating `cr`.
pub open spec fn rated(cr: ChallengeRating) -> spec_fn(MonsterType) -> bool {
    |m: MonsterType| monster_cr(m) == cr
}

/// A monster whose lowercased name equals `q`.
pub open spec fn monster_named(q: Seq<char>) -> spec_fn(MonsterType) -> bool {
    |m: MonsterType| lowercase(monster_name(m)) == q
}

/// Database of all monster types for lookup.
pub struct MonsterDatabase {
    monsters: Vec<MonsterType>,
}

impl View for MonsterDatabase {
    type V = Seq<MonsterType>;

    closed spec fn view(&self) -> Seq<MonsterType> {
        self.monsters@
    }
}

impl Default for MonsterDatabase {
    fn default() -> (db: Self)
        ensures
            db@ == monster_catalog(),
    {
        Self {
            monsters: vec![
                MonsterType::Skeleton,
                MonsterType::Zombie,
                MonsterType::Goblin,
                MonsterType::Kobold,
                MonsterType::Orc,
                MonsterType::Hobgoblin,
                MonsterType::Ghoul,
                MonsterType::Bugbear,
                MonsterType::Ogre,
                MonsterType::Ghast,
                MonsterType::Troll,
                MonsterType::Wraith,
                MonsterType::Imp,
                MonsterType::Quasit,
            ],
        }
    }
}

impl MonsterDatabase {
    /// Find monsters by CR, in database order.
    pub fn find_by_cr(&self, cr: ChallengeRating) -> (r: Vec<MonsterType>)
        ensures
            r@ == self@.filter(rated(cr)),
    {
        let ghost s = self.monsters@;
        let mut r: Vec<MonsterType> = Vec::new();
        let mut i: usize = 0;
        while i < self.monsters.len()
            invariant
                s == self.monsters@,
                i <= s.len(),
                r@ == s.take(i as int).filter(rated(cr)),
            decreases s.len() - i,
        {
            proof {
                reveal(Seq::filter);
                assert(s.take(i + 1).drop_last() =~= s.take(i as int));
            }
            let m = self.monsters[i];
            if m.data().challenge_rating == cr {
                r.push(m);
            }
            i = i + 1;
        }
        proof {
            assert(s.take(s.len() as int) =~= s);
        }
        r
    }

    /// Find a monster by name (case-insensitive): the first whose
    /// lowercased name equals the lowercased query.
    pub fn find_by_name(&self, name: &str) -> (r: Option<MonsterType>)
        ensures
            r == first_where(self@, monster_named(lowercase(name@))),
    {
        let name_lower = to_lowercase(name);
        let ghost q = lowercase(name@);
        let ghost s = self.monsters@;
        proof {
            lemma_first_where_ends(s, monster_named(q));
        }
        let mut i: usize = 0;
        while i < self.monsters.len()
            invariant
                i <= s.len(),
                s == self.monsters@,
                name_lower@ == q,
                q == lowercase(name@),
                first_where(s, monster_named(q)) == first_where(
                    s.subrange(i as int, s.len() as int),
                    monster_named(q),
                ),
            decreases s.len() - i,
        {
            let m = self.monsters[i];
            let lower = to_lowercase(m.data().name);
            proof {
                lemma_first_where_step(s, monster_named(q), i as int);
            }
            if str_eq(lower.as_str(), name_lower.as_str()) {
                return Some(m);
            }
            i = i + 1;
        }
        proof {
            lemma_first_where_ends(s, monster_named(q));
        }
        None
    }

    /// Get all monsters.
    pub fn all(&self) -> (r: &[MonsterType])
        ensures
            r@ == self@,
    {
        self.monsters.as_slice()
    }
}

} // verus!
