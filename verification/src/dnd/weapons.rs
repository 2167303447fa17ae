//! Weapons from the SRD: categories, properties, damage and lookup.

use vstd::prelude::*;

use super::ability::Ability;
use super::dice::{Dice, DiceType};
use crate::seqs::{first_where, lemma_first_where_ends, lemma_first_where_step};
use crate::text::{has_substring, has_word_in, lowercase, owned, shares_word, str_contains, str_eq, to_lowercase};

verus! {

/// Weapon proficiency category.
#[derive(Debug, Clone, Copy, PartialEq, Eq, Hash, Structural)]
pub enum WeaponCategory {
    Simple,
    Martial,
    Improvised,
}

/// Melee vs Ranged.
#[derive(Debug, Clone, Copy, PartialEq, Eq, Hash, Structural)]
pub enum WeaponRange {
    Melee,
    Ranged,
}

/// Weapon property flags.
#[derive(Debug, Clone, Copy, PartialEq, Eq, Hash, Structural)]
pub enum WeaponProperty {
    /// Can use DEX instead of STR for attack/damage.
    Finesse,
    /// Can be dual-wielded.
    Light,
    /// Small creatures have disadvantage; requires STR 13+.
    Heavy,
    /// +5 ft reach.
    Reach,
    /// Can be thrown.
    Thrown,
    /// Requires two hands.
    TwoHanded,
    /// Can use one or two hands (with different damage).
    Versatile,
    /// Uses ammunition.
    Ammunition,
    /// Requires reloading after each shot.
    Loading,
    /// Has a special rule.
    Special,
}

/// Types of damage.
#[derive(Debug, Clone, Copy, PartialEq, Eq, Hash, Structural)]
pub enum DamageType {
    Bludgeoning,
    Piercing,
    Slashing,
    // Elemental damage types
    Fire,
    Cold,
    Lightning,
    Thunder,
    Acid,
    Poison,
    // Other damage types
    Radiant,
    Necrotic,
    Force,
    Psychic,
}

/// Lowercase name of a damage type.
pub open spec fn damage_type_name(t: DamageType) -> Seq<char> {
    match t {
        DamageType::Bludgeoning => "bludgeoning"@,
        DamageType::Piercing => "piercing"@,
        DamageType::Slashing => "slashing"@,
        DamageType::Fire => "fire"@,
        DamageType::Cold => "cold"@,
        DamageType::Lightning => "lightning"@,
        DamageType::Thunder => "thunder"@,
        DamageType::Acid => "acid"@,
        DamageType::Poison => "poison"@,
        DamageType::Radiant => "radiant"@,
        DamageType::Necrotic => "necrotic"@,
        DamageType::Force => "force"@,
        DamageType::Psychic => "psychic"@,
    }
}

impl Default for DamageType {
    fn default() -> (t: Self)
        ensures
            t == DamageType::Bludgeoning,
    {
        DamageType::Bludgeoning
    }
}

impl DamageType {
    /// Lowercase name, such as `slashing`.
    pub fn name(&self) -> (s: &'static str)
        ensures
            s@ == damage_type_name(*self),
    {
        match self {
            DamageType::Bludgeoning => "bludgeoning",
            DamageType::Piercing => "piercing",
            DamageType::Slashing => "slashing",
            DamageType::Fire => "fire",
            DamageType::Cold => "cold",
            DamageType::Lightning => "lightning",
            DamageType::Thunder => "thunder",
            DamageType::Acid => "acid",
            DamageType::Poison => "poison",
            DamageType::Radiant => "radiant",
            DamageType::Necrotic => "necrotic",
            DamageType::Force => "force",
            DamageType::Psychic => "psychic",
        }
    }
}

/// Known weapon types from the SRD.
#[derive(Debug, Clone, Copy, PartialEq, Eq, Hash, Structural)]
pub enum WeaponType {
    // Simple Melee
    Club,
    Dagger,
    Greatclub,
    Handaxe,
    Javelin,
    LightHammer,
    Mace,
    Quarterstaff,
    Sickle,
    Spear,
    // Simple Ranged
    LightCrossbow,
    Dart,
    Shortbow,
    Sling,
    // Martial Melee
    Battleaxe,
    Flail,
    Glaive,
    Greataxe,
    Greatsword,
    Halberd,
    Lance,
    Longsword,
    Maul,
    Morningstar,
    Pike,
    Rapier,
    Scimitar,
    Shortsword,
    Trident,
    WarPick,
    Warhammer,
    Whip,
    // Martial Ranged
    Blowgun,
    HandCrossbow,
    HeavyCrossbow,
    Longbow,
    Net,
    // Special
    Unarmed,
    Improvised,
}

/// SRD name of a weapon.
pub open spec fn weapon_name(w: WeaponType) -> Seq<char> {
    match w {
        WeaponType::Club => "Club"@,
        WeaponType::Dagger => "Dagger"@,
        WeaponType::Greatclub => "Greatclub"@,
        WeaponType::Handaxe => "Handaxe"@,
        WeaponType::Javelin => "Javelin"@,
        WeaponType::LightHammer => "Light Hammer"@,
        WeaponType::Mace => "Mace"@,
        WeaponType::Quarterstaff => "Quarterstaff"@,
        WeaponType::Sickle => "Sickle"@,
        WeaponType::Spear => "Spear"@,
        WeaponType::LightCrossbow => "Light Crossbow"@,
        WeaponType::Dart => "Dart"@,
        WeaponType::Shortbow => "Shortbow"@,
        WeaponType::Sling => "Sling"@,
        WeaponType::Battleaxe => "Battleaxe"@,
        WeaponType::Flail => "Flail"@,
        WeaponType::Glaive => "Glaive"@,
        WeaponType::Greataxe => "Greataxe"@,
        WeaponType::Greatsword => "Greatsword"@,
        WeaponType::Halberd => "Halberd"@,
        WeaponType::Lance => "Lance"@,
        WeaponType::Longsword => "Longsword"@,
        WeaponType::Maul => "Maul"@,
        WeaponType::Morningstar => "Morningstar"@,
        WeaponType::Pike => "Pike"@,
        WeaponType::Rapier => "Rapier"@,
        WeaponType::Scimitar => "Scimitar"@,
        WeaponType::Shortsword => "Shortsword"@,
        WeaponType::Trident => "Trident"@,
        WeaponType::WarPick => "War Pick"@,
        WeaponType::Warhammer => "Warhammer"@,
        WeaponType::Whip => "Whip"@,
        WeaponType::Blowgun => "Blowgun"@,
        WeaponType::HandCrossbow => "Hand Crossbow"@,
        WeaponType::HeavyCrossbow => "Heavy Crossbow"@,
        WeaponType::Longbow => "Longbow"@,
        WeaponType::Net => "Net"@,
        WeaponType::Unarmed => "Unarmed Strike"@,
        WeaponType::Improvised => "Improvised Weapon"@,
    }
}

/// Proficiency category of a weapon.
pub open spec fn weapon_category(w: WeaponType) -> WeaponCategory {
    match w {
        WeaponType::Club => WeaponCategory::Simple,
        WeaponType::Dagger => WeaponCategory::Simple,
        WeaponType::Greatclub => WeaponCategory::Simple,
        WeaponType::Handaxe => WeaponCategory::Simple,
        WeaponType::Javelin => WeaponCategory::Simple,
        WeaponType::LightHammer => WeaponCategory::Simple,
        WeaponType::Mace => WeaponCategory::Simple,
        WeaponType::Quarterstaff => WeaponCategory::Simple,
        WeaponType::Sickle => WeaponCategory::Simple,
        WeaponType::Spear => WeaponCategory::Simple,
        WeaponType::LightCrossbow => WeaponCategory::Simple,
        WeaponType::Dart => WeaponCategory::Simple,
        WeaponType::Shortbow => WeaponCategory::Simple,
        WeaponType::Sling => WeaponCategory::Simple,
        WeaponType::Battleaxe => WeaponCategory::Martial,
        WeaponType::Flail => WeaponCategory::Martial,
        WeaponType::Glaive => WeaponCategory::Martial,
        WeaponType::Greataxe => WeaponCategory::Martial,
        WeaponType::Greatsword => WeaponCategory::Martial,
        WeaponType::Halberd => WeaponCategory::Martial,
        WeaponType::Lance => WeaponCategory::Martial,
        WeaponType::Longsword => WeaponCategory::Martial,
        WeaponType::Maul => WeaponCategory::Martial,
        WeaponType::Morningstar => WeaponCategory::Martial,
        WeaponType::Pike => WeaponCategory::Martial,
        WeaponType::Rapier => WeaponCategory::Martial,
        WeaponType::Scimitar => WeaponCategory::Martial,
        WeaponType::Shortsword => WeaponCategory::Martial,
        WeaponType::Trident => WeaponCategory::Martial,
        WeaponType::WarPick => WeaponCategory::Martial,
        WeaponType::Warhammer => WeaponCategory::Martial,
        WeaponType::Whip => WeaponCategory::Martial,
        WeaponType::Blowgun => WeaponCategory::Martial,
        WeaponType::HandCrossbow => WeaponCategory::Martial,
        WeaponType::HeavyCrossbow => WeaponCategory::Martial,
        WeaponType::Longbow => WeaponCategory::Martial,
        WeaponType::Net => WeaponCategory::Martial,
        WeaponType::Unarmed => WeaponCategory::Simple,
        WeaponType::Improvised => WeaponCategory::Improvised,
    }
}

/// Whether a weapon is melee or ranged.
pub open spec fn weapon_range_kind(w: WeaponType) -> WeaponRange {
    match w {
        WeaponType::Club => WeaponRange::Melee,
        WeaponType::Dagger => WeaponRange::Melee,
        WeaponType::Greatclub => WeaponRange::Melee,
        WeaponType::Handaxe => WeaponRange::Melee,
        WeaponType::Javelin => WeaponRange::Melee,
        WeaponType::LightHammer => WeaponRange::Melee,
        WeaponType::Mace => WeaponRange::Melee,
        WeaponType::Quarterstaff => WeaponRange::Melee,
        WeaponType::Sickle => WeaponRange::Melee,
        WeaponType::Spear => WeaponRange::Melee,
        WeaponType::LightCrossbow => WeaponRange::Ranged,
        WeaponType::Dart => WeaponRange::Ranged,
        WeaponType::Shortbow => WeaponRange::Ranged,
        WeaponType::Sling => WeaponRange::Ranged,
        WeaponType::Battleaxe => WeaponRange::Melee,
        WeaponType::Flail => WeaponRange::Melee,
        WeaponType::Glaive => WeaponRange::Melee,
        WeaponType::Greataxe => WeaponRange::Melee,
        WeaponType::Greatsword => WeaponRange::Melee,
        WeaponType::Halberd => WeaponRange::Melee,
        WeaponType::Lance => WeaponRange::Melee,
        WeaponType::Longsword => WeaponRange::Melee,
        WeaponType::Maul => WeaponRange::Melee,
        WeaponType::Morningstar => WeaponRange::Melee,
        WeaponType::Pike => WeaponRange::Melee,
        WeaponType::Rapier => WeaponRange::Melee,
        WeaponType::Scimitar => WeaponRange::Melee,
        WeaponType::Shortsword => WeaponRange::Melee,
        WeaponType::Trident => WeaponRange::Melee,
        WeaponType::WarPick => WeaponRange::Melee,
        WeaponType::Warhammer => WeaponRange::Melee,
        WeaponType::Whip => WeaponRange::Melee,
        WeaponType::Blowgun => WeaponRange::Ranged,
        WeaponType::HandCrossbow => WeaponRange::Ranged,
        WeaponType::HeavyCrossbow => WeaponRange::Ranged,
        WeaponType::Longbow => WeaponRange::Ranged,
        WeaponType::Net => WeaponRange::Ranged,
        WeaponType::Unarmed => WeaponRange::Melee,
        WeaponType::Improvised => WeaponRange::Melee,
    }
}

/// Damage dice of a weapon.
pub open spec fn weapon_damage(w: WeaponType) -> Dice {
    match w {
        WeaponType::Club => Dice { count: 1, die_type: DiceType::D4, modifier: 0 },
        WeaponType::Dagger => Dice { count: 1, die_type: DiceType::D4, modifier: 0 },
        WeaponType::Greatclub => Dice { count: 1, die_type: DiceType::D8, modifier: 0 },
        WeaponType::Handaxe => Dice { count: 1, die_type: DiceType::D6, modifier: 0 },
        WeaponType::Javelin => Dice { count: 1, die_type: DiceType::D6, modifier: 0 },
        WeaponType::LightHammer => Dice { count: 1, die_type: DiceType::D4, modifier: 0 },
        WeaponType::Mace => Dice { count: 1, die_type: DiceType::D6, modifier: 0 },
        WeaponType::Quarterstaff => Dice { count: 1, die_type: DiceType::D6, modifier: 0 },
        WeaponType::Sickle => Dice { count: 1, die_type: DiceType::D4, modifier: 0 },
        WeaponType::Spear => Dice { count: 1, die_type: DiceType::D6, modifier: 0 },
        WeaponType::LightCrossbow => Dice { count: 1, die_type: DiceType::D8, modifier: 0 },
        WeaponType::Dart => Dice { count: 1, die_type: DiceType::D4, modifier: 0 },
        WeaponType::Shortbow => Dice { count: 1, die_type: DiceType::D6, modifier: 0 },
        WeaponType::Sling => Dice { count: 1, die_type: DiceType::D4, modifier: 0 },
        WeaponType::Battleaxe => Dice { count: 1, die_type: DiceType::D8, modifier: 0 },
        WeaponType::Flail => Dice { count: 1, die_type: DiceType::D8, modifier: 0 },
        WeaponType::Glaive => Dice { count: 1, die_type: DiceType::D10, modifier: 0 },
        WeaponType::Greataxe => Dice { count: 1, die_type: DiceType::D12, modifier: 0 },
        WeaponType::Greatsword => Dice { count: 2, die_type: DiceType::D6, modifier: 0 },
        WeaponType::Halberd => Dice { count: 1, die_type: DiceType::D10, modifier: 0 },
        WeaponType::Lance => Dice { count: 1, die_type: DiceType::D12, modifier: 0 },
        WeaponType::Longsword => Dice { count: 1, die_type: DiceType::D8, modifier: 0 },
        WeaponType::Maul => Dice { count: 2, die_type: DiceType::D6, modifier: 0 },
        WeaponType::Morningstar => Dice { count: 1, die_type: DiceType::D8, modifier: 0 },
        WeaponType::Pike => Dice { count: 1, die_type: DiceType::D10, modifier: 0 },
        WeaponType::Rapier => Dice { count: 1, die_type: DiceType::D8, modifier: 0 },
        WeaponType::Scimitar => Dice { count: 1, die_type: DiceType::D6, modifier: 0 },
        WeaponType::Shortsword => Dice { count: 1, die_type: DiceType::D6, modifier: 0 },
        WeaponType::Trident => Dice { count: 1, die_type: DiceType::D6, modifier: 0 },
        WeaponType::WarPick => Dice { count: 1, die_type: DiceType::D8, modifier: 0 },
        WeaponType::Warhammer => Dice { count: 1, die_type: DiceType::D8, modifier: 0 },
        WeaponType::Whip => Dice { count: 1, die_type: DiceType::D4, modifier: 0 },
        WeaponType::Blowgun => Dice { count: 0, die_type: DiceType::D4, modifier: 1 },
        WeaponType::HandCrossbow => Dice { count: 1, die_type: DiceType::D6, modifier: 0 },
        WeaponType::HeavyCrossbow => Dice { count: 1, die_type: DiceType::D10, modifier: 0 },
        WeaponType::Longbow => Dice { count: 1, die_type: DiceType::D8, modifier: 0 },
        WeaponType::Net => Dice { count: 0, die_type: DiceType::D4, modifier: 0 },
        WeaponType::Unarmed => Dice { count: 0, die_type: DiceType::D4, modifier: 1 },
        WeaponType::Improvised => Dice { count: 1, die_type: DiceType::D4, modifier: 0 },
    }
}

/// Damage type of a weapon.
pub open spec fn weapon_damage_type(w: WeaponType) -> DamageType {
    match w {
        WeaponType::Club => DamageType::Bludgeoning,
        WeaponType::Dagger => DamageType::Piercing,
        WeaponType::Greatclub => DamageType::Bludgeoning,
        WeaponType::Handaxe => DamageType::Slashing,
        WeaponType::Javelin => DamageType::Piercing,
        WeaponType::LightHammer => DamageType::Bludgeoning,
        WeaponType::Mace => DamageType::Bludgeoning,
        WeaponType::Quarterstaff => DamageType::Bludgeoning,
        WeaponType::Sickle => DamageType::Slashing,
        WeaponType::Spear => DamageType::Piercing,
        WeaponType::LightCrossbow => DamageType::Piercing,
        WeaponType::Dart => DamageType::Piercing,
        WeaponType::Shortbow => DamageType::Piercing,
        WeaponType::Sling => DamageType::Bludgeoning,
        WeaponType::Battleaxe => DamageType::Slashing,
        WeaponType::Flail => DamageType::Bludgeoning,
        WeaponType::Glaive => DamageType::Slashing,
        WeaponType::Greataxe => DamageType::Slashing,
        WeaponType::Greatsword => DamageType::Slashing,
        WeaponType::Halberd => DamageType::Slashing,
        WeaponType::Lance => DamageType::Piercing,
        WeaponType::Longsword => DamageType::Slashing,
        WeaponType::Maul => DamageType::Bludgeoning,
        WeaponType::Morningstar => DamageType::Piercing,
        WeaponType::Pike => DamageType::Piercing,
        WeaponType::Rapier => DamageType::Piercing,
        WeaponType::Scimitar => DamageType::Slashing,
        WeaponType::Shortsword => DamageType::Piercing,
        WeaponType::Trident => DamageType::Piercing,
        WeaponType::WarPick => DamageType::Piercing,
        WeaponType::Warhammer => DamageType::Bludgeoning,
        WeaponType::Whip => DamageType::Slashing,
        WeaponType::Blowgun => DamageType::Piercing,
        WeaponType::HandCrossbow => DamageType::Piercing,
        WeaponType::HeavyCrossbow => DamageType::Piercing,
        WeaponType::Longbow => DamageType::Piercing,
        WeaponType::Net => DamageType::Bludgeoning,
        WeaponType::Unarmed => DamageType::Bludgeoning,
        WeaponType::Improvised => DamageType::Bludgeoning,
    }
}

/// Properties of a weapon, in SRD order.
pub open spec fn weapon_properties(w: WeaponType) -> Seq<WeaponProperty> {
    match w {
        WeaponType::Club => seq![WeaponProperty::Light],
        WeaponType::Dagger => seq![WeaponProperty::Finesse, WeaponProperty::Light, WeaponProperty::Thrown],
        WeaponType::Greatclub => seq![WeaponProperty::TwoHanded],
        WeaponType::Handaxe => seq![WeaponProperty::Light, WeaponProperty::Thrown],
        WeaponType::Javelin => seq![WeaponProperty::Thrown],
        WeaponType::LightHammer => seq![WeaponProperty::Light, WeaponProperty::Thrown],
        WeaponType::Mace => Seq::<WeaponProperty>::empty(),
        WeaponType::Quarterstaff => seq![WeaponProperty::Versatile],
        WeaponType::Sickle => seq![WeaponProperty::Light],
        WeaponType::Spear => seq![WeaponProperty::Thrown, WeaponProperty::Versatile],
        WeaponType::LightCrossbow => seq![WeaponProperty::Ammunition, WeaponProperty::Loading, WeaponProperty::TwoHanded],
        WeaponType::Dart => seq![WeaponProperty::Finesse, WeaponProperty::Thrown],
        WeaponType::Shortbow => seq![WeaponProperty::Ammunition, WeaponProperty::TwoHanded],
        WeaponType::Sling => seq![WeaponProperty::Ammunition],
        WeaponType::Battleaxe => seq![WeaponProperty::Versatile],
        WeaponType::Flail => Seq::<WeaponProperty>::empty(),
        WeaponType::Glaive => seq![WeaponProperty::Heavy, WeaponProperty::Reach, WeaponProperty::TwoHanded],
        WeaponType::Greataxe => seq![WeaponProperty::Heavy, WeaponProperty::TwoHanded],
        WeaponType::Greatsword => seq![WeaponProperty::Heavy, WeaponProperty::TwoHanded],
        WeaponType::Halberd => seq![WeaponProperty::Heavy, WeaponProperty::Reach, WeaponProperty::TwoHanded],
        WeaponType::Lance => seq![WeaponProperty::Reach, WeaponProperty::Special],
        WeaponType::Longsword => seq![WeaponProperty::Versatile],
        WeaponType::Maul => seq![WeaponProperty::Heavy, WeaponProperty::TwoHanded],
        WeaponType::Morningstar => Seq::<WeaponProperty>::empty(),
        WeaponType::Pike => seq![WeaponProperty::Heavy, WeaponProperty::Reach, WeaponProperty::TwoHanded],
        WeaponType::Rapier => seq![WeaponProperty::Finesse],
        WeaponType::Scimitar => seq![WeaponProperty::Finesse, WeaponProperty::Light],
        WeaponType::Shortsword => seq![WeaponProperty::Finesse, WeaponProperty::Light],
        WeaponType::Trident => seq![WeaponProperty::Thrown, WeaponProperty::Versatile],
        WeaponType::WarPick => Seq::<WeaponProperty>::empty(),
        WeaponType::Warhammer => seq![WeaponProperty::Versatile],
        WeaponType::Whip => seq![WeaponProperty::Finesse, WeaponProperty::Reach],
        WeaponType::Blowgun => seq![WeaponProperty::Ammunition, WeaponProperty::Loading],
        WeaponType::HandCrossbow => seq![WeaponProperty::Ammunition, WeaponProperty::Light, WeaponProperty::Loading],
        WeaponType::HeavyCrossbow => seq![WeaponProperty::Ammunition, WeaponProperty::Heavy, WeaponProperty::Loading, WeaponProperty::TwoHanded],
        WeaponType::Longbow => seq![WeaponProperty::Ammunition, WeaponProperty::Heavy, WeaponProperty::TwoHanded],
        WeaponType::Net => seq![WeaponProperty::Thrown, WeaponProperty::Special],
        WeaponType::Unarmed => Seq::<WeaponProperty>::empty(),
        WeaponType::Improvised => Seq::<WeaponProperty>::empty(),
    }
}

/// Normal and long range of a weapon, in feet.
pub open spec fn weapon_reach(w: WeaponType) -> (i32, i32) {
    match w {
        WeaponType::Club => (5, 5),
        WeaponType::Dagger => (5, 5),
        WeaponType::Greatclub => (5, 5),
        WeaponType::Handaxe => (5, 5),
        WeaponType::Javelin => (30, 120),
        WeaponType::LightHammer => (20, 60),
        WeaponType::Mace => (5, 5),
        WeaponType::Quarterstaff => (5, 5),
        WeaponType::Sickle => (5, 5),
        WeaponType::Spear => (20, 60),
        WeaponType::LightCrossbow => (80, 320),
        WeaponType::Dart => (20, 60),
        WeaponType::Shortbow => (80, 320),
        WeaponType::Sling => (30, 120),
        WeaponType::Battleaxe => (5, 5),
        WeaponType::Flail => (5, 5),
        WeaponType::Glaive => (10, 10),
        WeaponType::Greataxe => (5, 5),
        WeaponType::Greatsword => (5, 5),
        WeaponType::Halberd => (10, 10),
        WeaponType::Lance => (10, 10),
        WeaponType::Longsword => (5, 5),
        WeaponType::Maul => (5, 5),
        WeaponType::Morningstar => (5, 5),
        WeaponType::Pike => (10, 10),
        WeaponType::Rapier => (5, 5),
        WeaponType::Scimitar => (5, 5),
        WeaponType::Shortsword => (5, 5),
        WeaponType::Trident => (20, 60),
        WeaponType::WarPick => (5, 5),
        WeaponType::Warhammer => (5, 5),
        WeaponType::Whip => (10, 10),
        WeaponType::Blowgun => (25, 100),
        WeaponType::HandCrossbow => (30, 120),
        WeaponType::HeavyCrossbow => (100, 400),
        WeaponType::Longbow => (150, 600),
        WeaponType::Net => (5, 15),
        WeaponType::Unarmed => (5, 5),
        WeaponType::Improvised => (5, 5),
    }
}

/// Two-handed damage dice of a versatile weapon.
pub open spec fn weapon_versatile(w: WeaponType) -> Option<Dice> {
    match w {
        WeaponType::Club => None,
        WeaponType::Dagger => None,
        WeaponType::Greatclub => None,
        WeaponType::Handaxe => None,
        WeaponType::Javelin => None,
        WeaponType::LightHammer => None,
        WeaponType::Mace => None,
        WeaponType::Quarterstaff => Some(Dice { count: 1, die_type: DiceType::D8, modifier: 0 }),
        WeaponType::Sickle => None,
        WeaponType::Spear => Some(Dice { count: 1, die_type: DiceType::D8, modifier: 0 }),
        WeaponType::LightCrossbow => None,
        WeaponType::Dart => None,
        WeaponType::Shortbow => None,
        WeaponType::Sling => None,
        WeaponType::Battleaxe => Some(Dice { count: 1, die_type: DiceType::D10, modifier: 0 }),
        WeaponType::Flail => None,
        WeaponType::Glaive => None,
        WeaponType::Greataxe => None,
        WeaponType::Greatsword => None,
        WeaponType::Halberd => None,
        WeaponType::Lance => None,
        WeaponType::Longsword => Some(Dice { count: 1, die_type: DiceType::D10, modifier: 0 }),
        WeaponType::Maul => None,
        WeaponType::Morningstar => None,
        WeaponType::Pike => None,
        WeaponType::Rapier => None,
        WeaponType::Scimitar => None,
        WeaponType::Shortsword => None,
        WeaponType::Trident => Some(Dice { count: 1, die_type: DiceType::D8, modifier: 0 }),
        WeaponType::WarPick => None,
        WeaponType::Warhammer => Some(Dice { count: 1, die_type: DiceType::D10, modifier: 0 }),
        WeaponType::Whip => None,
        WeaponType::Blowgun => None,
        WeaponType::HandCrossbow => None,
        WeaponType::HeavyCrossbow => None,
        WeaponType::Longbow => None,
        WeaponType::Net => None,
        WeaponType::Unarmed => None,
        WeaponType::Improvised => None,
    }
}


/// Static weapon data from the SRD.
#[derive(Debug, Clone)]
pub struct WeaponData {
    pub name: &'static str,
    pub category: WeaponCategory,
    pub range: WeaponRange,
    pub damage: Dice,
    pub damage_type: DamageType,
    pub properties: Vec<WeaponProperty>,
    pub range_normal: i32,
    pub range_long: i32,
    pub versatile_damage: Option<Dice>,
}

/// The ability a weapon attacks with before the finesse choice: DEX for
/// finesse and ranged weapons, STR otherwise.
pub open spec fn weapon_attack_ability(w: WeaponType) -> Ability {
    if weapon_properties(w).contains(WeaponProperty::Finesse) {
        Ability::Dexterity
    } else if weapon_range_kind(w) == WeaponRange::Ranged {
        Ability::Dexterity
    } else {
        Ability::Strength
    }
}

impl WeaponData {
    /// This data is the SRD entry of weapon `w`.
    pub open spec fn describes(self, w: WeaponType) -> bool {
        &&& self.name@ == weapon_name(w)
        &&& self.category == weapon_category(w)
        &&& self.range == weapon_range_kind(w)
        &&& self.damage == weapon_damage(w)
        &&& self.damage_type == weapon_damage_type(w)
        &&& self.properties@ =~= weapon_properties(w)
        &&& (self.range_normal, self.range_long) == weapon_reach(w)
        &&& self.versatile_damage == weapon_versatile(w)
    }

    /// Check if this weapon has a specific property.
    pub fn has_property(&self, property: WeaponProperty) -> (b: bool)
        ensures
            b == self.properties@.contains(property),
    {
        let mut i: usize = 0;
        while i < self.properties.len()
            invariant
                i <= self.properties@.len(),
                forall|j: int| 0 <= j < i ==> self.properties@[j] != property,
            decreases self.properties@.len() - i,
        {
            if self.properties[i] == property {
                assert(self.properties@[i as int] == property);
                return true;
            }
            i = i + 1;
        }
        false
    }

    /// Get the ability used for attack/damage rolls (finesse weapons report
    /// DEX; the caller picks the higher of STR and DEX for them).
    pub fn attack_ability(&self) -> (a: Ability)
        ensures
            a == (if self.properties@.contains(WeaponProperty::Finesse) {
                Ability::Dexterity
            } else if self.range == WeaponRange::Ranged {
                Ability::Dexterity
            } else {
                Ability::Strength
            }),
    {
        if self.has_property(WeaponProperty::Finesse) {
            Ability::Dexterity
        } else if self.range == WeaponRange::Ranged {
            Ability::Dexterity
        } else {
            Ability::Strength
        }
    }
}

impl WeaponType {
    /// Get the base weapon data for this type.
    pub fn base_data(&self) -> (d: WeaponData)
        ensures
            d.describes(*self),
    {
        match self {
            WeaponType::Club => WeaponData {
                name: "Club",
                category: WeaponCategory::Simple,
                range: WeaponRange::Melee,
                damage: Dice::simple(1, DiceType::D4),
                damage_type: DamageType::Bludgeoning,
                properties: vec![WeaponProperty::Light],
                range_normal: 5,
                range_long: 5,
                versatile_damage: None,
            },
            WeaponType::Dagger => WeaponData {
                name: "Dagger",
                category: WeaponCategory::Simple,
                range: WeaponRange::Melee,
                damage: Dice::simple(1, DiceType::D4),
                damage_type: DamageType::Piercing,
                properties: vec![WeaponProperty::Finesse, WeaponProperty::Light, WeaponProperty::Thrown],
                range_normal: 5,
                range_long: 5,
                versatile_damage: None,
            },
            WeaponType::Greatclub => WeaponData {
                name: "Greatclub",
                category: WeaponCategory::Simple,
                range: WeaponRange::Melee,
                damage: Dice::simple(1, DiceType::D8),
                damage_type: DamageType::Bludgeoning,
                properties: vec![WeaponProperty::TwoHanded],
                range_normal: 5,
                range_long: 5,
                versatile_damage: None,
            },
            WeaponType::Handaxe => WeaponData {
                name: "Handaxe",
                category: WeaponCategory::Simple,
                range: WeaponRange::Melee,
                damage: Dice::simple(1, DiceType::D6),
                damage_type: DamageType::Slashing,
                properties: vec![WeaponProperty::Light, WeaponProperty::Thrown],
                range_normal: 5,
                range_long: 5,
                versatile_damage: None,
            },
            WeaponType::Javelin => WeaponData {
                name: "Javelin",
                category: WeaponCategory::Simple,
                range: WeaponRange::Melee,
                damage: Dice::simple(1, DiceType::D6),
                damage_type: DamageType::Piercing,
                properties: vec![WeaponProperty::Thrown],
                range_normal: 30,
                range_long: 120,
                versatile_damage: None,
            },
            WeaponType::LightHammer => WeaponData {
                name: "Light Hammer",
                category: WeaponCategory::Simple,
                range: WeaponRange::Melee,
                damage: Dice::simple(1, DiceType::D4),
                damage_type: DamageType::Bludgeoning,
                properties: vec![WeaponProperty::Light, WeaponProperty::Thrown],
                range_normal: 20,
                range_long: 60,
                versatile_damage: None,
            },
            WeaponType::Mace => WeaponData {
                name: "Mace",
                category: WeaponCategory::Simple,
                range: WeaponRange::Melee,
                damage: Dice::simple(1, DiceType::D6),
                damage_type: DamageType::Bludgeoning,
                properties: vec![],
                range_normal: 5,
                range_long: 5,
                versatile_damage: None,
            },
            WeaponType::Quarterstaff => WeaponData {
                name: "Quarterstaff",
                category: WeaponCategory::Simple,
                range: WeaponRange::Melee,
                damage: Dice::simple(1, DiceType::D6),
                damage_type: DamageType::Bludgeoning,
                properties: vec![WeaponProperty::Versatile],
                range_normal: 5,
                range_long: 5,
                versatile_damage: Some(Dice::simple(1, DiceType::D8)),
            },
            WeaponType::Sickle => WeaponData {
                name: "Sickle",
                category: WeaponCategory::Simple,
                range: WeaponRange::Melee,
                damage: Dice::simple(1, DiceType::D4),
                damage_type: DamageType::Slashing,
                properties: vec![WeaponProperty::Light],
                range_normal: 5,
                range_long: 5,
                versatile_damage: None,
            },
            WeaponType::Spear => WeaponData {
                name: "Spear",
                category: WeaponCategory::Simple,
                range: WeaponRange::Melee,
                damage: Dice::simple(1, DiceType::D6),
                damage_type: DamageType::Piercing,
                properties: vec![WeaponProperty::Thrown, WeaponProperty::Versatile],
                range_normal: 20,
                range_long: 60,
                versatile_damage: Some(Dice::simple(1, DiceType::D8)),
            },
            WeaponType::LightCrossbow => WeaponData {
                name: "Light Crossbow",
                category: WeaponCategory::Simple,
                range: WeaponRange::Ranged,
                damage: Dice::simple(1, DiceType::D8),
                damage_type: DamageType::Piercing,
                properties: vec![WeaponProperty::Ammunition, WeaponProperty::Loading, WeaponProperty::TwoHanded],
                range_normal: 80,
                range_long: 320,
                versatile_damage: None,
            },
            WeaponType::Dart => WeaponData {
                name: "Dart",
                category: WeaponCategory::Simple,
                range: WeaponRange::Ranged,
                damage: Dice::simple(1, DiceType::D4),
                damage_type: DamageType::Piercing,
                properties: vec![WeaponProperty::Finesse, WeaponProperty::Thrown],
                range_normal: 20,
                range_long: 60,
                versatile_damage: None,
            },
            WeaponType::Shortbow => WeaponData {
                name: "Shortbow",
                category: WeaponCategory::Simple,
                range: WeaponRange::Ranged,
                damage: Dice::simple(1, DiceType::D6),
                damage_type: DamageType::Piercing,
                properties: vec![WeaponProperty::Ammunition, WeaponProperty::TwoHanded],
                range_normal: 80,
                range_long: 320,
                versatile_damage: None,
            },
            WeaponType::Sling => WeaponData {
                name: "Sling",
                category: WeaponCategory::Simple,
                range: WeaponRange::Ranged,
                damage: Dice::simple(1, DiceType::D4),
                damage_type: DamageType::Bludgeoning,
                properties: vec![WeaponProperty::Ammunition],
                range_normal: 30,
                range_long: 120,
                versatile_damage: None,
            },
            WeaponType::Battleaxe => WeaponData {
                name: "Battleaxe",
                category: WeaponCategory::Martial,
                range: WeaponRange::Melee,
                damage: Dice::simple(1, DiceType::D8),
                damage_type: DamageType::Slashing,
                properties: vec![WeaponProperty::Versatile],
                range_normal: 5,
                range_long: 5,
                versatile_damage: Some(Dice::simple(1, DiceType::D10)),
            },
            WeaponType::Flail => WeaponData {
                name: "Flail",
                category: WeaponCategory::Martial,
                range: WeaponRange::Melee,
                damage: Dice::simple(1, DiceType::D8),
                damage_type: DamageType::Bludgeoning,
                properties: vec![],
                range_normal: 5,
                range_long: 5,
                versatile_damage: None,
            },
            WeaponType::Glaive => WeaponData {
                name: "Glaive",
                category: WeaponCategory::Martial,
                range: WeaponRange::Melee,
                damage: Dice::simple(1, DiceType::D10),
                damage_type: DamageType::Slashing,
                properties: vec![WeaponProperty::Heavy, WeaponProperty::Reach, WeaponProperty::TwoHanded],
                range_normal: 10,
                range_long: 10,
                versatile_damage: None,
            },
            WeaponType::Greataxe => WeaponData {
                name: "Greataxe",
                category: WeaponCategory::Martial,
                range: WeaponRange::Melee,
                damage: Dice::simple(1, DiceType::D12),
                damage_type: DamageType::Slashing,
                properties: vec![WeaponProperty::Heavy, WeaponProperty::TwoHanded],
                range_normal: 5,
                range_long: 5,
                versatile_damage: None,
            },
            WeaponType::Greatsword => WeaponData {
                name: "Greatsword",
                category: WeaponCategory::Martial,
                range: WeaponRange::Melee,
                damage: Dice::simple(2, DiceType::D6),
                damage_type: DamageType::Slashing,
                properties: vec![WeaponProperty::Heavy, WeaponProperty::TwoHanded],
                range_normal: 5,
                range_long: 5,
                versatile_damage: None,
            },
            WeaponType::Halberd => WeaponData {
                name: "Halberd",
                category: WeaponCategory::Martial,
                range: WeaponRange::Melee,
                damage: Dice::simple(1, DiceType::D10),
                damage_type: DamageType::Slashing,
                properties: vec![WeaponProperty::Heavy, WeaponProperty::Reach, WeaponProperty::TwoHanded],
                range_normal: 10,
                range_long: 10,
                versatile_damage: None,
            },
            WeaponType::Lance => WeaponData {
                name: "Lance",
                category: WeaponCategory::Martial,
                range: WeaponRange::Melee,
                damage: Dice::simple(1, DiceType::D12),
                damage_type: DamageType::Piercing,
                properties: vec![WeaponProperty::Reach, WeaponProperty::Special],
                range_normal: 10,
                range_long: 10,
                versatile_damage: None,
            },
            WeaponType::Longsword => WeaponData {
                name: "Longsword",
                category: WeaponCategory::Martial,
                range: WeaponRange::Melee,
                damage: Dice::simple(1, DiceType::D8),
                damage_type: DamageType::Slashing,
                properties: vec![WeaponProperty::Versatile],
                range_normal: 5,
                range_long: 5,
                versatile_damage: Some(Dice::simple(1, DiceType::D10)),
            },
            WeaponType::Maul => WeaponData {
                name: "Maul",
                category: WeaponCategory::Martial,
                range: WeaponRange::Melee,
                damage: Dice::simple(2, DiceType::D6),
                damage_type: DamageType::Bludgeoning,
                properties: vec![WeaponProperty::Heavy, WeaponProperty::TwoHanded],
                range_normal: 5,
                range_long: 5,
                versatile_damage: None,
            },
            WeaponType::Morningstar => WeaponData {
                name: "Morningstar",
                category: WeaponCategory::Martial,
                range: WeaponRange::Melee,
                damage: Dice::simple(1, DiceType::D8),
                damage_type: DamageType::Piercing,
                properties: vec![],
                range_normal: 5,
                range_long: 5,
                versatile_damage: None,
            },
            WeaponType::Pike => WeaponData {
                name: "Pike",
                category: WeaponCategory::Martial,
                range: WeaponRange::Melee,
                damage: Dice::simple(1, DiceType::D10),
                damage_type: DamageType::Piercing,
                properties: vec![WeaponProperty::Heavy, WeaponProperty::Reach, WeaponProperty::TwoHanded],
                range_normal: 10,
                range_long: 10,
                versatile_damage: None,
            },
            WeaponType::Rapier => WeaponData {
                name: "Rapier",
                category: WeaponCategory::Martial,
                range: WeaponRange::Melee,
                damage: Dice::simple(1, DiceType::D8),
                damage_type: DamageType::Piercing,
                properties: vec![WeaponProperty::Finesse],
                range_normal: 5,
                range_long: 5,
                versatile_damage: None,
            },
            WeaponType::Scimitar => WeaponData {
                name: "Scimitar",
                category: WeaponCategory::Martial,
                range: WeaponRange::Melee,
                damage: Dice::simple(1, DiceType::D6),
                damage_type: DamageType::Slashing,
                properties: vec![WeaponProperty::Finesse, WeaponProperty::Light],
                range_normal: 5,
                range_long: 5,
                versatile_damage: None,
            },
            WeaponType::Shortsword => WeaponData {
                name: "Shortsword",
                category: WeaponCategory::Martial,
                range: WeaponRange::Melee,
                damage: Dice::simple(1, DiceType::D6),
                damage_type: DamageType::Piercing,
                properties: vec![WeaponProperty::Finesse, WeaponProperty::Light],
                range_normal: 5,
                range_long: 5,
                versatile_damage: None,
            },
            WeaponType::Trident => WeaponData {
                name: "Trident",
                category: WeaponCategory::Martial,
                range: WeaponRange::Melee,
                damage: Dice::simple(1, DiceType::D6),
                damage_type: DamageType::Piercing,
                properties: vec![WeaponProperty::Thrown, WeaponProperty::Versatile],
                range_normal: 20,
                range_long: 60,
                versatile_damage: Some(Dice::simple(1, DiceType::D8)),
            },
            WeaponType::WarPick => WeaponData {
                name: "War Pick",
                category: WeaponCategory::Martial,
                range: WeaponRange::Melee,
                damage: Dice::simple(1, DiceType::D8),
                damage_type: DamageType::Piercing,
                properties: vec![],
                range_normal: 5,
                range_long: 5,
                versatile_damage: None,
            },
            WeaponType::Warhammer => WeaponData {
                name: "Warhammer",
                category: WeaponCategory::Martial,
                range: WeaponRange::Melee,
                damage: Dice::simple(1, DiceType::D8),
                damage_type: DamageType::Bludgeoning,
                properties: vec![WeaponProperty::Versatile],
                range_normal: 5,
                range_long: 5,
                versatile_damage: Some(Dice::simple(1, DiceType::D10)),
            },
            WeaponType::Whip => WeaponData {
                name: "Whip",
                category: WeaponCategory::Martial,
                range: WeaponRange::Melee,
                damage: Dice::simple(1, DiceType::D4),
                damage_type: DamageType::Slashing,
                properties: vec![WeaponProperty::Finesse, WeaponProperty::Reach],
                range_normal: 10,
                range_long: 10,
                versatile_damage: None,
            },
            WeaponType::Blowgun => WeaponData {
                name: "Blowgun",
                category: WeaponCategory::Martial,
                range: WeaponRange::Ranged,
                damage: Dice::new(0, DiceType::D4, 1),
                damage_type: DamageType::Piercing,
                properties: vec![WeaponProperty::Ammunition, WeaponProperty::Loading],
                range_normal: 25,
                range_long: 100,
                versatile_damage: None,
            },
            WeaponType::HandCrossbow => WeaponData {
                name: "Hand Crossbow",
                category: WeaponCategory::Martial,
                range: WeaponRange::Ranged,
                damage: Dice::simple(1, DiceType::D6),
                damage_type: DamageType::Piercing,
                properties: vec![WeaponProperty::Ammunition, WeaponProperty::Light, WeaponProperty::Loading],
                range_normal: 30,
                range_long: 120,
                versatile_damage: None,
            },
            WeaponType::HeavyCrossbow => WeaponData {
                name: "Heavy Crossbow",
                category: WeaponCategory::Martial,
                range: WeaponRange::Ranged,
                damage: Dice::simple(1, DiceType::D10),
                damage_type: DamageType::Piercing,
                properties: vec![WeaponProperty::Ammunition, WeaponProperty::Heavy, WeaponProperty::Loading, WeaponProperty::TwoHanded],
                range_normal: 100,
                range_long: 400,
                versatile_damage: None,
            },
            WeaponType::Longbow => WeaponData {
                name: "Longbow",
                category: WeaponCategory::Martial,
                range: WeaponRange::Ranged,
                damage: Dice::simple(1, DiceType::D8),
                damage_type: DamageType::Piercing,
                properties: vec![WeaponProperty::Ammunition, WeaponProperty::Heavy, WeaponProperty::TwoHanded],
                range_normal: 150,
                range_long: 600,
                versatile_damage: None,
            },
            WeaponType::Net => WeaponData {
                name: "Net",
                category: WeaponCategory::Martial,
                range: WeaponRange::Ranged,
                damage: Dice::new(0, DiceType::D4, 0),
                damage_type: DamageType::Bludgeoning,
                properties: vec![WeaponProperty::Thrown, WeaponProperty::Special],
                range_normal: 5,
                range_long: 15,
                versatile_damage: None,
            },
            WeaponType::Unarmed => WeaponData {
                name: "Unarmed Strike",
                category: WeaponCategory::Simple,
                range: WeaponRange::Melee,
                damage: Dice::new(0, DiceType::D4, 1),
                damage_type: DamageType::Bludgeoning,
                properties: vec![],
                range_normal: 5,
                range_long: 5,
                versatile_damage: None,
            },
            WeaponType::Improvised => WeaponData {
                name: "Improvised Weapon",
                category: WeaponCategory::Improvised,
                range: WeaponRange::Melee,
                damage: Dice::simple(1, DiceType::D4),
                damage_type: DamageType::Bludgeoning,
                properties: vec![],
                range_normal: 5,
                range_long: 5,
                versatile_damage: None,
            },
        }
    }
}

/// A weapon instance with potential customization (name, bonuses).
#[derive(Debug, Clone)]
pub struct Weapon {
    /// Base weapon type.
    pub weapon_type: WeaponType,
    /// Custom name (e.g., "Rusted Pickaxe", "Snaggletooth's Cleaver").
    pub flavor_name: Option<String>,
    /// Magic bonus to attack and damage.
    pub magic_bonus: i32,
    /// Whether this is equipped.
    pub equipped: bool,
}

impl Weapon {
    /// Create a new weapon of the given type.
    pub fn new(weapon_type: WeaponType) -> (w: Self)
        ensures
            w.weapon_type == weapon_type,
            w.flavor_name is None,
            w.magic_bonus == 0,
            !w.equipped,
    {
        Self { weapon_type, flavor_name: None, magic_bonus: 0, equipped: false }
    }

    /// Create a weapon with a custom flavor name.
    pub fn with_flavor_name(self, name: &str) -> (w: Self)
        ensures
            w.weapon_type == self.weapon_type,
            w.flavor_name matches Some(n) && n@ == name@,
            w.magic_bonus == self.magic_bonus,
            w.equipped == self.equipped,
    {
        let mut w = self;
        w.flavor_name = Some(owned(name));
        w
    }

    /// Create a magic weapon with a bonus.
    pub fn with_magic_bonus(self, bonus: i32) -> (w: Self)
        ensures
            w.weapon_type == self.weapon_type,
            w.flavor_name == self.flavor_name,
            w.magic_bonus == bonus,
            w.equipped == self.equipped,
    {
        let mut w = self;
        w.magic_bonus = bonus;
        w
    }

    /// Set the equipped state.
    pub fn equipped(self, equipped: bool) -> (w: Self)
        ensures
            w.weapon_type == self.weapon_type,
            w.flavor_name == self.flavor_name,
            w.magic_bonus == self.magic_bonus,
            w.equipped == equipped,
    {
        let mut w = self;
        w.equipped = equipped;
        w
    }

    /// Get the base weapon data.
    pub fn data(&self) -> (d: WeaponData)
        ensures
            d.describes(self.weapon_type),
    {
        self.weapon_type.base_data()
    }

    /// Get the display name: the flavor name if there is one, else the SRD name.
    pub fn display_name(&self) -> (s: String)
        ensures
            s@ == match self.flavor_name {
                Some(n) => n@,
                None => weapon_name(self.weapon_type),
            },
    {
        match &self.flavor_name {
            Some(flavor) => owned(flavor.as_str()),
            None => owned(self.weapon_type.base_data().name),
        }
    }

    /// Get the damage dice including magic bonus.
    pub fn damage_dice(&self) -> (d: Dice)
        requires
            i32::MIN <= weapon_damage(self.weapon_type).modifier + self.magic_bonus <= i32::MAX,
        ensures
            d == (Dice {
                modifier: (weapon_damage(self.weapon_type).modifier + self.magic_bonus) as i32,
                ..weapon_damage(self.weapon_type)
            }),
    {
        let base = self.data().damage;
        Dice::new(base.count, base.die_type, base.modifier + self.magic_bonus)
    }
}

/// The weapons listed in the weapon database, in lookup order.
pub open spec fn weapon_catalog() -> Seq<WeaponType> {
    seq![WeaponType::Club, WeaponType::Dagger, WeaponType::Greatclub, WeaponType::Handaxe, WeaponType::Javelin, WeaponType::LightHammer, WeaponType::Mace, WeaponType::Quarterstaff, WeaponType::Sickle, WeaponType::Spear, WeaponType::LightCrossbow, WeaponType::Dart, WeaponType::Shortbow, WeaponType::Sling, WeaponType::Battleaxe, WeaponType::Flail, WeaponType::Glaive, WeaponType::Greataxe, WeaponType::Greatsword, WeaponType::Halberd, WeaponType::Lance, WeaponType::Longsword, WeaponType::Maul, WeaponType::Morningstar, WeaponType::Pike, WeaponType::Rapier, WeaponType::Scimitar, WeaponType::Shortsword, WeaponType::Trident, WeaponType::WarPick, WeaponType::Warhammer, WeaponType::Whip, WeaponType::Blowgun, WeaponType::HandCrossbow, WeaponType::HeavyCrossbow, WeaponType::Longbow, WeaponType::Net]
}

/// A weapon whose lowercased name equals `q`.
pub open spec fn weapon_named(q: Seq<char>) -> spec_fn(WeaponType) -> bool {
    |w: WeaponType| lowercase(weapon_name(w)) == q
}

/// A weapon whose lowercased name contains `q` or is contained in it.
pub open spec fn weapon_name_overlaps(q: Seq<char>) -> spec_fn(WeaponType) -> bool {
    |w: WeaponType|
        has_substring(lowercase(weapon_name(w)), q) || has_substring(q, lowercase(weapon_name(w)))
}

/// A weapon with a word of its lowercased name occurring in `q`.
pub open spec fn weapon_word_in(q: Seq<char>) -> spec_fn(WeaponType) -> bool {
    |w: WeaponType| shares_word(lowercase(weapon_name(w)), q)
}

/// The weapon a database lookup by `name` finds among `list`: first an
/// exact (case-insensitive) name, then the first partial match.
pub open spec fn weapon_lookup(list: Seq<WeaponType>, name: Seq<char>) -> Option<WeaponType> {
    match first_where(list, weapon_named(lowercase(name))) {
        Some(w) => Some(w),
        None => first_where(list, weapon_name_overlaps(lowercase(name))),
    }
}

/// Database of all weapon types for lookup and AI mapping.
pub struct WeaponDatabase {
    weapons: Vec<WeaponType>,
}

impl View for WeaponDatabase {
    type V = Seq<WeaponType>;

    closed spec fn view(&self) -> Seq<WeaponType> {
        self.weapons@
    }
}

impl Default for WeaponDatabase {
    fn default() -> (db: Self)
        ensures
            db@ == weapon_catalog(),
    {
        Self { weapons: vec![WeaponType::Club, WeaponType::Dagger, WeaponType::Greatclub, WeaponType::Handaxe, WeaponType::Javelin, WeaponType::LightHammer, WeaponType::Mace, WeaponType::Quarterstaff, WeaponType::Sickle, WeaponType::Spear, WeaponType::LightCrossbow, WeaponType::Dart, WeaponType::Shortbow, WeaponType::Sling, WeaponType::Battleaxe, WeaponType::Flail, WeaponType::Glaive, WeaponType::Greataxe, WeaponType::Greatsword, WeaponType::Halberd, WeaponType::Lance, WeaponType::Longsword, WeaponType::Maul, WeaponType::Morningstar, WeaponType::Pike, WeaponType::Rapier, WeaponType::Scimitar, WeaponType::Shortsword, WeaponType::Trident, WeaponType::WarPick, WeaponType::Warhammer, WeaponType::Whip, WeaponType::Blowgun, WeaponType::HandCrossbow, WeaponType::HeavyCrossbow, WeaponType::Longbow, WeaponType::Net] }
    }
}

impl WeaponDatabase {
    /// Find a weapon type by name (case-insensitive, partial match).
    pub fn find_by_name(&self, name: &str) -> (r: Option<WeaponType>)
        ensures
            r == weapon_lookup(self@, name@),
    {
        let name_lower = to_lowercase(name);
        let ghost q = lowercase(name@);
        let ghost s = self.weapons@;
        proof {
            lemma_first_where_ends(s, weapon_named(q));
        }
        let mut i: usize = 0;
        while i < self.weapons.len()
            invariant
                i <= s.len(),
                s == self.weapons@,
                name_lower@ == q,
                q == lowercase(name@),
                first_where(s, weapon_named(q)) == first_where(
                    s.subrange(i as int, s.len() as int),
                    weapon_named(q),
                ),
            decreases s.len() - i,
        {
            let weapon = self.weapons[i];
            let data = weapon.base_data();
            let lower = to_lowercase(data.name);
            proof {
                lemma_first_where_step(s, weapon_named(q), i as int);
            }
            if str_eq(lower.as_str(), name_lower.as_str()) {
                return Some(weapon);
            }
            i = i + 1;
        }
        proof {
            lemma_first_where_ends(s, weapon_named(q));
            lemma_first_where_ends(s, weapon_name_overlaps(q));
        }
        let mut j: usize = 0;
        while j < self.weapons.len()
            invariant
                j <= s.len(),
                s == self.weapons@,
                name_lower@ == q,
                q == lowercase(name@),
                first_where(s, weapon_named(q)) is None,
                first_where(s, weapon_name_overlaps(q)) == first_where(
                    s.subrange(j as int, s.len() as int),
                    weapon_name_overlaps(q),
                ),
            decreases s.len() - j,
        {
            let weapon = self.weapons[j];
            let data = weapon.base_data();
            let lower = to_lowercase(data.name);
            proof {
                lemma_first_where_step(s, weapon_name_overlaps(q), j as int);
            }
            if str_contains(lower.as_str(), name_lower.as_str()) || str_contains(
                name_lower.as_str(),
                lower.as_str(),
            ) {
                return Some(weapon);
            }
            j = j + 1;
        }
        None
    }

    /// Find the first weapon with a word of its name (case-insensitive)
    /// in `name`, e.g. "pick" of "War Pick" in "Rusted Pickaxe".
    pub fn find_by_word(&self, name: &str) -> (r: Option<WeaponType>)
        ensures
            r == first_where(self@, weapon_word_in(lowercase(name@))),
    {
        let name_lower = to_lowercase(name);
        let ghost q = lowercase(name@);
        let ghost s = self.weapons@;
        proof {
            lemma_first_where_ends(s, weapon_word_in(q));
        }
        let mut i: usize = 0;
        while i < self.weapons.len()
            invariant
                i <= s.len(),
                s == self.weapons@,
                name_lower@ == q,
                q == lowercase(name@),
                first_where(s, weapon_word_in(q)) == first_where(
                    s.subrange(i as int, s.len() as int),
                    weapon_word_in(q),
                ),
            decreases s.len() - i,
        {
            let weapon = self.weapons[i];
            let data = weapon.base_data();
            let lower = to_lowercase(data.name);
            proof {
                lemma_first_where_step(s, weapon_word_in(q), i as int);
            }
            if has_word_in(lower.as_str(), name_lower.as_str()) {
                assert(weapon_word_in(q)(weapon));
                return Some(weapon);
            }
            i = i + 1;
        }
        None
    }

    /// Get all weapons.
    pub fn all(&self) -> (r: &[WeaponType])
        ensures
            r@ == self@,
    {
        self.weapons.as_slice()
    }
}

} // verus!
