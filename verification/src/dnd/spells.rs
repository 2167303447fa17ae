//! D&D 5e spell system: spell slots and casting, the basic SRD spells
//! (cantrips and low-level spells) and their effects (damage, healing,
//! conditions).

use vstd::prelude::*;

use super::ability::Ability;
use super::dice::{Dice, DiceType};
use super::effects::{Condition, EffectDuration};
use super::weapons::DamageType;
use bevy::ecs::entity::Entity;
use crate::text::owned;

verus! {

/// Spell school.
#[derive(Debug, Clone, Copy, PartialEq, Eq, Hash, Structural)]
pub enum SpellSchool {
    Abjuration,
    Conjuration,
    Divination,
    Enchantment,
    Evocation,
    Illusion,
    Necromancy,
    Transmutation,
}

/// Display name of a spell school.
pub open spec fn school_name(s: SpellSchool) -> Seq<char> {
    match s {
        SpellSchool::Abjuration => "Abjuration"@,
        SpellSchool::Conjuration => "Conjuration"@,
        SpellSchool::Divination => "Divination"@,
        SpellSchool::Enchantment => "Enchantment"@,
        SpellSchool::Evocation => "Evocation"@,
        SpellSchool::Illusion => "Illusion"@,
        SpellSchool::Necromancy => "Necromancy"@,
        SpellSchool::Transmutation => "Transmutation"@,
    }
}

impl SpellSchool {
    pub fn name(&self) -> (s: &'static str)
        ensures
            s@ == school_name(*self),
    {
        match self {
            SpellSchool::Abjuration => "Abjuration",
            SpellSchool::Conjuration => "Conjuration",
            SpellSchool::Divination => "Divination",
            SpellSchool::Enchantment => "Enchantment",
            SpellSchool::Evocation => "Evocation",
            SpellSchool::Illusion => "Illusion",
            SpellSchool::Necromancy => "Necromancy",
            SpellSchool::Transmutation => "Transmutation",
        }
    }
}

/// Type of target for a spell.
#[derive(Debug, Clone, Copy, PartialEq, Eq, Structural)]
pub enum SpellTarget {
    /// Single target.
    Single,
    /// Self only.
    SelfTarget,
    /// Area of effect (radius in feet).
    Area(i32),
    /// Cone (length in feet).
    Cone(i32),
    /// Line (length in feet).
    Line(i32),
    /// Touch range.
    Touch,
}

/// Components of a spell (verbal, somatic, material).
#[derive(Debug, Clone)]
pub struct SpellComponents {
    pub verbal: bool,
    pub somatic: bool,
    pub material: Option<String>,
}

/// The text of an optional material component.
pub open spec fn material_text(m: Option<String>) -> Option<Seq<char>> {
    match m {
        Some(s) => Some(s@),
        None => None,
    }
}

impl Default for SpellComponents {
    fn default() -> (c: Self)
        ensures
            !c.verbal,
            !c.somatic,
            c.material is None,
    {
        Self { verbal: false, somatic: false, material: None }
    }
}

impl SpellComponents {
    pub fn vs() -> (c: Self)
        ensures
            c.verbal,
            c.somatic,
            c.material is None,
    {
        Self { verbal: true, somatic: true, material: None }
    }

    pub fn v() -> (c: Self)
        ensures
            c.verbal,
            !c.somatic,
            c.material is None,
    {
        Self { verbal: true, somatic: false, material: None }
    }

    pub fn s() -> (c: Self)
        ensures
            !c.verbal,
            c.somatic,
            c.material is None,
    {
        Self { verbal: false, somatic: true, material: None }
    }

    pub fn vsm(material: &str) -> (c: Self)
        ensures
            c.verbal,
            c.somatic,
            material_text(c.material) == Some(material@),
    {
        Self { verbal: true, somatic: true, material: Some(owned(material)) }
    }
}

/// Type of spell effect.
#[derive(Debug, Clone)]
pub enum SpellEffect {
    /// Direct damage.
    Damage { dice: Dice, damage_type: DamageType, save_for_half: Option<Ability> },
    /// Healing.
    Healing { dice: Dice },
    /// Apply a condition.
    ApplyCondition { condition: Condition, duration: EffectDuration, save: Option<Ability> },
    /// Buff (add temporary HP, etc.).
    TempHp { amount: i32 },
    /// Utility effect (light, etc.).
    Utility { description: String },
}

/// Known spell from the SRD.
#[derive(Debug, Clone, Copy, PartialEq, Eq, Hash, Structural)]
pub enum SpellId {
    // Cantrips (Level 0)
    FireBolt,
    RayOfFrost,
    SacredFlame,
    ChillTouch,
    PoisonSpray,
    ShockingGrasp,
    // Level 1
    BurningHands,
    MagicMissile,
    Shield,
    CureWounds,
    Bless,
    Bane,
    HealingWord,
    // Level 2
    ScorchingRay,
    HoldPerson,
    MistyStep,
    // Level 3
    Fireball,
    LightningBolt,
}

/// SRD name of a spell.
pub open spec fn spell_name(s: SpellId) -> Seq<char> {
    match s {
        SpellId::FireBolt => "Fire Bolt"@,
        SpellId::RayOfFrost => "Ray of Frost"@,
        SpellId::SacredFlame => "Sacred Flame"@,
        SpellId::ChillTouch => "Chill Touch"@,
        SpellId::PoisonSpray => "Poison Spray"@,
        SpellId::ShockingGrasp => "Shocking Grasp"@,
        SpellId::BurningHands => "Burning Hands"@,
        SpellId::MagicMissile => "Magic Missile"@,
        SpellId::Shield => "Shield"@,
        SpellId::CureWounds => "Cure Wounds"@,
        SpellId::Bless => "Bless"@,
        SpellId::Bane => "Bane"@,
        SpellId::HealingWord => "Healing Word"@,
        SpellId::ScorchingRay => "Scorching Ray"@,
        SpellId::HoldPerson => "Hold Person"@,
        SpellId::MistyStep => "Misty Step"@,
        SpellId::Fireball => "Fireball"@,
        SpellId::LightningBolt => "Lightning Bolt"@,
    }
}

/// Level of a spell (0 for cantrips).
pub open spec fn spell_level(s: SpellId) -> u8 {
    match s {
        SpellId::FireBolt => 0,
        SpellId::RayOfFrost => 0,
        SpellId::SacredFlame => 0,
        SpellId::ChillTouch => 0,
        SpellId::PoisonSpray => 0,
        SpellId::ShockingGrasp => 0,
        SpellId::BurningHands => 1,
        SpellId::MagicMissile => 1,
        SpellId::Shield => 1,
        SpellId::CureWounds => 1,
        SpellId::Bless => 1,
        SpellId::Bane => 1,
        SpellId::HealingWord => 1,
        SpellId::ScorchingRay => 2,
        SpellId::HoldPerson => 2,
        SpellId::MistyStep => 2,
        SpellId::Fireball => 3,
        SpellId::LightningBolt => 3,
    }
}

/// School of a spell.
pub open spec fn spell_school(s: SpellId) -> SpellSchool {
    match s {
        SpellId::FireBolt => SpellSchool::Evocation,
        SpellId::RayOfFrost => SpellSchool::Evocation,
        SpellId::SacredFlame => SpellSchool::Evocation,
        SpellId::ChillTouch => SpellSchool::Necromancy,
        SpellId::PoisonSpray => SpellSchool::Conjuration,
        SpellId::ShockingGrasp => SpellSchool::Evocation,
        SpellId::BurningHands => SpellSchool::Evocation,
        SpellId::MagicMissile => SpellSchool::Evocation,
        SpellId::Shield => SpellSchool::Abjuration,
        SpellId::CureWounds => SpellSchool::Evocation,
        SpellId::Bless => SpellSchool::Enchantment,
        SpellId::Bane => SpellSchool::Enchantment,
        SpellId::HealingWord => SpellSchool::Evocation,
        SpellId::ScorchingRay => SpellSchool::Evocation,
        SpellId::HoldPerson => SpellSchool::Enchantment,
        SpellId::MistyStep => SpellSchool::Conjuration,
        SpellId::Fireball => SpellSchool::Evocation,
        SpellId::LightningBolt => SpellSchool::Evocation,
    }
}

/// Casting time of a spell.
pub open spec fn spell_casting_time(s: SpellId) -> Seq<char> {
    match s {
        SpellId::FireBolt => "1 action"@,
        SpellId::RayOfFrost => "1 action"@,
        SpellId::SacredFlame => "1 action"@,
        SpellId::ChillTouch => "1 action"@,
        SpellId::PoisonSpray => "1 action"@,
        SpellId::ShockingGrasp => "1 action"@,
        SpellId::BurningHands => "1 action"@,
        SpellId::MagicMissile => "1 action"@,
        SpellId::Shield => "1 reaction"@,
        SpellId::CureWounds => "1 action"@,
        SpellId::Bless => "1 action"@,
        SpellId::Bane => "1 action"@,
        SpellId::HealingWord => "1 bonus action"@,
        SpellId::ScorchingRay => "1 action"@,
        SpellId::HoldPerson => "1 action"@,
        SpellId::MistyStep => "1 bonus action"@,
        SpellId::Fireball => "1 action"@,
        SpellId::LightningBolt => "1 action"@,
    }
}

/// Range of a spell, in feet (0 for self or touch).
pub open spec fn spell_range(s: SpellId) -> i32 {
    match s {
        SpellId::FireBolt => 120,
        SpellId::RayOfFrost => 60,
        SpellId::SacredFlame => 60,
        SpellId::ChillTouch => 120,
        SpellId::PoisonSpray => 10,
        SpellId::ShockingGrasp => 0,
        SpellId::BurningHands => 0,
        SpellId::MagicMissile => 120,
        SpellId::Shield => 0,
        SpellId::CureWounds => 0,
        SpellId::Bless => 30,
        SpellId::Bane => 30,
        SpellId::HealingWord => 60,
        SpellId::ScorchingRay => 120,
        SpellId::HoldPerson => 60,
        SpellId::MistyStep => 0,
        SpellId::Fireball => 150,
        SpellId::LightningBolt => 0,
    }
}

/// Target shape of a spell.
pub open spec fn spell_target(s: SpellId) -> SpellTarget {
    match s {
        SpellId::FireBolt => SpellTarget::Single,
        SpellId::RayOfFrost => SpellTarget::Single,
        SpellId::SacredFlame => SpellTarget::Single,
        SpellId::ChillTouch => SpellTarget::Single,
        SpellId::PoisonSpray => SpellTarget::Single,
        SpellId::ShockingGrasp => SpellTarget::Touch,
        SpellId::BurningHands => SpellTarget::Cone(15),
        SpellId::MagicMissile => SpellTarget::Single,
        SpellId::Shield => SpellTarget::SelfTarget,
        SpellId::CureWounds => SpellTarget::Touch,
        SpellId::Bless => SpellTarget::Single,
        SpellId::Bane => SpellTarget::Single,
        SpellId::HealingWord => SpellTarget::Single,
        SpellId::ScorchingRay => SpellTarget::Single,
        SpellId::HoldPerson => SpellTarget::Single,
        SpellId::MistyStep => SpellTarget::SelfTarget,
        SpellId::Fireball => SpellTarget::Area(20),
        SpellId::LightningBolt => SpellTarget::Line(100),
    }
}

/// Verbal, somatic and material components of a spell.
pub open spec fn spell_components(s: SpellId) -> (bool, bool, Option<Seq<char>>) {
    match s {
        SpellId::FireBolt => (true, true, None),
        SpellId::RayOfFrost => (true, true, None),
        SpellId::SacredFlame => (true, true, None),
        SpellId::ChillTouch => (true, true, None),
        SpellId::PoisonSpray => (true, true, None),
        SpellId::ShockingGrasp => (true, true, None),
        SpellId::BurningHands => (true, true, None),
        SpellId::MagicMissile => (true, true, None),
        SpellId::Shield => (true, true, None),
        SpellId::CureWounds => (true, true, None),
        SpellId::Bless => (true, true, Some("a sprinkling of holy water"@)),
        SpellId::Bane => (true, true, Some("a drop of blood"@)),
        SpellId::HealingWord => (true, false, None),
        SpellId::ScorchingRay => (true, true, None),
        SpellId::HoldPerson => (true, true, Some("a small piece of iron"@)),
        SpellId::MistyStep => (true, false, None),
        SpellId::Fireball => (true, true, Some("bat guano and sulfur"@)),
        SpellId::LightningBolt => (true, true, Some("fur and a glass rod"@)),
    }
}

/// Duration of a spell.
pub open spec fn spell_duration(s: SpellId) -> Seq<char> {
    match s {
        SpellId::FireBolt => "Instantaneous"@,
        SpellId::RayOfFrost => "Instantaneous"@,
        SpellId::SacredFlame => "Instantaneous"@,
        SpellId::ChillTouch => "1 round"@,
        SpellId::PoisonSpray => "Instantaneous"@,
        SpellId::ShockingGrasp => "Instantaneous"@,
        SpellId::BurningHands => "Instantaneous"@,
        SpellId::MagicMissile => "Instantaneous"@,
        SpellId::Shield => "1 round"@,
        SpellId::CureWounds => "Instantaneous"@,
        SpellId::Bless => "Concentration, 1 minute"@,
        SpellId::Bane => "Concentration, 1 minute"@,
        SpellId::HealingWord => "Instantaneous"@,
        SpellId::ScorchingRay => "Instantaneous"@,
        SpellId::HoldPerson => "Concentration, 1 minute"@,
        SpellId::MistyStep => "Instantaneous"@,
        SpellId::Fireball => "Instantaneous"@,
        SpellId::LightningBolt => "Instantaneous"@,
    }
}

/// Short description of a spell.
pub open spec fn spell_description(s: SpellId) -> Seq<char> {
    match s {
        SpellId::FireBolt => "A mote of fire streaks toward a creature."@,
        SpellId::RayOfFrost => "A frigid beam of blue-white light streaks toward a creature."@,
        SpellId::SacredFlame => "Flame-like radiance descends on a creature."@,
        SpellId::ChillTouch => "A ghostly, skeletal hand assails a creature."@,
        SpellId::PoisonSpray => "A puff of noxious gas sprays at a creature."@,
        SpellId::ShockingGrasp => "Lightning springs from your hand to deliver a shock."@,
        SpellId::BurningHands => "A thin sheet of flames shoots forth from your fingertips."@,
        SpellId::MagicMissile => "Three glowing darts of magical force unerringly strike."@,
        SpellId::Shield => "+5 bonus to AC until the start of your next turn."@,
        SpellId::CureWounds => "A creature you touch regains hit points."@,
        SpellId::Bless => "Bless up to three creatures with +1d4 to attack rolls and saves."@,
        SpellId::Bane => "Up to three creatures must subtract 1d4 from attacks and saves."@,
        SpellId::HealingWord => "A creature regains hit points at range."@,
        SpellId::ScorchingRay => "Three rays of fire. Each ray deals 2d6 fire damage."@,
        SpellId::HoldPerson => "A humanoid must succeed on a WIS save or be paralyzed."@,
        SpellId::MistyStep => "Teleport up to 30 feet to an unoccupied space."@,
        SpellId::Fireball => "A bright streak explodes into a 20-foot radius sphere of fire."@,
        SpellId::LightningBolt => "A stroke of lightning 100 feet long and 5 feet wide."@,
    }
}

/// `e` is the effect of spell `s`.
pub open spec fn is_spell_effect(e: SpellEffect, s: SpellId) -> bool {
    match s {
        SpellId::FireBolt => e == (SpellEffect::Damage { dice: Dice { count: 1, die_type: DiceType::D10, modifier: 0 }, damage_type: DamageType::Fire, save_for_half: None }),
        SpellId::RayOfFrost => e == (SpellEffect::Damage { dice: Dice { count: 1, die_type: DiceType::D8, modifier: 0 }, damage_type: DamageType::Cold, save_for_half: None }),
        SpellId::SacredFlame => e == (SpellEffect::Damage { dice: Dice { count: 1, die_type: DiceType::D8, modifier: 0 }, damage_type: DamageType::Radiant, save_for_half: Some(Ability::Dexterity) }),
        SpellId::ChillTouch => e == (SpellEffect::Damage { dice: Dice { count: 1, die_type: DiceType::D8, modifier: 0 }, damage_type: DamageType::Necrotic, save_for_half: None }),
        SpellId::PoisonSpray => e == (SpellEffect::Damage { dice: Dice { count: 1, die_type: DiceType::D12, modifier: 0 }, damage_type: DamageType::Poison, save_for_half: Some(Ability::Constitution) }),
        SpellId::ShockingGrasp => e == (SpellEffect::Damage { dice: Dice { count: 1, die_type: DiceType::D8, modifier: 0 }, damage_type: DamageType::Lightning, save_for_half: None }),
        SpellId::BurningHands => e == (SpellEffect::Damage { dice: Dice { count: 3, die_type: DiceType::D6, modifier: 0 }, damage_type: DamageType::Fire, save_for_half: Some(Ability::Dexterity) }),
        SpellId::MagicMissile => e == (SpellEffect::Damage { dice: Dice { count: 3, die_type: DiceType::D4, modifier: 3 }, damage_type: DamageType::Force, save_for_half: None }),
        SpellId::Shield => e matches SpellEffect::Utility { description } && description@ == "+5 AC"@,
        SpellId::CureWounds => e == (SpellEffect::Healing { dice: Dice { count: 1, die_type: DiceType::D8, modifier: 0 } }),
        SpellId::Bless => e matches SpellEffect::Utility { description } && description@ == "+1d4 to attacks and saves"@,
        SpellId::Bane => e == (SpellEffect::ApplyCondition { condition: Condition::Frightened, duration: EffectDuration::Rounds(10), save: Some(Ability::Charisma) }),
        SpellId::HealingWord => e == (SpellEffect::Healing { dice: Dice { count: 1, die_type: DiceType::D4, modifier: 0 } }),
        SpellId::ScorchingRay => e == (SpellEffect::Damage { dice: Dice { count: 6, die_type: DiceType::D6, modifier: 0 }, damage_type: DamageType::Fire, save_for_half: None }),
        SpellId::HoldPerson => e == (SpellEffect::ApplyCondition { condition: Condition::Paralyzed, duration: EffectDuration::UntilSave, save: Some(Ability::Wisdom) }),
        SpellId::MistyStep => e matches SpellEffect::Utility { description } && description@ == "Teleport 30 feet"@,
        SpellId::Fireball => e == (SpellEffect::Damage { dice: Dice { count: 8, die_type: DiceType::D6, modifier: 0 }, damage_type: DamageType::Fire, save_for_half: Some(Ability::Dexterity) }),
        SpellId::LightningBolt => e == (SpellEffect::Damage { dice: Dice { count: 8, die_type: DiceType::D6, modifier: 0 }, damage_type: DamageType::Lightning, save_for_half: Some(Ability::Dexterity) }),
    }
}

/// Static spell data.
#[derive(Debug, Clone)]
pub struct SpellData {
    pub name: &'static str,
    pub level: u8,
    pub school: SpellSchool,
    pub casting_time: &'static str,
    pub range: i32,
    pub target: SpellTarget,
    pub components: SpellComponents,
    pub duration: &'static str,
    pub description: &'static str,
    pub effects: Vec<SpellEffect>,
}

impl SpellData {
    /// This data is the SRD entry of spell `s`.
    pub open spec fn describes(self, s: SpellId) -> bool {
        &&& self.name@ == spell_name(s)
        &&& self.level == spell_level(s)
        &&& self.school == spell_school(s)
        &&& self.casting_time@ == spell_casting_time(s)
        &&& self.range == spell_range(s)
        &&& self.target == spell_target(s)
        &&& (self.components.verbal, self.components.somatic, material_text(
            self.components.material,
        )) == spell_components(s)
        &&& self.duration@ == spell_duration(s)
        &&& self.description@ == spell_description(s)
        &&& self.effects@.len() == 1
        &&& is_spell_effect(self.effects@[0], s)
    }
}

/// Number of damage dice of a cantrip at a character level: one die,
/// two from level 5, three from 11, four from 17 (and outside 1..=16).
pub open spec fn cantrip_dice(character_level: int) -> i32 {
    if 1 <= character_level <= 4 {
        1
    } else if 5 <= character_level <= 10 {
        2
    } else if 11 <= character_level <= 16 {
        3
    } else {
        4
    }
}

impl SpellId {
    /// Get the spell data for this spell.
    pub fn data(&self) -> (d: SpellData)
        ensures
            d.describes(*self),
    {
        match self {
            SpellId::FireBolt => SpellData {
                name: "Fire Bolt",
                level: 0,
                school: SpellSchool::Evocation,
                casting_time: "1 action",
                range: 120,
                target: SpellTarget::Single,
                components: SpellComponents::vs(),
                duration: "Instantaneous",
                description: "A mote of fire streaks toward a creature.",
                effects: vec![SpellEffect::Damage { dice: Dice::simple(1, DiceType::D10), damage_type: DamageType::Fire, save_for_half: None }],
            },
            SpellId::RayOfFrost => SpellData {
                name: "Ray of Frost",
                level: 0,
                school: SpellSchool::Evocation,
                casting_time: "1 action",
                range: 60,
                target: SpellTarget::Single,
                components: SpellComponents::vs(),
                duration: "Instantaneous",
                description: "A frigid beam of blue-white light streaks toward a creature.",
                effects: vec![SpellEffect::Damage { dice: Dice::simple(1, DiceType::D8), damage_type: DamageType::Cold, save_for_half: None }],
            },
            SpellId::SacredFlame => SpellData {
                name: "Sacred Flame",
                level: 0,
                school: SpellSchool::Evocation,
                casting_time: "1 action",
                range: 60,
                target: SpellTarget::Single,
                components: SpellComponents::vs(),
                duration: "Instantaneous",
                description: "Flame-like radiance descends on a creature.",
                effects: vec![SpellEffect::Damage { dice: Dice::simple(1, DiceType::D8), damage_type: DamageType::Radiant, save_for_half: Some(Ability::Dexterity) }],
            },
            SpellId::ChillTouch => SpellData {
                name: "Chill Touch",
                level: 0,
                school: SpellSchool::Necromancy,
                casting_time: "1 action",
                range: 120,
                target: SpellTarget::Single,
                components: SpellComponents::vs(),
                duration: "1 round",
                description: "A ghostly, skeletal hand assails a creature.",
                effects: vec![SpellEffect::Damage { dice: Dice::simple(1, DiceType::D8), damage_type: DamageType::Necrotic, save_for_half: None }],
            },
            SpellId::PoisonSpray => SpellData {
                name: "Poison Spray",
                level: 0,
                school: SpellSchool::Conjuration,
                casting_time: "1 action",
                range: 10,
                target: SpellTarget::Single,
                components: SpellComponents::vs(),
                duration: "Instantaneous",
                description: "A puff of noxious gas sprays at a creature.",
                effects: vec![SpellEffect::Damage { dice: Dice::simple(1, DiceType::D12), damage_type: DamageType::Poison, save_for_half: Some(Ability::Constitution) }],
            },
            SpellId::ShockingGrasp => SpellData {
                name: "Shocking Grasp",
                level: 0,
                school: SpellSchool::Evocation,
                casting_time: "1 action",
                range: 0,
                target: SpellTarget::Touch,
                components: SpellComponents::vs(),
                duration: "Instantaneous",
                description: "Lightning springs from your hand to deliver a shock.",
                effects: vec![SpellEffect::Damage { dice: Dice::simple(1, DiceType::D8), damage_type: DamageType::Lightning, save_for_half: None }],
            },
            SpellId::BurningHands => SpellData {
                name: "Burning Hands",
                level: 1,
                school: SpellSchool::Evocation,
                casting_time: "1 action",
                range: 0,
                target: SpellTarget::Cone(15),
                components: SpellComponents::vs(),
                duration: "Instantaneous",
                description: "A thin sheet of flames shoots forth from your fingertips.",
                effects: vec![SpellEffect::Damage { dice: Dice::simple(3, DiceType::D6), damage_type: DamageType::Fire, save_for_half: Some(Ability::Dexterity) }],
            },
            SpellId::MagicMissile => SpellData {
                name: "Magic Missile",
                level: 1,
                school: SpellSchool::Evocation,
                casting_time: "1 action",
                range: 120,
                target: SpellTarget::Single,
                components: SpellComponents::vs(),
                duration: "Instantaneous",
                description: "Three glowing darts of magical force unerringly strike.",
                effects: vec![SpellEffect::Damage { dice: Dice::new(3, DiceType::D4, 3), damage_type: DamageType::Force, save_for_half: None }],
            },
            SpellId::Shield => SpellData {
                name: "Shield",
                level: 1,
                school: SpellSchool::Abjuration,
                casting_time: "1 reaction",
                range: 0,
                target: SpellTarget::SelfTarget,
                components: SpellComponents::vs(),
                duration: "1 round",
                description: "+5 bonus to AC until the start of your next turn.",
                effects: vec![SpellEffect::Utility { description: owned("+5 AC") }],
            },
            SpellId::CureWounds => SpellData {
                name: "Cure Wounds",
                level: 1,
                school: SpellSchool::Evocation,
                casting_time: "1 action",
                range: 0,
                target: SpellTarget::Touch,
                components: SpellComponents::vs(),
                duration: "Instantaneous",
                description: "A creature you touch regains hit points.",
                effects: vec![SpellEffect::Healing { dice: Dice::simple(1, DiceType::D8) }],
            },
            SpellId::Bless => SpellData {
                name: "Bless",
                level: 1,
                school: SpellSchool::Enchantment,
                casting_time: "1 action",
                range: 30,
                target: SpellTarget::Single,
                components: SpellComponents::vsm("a sprinkling of holy water"),
                duration: "Concentration, 1 minute",
                description: "Bless up to three creatures with +1d4 to attack rolls and saves.",
                effects: vec![SpellEffect::Utility { description: owned("+1d4 to attacks and saves") }],
            },
            SpellId::Bane => SpellData {
                name: "Bane",
                level: 1,
                school: SpellSchool::Enchantment,
                casting_time: "1 action",
                range: 30,
                target: SpellTarget::Single,
                components: SpellComponents::vsm("a drop of blood"),
                duration: "Concentration, 1 minute",
                description: "Up to three creatures must subtract 1d4 from attacks and saves.",
                effects: vec![SpellEffect::ApplyCondition { condition: Condition::Frightened, duration: EffectDuration::Rounds(10), save: Some(Ability::Charisma) }],
            },
            SpellId::HealingWord => SpellData {
                name: "Healing Word",
                level: 1,
                school: SpellSchool::Evocation,
                casting_time: "1 bonus action",
                range: 60,
                target: SpellTarget::Single,
                components: SpellComponents::v(),
                duration: "Instantaneous",
                description: "A creature regains hit points at range.",
                effects: vec![SpellEffect::Healing { dice: Dice::simple(1, DiceType::D4) }],
            },
            SpellId::ScorchingRay => SpellData {
                name: "Scorching Ray",
                level: 2,
                school: SpellSchool::Evocation,
                casting_time: "1 action",
                range: 120,
                target: SpellTarget::Single,
                components: SpellComponents::vs(),
                duration: "Instantaneous",
                description: "Three rays of fire. Each ray deals 2d6 fire damage.",
                effects: vec![SpellEffect::Damage { dice: Dice::simple(6, DiceType::D6), damage_type: DamageType::Fire, save_for_half: None }],
            },
            SpellId::HoldPerson => SpellData {
                name: "Hold Person",
                level: 2,
                school: SpellSchool::Enchantment,
                casting_time: "1 action",
                range: 60,
                target: SpellTarget::Single,
                components: SpellComponents::vsm("a small piece of iron"),
                duration: "Concentration, 1 minute",
                description: "A humanoid must succeed on a WIS save or be paralyzed.",
                effects: vec![SpellEffect::ApplyCondition { condition: Condition::Paralyzed, duration: EffectDuration::UntilSave, save: Some(Ability::Wisdom) }],
            },
            SpellId::MistyStep => SpellData {
                name: "Misty Step",
                level: 2,
                school: SpellSchool::Conjuration,
                casting_time: "1 bonus action",
                range: 0,
                target: SpellTarget::SelfTarget,
                components: SpellComponents::v(),
                duration: "Instantaneous",
                description: "Teleport up to 30 feet to an unoccupied space.",
                effects: vec![SpellEffect::Utility { description: owned("Teleport 30 feet") }],
            },
            SpellId::Fireball => SpellData {
                name: "Fireball",
                level: 3,
                school: SpellSchool::Evocation,
                casting_time: "1 action",
                range: 150,
                target: SpellTarget::Area(20),
                components: SpellComponents::vsm("bat guano and sulfur"),
                duration: "Instantaneous",
                description: "A bright streak explodes into a 20-foot radius sphere of fire.",
                effects: vec![SpellEffect::Damage { dice: Dice::simple(8, DiceType::D6), damage_type: DamageType::Fire, save_for_half: Some(Ability::Dexterity) }],
            },
            SpellId::LightningBolt => SpellData {
                name: "Lightning Bolt",
                level: 3,
                school: SpellSchool::Evocation,
                casting_time: "1 action",
                range: 0,
                target: SpellTarget::Line(100),
                components: SpellComponents::vsm("fur and a glass rod"),
                duration: "Instantaneous",
                description: "A stroke of lightning 100 feet long and 5 feet wide.",
                effects: vec![SpellEffect::Damage { dice: Dice::simple(8, DiceType::D6), damage_type: DamageType::Lightning, save_for_half: Some(Ability::Dexterity) }],
            },
        }
    }

    /// Get the spell name.
    pub fn name(&self) -> (s: &'static str)
        ensures
            s@ == spell_name(*self),
    {
        self.data().name
    }

    /// Get the spell level (0 for cantrips).
    pub fn level(&self) -> (l: u8)
        ensures
            l == spell_level(*self),
    {
        self.data().level
    }

    /// Check if this is a cantrip.
    pub fn is_cantrip(&self) -> (b: bool)
        ensures
            b == (spell_level(*self) == 0),
    {
        self.level() == 0
    }

    /// Scale cantrip damage based on character level.
    pub fn cantrip_dice_count(character_level: i32) -> (n: i32)
        ensures
            n == cantrip_dice(character_level as int),
    {
        if 1 <= character_level && character_level <= 4 {
            1
        } else if 5 <= character_level && character_level <= 10 {
            2
        } else if 11 <= character_level && character_level <= 16 {
            3
        } else {
            4
        }
    }
}

/// Spell slots per spell level (index 0 = level 1) of a full caster at a
/// character level; levels outside 1..=19 get the top row.
pub open spec fn full_caster_slots(level: u8) -> Seq<u8> {
    if level == 1 {
        seq![2u8, 0, 0, 0, 0, 0, 0, 0, 0]
    } else if level == 2 {
        seq![3u8, 0, 0, 0, 0, 0, 0, 0, 0]
    } else if level == 3 {
        seq![4u8, 2, 0, 0, 0, 0, 0, 0, 0]
    } else if level == 4 {
        seq![4u8, 3, 0, 0, 0, 0, 0, 0, 0]
    } else if level == 5 {
        seq![4u8, 3, 2, 0, 0, 0, 0, 0, 0]
    } else if level == 6 {
        seq![4u8, 3, 3, 0, 0, 0, 0, 0, 0]
    } else if level == 7 {
        seq![4u8, 3, 3, 1, 0, 0, 0, 0, 0]
    } else if level == 8 {
        seq![4u8, 3, 3, 2, 0, 0, 0, 0, 0]
    } else if level == 9 {
        seq![4u8, 3, 3, 3, 1, 0, 0, 0, 0]
    } else if level == 10 {
        seq![4u8, 3, 3, 3, 2, 0, 0, 0, 0]
    } else if 11 <= level <= 12 {
        seq![4u8, 3, 3, 3, 2, 1, 0, 0, 0]
    } else if 13 <= level <= 14 {
        seq![4u8, 3, 3, 3, 2, 1, 1, 0, 0]
    } else if 15 <= level <= 16 {
        seq![4u8, 3, 3, 3, 2, 1, 1, 1, 0]
    } else if level == 17 {
        seq![4u8, 3, 3, 3, 2, 1, 1, 1, 1]
    } else if level == 18 {
        seq![4u8, 3, 3, 3, 3, 1, 1, 1, 1]
    } else if level == 19 {
        seq![4u8, 3, 3, 3, 3, 2, 1, 1, 1]
    } else {
        seq![4u8, 3, 3, 3, 3, 2, 2, 1, 1]
    }
}

/// A slot of `level` can be used: cantrips always, levels 1 to 9 when a
/// slot of that level is left, never above 9.
pub open spec fn slot_ready(current: Seq<u8>, level: u8) -> bool {
    level == 0 || (level <= 9 && current[level - 1] > 0)
}

/// Slots after using one of `level`: one fewer of that level when it
/// was available and is not a cantrip level, else unchanged.
pub open spec fn after_use(current: Seq<u8>, level: u8) -> Seq<u8> {
    if 1 <= level <= 9 && current[level - 1] > 0 {
        current.update(level - 1, (current[level - 1] - 1) as u8)
    } else {
        current
    }
}

/// Slots after restoring one of `level`: one more of that level, capped
/// by its maximum (a count above the maximum drops to it).
pub open spec fn after_restore(current: Seq<u8>, max: Seq<u8>, level: u8) -> Seq<u8> {
    if 1 <= level <= 9 {
        let i = level - 1;
        current.update(
            i,
            if current[i] < max[i] {
                (current[i] + 1) as u8
            } else {
                max[i]
            },
        )
    } else {
        current
    }
}

/// No level has more slots than its maximum.
pub open spec fn within_max(current: Seq<u8>, max: Seq<u8>) -> bool {
    forall|i: int| 0 <= i < 9 ==> #[trigger] current[i] <= max[i]
}

/// Component tracking spell slots.
#[derive(Debug, Clone)]
pub struct SpellSlots {
    /// Current slots per level (index 0 = level 1).
    pub current: [u8; 9],
    /// Maximum slots per level.
    pub max: [u8; 9],
}

impl Default for SpellSlots {
    fn default() -> (s: Self)
        ensures
            s.current@ == seq![0u8, 0, 0, 0, 0, 0, 0, 0, 0],
            s.max@ == seq![0u8, 0, 0, 0, 0, 0, 0, 0, 0],
    {
        let s = Self { current: [0, 0, 0, 0, 0, 0, 0, 0, 0], max: [0, 0, 0, 0, 0, 0, 0, 0, 0] };
        assert(s.current@ =~= seq![0u8, 0, 0, 0, 0, 0, 0, 0, 0]);
        assert(s.max@ =~= seq![0u8, 0, 0, 0, 0, 0, 0, 0, 0]);
        s
    }
}

impl SpellSlots {
    /// Create spell slots for a full caster at a given level, all full.
    pub fn for_full_caster(level: u8) -> (s: Self)
        ensures
            s.max@ == full_caster_slots(level),
            s.current@ == s.max@,
    {
        let max: [u8; 9] = if level == 1 {
            [2, 0, 0, 0, 0, 0, 0, 0, 0]
        } else if level == 2 {
            [3, 0, 0, 0, 0, 0, 0, 0, 0]
        } else if level == 3 {
            [4, 2, 0, 0, 0, 0, 0, 0, 0]
        } else if level == 4 {
            [4, 3, 0, 0, 0, 0, 0, 0, 0]
        } else if level == 5 {
            [4, 3, 2, 0, 0, 0, 0, 0, 0]
        } else if level == 6 {
            [4, 3, 3, 0, 0, 0, 0, 0, 0]
        } else if level == 7 {
            [4, 3, 3, 1, 0, 0, 0, 0, 0]
        } else if level == 8 {
            [4, 3, 3, 2, 0, 0, 0, 0, 0]
        } else if level == 9 {
            [4, 3, 3, 3, 1, 0, 0, 0, 0]
        } else if level == 10 {
            [4, 3, 3, 3, 2, 0, 0, 0, 0]
        } else if 11 <= level && level <= 12 {
            [4, 3, 3, 3, 2, 1, 0, 0, 0]
        } else if 13 <= level && level <= 14 {
            [4, 3, 3, 3, 2, 1, 1, 0, 0]
        } else if 15 <= level && level <= 16 {
            [4, 3, 3, 3, 2, 1, 1, 1, 0]
        } else if level == 17 {
            [4, 3, 3, 3, 2, 1, 1, 1, 1]
        } else if level == 18 {
            [4, 3, 3, 3, 3, 1, 1, 1, 1]
        } else if level == 19 {
            [4, 3, 3, 3, 3, 2, 1, 1, 1]
        } else {
            [4, 3, 3, 3, 3, 2, 2, 1, 1]
        };
        assert(max@ =~= full_caster_slots(level));
        Self { current: max, max }
    }

    /// Check if a spell slot of the given level is available.
    pub fn has_slot(&self, level: u8) -> (b: bool)
        ensures
            b == slot_ready(self.current@, level),
    {
        if level == 0 || level > 9 {
            return level == 0;
        }
        self.current[(level - 1) as usize] > 0
    }

    /// Use a spell slot; cantrips use none.
    pub fn use_slot(&mut self, level: u8) -> (ok: bool)
        ensures
            ok == slot_ready(old(self).current@, level),
            final(self).current@ == after_use(old(self).current@, level),
            final(self).max@ == old(self).max@,
    {
        if level == 0 {
            return true;
        }
        if level > 9 {
            return false;
        }
        let idx = (level - 1) as usize;
        if self.current[idx] > 0 {
            self.current[idx] = self.current[idx] - 1;
            true
        } else {
            false
        }
    }

    /// Restore all spell slots (long rest).
    pub fn restore_all(&mut self)
        ensures
            final(self).current@ == old(self).max@,
            final(self).max@ == old(self).max@,
    {
        self.current = self.max;
    }

    /// Restore a single slot of the given level.
    pub fn restore_slot(&mut self, level: u8)
        ensures
            final(self).current@ == after_restore(old(self).current@, old(self).max@, level),
            final(self).max@ == old(self).max@,
    {
        if level > 0 && level <= 9 {
            let idx = (level - 1) as usize;
            let capped = if self.current[idx] < self.max[idx] {
                self.current[idx]
            } else {
                self.max[idx]
            };
            self.current[idx] = if capped < self.max[idx] {
                capped + 1
            } else {
                capped
            };
        }
    }
}

/// Restoring a slot gives back the one that was just used, as long as
/// the level was within its maximum.
pub proof fn lemma_restore_undoes_use(current: Seq<u8>, max: Seq<u8>, level: u8)
    requires
        current.len() == 9,
        max.len() == 9,
        1 <= level <= 9,
        current[level - 1] > 0,
        current[level - 1] <= max[level - 1],
    ensures
        after_restore(after_use(current, level), max, level) == current,
{
    assert(after_restore(after_use(current, level), max, level) =~= current);
}

/// Using, restoring and refilling slots never takes a level above its
/// maximum, and a fresh full caster starts within it.
pub proof fn lemma_slots_within_max(current: Seq<u8>, max: Seq<u8>, level: u8, caster_level: u8)
    requires
        current.len() == 9,
        max.len() == 9,
        within_max(current, max),
    ensures
        within_max(after_use(current, level), max),
        within_max(after_restore(current, max, level), max),
        within_max(max, max),
        within_max(full_caster_slots(caster_level), full_caster_slots(caster_level)),
{
    let u = after_use(current, level);
    assert forall|i: int| 0 <= i < 9 implies #[trigger] u[i] <= max[i] by {
        assert(current[i] <= max[i]);
    }
    let r = after_restore(current, max, level);
    assert forall|i: int| 0 <= i < 9 implies #[trigger] r[i] <= max[i] by {
        assert(current[i] <= max[i]);
    }
}

/// A spell of level `level`.
pub open spec fn of_level(level: u8) -> spec_fn(SpellId) -> bool {
    |s: SpellId| spell_level(s) == level
}

/// Component tracking known spells.
#[derive(Debug, Clone)]
pub struct KnownSpells {
    pub spells: Vec<SpellId>,
}

impl Default for KnownSpells {
    fn default() -> (k: Self)
        ensures
            k.spells@ == Seq::<SpellId>::empty(),
    {
        Self { spells: Vec::new() }
    }
}

impl KnownSpells {
    /// Learn a spell; a spell already known is not added again.
    pub fn add(&mut self, spell: SpellId)
        ensures
            final(self).spells@ == if old(self).spells@.contains(spell) {
                old(self).spells@
            } else {
                old(self).spells@.push(spell)
            },
    {
        if !self.knows(spell) {
            self.spells.push(spell);
        }
    }

    pub fn knows(&self, spell: SpellId) -> (b: bool)
        ensures
            b == self.spells@.contains(spell),
    {
        let mut i: usize = 0;
        while i < self.spells.len()
            invariant
                i <= self.spells@.len(),
                forall|j: int| 0 <= j < i ==> self.spells@[j] != spell,
            decreases self.spells@.len() - i,
        {
            if self.spells[i] == spell {
                assert(self.spells@[i as int] == spell);
                return true;
            }
            i = i + 1;
        }
        false
    }

    /// Get all known cantrips, in the order they were learned.
    pub fn cantrips(&self) -> (r: Vec<SpellId>)
        ensures
            r@ == self.spells@.filter(of_level(0)),
    {
        self.spells_of_level(0)
    }

    /// Get all known spells of a given level, in the order they were learned.
    pub fn spells_of_level(&self, level: u8) -> (r: Vec<SpellId>)
        ensures
            r@ == self.spells@.filter(of_level(level)),
    {
        let ghost s = self.spells@;
        let mut r: Vec<SpellId> = Vec::new();
        let mut i: usize = 0;
        while i < self.spells.len()
            invariant
                s == self.spells@,
                i <= s.len(),
                r@ == s.take(i as int).filter(of_level(level)),
            decreases s.len() - i,
        {
            proof {
                reveal(Seq::filter);
                assert(s.take(i + 1).drop_last() =~= s.take(i as int));
            }
            let sp = self.spells[i];
            if sp.level() == level {
                r.push(sp);
            }
            i = i + 1;
        }
        proof {
            assert(s.take(s.len() as int) =~= s);
        }
        r
    }
}

/// A learned spell is known afterwards, and learning keeps the list free
/// of duplicates.
pub proof fn lemma_learned_spell_known(spells: Seq<SpellId>, spell: SpellId)
    ensures
        ({
            let after = if spells.contains(spell) {
                spells
            } else {
                spells.push(spell)
            };
            &&& after.contains(spell)
            &&& spells.no_duplicates() ==> after.no_duplicates()
        }),
{
    if !spells.contains(spell) {
        assert(spells.push(spell)[spells.len() as int] == spell);
    }
}

/// Component for spellcasting ability.
#[derive(Debug, Clone)]
pub struct SpellcastingAbility {
    pub ability: Ability,
}

impl Default for SpellcastingAbility {
    fn default() -> (a: Self)
        ensures
            a.ability == Ability::Intelligence,
    {
        Self { ability: Ability::Intelligence }
    }
}

/// Message to cast a spell.
#[derive(Debug, Clone, Copy)]
pub struct CastSpellMessage {
    pub caster: Entity,
    pub spell: SpellId,
    pub target: Option<Entity>,
    pub slot_level: u8,
}

} // verus!
