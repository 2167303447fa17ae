//! Flavor from the game master: names, descriptions and appearances,
//! while the rules keep the mechanics (stats, damage, AC). The prompts
//! that ask for flavor, the shapes of the answers, and how an answer is
//! applied or mapped back to rules items.

use vstd::prelude::*;

use bevy::ecs::entity::Entity;

use crate::dnd::armor::{armor_base_ac, armor_category, armor_lookup, armor_name, ArmorCategory, ArmorDatabase, ArmorType};
use crate::dnd::dice::die_text;
use crate::dnd::monsters::{cr_text, monster_cr, monster_creature_type, monster_name, monster_size, CreatureSize, CreatureType, MonsterTemplate, MonsterType};
use crate::dnd::weapons::{damage_type_name, weapon_damage, weapon_damage_type, weapon_lookup, weapon_name, weapon_word_in, WeaponDatabase, WeaponType};
use crate::seqs::first_where;
use crate::text::lowercase;
use crate::text::{decimal, owned, push_int};

verus! {

/// Types of flavor requests.
#[derive(Debug, Clone)]
pub enum FlavorRequestKind {
    /// Flavor for a monster: custom name, visual description, weapon flavor.
    Monster { monster_type: MonsterType },
    /// Flavor for a weapon.
    Weapon {
        weapon_type: WeaponType,
        /// Where it was found, e.g., "found in skeleton's hand".
        context: String,
    },
    /// Flavor for armor.
    Armor { armor_type: ArmorType, context: String },
    /// A custom item description.
    Item { item_name: String, context: String },
}

/// Request for generated entity flavor.
#[derive(Debug, Clone)]
pub struct FlavorRequestMessage {
    /// Unique request ID for tracking.
    pub request_id: u64,
    /// What kind of flavor to generate.
    pub kind: FlavorRequestKind,
    /// Target entity to apply flavor to.
    pub target_entity: Option<Entity>,
}

/// Generated flavor for a monster.
#[derive(Debug, Clone)]
pub struct MonsterFlavor {
    /// A unique, evocative name (e.g., "Calcified Guardian").
    pub name: String,
    /// 2-3 sentences describing appearance, focusing on unsettling details.
    pub visual_desc: String,
    /// Custom name for their weapon (e.g., "Rusted Pickaxe"), if armed.
    pub weapon_flavor: Option<String>,
    /// Custom name for their armor (e.g., "Moldy Leather Armor"), if armored.
    pub armor_flavor: Option<String>,
    /// One-line personality or behavior trait.
    pub personality_trait: Option<String>,
}

/// Generated flavor for a weapon.
#[derive(Debug, Clone)]
pub struct WeaponFlavor {
    /// A descriptive name (e.g., "Rusted Pickaxe", "Bone-Hilted Dagger").
    pub name: String,
    /// 1-2 sentences describing appearance and condition.
    pub visual_desc: String,
    /// Any markings, runes, or inscriptions.
    pub inscription: Option<String>,
}

/// Generated flavor for armor.
#[derive(Debug, Clone)]
pub struct ArmorFlavor {
    /// A descriptive name (e.g., "Moldy Leather Armor", "Bone-Studded Vest").
    pub name: String,
    /// 1-2 sentences describing appearance and condition.
    pub visual_desc: String,
    /// Any notable features or damage.
    pub features: Option<String>,
}

/// Generated flavor for a generic item.
#[derive(Debug, Clone)]
pub struct ItemFlavor {
    /// Custom item name.
    pub name: String,
    /// Visual description of the item.
    pub visual_desc: String,
    /// Lore or history of the item.
    pub lore: Option<String>,
}

/// Types of flavor responses.
#[derive(Debug, Clone)]
pub enum FlavorResponseKind {
    Monster(MonsterFlavor),
    Weapon(WeaponFlavor),
    Armor(ArmorFlavor),
    Item(ItemFlavor),
    Error(String),
}

/// Response with generated flavor.
#[derive(Debug, Clone)]
pub struct FlavorResponseMessage {
    /// Matching request ID.
    pub request_id: u64,
    /// The generated flavor.
    pub kind: FlavorResponseKind,
    /// Target entity to apply to.
    pub target_entity: Option<Entity>,
}

/// System message for monster flavor.
pub const MONSTER_FLAVOR_SYSTEM: &'static str = "You are a horror-themed Dungeon Master generating flavor for D&D monsters. Be creative and unsettling. Focus on sensory details that create atmosphere.";

/// System message for weapon flavor.
pub const WEAPON_FLAVOR_SYSTEM: &'static str = "You are a horror-themed Dungeon Master generating flavor for weapons. Make descriptions atmospheric and slightly unsettling.";

/// System message for armor flavor.
pub const ARMOR_FLAVOR_SYSTEM: &'static str = "You are a horror-themed Dungeon Master generating flavor for armor. Make descriptions atmospheric and slightly unsettling.";

/// Variant name of a creature type.
pub open spec fn creature_type_variant(t: CreatureType) -> Seq<char> {
    match t {
        CreatureType::Aberration => "Aberration"@,
        CreatureType::Beast => "Beast"@,
        CreatureType::Celestial => "Celestial"@,
        CreatureType::Construct => "Construct"@,
        CreatureType::Dragon => "Dragon"@,
        CreatureType::Elemental => "Elemental"@,
        CreatureType::Fey => "Fey"@,
        CreatureType::Fiend => "Fiend"@,
        CreatureType::Giant => "Giant"@,
        CreatureType::Humanoid => "Humanoid"@,
        CreatureType::Monstrosity => "Monstrosity"@,
        CreatureType::Ooze => "Ooze"@,
        CreatureType::Plant => "Plant"@,
        CreatureType::Undead => "Undead"@,
    }
}

fn creature_type_label(t: CreatureType) -> (s: &'static str)
    ensures
        s@ == creature_type_variant(t),
{
    match t {
        CreatureType::Aberration => "Aberration",
        CreatureType::Beast => "Beast",
        CreatureType::Celestial => "Celestial",
        CreatureType::Construct => "Construct",
        CreatureType::Dragon => "Dragon",
        CreatureType::Elemental => "Elemental",
        CreatureType::Fey => "Fey",
        CreatureType::Fiend => "Fiend",
        CreatureType::Giant => "Giant",
        CreatureType::Humanoid => "Humanoid",
        CreatureType::Monstrosity => "Monstrosity",
        CreatureType::Ooze => "Ooze",
        CreatureType::Plant => "Plant",
        CreatureType::Undead => "Undead",
    }
}

/// Variant name of a creature size.
pub open spec fn size_variant(s: CreatureSize) -> Seq<char> {
    match s {
        CreatureSize::Tiny => "Tiny"@,
        CreatureSize::Small => "Small"@,
        CreatureSize::Medium => "Medium"@,
        CreatureSize::Large => "Large"@,
        CreatureSize::Huge => "Huge"@,
        CreatureSize::Gargantuan => "Gargantuan"@,
    }
}

fn size_label(s: CreatureSize) -> (r: &'static str)
    ensures
        r@ == size_variant(s),
{
    match s {
        CreatureSize::Tiny => "Tiny",
        CreatureSize::Small => "Small",
        CreatureSize::Medium => "Medium",
        CreatureSize::Large => "Large",
        CreatureSize::Huge => "Huge",
        CreatureSize::Gargantuan => "Gargantuan",
    }
}

/// Variant name of an armor category.
pub open spec fn category_variant(c: ArmorCategory) -> Seq<char> {
    match c {
        ArmorCategory::Light => "Light"@,
        ArmorCategory::Medium => "Medium"@,
        ArmorCategory::Heavy => "Heavy"@,
        ArmorCategory::Shield => "Shield"@,
    }
}

fn category_label(c: ArmorCategory) -> (r: &'static str)
    ensures
        r@ == category_variant(c),
{
    match c {
        ArmorCategory::Light => "Light",
        ArmorCategory::Medium => "Medium",
        ArmorCategory::Heavy => "Heavy",
        ArmorCategory::Shield => "Shield",
    }
}

/// The prompt asking for a monster's flavor.
pub open spec fn monster_flavor_text(m: MonsterType) -> Seq<char> {
    "Generate unique, atmospheric flavor for this creature:\n\nMonster Type: "@ + monster_name(m)
        + " (CR "@ + cr_text(monster_cr(m)) + ")\nCreature Type: "@ + creature_type_variant(
        monster_creature_type(m),
    ) + "\nSize: "@ + size_variant(monster_size(m))
        + "\n\nThe game uses D&D mechanical stats (HP, AC, damage) - you only provide narrative flavor."@
}

/// The prompt asking for a monster's flavor.
pub fn monster_flavor_prompt(monster_type: MonsterType) -> (s: String)
    ensures
        s@ == monster_flavor_text(monster_type),
{
    let data = monster_type.data();
    let mut s = owned("Generate unique, atmospheric flavor for this creature:\n\nMonster Type: ");
    s.append(data.name);
    s.append(" (CR ");
    s.append(data.challenge_rating.display());
    s.append(")\nCreature Type: ");
    s.append(creature_type_label(data.creature_type));
    s.append("\nSize: ");
    s.append(size_label(data.size));
    s.append(
        "\n\nThe game uses D&D mechanical stats (HP, AC, damage) - you only provide narrative flavor.",
    );
    s
}

/// The prompt asking for a weapon's flavor; the die is written after a
/// `d`, as in "1dd8".
pub open spec fn weapon_flavor_text(w: WeaponType, context: Seq<char>) -> Seq<char> {
    "Generate atmospheric flavor for this weapon:\n\nWeapon Type: "@ + weapon_name(w) + " ("@
        + decimal(weapon_damage(w).count as int) + "d"@ + die_text(weapon_damage(w).die_type)
        + " "@ + damage_type_name(weapon_damage_type(w)) + " damage)\nContext: "@ + context
        + "\n\nThe game uses D&D mechanics - you provide narrative flavor only."@
}

/// The prompt asking for a weapon's flavor.
pub fn weapon_flavor_prompt(weapon_type: WeaponType, context: &str) -> (s: String)
    ensures
        s@ == weapon_flavor_text(weapon_type, context@),
{
    let data = weapon_type.base_data();
    let mut s = owned("Generate atmospheric flavor for this weapon:\n\nWeapon Type: ");
    s.append(data.name);
    s.append(" (");
    push_int(&mut s, data.damage.count as i128);
    s.append("d");
    let die = data.damage.die_type.to_string();
    s.append(die.as_str());
    s.append(" ");
    s.append(data.damage_type.name());
    s.append(" damage)\nContext: ");
    s.append(context);
    s.append("\n\nThe game uses D&D mechanics - you provide narrative flavor only.");
    s
}

/// The prompt asking for armor's flavor.
pub open spec fn armor_flavor_text(a: ArmorType, context: Seq<char>) -> Seq<char> {
    "Generate atmospheric flavor for this armor:\n\nArmor Type: "@ + armor_name(a) + " (AC "@
        + decimal(armor_base_ac(a) as int) + ", "@ + category_variant(armor_category(a))
        + ")\nContext: "@ + context
}

/// The prompt asking for armor's flavor.
pub fn armor_flavor_prompt(armor_type: ArmorType, context: &str) -> (s: String)
    ensures
        s@ == armor_flavor_text(armor_type, context@),
{
    let data = armor_type.base_data();
    let mut s = owned("Generate atmospheric flavor for this armor:\n\nArmor Type: ");
    s.append(data.name);
    s.append(" (AC ");
    push_int(&mut s, data.base_ac as i128);
    s.append(", ");
    s.append(category_label(data.category));
    s.append(")\nContext: ");
    s.append(context);
    s
}

/// The weapon a generated weapon name maps back to: what the database
/// lookup finds (exact name, then partial match), else the first weapon
/// with a word of its name in the generated one.
pub open spec fn weapon_flavor_lookup(list: Seq<WeaponType>, name: Seq<char>) -> Option<WeaponType> {
    match weapon_lookup(list, name) {
        Some(w) => Some(w),
        None => first_where(list, weapon_word_in(lowercase(name))),
    }
}

/// Map a generated weapon name back to a weapon type: exact name first,
/// then a partial match, then a shared word, e.g. "Rusted Pickaxe" to the
/// war pick.
pub fn map_weapon_flavor_to_type(flavor_name: &str, weapon_db: &WeaponDatabase) -> (r: Option<
    WeaponType,
>)
    ensures
        r == weapon_flavor_lookup(weapon_db@, flavor_name@),
{
    match weapon_db.find_by_name(flavor_name) {
        Some(w) => Some(w),
        None => weapon_db.find_by_word(flavor_name),
    }
}

/// Map a generated armor name back to an armor type.
pub fn map_armor_flavor_to_type(flavor_name: &str, armor_db: &ArmorDatabase) -> (r: Option<
    ArmorType,
>)
    ensures
        r == armor_lookup(armor_db@, flavor_name@),
{
    armor_db.find_by_name(flavor_name)
}

/// Apply monster flavor to a template: name, description, weapon and
/// armor flavor; the monster type stays.
pub fn apply_monster_flavor(template: &mut MonsterTemplate, flavor: &MonsterFlavor)
    ensures
        final(template).monster_type == old(template).monster_type,
        final(template).custom_name == Some(flavor.name),
        final(template).visual_description == Some(flavor.visual_desc),
        final(template).weapon_flavor == flavor.weapon_flavor,
        final(template).armor_flavor == flavor.armor_flavor,
{
    template.custom_name = Some(flavor.name.clone());
    template.visual_description = Some(flavor.visual_desc.clone());
    template.weapon_flavor = match &flavor.weapon_flavor {
        Some(w) => Some(w.clone()),
        None => None,
    };
    template.armor_flavor = match &flavor.armor_flavor {
        Some(a) => Some(a.clone()),
        None => None,
    };
}

} // verus!
