//! Armor from the SRD: light, medium and heavy armor, shields, and AC.

use vstd::prelude::*;

use crate::seqs::{first_where, lemma_first_where_ends, lemma_first_where_step};
use crate::text::{has_substring, lowercase, owned, str_contains, str_eq, to_lowercase};

verus! {

/// Armor proficiency category.
#[derive(Debug, Clone, Copy, PartialEq, Eq, Hash, Structural)]
pub enum ArmorCategory {
    /// AC = base + full DEX modifier
    Light,
    /// AC = base + DEX modifier (max +2)
    Medium,
    /// AC = base (no DEX modifier)
    Heavy,
    /// Adds +2 to AC
    Shield,
}

/// Known armor types from the SRD.
#[derive(Debug, Clone, Copy, PartialEq, Eq, Hash, Structural)]
pub enum ArmorType {
    // Unarmored
    Unarmored,
    // Light Armor
    Padded,
    Leather,
    StuddedLeather,
    // Medium Armor
    Hide,
    ChainShirt,
    ScaleMail,
    Breastplate,
    HalfPlate,
    // Heavy Armor
    RingMail,
    ChainMail,
    Splint,
    Plate,
    // Shield
    Shield,
}

/// How DEX modifier applies to this armor.
#[derive(Debug, Clone, Copy, PartialEq, Eq, Structural)]
pub enum DexBonus {
    /// No DEX bonus (heavy armor).
    Ignored,
    /// Full DEX bonus (light armor, unarmored).
    Full,
    /// DEX bonus with a maximum (medium armor).
    Max(i32),
}

/// SRD name of an armor.
pub open spec fn armor_name(a: ArmorType) -> Seq<char> {
    match a {
        ArmorType::Unarmored => "Unarmored"@,
        ArmorType::Padded => "Padded"@,
        ArmorType::Leather => "Leather"@,
        ArmorType::StuddedLeather => "Studded Leather"@,
        ArmorType::Hide => "Hide"@,
        ArmorType::ChainShirt => "Chain Shirt"@,
        ArmorType::ScaleMail => "Scale Mail"@,
        ArmorType::Breastplate => "Breastplate"@,
        ArmorType::HalfPlate => "Half Plate"@,
        ArmorType::RingMail => "Ring Mail"@,
        ArmorType::ChainMail => "Chain Mail"@,
        ArmorType::Splint => "Splint"@,
        ArmorType::Plate => "Plate"@,
        ArmorType::Shield => "Shield"@,
    }
}

/// Category of an armor.
pub open spec fn armor_category(a: ArmorType) -> ArmorCategory {
    match a {
        ArmorType::Unarmored => ArmorCategory::Light,
        ArmorType::Padded => ArmorCategory::Light,
        ArmorType::Leather => ArmorCategory::Light,
        ArmorType::StuddedLeather => ArmorCategory::Light,
        ArmorType::Hide => ArmorCategory::Medium,
        ArmorType::ChainShirt => ArmorCategory::Medium,
        ArmorType::ScaleMail => ArmorCategory::Medium,
        ArmorType::Breastplate => ArmorCategory::Medium,
        ArmorType::HalfPlate => ArmorCategory::Medium,
        ArmorType::RingMail => ArmorCategory::Heavy,
        ArmorType::ChainMail => ArmorCategory::Heavy,
        ArmorType::Splint => ArmorCategory::Heavy,
        ArmorType::Plate => ArmorCategory::Heavy,
        ArmorType::Shield => ArmorCategory::Shield,
    }
}

/// Base armor class of an armor (the bonus, for a shield).
pub open spec fn armor_base_ac(a: ArmorType) -> i32 {
    match a {
        ArmorType::Unarmored => 10,
        ArmorType::Padded => 11,
        ArmorType::Leather => 11,
        ArmorType::StuddedLeather => 12,
        ArmorType::Hide => 12,
        ArmorType::ChainShirt => 13,
        ArmorType::ScaleMail => 14,
        ArmorType::Breastplate => 14,
        ArmorType::HalfPlate => 15,
        ArmorType::RingMail => 14,
        ArmorType::ChainMail => 16,
        ArmorType::Splint => 17,
        ArmorType::Plate => 18,
        ArmorType::Shield => 2,
    }
}

/// How the DEX modifier applies to an armor.
pub open spec fn armor_dex_bonus(a: ArmorType) -> DexBonus {
    match a {
        ArmorType::Unarmored => DexBonus::Full,
        ArmorType::Padded => DexBonus::Full,
        ArmorType::Leather => DexBonus::Full,
        ArmorType::StuddedLeather => DexBonus::Full,
        ArmorType::Hide => DexBonus::Max(2),
        ArmorType::ChainShirt => DexBonus::Max(2),
        ArmorType::ScaleMail => DexBonus::Max(2),
        ArmorType::Breastplate => DexBonus::Max(2),
        ArmorType::HalfPlate => DexBonus::Max(2),
        ArmorType::RingMail => DexBonus::Ignored,
        ArmorType::ChainMail => DexBonus::Ignored,
        ArmorType::Splint => DexBonus::Ignored,
        ArmorType::Plate => DexBonus::Ignored,
        ArmorType::Shield => DexBonus::Ignored,
    }
}

/// Strength an armor asks of its wearer.
pub open spec fn armor_strength_requirement(a: ArmorType) -> Option<i32> {
    match a {
        ArmorType::Unarmored => None,
        ArmorType::Padded => None,
        ArmorType::Leather => None,
        ArmorType::StuddedLeather => None,
        ArmorType::Hide => None,
        ArmorType::ChainShirt => None,
        ArmorType::ScaleMail => None,
        ArmorType::Breastplate => None,
        ArmorType::HalfPlate => None,
        ArmorType::RingMail => None,
        ArmorType::ChainMail => Some(13),
        ArmorType::Splint => Some(15),
        ArmorType::Plate => Some(15),
        ArmorType::Shield => None,
    }
}

/// Whether an armor imposes disadvantage on stealth.
pub open spec fn armor_stealth_disadvantage(a: ArmorType) -> bool {
    match a {
        ArmorType::Unarmored => false,
        ArmorType::Padded => true,
        ArmorType::Leather => false,
        ArmorType::StuddedLeather => false,
        ArmorType::Hide => false,
        ArmorType::ChainShirt => false,
        ArmorType::ScaleMail => true,
        ArmorType::Breastplate => false,
        ArmorType::HalfPlate => true,
        ArmorType::RingMail => true,
        ArmorType::ChainMail => true,
        ArmorType::Splint => true,
        ArmorType::Plate => true,
        ArmorType::Shield => false,
    }
}


/// The part of the DEX modifier that counts toward AC.
pub open spec fn dex_part(bonus: DexBonus, dex_modifier: int) -> int {
    match bonus {
        DexBonus::Ignored => 0,
        DexBonus::Full => dex_modifier,
        DexBonus::Max(max) => if dex_modifier < max {
            dex_modifier
        } else {
            max as int
        },
    }
}

/// Static armor data from the SRD.
#[derive(Debug, Clone, Copy)]
pub struct ArmorData {
    pub name: &'static str,
    pub category: ArmorCategory,
    pub base_ac: i32,
    pub dex_bonus: DexBonus,
    pub strength_requirement: Option<i32>,
    pub stealth_disadvantage: bool,
}

impl ArmorData {
    /// This data is the SRD entry of armor `a`.
    pub open spec fn describes(self, a: ArmorType) -> bool {
        &&& self.name@ == armor_name(a)
        &&& self.category == armor_category(a)
        &&& self.base_ac == armor_base_ac(a)
        &&& self.dex_bonus == armor_dex_bonus(a)
        &&& self.strength_requirement == armor_strength_requirement(a)
        &&& self.stealth_disadvantage == armor_stealth_disadvantage(a)
    }

    /// AC with this armor and a DEX modifier: base plus the counted part.
    pub open spec fn ac_with(self, dex_modifier: int) -> int {
        self.base_ac + dex_part(self.dex_bonus, dex_modifier)
    }

    /// Calculate AC with this armor and the given DEX modifier.
    pub fn calculate_ac(&self, dex_modifier: i32) -> (ac: i32)
        requires
            i32::MIN <= self.ac_with(dex_modifier as int) <= i32::MAX,
        ensures
            ac == self.ac_with(dex_modifier as int),
    {
        let dex_bonus = match self.dex_bonus {
            DexBonus::Ignored => 0,
            DexBonus::Full => dex_modifier,
            DexBonus::Max(max) => if dex_modifier < max {
                dex_modifier
            } else {
                max
            },
        };
        self.base_ac + dex_bonus
    }
}

impl ArmorType {
    /// Get the base armor data for this type.
    pub fn base_data(&self) -> (d: ArmorData)
        ensures
            d.describes(*self),
    {
        match self {
            ArmorType::Unarmored => ArmorData {
                name: "Unarmored",
                category: ArmorCategory::Light,
                base_ac: 10,
                dex_bonus: DexBonus::Full,
                strength_requirement: None,
                stealth_disadvantage: false,
            },
            ArmorType::Padded => ArmorData {
                name: "Padded",
                category: ArmorCategory::Light,
                base_ac: 11,
                dex_bonus: DexBonus::Full,
                strength_requirement: None,
                stealth_disadvantage: true,
            },
            ArmorType::Leather => ArmorData {
                name: "Leather",
                category: ArmorCategory::Light,
                base_ac: 11,
                dex_bonus: DexBonus::Full,
                strength_requirement: None,
                stealth_disadvantage: false,
            },
            ArmorType::StuddedLeather => ArmorData {
                name: "Studded Leather",
                category: ArmorCategory::Light,
                base_ac: 12,
                dex_bonus: DexBonus::Full,
                strength_requirement: None,
                stealth_disadvantage: false,
            },
            ArmorType::Hide => ArmorData {
                name: "Hide",
                category: ArmorCategory::Medium,
                base_ac: 12,
                dex_bonus: DexBonus::Max(2),
                strength_requirement: None,
                stealth_disadvantage: false,
            },
            ArmorType::ChainShirt => ArmorData {
                name: "Chain Shirt",
                category: ArmorCategory::Medium,
                base_ac: 13,
                dex_bonus: DexBonus::Max(2),
                strength_requirement: None,
                stealth_disadvantage: false,
            },
            ArmorType::ScaleMail => ArmorData {
                name: "Scale Mail",
                category: ArmorCategory::Medium,
                base_ac: 14,
                dex_bonus: DexBonus::Max(2),
                strength_requirement: None,
                stealth_disadvantage: true,
            },
            ArmorType::Breastplate => ArmorData {
                name: "Breastplate",
                category: ArmorCategory::Medium,
                base_ac: 14,
                dex_bonus: DexBonus::Max(2),
                strength_requirement: None,
                stealth_disadvantage: false,
            },
            ArmorType::HalfPlate => ArmorData {
                name: "Half Plate",
                category: ArmorCategory::Medium,
                base_ac: 15,
                dex_bonus: DexBonus::Max(2),
                strength_requirement: None,
                stealth_disadvantage: true,
            },
            ArmorType::RingMail => ArmorData {
                name: "Ring Mail",
                category: ArmorCategory::Heavy,
                base_ac: 14,
                dex_bonus: DexBonus::Ignored,
                strength_requirement: None,
                stealth_disadvantage: true,
            },
            ArmorType::ChainMail => ArmorData {
                name: "Chain Mail",
                category: ArmorCategory::Heavy,
                base_ac: 16,
                dex_bonus: DexBonus::Ignored,
                strength_requirement: Some(13),
                stealth_disadvantage: true,
            },
            ArmorType::Splint => ArmorData {
                name: "Splint",
                category: ArmorCategory::Heavy,
                base_ac: 17,
                dex_bonus: DexBonus::Ignored,
                strength_requirement: Some(15),
                stealth_disadvantage: true,
            },
            ArmorType::Plate => ArmorData {
                name: "Plate",
                category: ArmorCategory::Heavy,
                base_ac: 18,
                dex_bonus: DexBonus::Ignored,
                strength_requirement: Some(15),
                stealth_disadvantage: true,
            },
            ArmorType::Shield => ArmorData {
                name: "Shield",
                category: ArmorCategory::Shield,
                base_ac: 2,
                dex_bonus: DexBonus::Ignored,
                strength_requirement: None,
                stealth_disadvantage: false,
            },
        }
    }
}

/// An armor instance with potential customization.
#[derive(Debug, Clone)]
pub struct Armor {
    /// Base armor type.
    pub armor_type: ArmorType,
    /// Custom name (e.g., "Moldy Leather Armor").
    pub flavor_name: Option<String>,
    /// Magic bonus to AC.
    pub magic_bonus: i32,
    /// Whether this is equipped.
    pub equipped: bool,
}

/// AC of an armor type worn with a DEX modifier, before any magic bonus.
pub open spec fn armor_ac(a: ArmorType, dex_modifier: int) -> int {
    armor_base_ac(a) + dex_part(armor_dex_bonus(a), dex_modifier)
}

impl Armor {
    /// Create new armor of the given type.
    pub fn new(armor_type: ArmorType) -> (a: Self)
        ensures
            a.armor_type == armor_type,
            a.flavor_name is None,
            a.magic_bonus == 0,
            !a.equipped,
    {
        Self { armor_type, flavor_name: None, magic_bonus: 0, equipped: false }
    }

    /// Create armor with a custom flavor name.
    pub fn with_flavor_name(self, name: &str) -> (a: Self)
        ensures
            a.armor_type == self.armor_type,
            a.flavor_name matches Some(n) && n@ == name@,
            a.magic_bonus == self.magic_bonus,
            a.equipped == self.equipped,
    {
        let mut a = self;
        a.flavor_name = Some(owned(name));
        a
    }

    /// Create magic armor with a bonus.
    pub fn with_magic_bonus(self, bonus: i32) -> (a: Self)
        ensures
            a.armor_type == self.armor_type,
            a.flavor_name == self.flavor_name,
            a.magic_bonus == bonus,
            a.equipped == self.equipped,
    {
        let mut a = self;
        a.magic_bonus = bonus;
        a
    }

    /// Set the equipped state.
    pub fn equipped(self, equipped: bool) -> (a: Self)
        ensures
            a.armor_type == self.armor_type,
            a.flavor_name == self.flavor_name,
            a.magic_bonus == self.magic_bonus,
            a.equipped == equipped,
    {
        let mut a = self;
        a.equipped = equipped;
        a
    }

    /// Get the base armor data.
    pub fn data(&self) -> (d: ArmorData)
        ensures
            d.describes(self.armor_type),
    {
        self.armor_type.base_data()
    }

    /// Get the display name: the flavor name if there is one, else the SRD name.
    pub fn display_name(&self) -> (s: String)
        ensures
            s@ == match self.flavor_name {
                Some(n) => n@,
                None => armor_name(self.armor_type),
            },
    {
        match &self.flavor_name {
            Some(flavor) => owned(flavor.as_str()),
            None => owned(self.armor_type.base_data().name),
        }
    }

    /// Calculate AC with this armor (including magic bonus).
    pub fn calculate_ac(&self, dex_modifier: i32) -> (ac: i32)
        requires
            i32::MIN <= armor_ac(self.armor_type, dex_modifier as int) <= i32::MAX,
            i32::MIN <= armor_ac(self.armor_type, dex_modifier as int) + self.magic_bonus
                <= i32::MAX,
        ensures
            ac == armor_ac(self.armor_type, dex_modifier as int) + self.magic_bonus,
    {
        self.data().calculate_ac(dex_modifier) + self.magic_bonus
    }
}

/// Medium armor never counts more than +2 of DEX, heavy armor and shields
/// ignore DEX, and light armor counts all of it.
pub proof fn lemma_armor_dex_rules(a: ArmorType, dex_modifier: int)
    ensures
        armor_category(a) == ArmorCategory::Medium ==> armor_ac(a, dex_modifier) <= armor_base_ac(
            a,
        ) + 2,
        armor_category(a) == ArmorCategory::Medium && dex_modifier <= 2 ==> armor_ac(
            a,
            dex_modifier,
        ) == armor_base_ac(a) + dex_modifier,
        armor_category(a) == ArmorCategory::Heavy || armor_category(a) == ArmorCategory::Shield
            ==> armor_ac(a, dex_modifier) == armor_base_ac(a),
        armor_category(a) == ArmorCategory::Light ==> armor_ac(a, dex_modifier) == armor_base_ac(
            a,
        ) + dex_modifier,
{
}

/// The armors listed in the armor database, in lookup order.
pub open spec fn armor_catalog() -> Seq<ArmorType> {
    seq![ArmorType::Unarmored, ArmorType::Padded, ArmorType::Leather, ArmorType::StuddedLeather, ArmorType::Hide, ArmorType::ChainShirt, ArmorType::ScaleMail, ArmorType::Breastplate, ArmorType::HalfPlate, ArmorType::RingMail, ArmorType::ChainMail, ArmorType::Splint, ArmorType::Plate, ArmorType::Shield]
}

/// An armor whose lowercased name equals `q`.
pub open spec fn armor_named(q: Seq<char>) -> spec_fn(ArmorType) -> bool {
    |a: ArmorType| lowercase(armor_name(a)) == q
}

/// An armor whose lowercased name contains `q` or is contained in it.
pub open spec fn armor_name_overlaps(q: Seq<char>) -> spec_fn(ArmorType) -> bool {
    |a: ArmorType|
        has_substring(lowercase(armor_name(a)), q) || has_substring(q, lowercase(armor_name(a)))
}

/// The armor a database lookup by `name` finds among `list`: first an
/// exact (case-insensitive) name, then the first partial match.
pub open spec fn armor_lookup(list: Seq<ArmorType>, name: Seq<char>) -> Option<ArmorType> {
    match first_where(list, armor_named(lowercase(name))) {
        Some(a) => Some(a),
        None => first_where(list, armor_name_overlaps(lowercase(name))),
    }
}

/// Database of all armor types for lookup and AI mapping.
pub struct ArmorDatabase {
    armors: Vec<ArmorType>,
}

impl View for ArmorDatabase {
    type V = Seq<ArmorType>;

    closed spec fn view(&self) -> Seq<ArmorType> {
        self.armors@
    }
}

impl Default for ArmorDatabase {
    fn default() -> (db: Self)
        ensures
            db@ == armor_catalog(),
    {
        Self { armors: vec![ArmorType::Unarmored, ArmorType::Padded, ArmorType::Leather, ArmorType::StuddedLeather, ArmorType::Hide, ArmorType::ChainShirt, ArmorType::ScaleMail, ArmorType::Breastplate, ArmorType::HalfPlate, ArmorType::RingMail, ArmorType::ChainMail, ArmorType::Splint, ArmorType::Plate, ArmorType::Shield] }
    }
}

impl ArmorDatabase {
    /// Find an armor type by name (case-insensitive, partial match).
    pub fn find_by_name(&self, name: &str) -> (r: Option<ArmorType>)
        ensures
            r == armor_lookup(self@, name@),
    {
        let name_lower = to_lowercase(name);
        let ghost q = lowercase(name@);
        let ghost s = self.armors@;
        proof {
            lemma_first_where_ends(s, armor_named(q));
        }
        let mut i: usize = 0;
        while i < self.armors.len()
            invariant
                i <= s.len(),
                s == self.armors@,
                name_lower@ == q,
                q == lowercase(name@),
                first_where(s, armor_named(q)) == first_where(
                    s.subrange(i as int, s.len() as int),
                    armor_named(q),
                ),
            decreases s.len() - i,
        {
            let armor = self.armors[i];
            let data = armor.base_data();
            let lower = to_lowercase(data.name);
            proof {
                lemma_first_where_step(s, armor_named(q), i as int);
            }
            if str_eq(lower.as_str(), name_lower.as_str()) {
                return Some(armor);
            }
            i = i + 1;
        }
        proof {
            lemma_first_where_ends(s, armor_named(q));
            lemma_first_where_ends(s, armor_name_overlaps(q));
        }
        let mut j: usize = 0;
        while j < self.armors.len()
            invariant
                j <= s.len(),
                s == self.armors@,
                name_lower@ == q,
                q == lowercase(name@),
                first_where(s, armor_named(q)) is None,
                first_where(s, armor_name_overlaps(q)) == first_where(
                    s.subrange(j as int, s.len() as int),
                    armor_name_overlaps(q),
                ),
            decreases s.len() - j,
        {
            let armor = self.armors[j];
            let data = armor.base_data();
            let lower = to_lowercase(data.name);
            proof {
                lemma_first_where_step(s, armor_name_overlaps(q), j as int);
            }
            if str_contains(lower.as_str(), name_lower.as_str()) || str_contains(
                name_lower.as_str(),
                lower.as_str(),
            ) {
                return Some(armor);
            }
            j = j + 1;
        }
        None
    }

    /// Get all armors.
    pub fn all(&self) -> (r: &[ArmorType])
        ensures
            r@ == self@,
    {
        self.armors.as_slice()
    }
}

} // verus!
