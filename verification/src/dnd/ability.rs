//! Ability scores and modifiers.
//!
//! The six ability scores are Strength, Dexterity, Constitution,
//! Intelligence, Wisdom and Charisma.

use vstd::prelude::*;

verus! {

/// The six D&D ability scores.
#[derive(Debug, Clone, Copy, PartialEq, Eq, Hash, Structural)]
pub enum Ability {
    Strength,
    Dexterity,
    Constitution,
    Intelligence,
    Wisdom,
    Charisma,
}

impl Ability {
    /// Get the short name (3-letter abbreviation).
    pub fn short_name(&self) -> (s: &'static str)
        ensures
            s@ == match *self {
                Ability::Strength => "STR"@,
                Ability::Dexterity => "DEX"@,
                Ability::Constitution => "CON"@,
                Ability::Intelligence => "INT"@,
                Ability::Wisdom => "WIS"@,
                Ability::Charisma => "CHA"@,
            },
    {
        match self {
            Ability::Strength => "STR",
            Ability::Dexterity => "DEX",
            Ability::Constitution => "CON",
            Ability::Intelligence => "INT",
            Ability::Wisdom => "WIS",
            Ability::Charisma => "CHA",
        }
    }

    /// Get the full name.
    pub fn full_name(&self) -> (s: &'static str)
        ensures
            s@ == match *self {
                Ability::Strength => "Strength"@,
                Ability::Dexterity => "Dexterity"@,
                Ability::Constitution => "Constitution"@,
                Ability::Intelligence => "Intelligence"@,
                Ability::Wisdom => "Wisdom"@,
                Ability::Charisma => "Charisma"@,
            },
    {
        match self {
            Ability::Strength => "Strength",
            Ability::Dexterity => "Dexterity",
            Ability::Constitution => "Constitution",
            Ability::Intelligence => "Intelligence",
            Ability::Wisdom => "Wisdom",
            Ability::Charisma => "Charisma",
        }
    }

    /// Get all abilities in order.
    pub fn all() -> (r: [Ability; 6])
        ensures
            r@ == seq![
                Ability::Strength,
                Ability::Dexterity,
                Ability::Constitution,
                Ability::Intelligence,
                Ability::Wisdom,
                Ability::Charisma,
            ],
    {
        let r = [
            Ability::Strength,
            Ability::Dexterity,
            Ability::Constitution,
            Ability::Intelligence,
            Ability::Wisdom,
            Ability::Charisma,
        ];
        assert(r@ =~= seq![
            Ability::Strength,
            Ability::Dexterity,
            Ability::Constitution,
            Ability::Intelligence,
            Ability::Wisdom,
            Ability::Charisma,
        ]);
        r
    }
}

/// Container for all six ability scores.
#[derive(Debug, Clone, Copy, PartialEq, Eq, Structural)]
pub struct AbilityScores {
    /// Strength score (1-30, typically 8-18 for characters).
    pub strength: i32,
    /// Dexterity score.
    pub dexterity: i32,
    /// Constitution score.
    pub constitution: i32,
    /// Intelligence score.
    pub intelligence: i32,
    /// Wisdom score.
    pub wisdom: i32,
    /// Charisma score.
    pub charisma: i32,
}

/// Modifier of an ability score: `floor((score - 10) / 2)`.
pub open spec fn modifier_of(score: int) -> int {
    (score - 10) / 2
}

/// The standard array values, in the order they are handed out.
pub open spec fn standard_value(i: int) -> i32 {
    if i == 0 {
        15
    } else if i == 1 {
        14
    } else if i == 2 {
        13
    } else if i == 3 {
        12
    } else if i == 4 {
        10
    } else {
        8
    }
}

/// Every score is 10.
pub open spec fn average_scores() -> AbilityScores {
    AbilityScores {
        strength: 10,
        dexterity: 10,
        constitution: 10,
        intelligence: 10,
        wisdom: 10,
        charisma: 10,
    }
}

/// Scores after handing the first `n` standard values to `order[0..n]`,
/// one after another, starting from all 10s.
pub open spec fn standard_scores(order: Seq<Ability>, n: nat) -> AbilityScores
    decreases n,
{
    if n == 0 {
        average_scores()
    } else {
        standard_scores(order, (n - 1) as nat).with(order[n - 1], standard_value(n - 1))
    }
}

impl AbilityScores {
    /// The score of one ability.
    pub open spec fn score(self, ability: Ability) -> i32 {
        match ability {
            Ability::Strength => self.strength,
            Ability::Dexterity => self.dexterity,
            Ability::Constitution => self.constitution,
            Ability::Intelligence => self.intelligence,
            Ability::Wisdom => self.wisdom,
            Ability::Charisma => self.charisma,
        }
    }

    /// These scores with one ability's score replaced.
    pub open spec fn with(self, ability: Ability, value: i32) -> AbilityScores {
        match ability {
            Ability::Strength => AbilityScores { strength: value, ..self },
            Ability::Dexterity => AbilityScores { dexterity: value, ..self },
            Ability::Constitution => AbilityScores { constitution: value, ..self },
            Ability::Intelligence => AbilityScores { intelligence: value, ..self },
            Ability::Wisdom => AbilityScores { wisdom: value, ..self },
            Ability::Charisma => AbilityScores { charisma: value, ..self },
        }
    }

    /// No score is so low that its modifier cannot be computed.
    pub open spec fn in_range(self) -> bool {
        &&& self.strength >= i32::MIN + 10
        &&& self.dexterity >= i32::MIN + 10
        &&& self.constitution >= i32::MIN + 10
        &&& self.intelligence >= i32::MIN + 10
        &&& self.wisdom >= i32::MIN + 10
        &&& self.charisma >= i32::MIN + 10
    }

    /// Create ability scores from individual values.
    pub fn new(str: i32, dex: i32, con: i32, intl: i32, wis: i32, cha: i32) -> (s: Self)
        ensures
            s == (AbilityScores {
                strength: str,
                dexterity: dex,
                constitution: con,
                intelligence: intl,
                wisdom: wis,
                charisma: cha,
            }),
    {
        Self {
            strength: str,
            dexterity: dex,
            constitution: con,
            intelligence: intl,
            wisdom: wis,
            charisma: cha,
        }
    }

    /// Create ability scores using the standard array (15, 14, 13, 12, 10, 8):
    /// `order[i]` receives the `i`-th value, starting from all 10s.
    pub fn standard_array(order: [Ability; 6]) -> (s: Self)
        ensures
            s == standard_scores(order@, 6),
    {
        let values: [i32; 6] = [15, 14, 13, 12, 10, 8];
        let mut scores = Self::default();
        let mut i: usize = 0;
        while i < 6
            invariant
                i <= 6,
                values@ == seq![15i32, 14, 13, 12, 10, 8],
                scores == standard_scores(order@, i as nat),
            decreases 6 - i,
        {
            scores.set(order[i], values[i]);
            i = i + 1;
        }
        scores
    }

    /// Get a specific ability score.
    pub fn get(&self, ability: Ability) -> (v: i32)
        ensures
            v == self.score(ability),
    {
        match ability {
            Ability::Strength => self.strength,
            Ability::Dexterity => self.dexterity,
            Ability::Constitution => self.constitution,
            Ability::Intelligence => self.intelligence,
            Ability::Wisdom => self.wisdom,
            Ability::Charisma => self.charisma,
        }
    }

    /// Set a specific ability score.
    pub fn set(&mut self, ability: Ability, value: i32)
        ensures
            *final(self) == old(self).with(ability, value),
    {
        match ability {
            Ability::Strength => self.strength = value,
            Ability::Dexterity => self.dexterity = value,
            Ability::Constitution => self.constitution = value,
            Ability::Intelligence => self.intelligence = value,
            Ability::Wisdom => self.wisdom = value,
            Ability::Charisma => self.charisma = value,
        }
    }

    /// Get the modifier for a specific ability.
    pub fn modifier(&self, ability: Ability) -> (m: i32)
        requires
            self.score(ability) >= i32::MIN + 10,
        ensures
            m == modifier_of(self.score(ability) as int),
    {
        calculate_modifier(self.get(ability))
    }

    /// Get the Strength modifier.
    pub fn str_mod(&self) -> (m: i32)
        requires
            self.strength >= i32::MIN + 10,
        ensures
            m == modifier_of(self.strength as int),
    {
        calculate_modifier(self.strength)
    }

    /// Get the Dexterity modifier.
    pub fn dex_mod(&self) -> (m: i32)
        requires
            self.dexterity >= i32::MIN + 10,
        ensures
            m == modifier_of(self.dexterity as int),
    {
        calculate_modifier(self.dexterity)
    }

    /// Get the Constitution modifier.
    pub fn con_mod(&self) -> (m: i32)
        requires
            self.constitution >= i32::MIN + 10,
        ensures
            m == modifier_of(self.constitution as int),
    {
        calculate_modifier(self.constitution)
    }

    /// Get the Intelligence modifier.
    pub fn int_mod(&self) -> (m: i32)
        requires
            self.intelligence >= i32::MIN + 10,
        ensures
            m == modifier_of(self.intelligence as int),
    {
        calculate_modifier(self.intelligence)
    }

    /// Get the Wisdom modifier.
    pub fn wis_mod(&self) -> (m: i32)
        requires
            self.wisdom >= i32::MIN + 10,
        ensures
            m == modifier_of(self.wisdom as int),
    {
        calculate_modifier(self.wisdom)
    }

    /// Get the Charisma modifier.
    pub fn cha_mod(&self) -> (m: i32)
        requires
            self.charisma >= i32::MIN + 10,
        ensures
            m == modifier_of(self.charisma as int),
    {
        calculate_modifier(self.charisma)
    }
}

impl Default for AbilityScores {
    fn default() -> (s: Self)
        ensures
            s == average_scores(),
    {
        Self {
            strength: 10,
            dexterity: 10,
            constitution: 10,
            intelligence: 10,
            wisdom: 10,
            charisma: 10,
        }
    }
}

/// Calculate the ability modifier from an ability score:
/// `(score - 10) / 2`, rounded down.
pub fn calculate_modifier(score: i32) -> (m: i32)
    requires
        score >= i32::MIN + 10,
    ensures
        m == modifier_of(score as int),
{
    let d: i32 = score - 10;
    if d >= 0 {
        d / 2
    } else {
        let n: i64 = -(d as i64);
        let q: i64 = (n + 1) / 2;
        assert(((d as int) / 2) == -(((-(d as int)) + 1) / 2)) by (nonlinear_arith)
            requires
                d < 0,
        ;
        (-q) as i32
    }
}

/// Reading a score back after setting it gives the value set, and the
/// other five scores are untouched.
pub proof fn lemma_get_after_set(scores: AbilityScores, a: Ability, b: Ability, v: i32)
    ensures
        scores.with(a, v).score(a) == v,
        a != b ==> scores.with(a, v).score(b) == scores.score(b),
{
}

/// A higher score never has a lower modifier, and each two points of
/// score add exactly one to the modifier.
pub proof fn lemma_modifier_monotone(s1: int, s2: int)
    ensures
        s1 <= s2 ==> modifier_of(s1) <= modifier_of(s2),
        modifier_of(s1 + 2) == modifier_of(s1) + 1,
{
    assert(s1 <= s2 ==> (s1 - 10) / 2 <= (s2 - 10) / 2) by (nonlinear_arith);
    assert(((s1 + 2) - 10) / 2 == (s1 - 10) / 2 + 1) by (nonlinear_arith);
}

} // verus!
