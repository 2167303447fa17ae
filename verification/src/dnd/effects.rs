//! Status effects and conditions: the SRD conditions, damage resistance,
//! vulnerability and immunity, and duration tracking.

use vstd::prelude::*;

use bevy::ecs::entity::Entity;

use super::dice::DiceType;
use super::weapons::DamageType;

verus! {

/// Standard D&D 5e conditions.
#[derive(Debug, Clone, Copy, PartialEq, Eq, Hash, Structural)]
pub enum Condition {
    /// Disadvantage on ability checks and attack rolls.
    Poisoned,
    /// Disadvantage on ability checks and attack rolls;
    /// can't move closer to source of fear.
    Frightened,
    /// Speed becomes 0; can't benefit from bonuses to speed.
    Grappled,
    /// Can't take actions or reactions.
    Incapacitated,
    /// Auto-fail STR and DEX saves; attacks against have advantage;
    /// melee attacks within 5ft are critical hits.
    Paralyzed,
    /// Disadvantage on attack rolls; attacks against have advantage.
    Prone,
    /// Can't move; attacks against have advantage;
    /// attacks have disadvantage.
    Restrained,
    /// Auto-fail STR and DEX saves; attacks against have advantage;
    /// can't take actions or reactions.
    Stunned,
    /// Can't see; auto-fail ability checks requiring sight;
    /// attacks have disadvantage; attacks against have advantage.
    Blinded,
    /// Can't hear; auto-fail ability checks requiring hearing.
    Deafened,
    /// Can't speak or cast spells with verbal components.
    Silenced,
    /// Speed is 0; can't benefit from bonuses to speed;
    /// can't take actions or reactions.
    Petrified,
    /// HP is 0; unconscious.
    Unconscious,
    /// Creature is hidden from the target.
    Invisible,
    /// Charmed by source; can't attack source.
    Charmed,
}

/// Display name of a condition.
pub open spec fn condition_name(c: Condition) -> Seq<char> {
    match c {
        Condition::Poisoned => "Poisoned"@,
        Condition::Frightened => "Frightened"@,
        Condition::Grappled => "Grappled"@,
        Condition::Incapacitated => "Incapacitated"@,
        Condition::Paralyzed => "Paralyzed"@,
        Condition::Prone => "Prone"@,
        Condition::Restrained => "Restrained"@,
        Condition::Stunned => "Stunned"@,
        Condition::Blinded => "Blinded"@,
        Condition::Deafened => "Deafened"@,
        Condition::Silenced => "Silenced"@,
        Condition::Petrified => "Petrified"@,
        Condition::Unconscious => "Unconscious"@,
        Condition::Invisible => "Invisible"@,
        Condition::Charmed => "Charmed"@,
    }
}

/// Conditions that prevent taking actions.
pub open spec fn stops_actions(c: Condition) -> bool {
    c == Condition::Incapacitated || c == Condition::Paralyzed || c == Condition::Stunned || c
        == Condition::Petrified || c == Condition::Unconscious
}

/// Conditions that give their bearer disadvantage on attacks.
pub open spec fn hampers_attacks(c: Condition) -> bool {
    c == Condition::Poisoned || c == Condition::Frightened || c == Condition::Prone || c == Condition::Restrained || c
        == Condition::Blinded
}

/// Conditions that give attackers advantage against their bearer.
pub open spec fn exposes_to_attacks(c: Condition) -> bool {
    c == Condition::Paralyzed || c == Condition::Prone || c == Condition::Restrained || c
        == Condition::Stunned || c == Condition::Blinded || c == Condition::Unconscious
}

impl Condition {
    /// Get the display name.
    pub fn name(&self) -> (s: &'static str)
        ensures
            s@ == condition_name(*self),
    {
        match self {
            Condition::Poisoned => "Poisoned",
            Condition::Frightened => "Frightened",
            Condition::Grappled => "Grappled",
            Condition::Incapacitated => "Incapacitated",
            Condition::Paralyzed => "Paralyzed",
            Condition::Prone => "Prone",
            Condition::Restrained => "Restrained",
            Condition::Stunned => "Stunned",
            Condition::Blinded => "Blinded",
            Condition::Deafened => "Deafened",
            Condition::Silenced => "Silenced",
            Condition::Petrified => "Petrified",
            Condition::Unconscious => "Unconscious",
            Condition::Invisible => "Invisible",
            Condition::Charmed => "Charmed",
        }
    }

    /// Check if this condition prevents taking actions.
    pub fn prevents_actions(&self) -> (b: bool)
        ensures
            b == stops_actions(*self),
    {
        match self {
            Condition::Incapacitated | Condition::Paralyzed | Condition::Stunned
            | Condition::Petrified | Condition::Unconscious => true,
            _ => false,
        }
    }

    /// Check if this condition causes disadvantage on attacks.
    pub fn attack_disadvantage(&self) -> (b: bool)
        ensures
            b == hampers_attacks(*self),
    {
        match self {
            Condition::Poisoned | Condition::Frightened | Condition::Prone | Condition::Restrained
            | Condition::Blinded => true,
            _ => false,
        }
    }

    /// Check if attackers have advantage against this condition.
    pub fn grants_advantage_to_attackers(&self) -> (b: bool)
        ensures
            b == exposes_to_attacks(*self),
    {
        match self {
            Condition::Paralyzed | Condition::Prone | Condition::Restrained | Condition::Stunned
            | Condition::Blinded | Condition::Unconscious => true,
            _ => false,
        }
    }
}

/// How damage is modified (resistance, vulnerability, immunity).
#[derive(Debug, Clone, Copy, PartialEq, Eq, Hash, Structural)]
pub enum DamageModifier {
    /// Take half damage (rounded down).
    Resistance,
    /// Take double damage.
    Vulnerability,
    /// Take no damage.
    Immunity,
}

/// Duration types for effects.
#[derive(Debug, Clone, Copy, PartialEq, Eq, Structural)]
pub enum EffectDuration {
    /// Lasts for a number of rounds.
    Rounds(u32),
    /// Lasts for a number of turns.
    Turns(u32),
    /// Lasts until a condition is met (e.g., save succeeds).
    UntilSave,
    /// Permanent until removed.
    Permanent,
    /// Instantaneous effect (apply and remove immediately).
    Instantaneous,
}

/// An active status effect on an entity.
#[derive(Debug, Clone, Copy)]
pub struct ActiveEffect {
    /// The condition applied.
    pub condition: Condition,
    /// Remaining duration.
    pub duration: EffectDuration,
    /// Source of the effect (for fear/charm).
    pub source: Option<Entity>,
    /// Save DC to end the effect (if applicable).
    pub save_dc: Option<i32>,
}

impl ActiveEffect {
    pub fn new(condition: Condition, duration: EffectDuration) -> (e: Self)
        ensures
            e == (ActiveEffect { condition, duration, source: None, save_dc: None }),
    {
        Self { condition, duration, source: None, save_dc: None }
    }

    pub fn with_source(self, source: Entity) -> (e: Self)
        ensures
            e == (ActiveEffect { source: Some(source), ..self }),
    {
        let mut e = self;
        e.source = Some(source);
        e
    }

    pub fn with_save_dc(self, dc: i32) -> (e: Self)
        ensures
            e == (ActiveEffect { save_dc: Some(dc), ..self }),
    {
        let mut e = self;
        e.save_dc = Some(dc);
        e
    }
}

/// Component tracking all active status effects on an entity.
#[derive(Debug, Clone)]
pub struct StatusEffects {
    /// Active effects.
    pub effects: Vec<ActiveEffect>,
}

impl Default for StatusEffects {
    fn default() -> (s: Self)
        ensures
            s.effects@.len() == 0,
    {
        Self { effects: Vec::new() }
    }
}

/// Some effect in `s` carries condition `c`.
pub open spec fn carries(s: Seq<ActiveEffect>, c: Condition) -> bool {
    exists|i: int| 0 <= i < s.len() && #[trigger] s[i].condition == c
}

/// No two effects in `s` carry the same condition.
pub open spec fn conditions_unique(s: Seq<ActiveEffect>) -> bool {
    forall|i: int, j: int|
        0 <= i < j < s.len() ==> #[trigger] s[i].condition != #[trigger] s[j].condition
}

/// An effect survives a tick: counted durations above one, and the
/// durations that only end by a save or by removal.
pub open spec fn survives_tick(e: ActiveEffect) -> bool {
    match e.duration {
        EffectDuration::Rounds(n) => n > 1,
        EffectDuration::Turns(n) => n > 1,
        EffectDuration::UntilSave => true,
        EffectDuration::Permanent => true,
        EffectDuration::Instantaneous => false,
    }
}

/// An effect one tick later: counted durations lose one (never below zero).
pub open spec fn ticked(e: ActiveEffect) -> ActiveEffect {
    match e.duration {
        EffectDuration::Rounds(n) => ActiveEffect {
            duration: EffectDuration::Rounds(if n > 0 {
                (n - 1) as u32
            } else {
                0
            }),
            ..e
        },
        EffectDuration::Turns(n) => ActiveEffect {
            duration: EffectDuration::Turns(if n > 0 {
                (n - 1) as u32
            } else {
                0
            }),
            ..e
        },
        _ => e,
    }
}

/// The effects left after a tick, in order, each one tick later.
pub open spec fn after_tick(s: Seq<ActiveEffect>) -> Seq<ActiveEffect>
    decreases s.len(),
{
    if s.len() == 0 {
        s
    } else if survives_tick(s.last()) {
        after_tick(s.drop_last()).push(ticked(s.last()))
    } else {
        after_tick(s.drop_last())
    }
}

/// An effect that does not carry condition `c`.
pub open spec fn not_condition(c: Condition) -> spec_fn(ActiveEffect) -> bool {
    |e: ActiveEffect| e.condition != c
}

/// `i` is the position of the first effect carrying condition `c`.
pub open spec fn is_first_carrier(s: Seq<ActiveEffect>, c: Condition, i: int) -> bool {
    &&& 0 <= i < s.len()
    &&& s[i].condition == c
    &&& forall|j: int| 0 <= j < i ==> s[j].condition != c
}

/// Position of the first effect carrying condition `c` (meaningful when
/// some effect carries it).
pub open spec fn first_carrier(s: Seq<ActiveEffect>, c: Condition) -> int {
    choose|i: int| is_first_carrier(s, c, i)
}

/// The effects after adding `e`: the first effect of the same condition
/// is replaced in place (duration, source and save DC taken from `e`),
/// otherwise `e` is appended.
pub open spec fn after_add(s: Seq<ActiveEffect>, e: ActiveEffect) -> Seq<ActiveEffect> {
    if carries(s, e.condition) {
        s.update(first_carrier(s, e.condition), e)
    } else {
        s.push(e)
    }
}

/// The first carrier is the one position that meets its definition.
proof fn lemma_first_carrier_is(s: Seq<ActiveEffect>, c: Condition, i: int)
    requires
        is_first_carrier(s, c, i),
    ensures
        first_carrier(s, c) == i,
{
    let k = first_carrier(s, c);
    assert(is_first_carrier(s, c, k));
    if k < i {
        assert(s[k].condition != c);
    } else if k > i {
        assert(s[i].condition == c);
    }
}

impl StatusEffects {
    /// Check if entity has a specific condition.
    pub fn has_condition(&self, condition: Condition) -> (b: bool)
        ensures
            b == carries(self.effects@, condition),
    {
        let mut i: usize = 0;
        while i < self.effects.len()
            invariant
                i <= self.effects@.len(),
                forall|j: int| 0 <= j < i ==> self.effects@[j].condition != condition,
            decreases self.effects@.len() - i,
        {
            if self.effects[i].condition == condition {
                assert(self.effects@[i as int].condition == condition);
                return true;
            }
            i = i + 1;
        }
        false
    }

    /// Add an effect. The same condition does not stack: an existing
    /// effect of that condition takes the new duration, source and save DC.
    pub fn add(&mut self, effect: ActiveEffect)
        ensures
            final(self).effects@ == after_add(old(self).effects@, effect),
    {
        let ghost s = self.effects@;
        let mut i: usize = 0;
        while i < self.effects.len()
            invariant
                self.effects@ == s,
                s == old(self).effects@,
                i <= s.len(),
                forall|j: int| 0 <= j < i ==> s[j].condition != effect.condition,
            decreases s.len() - i,
        {
            if self.effects[i].condition == effect.condition {
                proof {
                    assert(carries(s, effect.condition)) by {
                        assert(s[i as int].condition == effect.condition);
                    }
                    lemma_first_carrier_is(s, effect.condition, i as int);
                }
                let mut existing = self.effects[i];
                existing.duration = effect.duration;
                existing.source = effect.source;
                existing.save_dc = effect.save_dc;
                assert(existing == effect);
                self.effects.set(i, existing);
                return;
            }
            i = i + 1;
        }
        self.effects.push(effect);
    }

    /// Remove all effects of a specific condition.
    pub fn remove_condition(&mut self, condition: Condition)
        ensures
            final(self).effects@ == old(self).effects@.filter(not_condition(condition)),
    {
        let ghost s = self.effects@;
        let mut kept: Vec<ActiveEffect> = Vec::new();
        let mut i: usize = 0;
        while i < self.effects.len()
            invariant
                self.effects@ == s,
                i <= s.len(),
                kept@ == s.take(i as int).filter(not_condition(condition)),
            decreases s.len() - i,
        {
            proof {
                reveal(Seq::filter);
                assert(s.take(i + 1).drop_last() =~= s.take(i as int));
            }
            let e = self.effects[i];
            if e.condition != condition {
                kept.push(e);
            }
            i = i + 1;
        }
        proof {
            assert(s.take(s.len() as int) =~= s);
        }
        self.effects = kept;
    }

    /// Get all active conditions, in the order their effects are listed.
    pub fn conditions(&self) -> (r: Vec<Condition>)
        ensures
            r@ == self.effects@.map_values(|e: ActiveEffect| e.condition),
    {
        let mut r: Vec<Condition> = Vec::new();
        let mut i: usize = 0;
        while i < self.effects.len()
            invariant
                i <= self.effects@.len(),
                r@ == self.effects@.take(i as int).map_values(|e: ActiveEffect| e.condition),
            decreases self.effects@.len() - i,
        {
            r.push(self.effects[i].condition);
            i = i + 1;
            assert(r@ =~= self.effects@.take(i as int).map_values(|e: ActiveEffect| e.condition));
        }
        assert(self.effects@.take(i as int) =~= self.effects@);
        r
    }

    /// Check if attacks have disadvantage due to conditions.
    pub fn has_attack_disadvantage(&self) -> (b: bool)
        ensures
            b == exists|i: int|
                0 <= i < self.effects@.len() && hampers_attacks(#[trigger] self.effects@[i].condition),
    {
        let mut i: usize = 0;
        while i < self.effects.len()
            invariant
                i <= self.effects@.len(),
                forall|j: int| 0 <= j < i ==> !hampers_attacks(#[trigger] self.effects@[j].condition),
            decreases self.effects@.len() - i,
        {
            if self.effects[i].condition.attack_disadvantage() {
                assert(hampers_attacks(self.effects@[i as int].condition));
                return true;
            }
            i = i + 1;
        }
        false
    }

    /// Check if actions are prevented.
    pub fn is_incapacitated(&self) -> (b: bool)
        ensures
            b == exists|i: int|
                0 <= i < self.effects@.len() && stops_actions(#[trigger] self.effects@[i].condition),
    {
        let mut i: usize = 0;
        while i < self.effects.len()
            invariant
                i <= self.effects@.len(),
                forall|j: int| 0 <= j < i ==> !stops_actions(#[trigger] self.effects@[j].condition),
            decreases self.effects@.len() - i,
        {
            if self.effects[i].condition.prevents_actions() {
                assert(stops_actions(self.effects@[i as int].condition));
                return true;
            }
            i = i + 1;
        }
        false
    }

    /// Check if attackers have advantage.
    pub fn grants_advantage(&self) -> (b: bool)
        ensures
            b == exists|i: int|
                0 <= i < self.effects@.len() && exposes_to_attacks(
                    #[trigger] self.effects@[i].condition,
                ),
    {
        let mut i: usize = 0;
        while i < self.effects.len()
            invariant
                i <= self.effects@.len(),
                forall|j: int|
                    0 <= j < i ==> !exposes_to_attacks(#[trigger] self.effects@[j].condition),
            decreases self.effects@.len() - i,
        {
            if self.effects[i].condition.grants_advantage_to_attackers() {
                assert(exposes_to_attacks(self.effects@[i as int].condition));
                return true;
            }
            i = i + 1;
        }
        false
    }
}

/// Tick effect durations at the start of a round: counted durations lose
/// one and end at zero, instantaneous effects end, the rest stay.
pub fn tick_effects(effects: &mut StatusEffects)
    ensures
        final(effects).effects@ == after_tick(old(effects).effects@),
{
    let ghost s = effects.effects@;
    let mut kept: Vec<ActiveEffect> = Vec::new();
    let mut i: usize = 0;
    while i < effects.effects.len()
        invariant
            effects.effects@ == s,
            i <= s.len(),
            kept@ == after_tick(s.take(i as int)),
        decreases s.len() - i,
    {
        proof {
            assert(s.take(i + 1).drop_last() =~= s.take(i as int));
        }
        let mut e = effects.effects[i];
        let keep = match e.duration {
            EffectDuration::Rounds(remaining) => {
                let left = if remaining > 0 {
                    remaining - 1
                } else {
                    0
                };
                e.duration = EffectDuration::Rounds(left);
                left > 0
            },
            EffectDuration::Turns(remaining) => {
                let left = if remaining > 0 {
                    remaining - 1
                } else {
                    0
                };
                e.duration = EffectDuration::Turns(left);
                left > 0
            },
            EffectDuration::Permanent | EffectDuration::UntilSave => true,
            EffectDuration::Instantaneous => false,
        };
        if keep {
            kept.push(e);
        }
        i = i + 1;
    }
    proof {
        assert(s.take(s.len() as int) =~= s);
    }
    effects.effects = kept;
}

/// Adding an effect makes its condition present, and keeps conditions
/// unique when they were.
pub proof fn lemma_add_laws(s: Seq<ActiveEffect>, e: ActiveEffect)
    ensures
        carries(after_add(s, e), e.condition),
        conditions_unique(s) ==> conditions_unique(after_add(s, e)),
{
    let r = after_add(s, e);
    if carries(s, e.condition) {
        lemma_first_carrier(s, e.condition);
        let k = choose|i: int| is_first_carrier(s, e.condition, i);
        lemma_first_carrier_is(s, e.condition, k);
        assert(r[k] == e);
        if conditions_unique(s) {
            assert forall|i: int, j: int|
                0 <= i < j < r.len() implies #[trigger] r[i].condition != #[trigger] r[j].condition by {
                assert(r[i].condition == s[i].condition);
                assert(r[j].condition == s[j].condition);
            }
        }
    } else {
        assert(r[s.len() as int] == e);
        if conditions_unique(s) {
            assert forall|i: int, j: int|
                0 <= i < j < r.len() implies #[trigger] r[i].condition != #[trigger] r[j].condition by {
                if j == s.len() {
                    assert(r[i] == s[i]);
                }
            }
        }
    }
}

/// Removing a condition leaves no effect of it, keeps every other
/// condition that was present, and keeps conditions unique when they were.
pub proof fn lemma_remove_laws(s: Seq<ActiveEffect>, c: Condition)
    ensures
        !carries(s.filter(not_condition(c)), c),
        forall|d: Condition| d != c ==> (carries(s, d) <==> carries(s.filter(not_condition(c)), d)),
        conditions_unique(s) ==> conditions_unique(s.filter(not_condition(c))),
{
    broadcast use vstd::seq_lib::group_filter_ensures;

    let f = s.filter(not_condition(c));
    assert forall|d: Condition| d != c implies (carries(s, d) <==> carries(f, d)) by {
        if carries(s, d) {
            let i = choose|i: int| 0 <= i < s.len() && #[trigger] s[i].condition == d;
            assert(not_condition(c)(s[i]));
            assert(f.contains(s[i]));
            let j = choose|j: int| 0 <= j < f.len() && f[j] == s[i];
            assert(f[j].condition == d);
        }
        if carries(f, d) {
            let j = choose|j: int| 0 <= j < f.len() && #[trigger] f[j].condition == d;
            lemma_filter_in_source(s, not_condition(c), j);
        }
    }
    if carries(f, c) {
        let j = choose|j: int| 0 <= j < f.len() && #[trigger] f[j].condition == c;
        assert(not_condition(c)(f[j]));
    }
    if conditions_unique(s) {
        lemma_filter_unique(s, c);
    }
}

/// When some effect carries `c`, there is a first one.
proof fn lemma_first_carrier(s: Seq<ActiveEffect>, c: Condition)
    requires
        carries(s, c),
    ensures
        exists|i: int| is_first_carrier(s, c, i),
    decreases s.len(),
{
    if s[0].condition == c {
        assert(is_first_carrier(s, c, 0));
    } else {
        let t = s.drop_first();
        let i = choose|i: int| 0 <= i < s.len() && #[trigger] s[i].condition == c;
        assert(t[i - 1].condition == c);
        lemma_first_carrier(t, c);
        let k = choose|k: int| is_first_carrier(t, c, k);
        assert(s[k + 1].condition == c);
        assert forall|j: int| 0 <= j < k + 1 implies s[j].condition != c by {
            if j > 0 {
                assert(s[j] == t[j - 1]);
            }
        }
        assert(is_first_carrier(s, c, k + 1));
    }
}

/// Every element of a filtered sequence comes from the source.
proof fn lemma_filter_in_source(
    s: Seq<ActiveEffect>,
    p: spec_fn(ActiveEffect) -> bool,
    j: int,
)
    requires
        0 <= j < s.filter(p).len(),
    ensures
        s.contains(s.filter(p)[j]),
    decreases s.len(),
{
    reveal(Seq::filter);
    let t = s.drop_last().filter(p);
    if s.len() > 0 {
        if p(s.last()) && j == t.len() {
            assert(s[s.len() - 1] == s.last());
        } else {
            lemma_filter_in_source(s.drop_last(), p, j);
            let k = choose|k: int| 0 <= k < s.drop_last().len() && s.drop_last()[k] == t[j];
            assert(s[k] == t[j]);
        }
    }
}

/// Filtering keeps conditions unique.
proof fn lemma_filter_unique(s: Seq<ActiveEffect>, c: Condition)
    requires
        conditions_unique(s),
    ensures
        conditions_unique(s.filter(not_condition(c))),
    decreases s.len(),
{
    reveal(Seq::filter);
    if s.len() > 0 {
        let d = s.drop_last();
        assert(conditions_unique(d));
        lemma_filter_unique(d, c);
        let fd = d.filter(not_condition(c));
        if not_condition(c)(s.last()) {
            let f = fd.push(s.last());
            assert forall|i: int, j: int|
                0 <= i < j < f.len() implies #[trigger] f[i].condition != #[trigger] f[j].condition by {
                if j == f.len() - 1 {
                    lemma_filter_in_source(d, not_condition(c), i);
                    let k = choose|k: int| 0 <= k < d.len() && d[k] == fd[i];
                    assert(s[k] == d[k]);
                    assert(s[s.len() - 1] == s.last());
                }
            }
        }
    }
}

/// An effect that lasts until a save or for good: its duration is
/// `UntilSave` or `Permanent`.
pub open spec fn lasting(e: ActiveEffect) -> bool {
    e.duration is UntilSave || e.duration is Permanent
}

/// A tick keeps every lasting effect (`UntilSave` or `Permanent`)
/// unchanged and in the same order among the lasting ones; every effect
/// left after a tick is not instantaneous, and a counted one has at least
/// one round or turn left.
pub proof fn lemma_tick_keeps_lasting(s: Seq<ActiveEffect>)
    ensures
        after_tick(s).filter(|e: ActiveEffect| lasting(e)) == s.filter(|e: ActiveEffect| lasting(e)),
        forall|i: int|
            0 <= i < after_tick(s).len() ==> match (#[trigger] after_tick(s)[i]).duration {
                EffectDuration::Rounds(n) => n >= 1,
                EffectDuration::Turns(n) => n >= 1,
                EffectDuration::Instantaneous => false,
                _ => true,
            },
    decreases s.len(),
{
    reveal(Seq::filter);
    if s.len() > 0 {
        let p = s.drop_last();
        let x = s.last();
        lemma_tick_keeps_lasting(p);
        let q = after_tick(p);
        if survives_tick(x) {
            let t = ticked(x);
            assert(q.push(t).drop_last() =~= q);
            assert(q.push(t).last() == t);
            assert(lasting(t) == lasting(x));
            if lasting(x) {
                assert(t == x);
            }
            assert forall|i: int| 0 <= i < q.push(t).len() implies match (#[trigger] q.push(
                t,
            )[i]).duration {
                EffectDuration::Rounds(n) => n >= 1,
                EffectDuration::Turns(n) => n >= 1,
                EffectDuration::Instantaneous => false,
                _ => true,
            } by {
                if i < q.len() {
                    assert(q.push(t)[i] == q[i]);
                }
            }
        }
    }
}

/// A tick never adds an effect.
pub proof fn lemma_after_tick_len(s: Seq<ActiveEffect>)
    ensures
        after_tick(s).len() <= s.len(),
    decreases s.len(),
{
    if s.len() > 0 {
        lemma_after_tick_len(s.drop_last());
    }
}

/// Component tracking damage resistances, vulnerabilities, and immunities.
#[derive(Debug, Clone)]
pub struct DamageModifiers {
    /// Damage resistances (take half damage).
    pub resistances: Vec<DamageType>,
    /// Damage vulnerabilities (take double damage).
    pub vulnerabilities: Vec<DamageType>,
    /// Damage immunities (take no damage).
    pub immunities: Vec<DamageType>,
    /// Condition immunities.
    pub condition_immunities: Vec<Condition>,
}

impl Default for DamageModifiers {
    fn default() -> (m: Self)
        ensures
            m.resistances@.len() == 0,
            m.vulnerabilities@.len() == 0,
            m.immunities@.len() == 0,
            m.condition_immunities@.len() == 0,
    {
        Self {
            resistances: Vec::new(),
            vulnerabilities: Vec::new(),
            immunities: Vec::new(),
            condition_immunities: Vec::new(),
        }
    }
}

/// Half of an amount, rounded toward zero as Rust's integer division does.
pub open spec fn half_toward_zero(a: int) -> int {
    if a >= 0 {
        a / 2
    } else {
        -((-a) / 2)
    }
}

/// Whether `t` is in a list of damage types.
fn lists_damage(list: &Vec<DamageType>, t: DamageType) -> (b: bool)
    ensures
        b == list@.contains(t),
{
    let mut i: usize = 0;
    while i < list.len()
        invariant
            i <= list@.len(),
            forall|j: int| 0 <= j < i ==> list@[j] != t,
        decreases list@.len() - i,
    {
        if list[i] == t {
            assert(list@[i as int] == t);
            return true;
        }
        i = i + 1;
    }
    false
}

/// Whether `c` is in a list of conditions.
fn lists_condition(list: &Vec<Condition>, c: Condition) -> (b: bool)
    ensures
        b == list@.contains(c),
{
    let mut i: usize = 0;
    while i < list.len()
        invariant
            i <= list@.len(),
            forall|j: int| 0 <= j < i ==> list@[j] != c,
        decreases list@.len() - i,
    {
        if list[i] == c {
            assert(list@[i as int] == c);
            return true;
        }
        i = i + 1;
    }
    false
}

impl DamageModifiers {
    /// The modifier that applies to a damage type: immunity first, then
    /// resistance, then vulnerability.
    pub open spec fn modifier_for(self, t: DamageType) -> Option<DamageModifier> {
        if self.immunities@.contains(t) {
            Some(DamageModifier::Immunity)
        } else if self.resistances@.contains(t) {
            Some(DamageModifier::Resistance)
        } else if self.vulnerabilities@.contains(t) {
            Some(DamageModifier::Vulnerability)
        } else {
            None
        }
    }

    /// Damage after modifiers: none when immune, half (toward zero) when
    /// resistant, double when vulnerable.
    pub open spec fn applied(self, amount: int, t: DamageType) -> int {
        match self.modifier_for(t) {
            Some(DamageModifier::Immunity) => 0,
            Some(DamageModifier::Resistance) => half_toward_zero(amount),
            Some(DamageModifier::Vulnerability) => amount * 2,
            None => amount,
        }
    }

    /// Get the modifier for a damage type.
    pub fn get_modifier(&self, damage_type: DamageType) -> (m: Option<DamageModifier>)
        ensures
            m == self.modifier_for(damage_type),
    {
        if lists_damage(&self.immunities, damage_type) {
            Some(DamageModifier::Immunity)
        } else if lists_damage(&self.resistances, damage_type) {
            Some(DamageModifier::Resistance)
        } else if lists_damage(&self.vulnerabilities, damage_type) {
            Some(DamageModifier::Vulnerability)
        } else {
            None
        }
    }

    /// Apply damage modifiers to an amount.
    pub fn apply(&self, amount: i32, damage_type: DamageType) -> (r: i32)
        requires
            self.modifier_for(damage_type) == Some(DamageModifier::Vulnerability) ==> i32::MIN
                <= amount * 2 <= i32::MAX,
        ensures
            r == self.applied(amount as int, damage_type),
    {
        match self.get_modifier(damage_type) {
            Some(DamageModifier::Immunity) => 0,
            Some(DamageModifier::Resistance) => {
                let wide: i64 = amount as i64;
                let half: i64 = if wide >= 0 {
                    wide / 2
                } else {
                    -((-wide) / 2)
                };
                half as i32
            },
            Some(DamageModifier::Vulnerability) => amount * 2,
            None => amount,
        }
    }

    /// Check if immune to a condition.
    pub fn is_immune_to_condition(&self, condition: Condition) -> (b: bool)
        ensures
            b == self.condition_immunities@.contains(condition),
    {
        lists_condition(&self.condition_immunities, condition)
    }

    /// Add a resistance (once).
    pub fn add_resistance(&mut self, damage_type: DamageType)
        ensures
            final(self).resistances@ == if old(self).resistances@.contains(damage_type) {
                old(self).resistances@
            } else {
                old(self).resistances@.push(damage_type)
            },
            final(self).vulnerabilities@ == old(self).vulnerabilities@,
            final(self).immunities@ == old(self).immunities@,
            final(self).condition_immunities@ == old(self).condition_immunities@,
    {
        if !lists_damage(&self.resistances, damage_type) {
            self.resistances.push(damage_type);
        }
    }

    /// Add a vulnerability (once).
    pub fn add_vulnerability(&mut self, damage_type: DamageType)
        ensures
            final(self).vulnerabilities@ == if old(self).vulnerabilities@.contains(damage_type) {
                old(self).vulnerabilities@
            } else {
                old(self).vulnerabilities@.push(damage_type)
            },
            final(self).resistances@ == old(self).resistances@,
            final(self).immunities@ == old(self).immunities@,
            final(self).condition_immunities@ == old(self).condition_immunities@,
    {
        if !lists_damage(&self.vulnerabilities, damage_type) {
            self.vulnerabilities.push(damage_type);
        }
    }

    /// Add an immunity (once).
    pub fn add_immunity(&mut self, damage_type: DamageType)
        ensures
            final(self).immunities@ == if old(self).immunities@.contains(damage_type) {
                old(self).immunities@
            } else {
                old(self).immunities@.push(damage_type)
            },
            final(self).resistances@ == old(self).resistances@,
            final(self).vulnerabilities@ == old(self).vulnerabilities@,
            final(self).condition_immunities@ == old(self).condition_immunities@,
    {
        if !lists_damage(&self.immunities, damage_type) {
            self.immunities.push(damage_type);
        }
    }

    /// Add a condition immunity (once).
    pub fn add_condition_immunity(&mut self, condition: Condition)
        ensures
            final(self).condition_immunities@ == if old(self).condition_immunities@.contains(
                condition,
            ) {
                old(self).condition_immunities@
            } else {
                old(self).condition_immunities@.push(condition)
            },
            final(self).resistances@ == old(self).resistances@,
            final(self).vulnerabilities@ == old(self).vulnerabilities@,
            final(self).immunities@ == old(self).immunities@,
    {
        if !lists_condition(&self.condition_immunities, condition) {
            self.condition_immunities.push(condition);
        }
    }
}

/// Immunity always wins: an immune creature takes no damage of that type,
/// whatever else it resists or is vulnerable to; with no modifier the
/// damage passes unchanged.
pub proof fn lemma_immunity_wins(m: DamageModifiers, amount: int, t: DamageType)
    ensures
        m.immunities@.contains(t) ==> m.applied(amount, t) == 0,
        m.modifier_for(t) is None ==> m.applied(amount, t) == amount,
        !m.immunities@.contains(t) && m.resistances@.contains(t) && amount >= 0 ==> 0 <= m.applied(
            amount,
            t,
        ) <= amount,
{
    if !m.immunities@.contains(t) && m.resistances@.contains(t) && amount >= 0 {
        assert(0 <= amount / 2 <= amount) by (nonlinear_arith)
            requires
                amount >= 0,
        ;
    }
}

/// Apply an effect unless the target is immune to its condition.
pub fn apply_effect(
    effects: &mut StatusEffects,
    modifiers: Option<&DamageModifiers>,
    effect: ActiveEffect,
)
    ensures
        match modifiers {
            Some(m) => m.condition_immunities@.contains(effect.condition),
            None => false,
        } ==> final(effects).effects@ == old(effects).effects@,
        !match modifiers {
            Some(m) => m.condition_immunities@.contains(effect.condition),
            None => false,
        } ==> final(effects).effects@ == after_add(old(effects).effects@, effect),
{
    if let Some(mods) = modifiers {
        if mods.is_immune_to_condition(effect.condition) {
            return;
        }
    }
    effects.add(effect);
}

/// Damage over time effect.
#[derive(Debug, Clone, Copy, PartialEq, Eq, Structural)]
pub struct DamageOverTime {
    /// Damage dice count.
    pub dice_count: i32,
    /// Damage die type.
    pub dice_type: DiceType,
    /// Flat damage modifier.
    pub modifier: i32,
    /// Type of damage.
    pub damage_type: DamageType,
    /// Remaining duration in rounds.
    pub remaining_rounds: u32,
    /// When to apply (start or end of turn).
    pub on_turn_start: bool,
}

/// Component for damage over time effects.
#[derive(Debug, Clone)]
pub struct DamageOverTimeEffects {
    pub effects: Vec<DamageOverTime>,
}

impl Default for DamageOverTimeEffects {
    fn default() -> (d: Self)
        ensures
            d.effects@.len() == 0,
    {
        Self { effects: Vec::new() }
    }
}

/// Create standard undead damage modifiers.
pub fn undead_modifiers() -> (m: DamageModifiers)
    ensures
        m.resistances@ == Seq::<DamageType>::empty(),
        m.vulnerabilities@ == seq![DamageType::Radiant],
        m.immunities@ == seq![DamageType::Poison, DamageType::Necrotic],
        m.condition_immunities@ == seq![
            Condition::Poisoned,
            Condition::Frightened,
            Condition::Charmed,
        ],
{
    DamageModifiers {
        resistances: vec![],
        vulnerabilities: vec![DamageType::Radiant],
        immunities: vec![DamageType::Poison, DamageType::Necrotic],
        condition_immunities: vec![Condition::Poisoned, Condition::Frightened, Condition::Charmed],
    }
}

/// Create standard construct damage modifiers.
pub fn construct_modifiers() -> (m: DamageModifiers)
    ensures
        m.resistances@ == Seq::<DamageType>::empty(),
        m.vulnerabilities@ == Seq::<DamageType>::empty(),
        m.immunities@ == seq![DamageType::Poison, DamageType::Psychic],
        m.condition_immunities@ == seq![
            Condition::Poisoned,
            Condition::Frightened,
            Condition::Charmed,
            Condition::Paralyzed,
            Condition::Petrified,
        ],
{
    DamageModifiers {
        resistances: vec![],
        vulnerabilities: vec![],
        immunities: vec![DamageType::Poison, DamageType::Psychic],
        condition_immunities: vec![
            Condition::Poisoned,
            Condition::Frightened,
            Condition::Charmed,
            Condition::Paralyzed,
            Condition::Petrified,
        ],
    }
}

/// Create fiend damage modifiers.
pub fn fiend_modifiers() -> (m: DamageModifiers)
    ensures
        m.resistances@ == seq![DamageType::Cold, DamageType::Fire, DamageType::Lightning],
        m.vulnerabilities@ == seq![DamageType::Radiant],
        m.immunities@ == seq![DamageType::Poison],
        m.condition_immunities@ == seq![Condition::Poisoned],
{
    DamageModifiers {
        resistances: vec![DamageType::Cold, DamageType::Fire, DamageType::Lightning],
        vulnerabilities: vec![DamageType::Radiant],
        immunities: vec![DamageType::Poison],
        condition_immunities: vec![Condition::Poisoned],
    }
}

/// Message to apply an effect to an entity.
#[derive(Debug, Clone, Copy)]
pub struct ApplyEffectMessage {
    pub target: Entity,
    pub effect: ActiveEffect,
}

/// Message to remove an effect from an entity.
#[derive(Debug, Clone, Copy)]
pub struct RemoveEffectMessage {
    pub target: Entity,
    pub condition: Condition,
}

} // verus!
