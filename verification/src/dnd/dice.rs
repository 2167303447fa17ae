//! Dice: standard notation `NdX+M`, rolling, bounds and parsing.

use vstd::prelude::*;

use crate::random::{small_rng_from_os, small_rng_range, thread_rng, thread_rng_range};
use crate::text::{
    all_ascii, ascii_lower_char, ascii_lowered, chars_of, decimal, digits_of, is_digit,
    is_white_space, lemma_digits_of_shape, lemma_parse_decimal, lowercase, parse_i32,
    parse_i32_spec, push_int, string_from_chars, to_lowercase, trim, trimmed, trimmed_end,
    trimmed_start,
};

verus! {

/// Types of dice used in D&D.
#[derive(Debug, Clone, Copy, PartialEq, Eq, Hash, Structural)]
pub enum DiceType {
    D4,
    D6,
    D8,
    D10,
    D12,
    D20,
    D100,
}

/// Number of sides of a die.
pub open spec fn sides_of(t: DiceType) -> int {
    match t {
        DiceType::D4 => 4,
        DiceType::D6 => 6,
        DiceType::D8 => 8,
        DiceType::D10 => 10,
        DiceType::D12 => 12,
        DiceType::D20 => 20,
        DiceType::D100 => 100,
    }
}

/// The die with a given number of sides, if there is one.
pub open spec fn die_with_sides(n: int) -> Option<DiceType> {
    if n == 4 {
        Some(DiceType::D4)
    } else if n == 6 {
        Some(DiceType::D6)
    } else if n == 8 {
        Some(DiceType::D8)
    } else if n == 10 {
        Some(DiceType::D10)
    } else if n == 12 {
        Some(DiceType::D12)
    } else if n == 20 {
        Some(DiceType::D20)
    } else if n == 100 {
        Some(DiceType::D100)
    } else {
        None
    }
}

/// Text of a die: `d` and its number of sides.
pub open spec fn die_text(t: DiceType) -> Seq<char> {
    seq!['d'] + decimal(sides_of(t))
}

impl DiceType {
    /// Get the number of sides on this die.
    pub fn sides(&self) -> (n: i32)
        ensures
            n == sides_of(*self),
    {
        match self {
            DiceType::D4 => 4,
            DiceType::D6 => 6,
            DiceType::D8 => 8,
            DiceType::D10 => 10,
            DiceType::D12 => 12,
            DiceType::D20 => 20,
            DiceType::D100 => 100,
        }
    }

    /// The die's text, such as `d6`.
    pub fn to_string(&self) -> (s: String)
        ensures
            s@ == die_text(*self),
    {
        let mut s = String::from_str("d");
        proof {
            reveal_strlit("d");
            assert(s@ =~= seq!['d']);
        }
        push_int(&mut s, self.sides() as i128);
        s
    }
}

/// A dice expression (e.g., "2d6+3").
#[derive(Debug, Clone, Copy, PartialEq, Eq, Structural)]
pub struct Dice {
    /// Number of dice to roll.
    pub count: i32,
    /// Type of dice.
    pub die_type: DiceType,
    /// Modifier to add to the total.
    pub modifier: i32,
}

/// Sum of a sequence of rolls.
pub open spec fn sum_of(s: Seq<i32>) -> int
    decreases s.len(),
{
    if s.len() == 0 {
        0
    } else {
        sum_of(s.drop_last()) + s.last()
    }
}

/// Every roll lies on a face of a die with `sides` faces.
pub open spec fn all_faces(s: Seq<i32>, sides: int) -> bool {
    forall|i: int| 0 <= i < s.len() ==> 1 <= #[trigger] s[i] <= sides
}

/// Text of a dice expression: count, die, then `+M` or `-M` unless the
/// modifier is zero.
pub open spec fn dice_text(d: Dice) -> Seq<char> {
    decimal(d.count as int) + die_text(d.die_type) + if d.modifier > 0 {
        seq!['+'] + decimal(d.modifier as int)
    } else if d.modifier < 0 {
        decimal(d.modifier as int)
    } else {
        Seq::<char>::empty()
    }
}

impl Dice {
    /// Smallest possible total: every die shows 1.
    pub open spec fn min_total(self) -> int {
        self.count + self.modifier
    }

    /// Largest possible total: every die shows its highest face.
    pub open spec fn max_total(self) -> int {
        self.count * sides_of(self.die_type) + self.modifier
    }

    /// The expression can be rolled without any total leaving `i32`:
    /// no negative count, and every partial sum and total fits.
    pub open spec fn fits(self) -> bool {
        &&& 0 <= self.count
        &&& self.count * sides_of(self.die_type) <= i32::MAX
        &&& i32::MIN <= self.min_total()
        &&& self.max_total() <= i32::MAX
    }

    /// Create a new dice expression.
    pub fn new(count: i32, die_type: DiceType, modifier: i32) -> (d: Self)
        ensures
            d == (Dice { count, die_type, modifier }),
    {
        Self { count, die_type, modifier }
    }

    /// Create a simple NdX dice expression (no modifier).
    pub fn simple(count: i32, die_type: DiceType) -> (d: Self)
        ensures
            d == (Dice { count, die_type, modifier: 0 }),
    {
        Self::new(count, die_type, 0)
    }

    /// Create a 1dX dice expression.
    pub fn single(die_type: DiceType) -> (d: Self)
        ensures
            d == (Dice { count: 1, die_type, modifier: 0 }),
    {
        Self::simple(1, die_type)
    }

    /// Create a d20 roll (most common in D&D).
    pub fn d20() -> (d: Self)
        ensures
            d == (Dice { count: 1, die_type: DiceType::D20, modifier: 0 }),
    {
        Self::single(DiceType::D20)
    }

    /// Builds the roll result from the individual die results.
    pub fn roll_from(&self, rolls: Vec<i32>) -> (r: DiceRoll)
        requires
            self.fits(),
            rolls@.len() == self.count,
            all_faces(rolls@, sides_of(self.die_type)),
        ensures
            r.dice == *self,
            r.rolls@ == rolls@,
            r.total == sum_of(rolls@) + self.modifier,
            self.min_total() <= r.total <= self.max_total(),
    {
        let sides = self.die_type.sides();
        let mut sum: i32 = 0;
        let mut i: usize = 0;
        while i < rolls.len()
            invariant
                self.fits(),
                sides == sides_of(self.die_type),
                rolls@.len() == self.count,
                all_faces(rolls@, sides as int),
                i <= rolls@.len(),
                sum == sum_of(rolls@.subrange(0, i as int)),
                i <= sum <= i * sides,
            decreases rolls@.len() - i,
        {
            assert(rolls@.subrange(0, i + 1).drop_last() =~= rolls@.subrange(0, i as int));
            assert(1 <= rolls@[i as int] <= sides);
            assert((i + 1) * sides == i * sides + sides) by (nonlinear_arith);
            assert((i + 1) * sides <= self.count * sides) by (nonlinear_arith)
                requires
                    i + 1 <= self.count,
                    sides >= 0,
            ;
            sum = sum + rolls[i];
            i = i + 1;
        }
        assert(rolls@.subrange(0, i as int) =~= rolls@);
        let total = sum + self.modifier;
        DiceRoll { dice: *self, rolls, total }
    }

    /// Roll the dice with the thread-local generator.
    pub fn roll(&self) -> (r: DiceRoll)
        requires
            self.fits(),
        ensures
            r.dice == *self,
            r.rolls@.len() == self.count,
            all_faces(r.rolls@, sides_of(self.die_type)),
            r.total == sum_of(r.rolls@) + self.modifier,
            self.min_total() <= r.total <= self.max_total(),
    {
        let mut rng = thread_rng();
        let sides = self.die_type.sides();
        let mut rolls: Vec<i32> = Vec::new();
        let mut i: i32 = 0;
        while i < self.count
            invariant
                0 <= i <= self.count,
                sides == sides_of(self.die_type),
                rolls@.len() == i,
                all_faces(rolls@, sides as int),
            decreases self.count - i,
        {
            let face = thread_rng_range(&mut rng, 1, sides);
            rolls.push(face);
            i = i + 1;
        }
        self.roll_from(rolls)
    }

    /// Roll the dice with a given small generator.
    pub fn roll_with(&self, rng: &mut rand::rngs::SmallRng) -> (r: DiceRoll)
        requires
            self.fits(),
        ensures
            r.dice == *self,
            r.rolls@.len() == self.count,
            all_faces(r.rolls@, sides_of(self.die_type)),
            r.total == sum_of(r.rolls@) + self.modifier,
            self.min_total() <= r.total <= self.max_total(),
    {
        let sides = self.die_type.sides();
        let mut rolls: Vec<i32> = Vec::new();
        let mut i: i32 = 0;
        while i < self.count
            invariant
                0 <= i <= self.count,
                sides == sides_of(self.die_type),
                rolls@.len() == i,
                all_faces(rolls@, sides as int),
            decreases self.count - i,
        {
            let face = small_rng_range(rng, 1, sides);
            rolls.push(face);
            i = i + 1;
        }
        self.roll_from(rolls)
    }

    /// Get the minimum possible roll.
    pub fn minimum(&self) -> (m: i32)
        requires
            i32::MIN <= self.min_total() <= i32::MAX,
        ensures
            m == self.min_total(),
    {
        self.count + self.modifier
    }

    /// Get the maximum possible roll.
    pub fn maximum(&self) -> (m: i32)
        requires
            i32::MIN <= self.count * sides_of(self.die_type) <= i32::MAX,
            i32::MIN <= self.max_total() <= i32::MAX,
        ensures
            m == self.max_total(),
    {
        let sides = self.die_type.sides();
        self.count * sides + self.modifier
    }

    /// The expression's text, such as `2d6+3`, `1d8-1` or `1d20`.
    pub fn to_string(&self) -> (s: String)
        ensures
            s@ == dice_text(*self),
    {
        let mut s = String::new();
        push_int(&mut s, self.count as i128);
        let die = self.die_type.to_string();
        s.append(die.as_str());
        if self.modifier > 0 {
            s.append("+");
            proof {
                reveal_strlit("+");
            }
            push_int(&mut s, self.modifier as i128);
        } else if self.modifier < 0 {
            push_int(&mut s, self.modifier as i128);
        }
        proof {
            assert(s@ =~= dice_text(*self));
        }
        s
    }

    /// Parse a dice string like "2d6+3" or "1d8-1": the string is trimmed
    /// and lowercased, then read as dice notation.
    pub fn parse(s: &str) -> (r: Option<Self>)
        ensures
            r == notation_value(lowercase(trimmed(s@))),
            all_ascii(trimmed(s@)) ==> r == notation_value(ascii_lowered(trimmed(s@))),
    {
        let t = trim(s);
        let lower = to_lowercase(t);
        let cs = chars_of(lower.as_str());
        parse_notation(&cs)
    }
}

/// Position of the first `c` in `s`.
#[verifier::opaque]
pub open spec fn first_index(s: Seq<char>, c: char) -> Option<int> {
    if s.contains(c) {
        Some(choose|i: int| 0 <= i < s.len() && s[i] == c && forall|j: int| 0 <= j < i ==> s[j] != c)
    } else {
        None
    }
}

/// Position of the last `c` in `s`.
#[verifier::opaque]
pub open spec fn last_index(s: Seq<char>, c: char) -> Option<int> {
    if s.contains(c) {
        Some(
            choose|i: int|
                0 <= i < s.len() && s[i] == c && forall|j: int| i < j < s.len() ==> s[j] != c,
        )
    } else {
        None
    }
}

/// The first `c` of `s` is at `k` when `k` holds one and nothing before it does.
pub proof fn lemma_first_index_at(s: Seq<char>, c: char, k: int)
    requires
        0 <= k < s.len(),
        s[k] == c,
        forall|j: int| 0 <= j < k ==> s[j] != c,
    ensures
        first_index(s, c) == Some(k),
{
    reveal(first_index);
    assert(s.contains(c));
    let q = choose|q: int| 0 <= q < s.len() && s[q] == c && forall|j: int| 0 <= j < q ==> s[j] != c;
    assert(q == k) by {
        if q < k {
        } else if q > k {
        }
    }
}

/// The last `c` of `s` is at `k` when `k` holds one and nothing after it does.
pub proof fn lemma_last_index_at(s: Seq<char>, c: char, k: int)
    requires
        0 <= k < s.len(),
        s[k] == c,
        forall|j: int| k < j < s.len() ==> s[j] != c,
    ensures
        last_index(s, c) == Some(k),
{
    reveal(last_index);
    assert(s.contains(c));
    let q = choose|q: int|
        0 <= q < s.len() && s[q] == c && forall|j: int| q < j < s.len() ==> s[j] != c;
    assert(q == k) by {
        if q < k {
        } else if q > k {
        }
    }
}

/// Neither a first nor a last `c` exists when `s` holds none.
pub proof fn lemma_index_absent(s: Seq<char>, c: char)
    requires
        !s.contains(c),
    ensures
        first_index(s, c) == None::<int>,
        last_index(s, c) == None::<int>,
{
    reveal(first_index);
    reveal(last_index);
}

/// The number of dice: 1 when no count is written.
pub open spec fn count_value(s: Seq<char>) -> Option<i32> {
    if s.len() == 0 {
        Some(1)
    } else {
        parse_i32_spec(s)
    }
}

/// The die part and the modifier after the `d`: a `+M` suffix from the
/// first `+`, else a `-M` suffix from the last `-`, else no modifier.
pub open spec fn split_modifier(rest: Seq<char>) -> Option<(Seq<char>, i32)> {
    match first_index(rest, '+') {
        Some(p) => match parse_i32_spec(rest.subrange(p + 1, rest.len() as int)) {
            Some(m) => Some((rest.subrange(0, p), m)),
            None => None,
        },
        None => match last_index(rest, '-') {
            Some(p) => match parse_i32_spec(rest.subrange(p, rest.len() as int)) {
                Some(m) => Some((rest.subrange(0, p), m)),
                None => None,
            },
            None => Some((rest, 0i32)),
        },
    }
}

/// Value of dice notation `[N]dX[+M|-M]` where X is one of the seven dice.
pub open spec fn notation_value(t: Seq<char>) -> Option<Dice> {
    match first_index(t, 'd') {
        None => None,
        Some(dp) => {
            let rest = t.subrange(dp + 1, t.len() as int);
            match (count_value(t.subrange(0, dp)), split_modifier(rest)) {
                (Some(count), Some((die_str, m))) => match parse_i32_spec(die_str) {
                    Some(n) => match die_with_sides(n as int) {
                        Some(dt) => Some(Dice { count, die_type: dt, modifier: m }),
                        None => None,
                    },
                    None => None,
                },
                _ => None,
            }
        },
    }
}

/// Finds the first `c` in `cs`.
fn find_first(cs: &Vec<char>, c: char) -> (r: Option<usize>)
    ensures
        match r {
            Some(i) => i < cs@.len() && first_index(cs@, c) == Some(i as int),
            None => first_index(cs@, c) == None::<int>,
        },
{
    let mut i: usize = 0;
    while i < cs.len()
        invariant
            i <= cs@.len(),
            forall|j: int| 0 <= j < i ==> cs@[j] != c,
        decreases cs@.len() - i,
    {
        if cs[i] == c {
            proof {
                lemma_first_index_at(cs@, c, i as int);
            }
            return Some(i);
        }
        i = i + 1;
    }
    proof {
        lemma_index_absent(cs@, c);
    }
    None
}

/// Finds the last `c` in `cs`.
fn find_last(cs: &Vec<char>, c: char) -> (r: Option<usize>)
    ensures
        match r {
            Some(i) => i < cs@.len() && last_index(cs@, c) == Some(i as int),
            None => last_index(cs@, c) == None::<int>,
        },
{
    let mut i: usize = cs.len();
    while i > 0
        invariant
            i <= cs@.len(),
            forall|j: int| i <= j < cs@.len() ==> cs@[j] != c,
        decreases i,
    {
        if cs[i - 1] == c {
            proof {
                lemma_last_index_at(cs@, c, (i - 1) as int);
            }
            return Some(i - 1);
        }
        i = i - 1;
    }
    proof {
        lemma_index_absent(cs@, c);
    }
    None
}

/// Reads `cs[lo..hi]` as an `i32`.
fn parse_piece(cs: &Vec<char>, lo: usize, hi: usize) -> (r: Option<i32>)
    requires
        lo <= hi <= cs@.len(),
    ensures
        r == parse_i32_spec(cs@.subrange(lo as int, hi as int)),
{
    let mut piece: Vec<char> = Vec::new();
    let mut i: usize = lo;
    while i < hi
        invariant
            lo <= i <= hi <= cs@.len(),
            piece@ == cs@.subrange(lo as int, i as int),
        decreases hi - i,
    {
        piece.push(cs[i]);
        i = i + 1;
        assert(piece@ =~= cs@.subrange(lo as int, i as int));
    }
    let s = string_from_chars(piece.as_slice());
    parse_i32(s.as_str())
}

/// The die with `n` sides, if there is one.
pub fn die_from_sides(n: i32) -> (r: Option<DiceType>)
    ensures
        r == die_with_sides(n as int),
{
    match n {
        4 => Some(DiceType::D4),
        6 => Some(DiceType::D6),
        8 => Some(DiceType::D8),
        10 => Some(DiceType::D10),
        12 => Some(DiceType::D12),
        20 => Some(DiceType::D20),
        100 => Some(DiceType::D100),
        _ => None,
    }
}

/// Reads dice notation `[N]dX[+M|-M]` from characters.
pub fn parse_notation(cs: &Vec<char>) -> (r: Option<Dice>)
    ensures
        r == notation_value(cs@),
{
    let ghost t = cs@;
    let found = find_first(cs, 'd');
    if found.is_none() {
        return None;
    }
    let dp = found.unwrap();
    let len: usize = cs.len();
    assert(dp < len);
    let count = if dp == 0 {
        proof {
            assert(t.subrange(0, 0) =~= Seq::<char>::empty());
        }
        1i32
    } else {
        match parse_piece(cs, 0, dp) {
            Some(c) => c,
            None => {
                return None;
            },
        }
    };
    let mut rest: Vec<char> = Vec::new();
    let mut i: usize = dp + 1;
    while i < cs.len()
        invariant
            dp < cs@.len(),
            dp + 1 <= i <= cs@.len(),
            rest@ == cs@.subrange(dp + 1, i as int),
        decreases cs@.len() - i,
    {
        rest.push(cs[i]);
        i = i + 1;
        assert(rest@ =~= cs@.subrange(dp + 1, i as int));
    }
    let ghost rs = rest@;
    let (die_end, modifier) = match find_first(&rest, '+') {
        Some(p) => match parse_piece(&rest, p + 1, rest.len()) {
            Some(m) => (p, m),
            None => {
                return None;
            },
        },
        None => match find_last(&rest, '-') {
            Some(p) => match parse_piece(&rest, p, rest.len()) {
                Some(m) => (p, m),
                None => {
                    return None;
                },
            },
            None => (rest.len(), 0i32),
        },
    };
    proof {
        assert(rs.subrange(0, rs.len() as int) =~= rs);
    }
    let n = match parse_piece(&rest, 0, die_end) {
        Some(n) => n,
        None => {
            return None;
        },
    };
    match die_from_sides(n) {
        Some(dt) => Some(Dice { count, die_type: dt, modifier }),
        None => None,
    }
}

/// Decimal notation never holds a `d` or a `+`, and only its first
/// character can be `-`.
proof fn lemma_decimal_chars(n: int)
    ensures
        !decimal(n).contains('d'),
        !decimal(n).contains('+'),
        forall|i: int| 0 < i < decimal(n).len() ==> decimal(n)[i] != '-',
        decimal(n).len() > 0,
        n >= 0 ==> !decimal(n).contains('-'),
        n < 0 ==> decimal(n)[0] == '-',
{
    let m: nat = if n < 0 {
        (-n) as nat
    } else {
        n as nat
    };
    lemma_digits_of_shape(m);
    let ds = digits_of(m);
    assert forall|i: int| 0 <= i < ds.len() implies ds[i] != 'd' && ds[i] != '+' && ds[i]
        != '-' by {
        assert(is_digit(ds[i]));
    }
    if n < 0 {
        let s = decimal(n);
        assert forall|i: int| 0 < i < s.len() implies s[i] != '-' by {
            assert(s[i] == ds[i - 1]);
        }
        assert(!s.contains('d')) by {
            if s.contains('d') {
                let k = choose|k: int| 0 <= k < s.len() && s[k] == 'd';
                if k > 0 {
                    assert(s[k] == ds[k - 1]);
                }
            }
        }
        assert(!s.contains('+')) by {
            if s.contains('+') {
                let k = choose|k: int| 0 <= k < s.len() && s[k] == '+';
                if k > 0 {
                    assert(s[k] == ds[k - 1]);
                }
            }
        }
    }
}

/// Where the modifier part begins and how it reads, for the text after
/// the `d` of a dice expression.
proof fn lemma_split_text(sd: Seq<char>, m: i32)
    requires
        !sd.contains('+'),
        !sd.contains('-'),
        sd.len() > 0,
    ensures
        split_modifier(sd + (if m > 0 {
            seq!['+'] + decimal(m as int)
        } else if m < 0 {
            decimal(m as int)
        } else {
            Seq::<char>::empty()
        })) == Some((sd, m)),
{
    let mp = if m > 0 {
        seq!['+'] + decimal(m as int)
    } else if m < 0 {
        decimal(m as int)
    } else {
        Seq::<char>::empty()
    };
    let rest = sd + mp;
    let sl = sd.len() as int;
    lemma_decimal_chars(m as int);
    lemma_parse_decimal(m);
    let dm = decimal(m as int);
    assert(forall|j: int| 0 <= j < sl ==> rest[j] == sd[j]);
    if m > 0 {
        assert(rest[sl] == '+');
        assert forall|j: int| 0 <= j < sl implies rest[j] != '+' by {
            if rest[j] == '+' {
                assert(sd.contains('+')) by {
                    assert(sd[j] == '+');
                }
            }
        }
        lemma_first_index_at(rest, '+', sl);
        assert(rest.subrange(sl + 1, rest.len() as int) =~= dm);
        assert(rest.subrange(0, sl) =~= sd);
    } else if m < 0 {
        assert(!rest.contains('+')) by {
            if rest.contains('+') {
                let q = choose|q: int| 0 <= q < rest.len() && rest[q] == '+';
                if q < sl {
                    assert(sd.contains('+')) by {
                        assert(sd[q] == '+');
                    }
                } else {
                    assert(dm.contains('+')) by {
                        assert(rest[q] == dm[q - sl]);
                    }
                }
            }
        }
        lemma_index_absent(rest, '+');
        assert(rest[sl] == '-');
        assert forall|j: int| sl < j < rest.len() implies rest[j] != '-' by {
            assert(rest[j] == dm[j - sl]);
        }
        lemma_last_index_at(rest, '-', sl);
        assert(rest.subrange(sl, rest.len() as int) =~= dm);
        assert(rest.subrange(0, sl) =~= sd);
    } else {
        assert(rest =~= sd);
        lemma_index_absent(rest, '+');
        lemma_index_absent(rest, '-');
    }
}

/// Reading the text of any dice expression gives the same expression back.
pub proof fn lemma_parse_to_string(d: Dice)
    ensures
        notation_value(dice_text(d)) == Some(d),
{
    let cnt = decimal(d.count as int);
    let sd = decimal(sides_of(d.die_type));
    let mp = if d.modifier > 0 {
        seq!['+'] + decimal(d.modifier as int)
    } else if d.modifier < 0 {
        decimal(d.modifier as int)
    } else {
        Seq::<char>::empty()
    };
    let t = dice_text(d);
    assert(t =~= cnt + seq!['d'] + sd + mp);
    lemma_decimal_chars(d.count as int);
    lemma_decimal_chars(sides_of(d.die_type));
    lemma_parse_decimal(d.count);
    lemma_parse_decimal(sides_of(d.die_type) as i32);
    let dp = cnt.len() as int;
    assert(t[dp] == 'd');
    assert forall|j: int| 0 <= j < dp implies t[j] != 'd' by {
        assert(t[j] == cnt[j]);
        if cnt[j] == 'd' {
            assert(cnt.contains('d'));
        }
    }
    lemma_first_index_at(t, 'd', dp);
    assert(t.subrange(0, dp) =~= cnt);
    let rest = t.subrange(dp + 1, t.len() as int);
    assert(rest =~= sd + mp);
    lemma_split_text(sd, d.modifier);
}

/// A character of dice text: a digit, a sign, or `d`.
pub open spec fn dice_char(c: char) -> bool {
    is_digit(c) || c == '-' || c == '+' || c == 'd'
}

/// Decimal text is made of digits and a leading `-`, and ends in a digit.
proof fn lemma_decimal_dice_chars(n: int)
    ensures
        decimal(n).len() > 0,
        forall|i: int| 0 <= i < decimal(n).len() ==> dice_char(#[trigger] decimal(n)[i]),
        is_digit(decimal(n).last()),
{
    let m: nat = if n < 0 {
        (-n) as nat
    } else {
        n as nat
    };
    lemma_digits_of_shape(m);
    let ds = digits_of(m);
    let s = decimal(n);
    assert forall|i: int| 0 <= i < s.len() implies dice_char(#[trigger] s[i]) by {
        if n < 0 {
            if i > 0 {
                assert(s[i] == ds[i - 1]);
                assert(is_digit(ds[i - 1]));
            }
        } else {
            assert(is_digit(ds[i]));
        }
    }
    if n < 0 {
        assert(s.last() == ds.last());
    }
    assert(is_digit(ds[ds.len() - 1]));
}

/// Dice text is ASCII, has no white space at either end, and no
/// uppercase letter, so trimming and lowercasing leave it as it is.
pub proof fn lemma_dice_text_plain(d: Dice)
    ensures
        trimmed(dice_text(d)) == dice_text(d),
        all_ascii(dice_text(d)),
        ascii_lowered(dice_text(d)) == dice_text(d),
{
    let cnt = decimal(d.count as int);
    let sd = decimal(sides_of(d.die_type));
    let mp = if d.modifier > 0 {
        seq!['+'] + decimal(d.modifier as int)
    } else if d.modifier < 0 {
        decimal(d.modifier as int)
    } else {
        Seq::<char>::empty()
    };
    let t = dice_text(d);
    assert(t =~= cnt + seq!['d'] + sd + mp);
    lemma_decimal_dice_chars(d.count as int);
    lemma_decimal_dice_chars(sides_of(d.die_type));
    lemma_decimal_dice_chars(d.modifier as int);
    let mv = decimal(d.modifier as int);
    assert forall|i: int| 0 <= i < mp.len() implies dice_char(#[trigger] mp[i]) by {
        if d.modifier > 0 {
            if i > 0 {
                assert(mp[i] == mv[i - 1]);
            }
        } else {
            assert(mp[i] == mv[i]);
        }
    }
    assert forall|i: int| 0 <= i < t.len() implies dice_char(#[trigger] t[i]) by {
        let a = cnt.len() as int;
        let b = a + 1;
        let c = b + sd.len();
        if i < a {
            assert(t[i] == cnt[i]);
        } else if i == a {
            assert(t[i] == 'd');
        } else if i < c {
            assert(t[i] == sd[i - b]);
        } else {
            assert(t[i] == mp[i - c]);
        }
    }
    if mp.len() > 0 {
        assert(mp.last() == mv.last());
        assert(t.last() == mp.last());
    } else {
        assert(t.last() == sd.last());
    }
    assert(is_digit(t.last()));
    assert(!is_white_space(t[0]));
    assert(!is_white_space(t.last()));
    assert(trimmed_start(t) == t);
    assert(trimmed_end(t) == t);
    assert forall|i: int| 0 <= i < t.len() implies (#[trigger] t[i] as int) < 128 by {
        assert(dice_char(t[i]));
    }
    assert forall|i: int| 0 <= i < t.len() implies ascii_lowered(t)[i] == t[i] by {
        assert(dice_char(t[i]));
        assert(ascii_lower_char(t[i]) == t[i]);
    }
    assert(ascii_lowered(t) =~= t);
}

/// Reading a dice expression's own text gives the expression back:
/// the text is left as it is by trimming and lowercasing (so `parse`
/// reads it through `notation_value`), and the notation reads back to `d`.
pub proof fn lemma_dice_text_round_trip(d: Dice)
    ensures
        all_ascii(trimmed(dice_text(d))),
        notation_value(ascii_lowered(trimmed(dice_text(d)))) == Some(d),
{
    lemma_dice_text_plain(d);
    lemma_parse_to_string(d);
}

/// Result of rolling dice.
#[derive(Debug, Clone)]
pub struct DiceRoll {
    /// The dice expression that was rolled.
    pub dice: Dice,
    /// Individual roll results.
    pub rolls: Vec<i32>,
    /// Total after adding modifier.
    pub total: i32,
}

/// Text of a list of rolls as Rust prints it for debugging: `[a, b, c]`.
pub open spec fn rolls_text(s: Seq<i32>) -> Seq<char> {
    seq!['['] + rolls_body(s) + seq![']']
}

/// The rolls separated by `, `.
pub open spec fn rolls_body(s: Seq<i32>) -> Seq<char>
    decreases s.len(),
{
    if s.len() == 0 {
        Seq::<char>::empty()
    } else if s.len() == 1 {
        decimal(s[0] as int)
    } else {
        rolls_body(s.drop_last()) + seq![',', ' '] + decimal(s.last() as int)
    }
}

impl DiceRoll {
    /// Check if this was a natural 20 (for d20 rolls).
    pub fn is_natural_20(&self) -> (b: bool)
        ensures
            b == (self.dice.die_type == DiceType::D20 && self.dice.count == 1 && self.rolls@.len()
                > 0 && self.rolls@[0] == 20),
    {
        self.dice.die_type == DiceType::D20 && self.dice.count == 1 && self.rolls.len() > 0
            && self.rolls[0] == 20
    }

    /// Check if this was a natural 1 (for d20 rolls).
    pub fn is_natural_1(&self) -> (b: bool)
        ensures
            b == (self.dice.die_type == DiceType::D20 && self.dice.count == 1 && self.rolls@.len()
                > 0 && self.rolls@[0] == 1),
    {
        self.dice.die_type == DiceType::D20 && self.dice.count == 1 && self.rolls.len() > 0
            && self.rolls[0] == 1
    }

    /// Get the sum of just the dice (without modifier).
    pub fn dice_total(&self) -> (t: i32)
        requires
            forall|k: int|
                0 <= k <= self.rolls@.len() ==> i32::MIN <= #[trigger] sum_of(
                    self.rolls@.subrange(0, k),
                ) <= i32::MAX,
        ensures
            t == sum_of(self.rolls@),
    {
        let mut sum: i32 = 0;
        let mut i: usize = 0;
        while i < self.rolls.len()
            invariant
                i <= self.rolls@.len(),
                sum == sum_of(self.rolls@.subrange(0, i as int)),
                forall|k: int|
                    0 <= k <= self.rolls@.len() ==> i32::MIN <= #[trigger] sum_of(
                        self.rolls@.subrange(0, k),
                    ) <= i32::MAX,
            decreases self.rolls@.len() - i,
        {
            assert(self.rolls@.subrange(0, i + 1).drop_last() =~= self.rolls@.subrange(
                0,
                i as int,
            ));
            assert(i32::MIN <= sum_of(self.rolls@.subrange(0, i + 1)) <= i32::MAX);
            sum = sum + self.rolls[i];
            i = i + 1;
        }
        assert(self.rolls@.subrange(0, i as int) =~= self.rolls@);
        sum
    }

    /// The roll's text: `{dice} = {total} ([rolls])`.
    pub fn to_string(&self) -> (s: String)
        ensures
            s@ == dice_text(self.dice) + seq![' ', '=', ' '] + decimal(self.total as int) + seq![
                ' ',
                '(',
            ] + rolls_text(self.rolls@) + seq![')'],
    {
        let mut s = self.dice.to_string();
        s.append(" = ");
        push_int(&mut s, self.total as i128);
        s.append(" ([");
        let mut i: usize = 0;
        let ghost head = s@;
        while i < self.rolls.len()
            invariant
                i <= self.rolls@.len(),
                s@ == head + rolls_body(self.rolls@.subrange(0, i as int)),
            decreases self.rolls@.len() - i,
        {
            let ghost before = s@;
            if i > 0 {
                s.append(", ");
                proof {
                    reveal_strlit(", ");
                }
            }
            push_int(&mut s, self.rolls[i] as i128);
            proof {
                let pre = self.rolls@.subrange(0, i as int);
                let post = self.rolls@.subrange(0, i + 1);
                assert(post.drop_last() =~= pre);
                if i == 0 {
                    assert(post.len() == 1);
                    assert(s@ =~= head + rolls_body(post));
                } else {
                    assert(s@ =~= head + rolls_body(post));
                }
            }
            i = i + 1;
        }
        s.append("])");
        proof {
            reveal_strlit(" = ");
            reveal_strlit(" ([");
            reveal_strlit("])");
            assert(self.rolls@.subrange(0, self.rolls@.len() as int) =~= self.rolls@);
            assert(s@ =~= dice_text(self.dice) + seq![' ', '=', ' '] + decimal(self.total as int)
                + seq![' ', '('] + rolls_text(self.rolls@) + seq![')']);
        }
        s
    }
}

/// The roll with the higher total; the first one on a tie.
pub fn keep_higher(first: DiceRoll, second: DiceRoll) -> (r: DiceRoll)
    ensures
        r == (if first.total >= second.total {
            first
        } else {
            second
        }),
{
    if first.total >= second.total {
        first
    } else {
        second
    }
}

/// The roll with the lower total; the first one on a tie.
pub fn keep_lower(first: DiceRoll, second: DiceRoll) -> (r: DiceRoll)
    ensures
        r == (if first.total <= second.total {
            first
        } else {
            second
        }),
{
    if first.total <= second.total {
        first
    } else {
        second
    }
}

/// A single d20 result: one die, its face in `1..=20`, and no modifier.
pub open spec fn is_d20_roll(r: DiceRoll) -> bool {
    &&& r.dice == Dice { count: 1, die_type: DiceType::D20, modifier: 0 }
    &&& r.rolls@.len() == 1
    &&& 1 <= r.rolls@[0] <= 20
    &&& r.total == r.rolls@[0]
}

/// Dice roller holding its own small random generator, and (in ghost
/// state only) the totals of the d20s it has rolled, in order.
pub struct DiceRoller {
    rng: rand::rngs::SmallRng,
    d20_draws: Ghost<Seq<i32>>,
}

impl DiceRoller {
    /// The totals of the d20s rolled so far, oldest first.
    pub closed spec fn d20_history(&self) -> Seq<i32> {
        self.d20_draws@
    }
}

impl Default for DiceRoller {
    fn default() -> (d: Self)
        ensures
            d.d20_history() == Seq::<i32>::empty(),
    {
        Self { rng: small_rng_from_os(), d20_draws: Ghost(Seq::empty()) }
    }
}

proof fn lemma_d20_roll(r: DiceRoll)
    requires
        r.dice == (Dice { count: 1, die_type: DiceType::D20, modifier: 0 }),
        r.rolls@.len() == 1,
        all_faces(r.rolls@, 20),
        r.total == sum_of(r.rolls@),
    ensures
        is_d20_roll(r),
{
    assert(r.rolls@.drop_last() =~= Seq::<i32>::empty());
    assert(sum_of(r.rolls@.drop_last()) == 0);
}

impl DiceRoller {
    /// Roll a dice expression.
    pub fn roll(&mut self, dice: &Dice) -> (r: DiceRoll)
        requires
            dice.fits(),
        ensures
            r.dice == *dice,
            r.rolls@.len() == dice.count,
            all_faces(r.rolls@, sides_of(dice.die_type)),
            r.total == sum_of(r.rolls@) + dice.modifier,
            dice.min_total() <= r.total <= dice.max_total(),
    {
        dice.roll_with(&mut self.rng)
    }

    /// Roll a d20; its total joins the history of d20s rolled.
    pub fn roll_d20(&mut self) -> (r: DiceRoll)
        ensures
            is_d20_roll(r),
            final(self).d20_history() == old(self).d20_history().push(r.total),
    {
        let r = Dice::d20().roll_with(&mut self.rng);
        proof {
            lemma_d20_roll(r);
        }
        self.d20_draws = Ghost(self.d20_draws@.push(r.total));
        r
    }

    /// Roll a d20 with advantage (roll twice, take highest): two d20s join
    /// the history, and the roll kept shows the higher of them, so its
    /// total is at least each of the two.
    pub fn roll_d20_advantage(&mut self) -> (r: DiceRoll)
        ensures
            is_d20_roll(r),
            final(self).d20_history().len() == old(self).d20_history().len() + 2,
            final(self).d20_history().take(old(self).d20_history().len() as int) == old(
                self,
            ).d20_history(),
            ({
                let n = old(self).d20_history().len() as int;
                let a = final(self).d20_history()[n] as int;
                let b = final(self).d20_history()[n + 1] as int;
                r.total >= a && r.total >= b && (r.total == a || r.total == b)
            }),
    {
        let roll1 = self.roll_d20();
        let roll2 = self.roll_d20();
        let r = keep_higher(roll1, roll2);
        proof {
            let h0 = old(self).d20_history();
            assert(self.d20_history() == h0.push(roll1.total).push(roll2.total));
            assert(self.d20_history().take(h0.len() as int) =~= h0);
        }
        r
    }

    /// Roll a d20 with disadvantage (roll twice, take lowest): two d20s
    /// join the history, and the roll kept shows the lower of them, so its
    /// total is at most each of the two.
    pub fn roll_d20_disadvantage(&mut self) -> (r: DiceRoll)
        ensures
            is_d20_roll(r),
            final(self).d20_history().len() == old(self).d20_history().len() + 2,
            final(self).d20_history().take(old(self).d20_history().len() as int) == old(
                self,
            ).d20_history(),
            ({
                let n = old(self).d20_history().len() as int;
                let a = final(self).d20_history()[n] as int;
                let b = final(self).d20_history()[n + 1] as int;
                r.total <= a && r.total <= b && (r.total == a || r.total == b)
            }),
    {
        let roll1 = self.roll_d20();
        let roll2 = self.roll_d20();
        let r = keep_lower(roll1, roll2);
        proof {
            let h0 = old(self).d20_history();
            assert(self.d20_history() == h0.push(roll1.total).push(roll2.total));
            assert(self.d20_history().take(h0.len() as int) =~= h0);
        }
        r
    }

    /// Roll a single die of the specified type.
    pub fn roll_die(&mut self, die_type: DiceType) -> (r: i32)
        ensures
            1 <= r <= sides_of(die_type),
    {
        let sides = die_type.sides();
        small_rng_range(&mut self.rng, 1, sides)
    }

    /// Roll NdX dice.
    pub fn roll_dice(&mut self, count: i32, die_type: DiceType) -> (r: DiceRoll)
        requires
            Dice::simple_spec(count, die_type).fits(),
        ensures
            r.dice == Dice::simple_spec(count, die_type),
            r.rolls@.len() == count,
            all_faces(r.rolls@, sides_of(die_type)),
            r.total == sum_of(r.rolls@),
    {
        Dice::simple(count, die_type).roll_with(&mut self.rng)
    }

    /// Roll NdX+M dice.
    pub fn roll_dice_with_modifier(&mut self, count: i32, die_type: DiceType, modifier: i32) -> (r:
        DiceRoll)
        requires
            (Dice { count, die_type, modifier }).fits(),
        ensures
            r.dice == (Dice { count, die_type, modifier }),
            r.rolls@.len() == count,
            all_faces(r.rolls@, sides_of(die_type)),
            r.total == sum_of(r.rolls@) + modifier,
    {
        Dice::new(count, die_type, modifier).roll_with(&mut self.rng)
    }
}

impl Dice {
    /// `count` dice of one type with no modifier.
    pub open spec fn simple_spec(count: i32, die_type: DiceType) -> Dice {
        Dice { count, die_type, modifier: 0 }
    }
}

/// Helper function to quickly roll dice without a resource.
pub fn roll(dice: &Dice) -> (r: DiceRoll)
    requires
        dice.fits(),
    ensures
        r.dice == *dice,
        r.rolls@.len() == dice.count,
        all_faces(r.rolls@, sides_of(dice.die_type)),
        r.total == sum_of(r.rolls@) + dice.modifier,
        dice.min_total() <= r.total <= dice.max_total(),
{
    dice.roll()
}

/// Helper function to roll a d20.
pub fn roll_d20() -> (r: DiceRoll)
    ensures
        is_d20_roll(r),
{
    let r = Dice::d20().roll();
    proof {
        lemma_d20_roll(r);
    }
    r
}

} // verus!
