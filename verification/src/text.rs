//! Text helpers: decimal notation of integers, reading integers back,
//! and the few std string operations the rules need.

use vstd::prelude::*;

verus! {

/// The ASCII digit for `d` in `0..=9`.
pub open spec fn digit_char(d: int) -> char {
    (d + 48) as char
}

/// Whether `c` is one of the ASCII digits `0`..`9`.
pub open spec fn is_digit(c: char) -> bool {
    '0' <= c && c <= '9'
}

/// Decimal digits of a natural number, most significant first, no leading zeros.
pub open spec fn digits_of(n: nat) -> Seq<char>
    decreases n,
{
    if n < 10 {
        seq![digit_char(n as int)]
    } else {
        digits_of(n / 10).push(digit_char((n % 10) as int))
    }
}

/// Decimal notation of an integer: `-` for negatives, then the digits.
pub open spec fn decimal(n: int) -> Seq<char> {
    if n < 0 {
        seq!['-'] + digits_of((-n) as nat)
    } else {
        digits_of(n as nat)
    }
}

/// Whether every character of `s` is an ASCII digit.
pub open spec fn all_digits(s: Seq<char>) -> bool {
    forall|i: int| 0 <= i < s.len() ==> is_digit(#[trigger] s[i])
}

/// The number written by a string of ASCII digits.
pub open spec fn digits_value(s: Seq<char>) -> int
    decreases s.len(),
{
    if s.len() == 0 {
        0
    } else {
        digits_value(s.drop_last()) * 10 + (s.last() as int - 48)
    }
}

/// Value of an integer literal: an optional `+` or `-` sign followed by
/// one or more ASCII digits; `None` for anything else.
pub open spec fn int_literal_value(s: Seq<char>) -> Option<int> {
    if s.len() > 0 && (s[0] == '+' || s[0] == '-') {
        let body = s.drop_first();
        if body.len() > 0 && all_digits(body) {
            if s[0] == '-' {
                Some(-digits_value(body))
            } else {
                Some(digits_value(body))
            }
        } else {
            None
        }
    } else if s.len() > 0 && all_digits(s) {
        Some(digits_value(s))
    } else {
        None
    }
}

/// What reading `s` as an `i32` gives: the literal's value when it fits.
#[verifier::opaque]
pub open spec fn parse_i32_spec(s: Seq<char>) -> Option<i32> {
    match int_literal_value(s) {
        Some(v) => if i32::MIN <= v <= i32::MAX {
            Some(v as i32)
        } else {
            None
        },
        None => None,
    }
}

/// `s` with every occurrence of `pat` replaced by `rep`, scanning from
/// the left and never overlapping two matches.
pub open spec fn replace_all(s: Seq<char>, pat: Seq<char>, rep: Seq<char>) -> Seq<char>
    recommends
        pat.len() > 0,
    decreases s.len(),
{
    if pat.len() == 0 || s.len() < pat.len() {
        s
    } else if s.subrange(0, pat.len() as int) == pat {
        rep + replace_all(s.subrange(pat.len() as int, s.len() as int), pat, rep)
    } else {
        seq![s[0]] + replace_all(s.drop_first(), pat, rep)
    }
}

/// Whether `needle` occurs as a contiguous piece of `hay`.
pub open spec fn has_substring(hay: Seq<char>, needle: Seq<char>) -> bool {
    exists|i: int|
        0 <= i && i + needle.len() <= hay.len() && #[trigger] hay.subrange(i, i + needle.len())
            == needle
}

/// `s[i..j]` is a word of `s`: a non-empty run of characters other than
/// spaces, with a space or the end of `s` on each side.
pub open spec fn is_word_at(s: Seq<char>, i: int, j: int) -> bool {
    &&& 0 <= i < j <= s.len()
    &&& (i == 0 || s[i - 1] == ' ')
    &&& (j == s.len() || s[j] == ' ')
    &&& forall|k: int| i <= k < j ==> #[trigger] s[k] != ' '
}

/// Whether some word of `name` occurs as a contiguous piece of `q`.
pub open spec fn shares_word(name: Seq<char>, q: Seq<char>) -> bool {
    exists|i: int, j: int| #[trigger] is_word_at(name, i, j) && has_substring(q, name.subrange(i, j))
}

/// The Unicode lowercase mapping of a string.
pub uninterp spec fn lowercase(s: Seq<char>) -> Seq<char>;

/// Whether every character of `s` is ASCII.
pub open spec fn all_ascii(s: Seq<char>) -> bool {
    forall|i: int| 0 <= i < s.len() ==> (#[trigger] s[i] as int) < 128
}

/// The ASCII lowercase of a character: `A`..`Z` become `a`..`z`, every
/// other character stays.
pub open spec fn ascii_lower_char(c: char) -> char {
    if 'A' <= c <= 'Z' {
        ((c as int) + 32) as char
    } else {
        c
    }
}

/// A string with `ascii_lower_char` applied to each character.
pub open spec fn ascii_lowered(s: Seq<char>) -> Seq<char> {
    s.map_values(|c: char| ascii_lower_char(c))
}

/// Whether `c` has the Unicode property White_Space.
pub open spec fn is_white_space(c: char) -> bool {
    let n = c as int;
    ||| 0x9 <= n <= 0xD
    ||| n == 0x20
    ||| n == 0x85
    ||| n == 0xA0
    ||| n == 0x1680
    ||| 0x2000 <= n <= 0x200A
    ||| n == 0x2028
    ||| n == 0x2029
    ||| n == 0x202F
    ||| n == 0x205F
    ||| n == 0x3000
}

/// `s` without its leading White_Space characters.
pub open spec fn trimmed_start(s: Seq<char>) -> Seq<char>
    decreases s.len(),
{
    if s.len() > 0 && is_white_space(s[0]) {
        trimmed_start(s.drop_first())
    } else {
        s
    }
}

/// `s` without its trailing White_Space characters.
pub open spec fn trimmed_end(s: Seq<char>) -> Seq<char>
    decreases s.len(),
{
    if s.len() > 0 && is_white_space(s.last()) {
        trimmed_end(s.drop_last())
    } else {
        s
    }
}

/// `s` without its leading and trailing White_Space characters.
pub open spec fn trimmed(s: Seq<char>) -> Seq<char> {
    trimmed_end(trimmed_start(s))
}

/// The ASCII digit for `d`.
fn digit(d: u128) -> (c: char)
    requires
        d < 10,
    ensures
        c == digit_char(d as int),
{
    match d {
        0 => '0',
        1 => '1',
        2 => '2',
        3 => '3',
        4 => '4',
        5 => '5',
        6 => '6',
        7 => '7',
        8 => '8',
        _ => '9',
    }
}

/// The decimal digits of `n`, most significant first.
fn digits(n: u128) -> (v: Vec<char>)
    ensures
        v@ == digits_of(n as nat),
    decreases n,
{
    if n < 10 {
        let mut v: Vec<char> = Vec::new();
        v.push(digit(n));
        assert(v@ =~= digits_of(n as nat));
        v
    } else {
        let mut v = digits(n / 10);
        v.push(digit(n % 10));
        v
    }
}

/// Decimal text of an integer: a `-` for negatives, then the digits of
/// the absolute value without leading zeros.
pub(crate) fn int_to_string(n: i128) -> (s: String)
    ensures
        s@ == decimal(n as int),
{
    if n < 0 {
        let m: u128 = (-(n + 1)) as u128 + 1;
        let mut v: Vec<char> = Vec::new();
        v.push('-');
        let ds = digits(m);
        let mut i: usize = 0;
        while i < ds.len()
            invariant
                i <= ds@.len(),
                v@ == seq!['-'] + ds@.take(i as int),
            decreases ds@.len() - i,
        {
            v.push(ds[i]);
            i = i + 1;
            assert(v@ =~= seq!['-'] + ds@.take(i as int));
        }
        assert(ds@.take(i as int) =~= ds@);
        string_from_chars(v.as_slice())
    } else {
        let ds = digits(n as u128);
        string_from_chars(ds.as_slice())
    }
}

/// The value of an ASCII digit.
fn digit_value(c: char) -> (d: i64)
    requires
        is_digit(c),
    ensures
        d == c as int - 48,
        0 <= d <= 9,
{
    (c as u32) as i64 - 48
}

/// Reads an `i32`: an optional `+` or `-` sign followed by ASCII digits,
/// and the value must fit; anything else fails.
pub(crate) fn parse_i32(s: &str) -> (r: Option<i32>)
    ensures
        r == parse_i32_spec(s@),
{
    proof {
        reveal(parse_i32_spec);
    }
    let cs = chars_of(s);
    let n = cs.len();
    if n == 0 {
        return None;
    }
    let signed = cs[0] == '+' || cs[0] == '-';
    let neg = cs[0] == '-';
    let start: usize = if signed { 1 } else { 0 };
    if start == n {
        return None;
    }
    let ghost body = cs@.subrange(start as int, n as int);
    proof {
        if signed {
            assert(body =~= s@.drop_first());
        } else {
            assert(body =~= s@);
        }
    }
    let mut acc: i64 = 0;
    let mut big = false;
    let mut i: usize = start;
    assert(cs@.subrange(start as int, start as int) =~= Seq::<char>::empty());
    while i < n
        invariant
            cs@ == s@,
            n == cs@.len(),
            start < n,
            start <= i <= n,
            body == cs@.subrange(start as int, n as int),
            signed == (s@[0] == '+' || s@[0] == '-'),
            neg == (s@[0] == '-'),
            signed ==> body == s@.drop_first(),
            !signed ==> body == s@,
            forall|k: int| start <= k < i ==> is_digit(#[trigger] cs@[k]),
            !big ==> acc == digits_value(cs@.subrange(start as int, i as int)) && 0 <= acc
                <= 2147483648,
            big ==> digits_value(cs@.subrange(start as int, i as int)) > 2147483648,
        decreases n - i,
    {
        let c = cs[i];
        if !('0' <= c && c <= '9') {
            assert(body[i - start] == c);
            assert(!all_digits(body));
            proof {
                reveal(parse_i32_spec);
            }
            return None;
        }
        let d = digit_value(c);
        let ghost before = cs@.subrange(start as int, i as int);
        let ghost after = cs@.subrange(start as int, i + 1);
        assert(after.drop_last() =~= before);
        assert(after.last() == c);
        if !big {
            let next = acc * 10 + d;
            if next > 2147483648 {
                big = true;
            } else {
                acc = next;
            }
        }
        i = i + 1;
    }
    assert(cs@.subrange(start as int, n as int) =~= body);
    assert(all_digits(body)) by {
        assert forall|k: int| 0 <= k < body.len() implies is_digit(#[trigger] body[k]) by {
            assert(body[k] == cs@[start + k]);
        }
    }
    if big {
        return None;
    }
    let v: i64 = if neg { -acc } else { acc };
    if v < -2147483648 || v > 2147483647 {
        None
    } else {
        Some(v as i32)
    }
}

/// Whether two string slices hold the same characters.
pub(crate) fn str_eq(a: &str, b: &str) -> (r: bool)
    ensures
        r == (a@ == b@),
{
    let x = chars_of(a);
    let y = chars_of(b);
    if x.len() != y.len() {
        return false;
    }
    let mut i: usize = 0;
    while i < x.len()
        invariant
            x@ == a@,
            y@ == b@,
            x@.len() == y@.len(),
            i <= x@.len(),
            forall|j: int| 0 <= j < i ==> x@[j] == y@[j],
        decreases x@.len() - i,
    {
        if x[i] != y[i] {
            return false;
        }
        i = i + 1;
    }
    assert(a@ =~= b@);
    true
}

/// std's `str::to_lowercase`: each character's Unicode lowercase mapping.
/// The mapping as a whole is named; on ASCII text it is stated: `A`..`Z`
/// become `a`..`z` and every other character stays.
#[verifier::external_body]
pub(crate) fn to_lowercase(s: &str) -> (r: String)
    ensures
        r@ == lowercase(s@),
        all_ascii(s@) ==> r@ == ascii_lowered(s@),
{
    s.to_lowercase()
}

/// std's `str::trim`: the slice without its leading and trailing
/// characters of the Unicode White_Space property.
#[verifier::external_body]
pub(crate) fn trim(s: &str) -> (r: &str)
    ensures
        r@ == trimmed(s@),
{
    s.trim()
}

/// Whether `n` occurs in `h` starting at `i`.
fn matches_at(h: &Vec<char>, n: &Vec<char>, i: usize) -> (b: bool)
    requires
        i + n@.len() <= h@.len(),
    ensures
        b == (h@.subrange(i as int, i + n@.len()) == n@),
{
    let hl = h.len();
    let mut j: usize = 0;
    while j < n.len()
        invariant
            hl == h@.len(),
            i + n@.len() <= h@.len(),
            j <= n@.len(),
            forall|k: int| 0 <= k < j ==> h@[i + k] == n@[k],
        decreases n@.len() - j,
    {
        if h[i + j] != n[j] {
            assert(h@.subrange(i as int, i + n@.len())[j as int] != n@[j as int]);
            return false;
        }
        j = j + 1;
    }
    assert(h@.subrange(i as int, i + n@.len()) =~= n@);
    true
}

/// Whether `needle` occurs as a contiguous piece of `hay`.
pub(crate) fn str_contains(hay: &str, needle: &str) -> (r: bool)
    ensures
        r == has_substring(hay@, needle@),
{
    let h = chars_of(hay);
    let n = chars_of(needle);
    if n.len() == 0 {
        assert(hay@.subrange(0, 0int + needle@.len()) =~= needle@);
        return true;
    }
    if n.len() > h.len() {
        return false;
    }
    let hl = h.len();
    let last = hl - n.len();
    let mut i: usize = 0;
    while i <= last
        invariant
            hl == h@.len(),
            h@ == hay@,
            n@ == needle@,
            1 <= n@.len() <= h@.len(),
            last == h@.len() - n@.len(),
            i <= last + 1,
            forall|k: int| 0 <= k < i ==> #[trigger] hay@.subrange(k, k + needle@.len()) != needle@,
        decreases last + 1 - i,
    {
        if matches_at(&h, &n, i) {
            assert(hay@.subrange(i as int, i + needle@.len()) == needle@);
            return true;
        }
        i = i + 1;
    }
    false
}

/// Whether some space-separated word of `name` occurs in `q`.
pub(crate) fn has_word_in(name: &str, q: &str) -> (b: bool)
    ensures
        b == shares_word(name@, q@),
{
    let cs = chars_of(name);
    let n = cs.len();
    let mut i: usize = 0;
    while i < n
        invariant
            cs@ == name@,
            n == cs@.len(),
            i <= n,
            i < n && cs@[i as int] != ' ' ==> (i == 0 || cs@[i - 1] == ' '),
            forall|a: int, b: int|
                #[trigger] is_word_at(name@, a, b) && a < i ==> !has_substring(
                    q@,
                    name@.subrange(a, b),
                ),
        decreases n - i,
    {
        if cs[i] == ' ' {
            assert forall|a: int, b: int| #[trigger]
                is_word_at(name@, a, b) && a < i + 1 implies !has_substring(
                q@,
                name@.subrange(a, b),
            ) by {
                if a == i {
                    assert(name@[a] != ' ');
                }
            }
            i = i + 1;
        } else {
            let mut j: usize = i;
            while j < n && cs[j] != ' '
                invariant
                    cs@ == name@,
                    n == cs@.len(),
                    i < j || j == i,
                    j <= n,
                    forall|k: int| i <= k < j ==> #[trigger] cs@[k] != ' ',
                decreases n - j,
            {
                j = j + 1;
            }
            assert(cs@[i as int] != ' ');
            assert(i < j);
            let mut piece: Vec<char> = Vec::new();
            let mut k: usize = i;
            while k < j
                invariant
                    i <= k <= j <= n,
                    n == cs@.len(),
                    piece@ == cs@.subrange(i as int, k as int),
                decreases j - k,
            {
                piece.push(cs[k]);
                k = k + 1;
                assert(piece@ =~= cs@.subrange(i as int, k as int));
            }
            let word = string_from_chars(piece.as_slice());
            assert(is_word_at(name@, i as int, j as int));
            if str_contains(q, word.as_str()) {
                return true;
            }
            assert forall|a: int, b: int| #[trigger]
                is_word_at(name@, a, b) && a < j implies !has_substring(
                q@,
                name@.subrange(a, b),
            ) by {
                if a > i {
                    assert(cs@[a - 1] != ' ');
                } else if a == i {
                    if b < j {
                        assert(cs@[b] != ' ');
                    } else if b > j {
                        assert(name@[j as int] != ' ');
                    }
                }
            }
            i = j;
        }
    }
    false
}

/// Appends the characters of `xs` to `out`.
fn push_all(out: &mut Vec<char>, xs: &Vec<char>)
    ensures
        final(out)@ == old(out)@ + xs@,
{
    let mut k: usize = 0;
    while k < xs.len()
        invariant
            k <= xs@.len(),
            out@ == old(out)@ + xs@.take(k as int),
        decreases xs@.len() - k,
    {
        out.push(xs[k]);
        k = k + 1;
        assert(out@ =~= old(out)@ + xs@.take(k as int));
    }
    assert(xs@.take(k as int) =~= xs@);
}

/// `s` with every occurrence of the non-empty `pat` replaced by `rep`,
/// scanning from the left and never overlapping two matches.
pub(crate) fn str_replace(s: &str, pat: &str, rep: &str) -> (r: String)
    requires
        pat@.len() > 0,
    ensures
        r@ == replace_all(s@, pat@, rep@),
{
    let cs = chars_of(s);
    let ps = chars_of(pat);
    let rs = chars_of(rep);
    let sl = cs.len();
    let pl = ps.len();
    let mut out: Vec<char> = Vec::new();
    let mut i: usize = 0;
    assert(cs@.subrange(0, sl as int) =~= cs@);
    while i < sl
        invariant
            sl == cs@.len(),
            pl == ps@.len(),
            pl > 0,
            i <= sl,
            out@ + replace_all(cs@.subrange(i as int, sl as int), ps@, rs@) == replace_all(
                cs@,
                ps@,
                rs@,
            ),
        decreases sl - i,
    {
        let ghost rest = cs@.subrange(i as int, sl as int);
        if pl <= sl - i && matches_at(&cs, &ps, i) {
            assert(rest.subrange(0, pl as int) =~= cs@.subrange(i as int, i + pl));
            assert(rest.subrange(pl as int, rest.len() as int) =~= cs@.subrange(
                i + pl,
                sl as int,
            ));
            push_all(&mut out, &rs);
            i = i + pl;
        } else {
            if pl <= sl - i {
                assert(rest.subrange(0, pl as int) =~= cs@.subrange(i as int, i + pl));
            } else {
                assert(rest.drop_first().len() < pl);
                assert(rest =~= seq![rest[0]] + rest.drop_first());
            }
            assert(rest.drop_first() =~= cs@.subrange(i + 1, sl as int));
            let ghost before = out@;
            out.push(cs[i]);
            assert(out@ =~= before + seq![rest[0]]);
            i = i + 1;
        }
    }
    assert(out@ =~= replace_all(cs@, ps@, rs@));
    string_from_chars(out.as_slice())
}

/// The characters of a string slice, in order.
pub(crate) fn chars_of(s: &str) -> (r: Vec<char>)
    ensures
        r@ == s@,
{
    broadcast use vstd::string::axiom_spec_iter;

    let mut r: Vec<char> = Vec::new();
    for c in it: s.chars()
        invariant
            r@ == it.seq().take(it.index() as int),
    {
        r.push(c);
    }
    assert(r@ =~= s@);
    r
}

/// Appends one character with std's `String::push`.
#[verifier::external_body]
pub(crate) fn push_char(s: &mut String, c: char)
    ensures
        final(s)@ == old(s)@.push(c),
{
    s.push(c);
}

/// A `String` holding the given characters, in order.
pub(crate) fn string_from_chars(cs: &[char]) -> (r: String)
    ensures
        r@ == cs@,
{
    let mut r = String::new();
    let mut i: usize = 0;
    while i < cs.len()
        invariant
            i <= cs@.len(),
            r@ == cs@.take(i as int),
        decreases cs@.len() - i,
    {
        push_char(&mut r, cs[i]);
        i = i + 1;
        assert(r@ =~= cs@.take(i as int));
    }
    assert(r@ =~= cs@);
    r
}

/// Copies a string slice into a new `String`.
pub fn owned(s: &str) -> (r: String)
    ensures
        r@ == s@,
{
    String::from_str(s)
}

/// Appends a decimal integer to a string.
pub fn push_int(s: &mut String, n: i128)
    ensures
        final(s)@ == old(s)@ + decimal(n as int),
{
    let t = int_to_string(n);
    s.append(t.as_str());
}

/// The digits of a natural number are all digits and there is at least one.
pub proof fn lemma_digits_of_shape(n: nat)
    ensures
        digits_of(n).len() > 0,
        all_digits(digits_of(n)),
    decreases n,
{
    if n >= 10 {
        lemma_digits_of_shape(n / 10);
        let d = digits_of(n / 10);
        assert forall|i: int| 0 <= i < digits_of(n).len() implies is_digit(
            #[trigger] digits_of(n)[i],
        ) by {
            if i < d.len() {
                assert(digits_of(n)[i] == d[i]);
            }
        }
    }
}

/// Reading back the digits of a natural number gives the number.
pub proof fn lemma_digits_value_of_digits(n: nat)
    ensures
        digits_value(digits_of(n)) == n,
    decreases n,
{
    if n < 10 {
        let s = digits_of(n);
        assert(digit_char(n as int) as int == n + 48);
        assert(s.drop_last() =~= Seq::<char>::empty());
        assert(digits_value(s.drop_last()) == 0);
    } else {
        assert(digit_char((n % 10) as int) as int == n % 10 + 48);
        lemma_digits_value_of_digits(n / 10);
        let s = digits_of(n);
        assert(s.drop_last() =~= digits_of(n / 10));
        assert(s.last() == digit_char((n % 10) as int));
        assert(digits_value(s) == digits_value(digits_of(n / 10)) * 10 + (n % 10));
        assert((n / 10) * 10 + n % 10 == n);
    }
}

/// Reading the decimal notation of an `i32` gives the same `i32` back.
pub proof fn lemma_parse_decimal(n: i32)
    ensures
        parse_i32_spec(decimal(n as int)) == Some(n),
{
    reveal(parse_i32_spec);
    if n < 0 {
        let m = (-(n as int)) as nat;
        lemma_digits_of_shape(m);
        lemma_digits_value_of_digits(m);
        let s = decimal(n as int);
        assert(s.drop_first() =~= digits_of(m));
    } else {
        let m = n as nat;
        lemma_digits_of_shape(m);
        lemma_digits_value_of_digits(m);
        let s = decimal(n as int);
        assert(is_digit(s[0]));
    }
}

} // verus!
