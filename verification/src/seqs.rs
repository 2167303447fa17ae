//! Sequence helpers for lookups: the first element meeting a condition.

use vstd::prelude::*;

verus! {

/// The first element of `s` for which `p` holds.
pub open spec fn first_where<T>(s: Seq<T>, p: spec_fn(T) -> bool) -> Option<T>
    decreases s.len(),
{
    if s.len() == 0 {
        None
    } else if p(s[0]) {
        Some(s[0])
    } else {
        first_where(s.drop_first(), p)
    }
}

/// Scanning the suffix from `i`: either `s[i]` is the answer or the
/// search moves on to the suffix from `i + 1`.
pub proof fn lemma_first_where_step<T>(s: Seq<T>, p: spec_fn(T) -> bool, i: int)
    requires
        0 <= i < s.len(),
    ensures
        first_where(s.subrange(i, s.len() as int), p) == if p(s[i]) {
            Some(s[i])
        } else {
            first_where(s.subrange(i + 1, s.len() as int), p)
        },
{
    let t = s.subrange(i, s.len() as int);
    assert(t[0] == s[i]);
    assert(t.drop_first() =~= s.subrange(i + 1, s.len() as int));
}

/// The empty suffix has no answer, and the whole sequence is its own suffix.
pub proof fn lemma_first_where_ends<T>(s: Seq<T>, p: spec_fn(T) -> bool)
    ensures
        first_where(s.subrange(s.len() as int, s.len() as int), p) == None::<T>,
        first_where(s.subrange(0, s.len() as int), p) == first_where(s, p),
{
    assert(s.subrange(s.len() as int, s.len() as int) =~= Seq::<T>::empty());
    assert(s.subrange(0, s.len() as int) =~= s);
}

/// What `first_where` finds meets the condition and is in the sequence;
/// when it finds nothing, no element meets the condition.
pub proof fn lemma_first_where_found<T>(s: Seq<T>, p: spec_fn(T) -> bool)
    ensures
        first_where(s, p) matches Some(x) ==> p(x) && s.contains(x),
        first_where(s, p) is None ==> forall|i: int| 0 <= i < s.len() ==> !p(#[trigger] s[i]),
    decreases s.len(),
{
    if s.len() > 0 {
        lemma_first_where_found(s.drop_first(), p);
        if !p(s[0]) {
            if first_where(s.drop_first(), p) is Some {
                let x = first_where(s.drop_first(), p)->0;
                let k = choose|k: int| 0 <= k < s.drop_first().len() && s.drop_first()[k] == x;
                assert(s[k + 1] == x);
            } else {
                assert forall|i: int| 0 <= i < s.len() implies !p(#[trigger] s[i]) by {
                    if i > 0 {
                        assert(s[i] == s.drop_first()[i - 1]);
                    }
                }
            }
        } else {
            assert(s[0] == s[0]);
        }
    }
}

} // verus!
