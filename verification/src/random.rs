//! Random draws from the `rand` crate.

use vstd::prelude::*;

verus! {

/// `rand::rngs::SmallRng`, carried through opaque.
#[verifier::external_type_specification]
#[verifier::external_body]
pub struct ExSmallRng(rand::rngs::SmallRng);

/// `rand::rngs::ThreadRng`, carried through opaque.
#[verifier::external_type_specification]
#[verifier::external_body]
pub struct ExThreadRng(rand::rngs::ThreadRng);

/// `SmallRng::from_os_rng`: a small generator seeded from the operating
/// system. Nothing is stated of its state.
#[verifier::external_body]
pub(crate) fn small_rng_from_os() -> rand::rngs::SmallRng {
    <rand::rngs::SmallRng as rand::SeedableRng>::from_os_rng()
}

/// `rand::rng`: a handle on the thread-local generator. Nothing is stated
/// of its state.
#[verifier::external_body]
pub(crate) fn thread_rng() -> rand::rngs::ThreadRng {
    rand::rng()
}

/// `Rng::random_range` over the inclusive range `lo..=hi` on a small
/// generator: the draw lies in the range (the range is never empty here).
#[verifier::external_body]
pub(crate) fn small_rng_range(rng: &mut rand::rngs::SmallRng, lo: i32, hi: i32) -> (r: i32)
    requires
        lo <= hi,
    ensures
        lo <= r <= hi,
{
    rand::Rng::random_range(rng, lo..=hi)
}

/// `Rng::random_range` over the inclusive range `lo..=hi` on the thread
/// generator: the draw lies in the range (the range is never empty here).
#[verifier::external_body]
pub(crate) fn thread_rng_range(rng: &mut rand::rngs::ThreadRng, lo: i32, hi: i32) -> (r: i32)
    requires
        lo <= hi,
    ensures
        lo <= r <= hi,
{
    rand::Rng::random_range(rng, lo..=hi)
}

/// `Rng::random_ratio(numerator, denominator)` on the thread generator:
/// true with that probability, so always false for a numerator of 0 and
/// always true for a numerator equal to the denominator. Which value
/// comes back otherwise is not stated.
#[verifier::external_body]
pub(crate) fn thread_rng_ratio(rng: &mut rand::rngs::ThreadRng, numerator: u32, denominator: u32) -> (r: bool)
    requires
        0 < denominator,
        numerator <= denominator,
    ensures
        numerator == 0 ==> !r,
        numerator == denominator ==> r,
{
    rand::Rng::random_ratio(rng, numerator, denominator)
}

} // verus!
