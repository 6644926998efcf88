//! Random draws used by the spawner and by enemy drops.

use rand::Rng;
use vstd::prelude::*;

verus! {

/// Declares rand's `ThreadRng` (the thread-local generator) so that verified
/// code can hand it on; nothing inside it is visible here.
#[verifier::external_type_specification]
#[verifier::external_body]
pub struct ExThreadRng(rand::rngs::ThreadRng);

/// Calls `Rng::gen_ratio`: true with chance `numerator / denominator`;
/// rand documents that the result is always `true` when the two are equal
/// and always `false` when `numerator` is zero, and that it panics when
/// `denominator` is zero or smaller than `numerator`.
#[verifier::external_body]
pub(crate) fn chance(
    rng: &mut rand::rngs::ThreadRng,
    numerator: u32,
    denominator: u32,
) -> (hit: bool)
    requires
        0 < denominator,
        numerator <= denominator,
    ensures
        numerator == denominator ==> hit,
        numerator == 0 ==> !hit,
{
    rng.gen_ratio(numerator, denominator)
}


/// Calls `Rng::gen_range` on `0..bound`: a uniformly drawn index below
/// `bound`; rand panics on an empty range.
#[verifier::external_body]
pub(crate) fn index_below(rng: &mut rand::rngs::ThreadRng, bound: usize) -> (i: usize)
    requires
        bound > 0,
    ensures
        i < bound,
{
    rng.gen_range(0..bound)
}

} // verus!
