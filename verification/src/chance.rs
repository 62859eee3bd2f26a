//! Random draws, taken from the thread's generator.

use rand::Rng;
use vstd::prelude::*;

verus! {

/// Calls `rand::thread_rng` and `Rng::gen::<u128>` on it. Nothing is claimed
/// of the number that comes back.
#[verifier::external_body]
pub(crate) fn random_u128() -> (draw: u128) {
    rand::thread_rng().gen::<u128>()
}

/// Calls `rand::thread_rng` and `Rng::gen_range` on it with the range
/// `0..bound`. Claimed: the number lies in that range. An empty range makes
/// `gen_range` panic and is left out.
#[verifier::external_body]
pub(crate) fn random_below(bound: usize) -> (pick: usize)
    requires
        bound > 0,
    ensures
        pick < bound,
{
    rand::thread_rng().gen_range(0..bound)
}

} // verus!
