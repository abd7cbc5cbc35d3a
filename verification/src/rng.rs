//! The seedable source of randomness used for food placement, wrapped for the
//! rest of the library. Placement is the simulation's only non-determinism, so
//! everything that consumes a drawn coordinate is verified for every value the
//! contracts below allow.

use vstd::prelude::*;

verus! {

/// Declares rand's standard generator so it can be held in a field and passed
/// by reference; the library never looks inside it.
#[verifier::external_type_specification]
#[verifier::external_body]
pub struct ExStdRng(rand::rngs::StdRng);

/// Relies on rand::SeedableRng::seed_from_u64: builds a generator from a
/// 64-bit seed. Nothing is promised of the stream it will produce.
#[verifier::external_body]
pub(crate) fn rng_from_seed(seed: u64) -> rand::rngs::StdRng {
    <rand::rngs::StdRng as rand::SeedableRng>::seed_from_u64(seed)
}

/// Relies on rand::Rng::gen_range over the half-open range `0..bound`: the
/// documentation promises a value in the range, and the call panics only when
/// the range is empty, which `1 <= bound` rules out. Which value comes back is
/// left open.
#[verifier::external_body]
pub(crate) fn draw_below(rng: &mut rand::rngs::StdRng, bound: i32) -> (r: i32)
    requires
        1 <= bound,
    ensures
        0 <= r < bound,
{
    rand::Rng::gen_range(rng, 0..bound)
}

} // verus!
