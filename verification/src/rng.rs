//! The pseudo-random generator behind spawn timing and spawn placement.
//!
//! The game keeps one generator, seeded once at startup and owned by the
//! world, so a run is reproducible from its seed. The generator itself is
//! `rand`'s standard generator; the core states nothing about the values it
//! produces beyond the range each draw is taken from.
use vstd::prelude::*;

use rand::Rng;
use rand::SeedableRng;

verus! {

/// Declares rand's standard generator so it can sit in the world as an
/// opaque field; the contracts never look inside it.
#[verifier::external_type_specification]
#[verifier::external_body]
pub struct ExStdRng(rand::rngs::StdRng);

/// Relies on rand::SeedableRng::seed_from_u64: builds the standard generator
/// deterministically from a 64-bit seed.
#[verifier::external_body]
pub(crate) fn rng_from_seed(seed: u64) -> rand::rngs::StdRng {
    rand::rngs::StdRng::seed_from_u64(seed)
}

/// Relies on rand::Rng::gen_range on a half-open integer range: the draw is
/// uniform over `[low, high)`, and the call panics only on an empty range,
/// which the precondition rules out. Nothing else is assumed of the value.
#[verifier::external_body]
pub(crate) fn gen_range_i64(rng: &mut rand::rngs::StdRng, low: i64, high: i64) -> (r: i64)
    requires
        low < high,
    ensures
        low <= r < high,
{
    rng.gen_range(low..high)
}

} // verus!
