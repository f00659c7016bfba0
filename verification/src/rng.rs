//! The simulation's one source of randomness: a seeded generator owned by the
//! reactor, consulted only through the two functions below.

use vstd::prelude::*;
use rand::RngExt;
use rand::SeedableRng;

verus! {

#[verifier::external_type_specification]
#[verifier::external_body]
pub struct ExStdRng(rand::rngs::StdRng);

/// Relies on rand's `SeedableRng::seed_from_u64`: builds a generator from a
/// 64-bit seed. Nothing is assumed of the stream it produces.
#[verifier::external_body]
pub(crate) fn rng_from_seed(seed: u64) -> rand::rngs::StdRng {
    rand::rngs::StdRng::seed_from_u64(seed)
}

/// Relies on rand's `RngExt::random_range` on `lo..hi`: the sample lies in
/// `[lo, hi)`; the call panics only on an empty range, which `lo < hi` rules
/// out. Which value comes back is left open.
#[verifier::external_body]
pub(crate) fn rng_range(rng: &mut rand::rngs::StdRng, lo: i64, hi: i64) -> (r: i64)
    requires
        lo < hi,
    ensures
        lo <= r < hi,
{
    rng.random_range(lo..hi)
}

} // verus!
