//! The crate's one boundary with the `rand` crate: the standard random
//! number generator, used for house placement, sprite variants and letter
//! spawning.  Callers construct and seed the generator themselves, so
//! runs are reproducible when a fixed seed is supplied.

use vstd::prelude::*;

verus! {

#[verifier::external_type_specification]
#[verifier::external_body]
pub struct ExStdRng(rand::rngs::StdRng);

/// Relies on rand's `RngExt::random_range` over a half-open `u64` range:
/// it returns a value drawn from `[lo, hi)` and panics only when the
/// range is empty.  Nothing more is assumed of the draw.
#[verifier::external_body]
pub(crate) fn rand_range_u64(rng: &mut rand::rngs::StdRng, lo: u64, hi: u64) -> (r: u64)
    requires
        lo < hi,
    ensures
        lo <= r < hi,
{
    rand::RngExt::random_range(rng, lo..hi)
}

} // verus!
