//! Random draws, taken from the `rand` crate behind trusted wrappers.
//! Nothing is assumed of a draw beyond its range.

use vstd::prelude::*;
use rand::RngExt;
use rand::rngs::ThreadRng;

verus! {

#[verifier::external_type_specification]
#[verifier::external_body]
pub struct ExThreadRng(ThreadRng);

/// Relies on `RngExt::random_range` over `lo..hi`: a draw from the
/// nonempty range. Beyond the range, nothing holds of a random value.
#[verifier::external_body]
pub(crate) fn random_in_range(rng: &mut ThreadRng, lo: i64, hi: i64) -> (r: i64)
    requires
        lo < hi,
    ensures
        lo <= r < hi,
{
    rng.random_range(lo..hi)
}

} // verus!
