//! The random source that readings are drawn from.

use rand::Rng;
use vstd::prelude::*;

verus! {

/// Draws one value from the half-open range `lo..hi` with
/// `rand::rng().random_range(lo..hi)`, the thread-local generator of the
/// `rand` crate.
///
/// Trusted, not proved: the value lies in the range, `lo` included and `hi`
/// excluded. `random_range` panics on an empty range, so `lo < hi` is asked
/// for. Nothing is claimed about which value of the range comes back: two
/// draws from one range may differ.
#[verifier::external_body]
pub(crate) fn sample_range(lo: u32, hi: u32) -> (value: u32)
    requires
        lo < hi,
    ensures
        lo <= value < hi,
{
    rand::rng().random_range(lo..hi)
}

} // verus!
