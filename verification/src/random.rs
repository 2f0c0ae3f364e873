//! Random images for the test patterns.

use rand::Rng;
use vstd::prelude::*;

verus! {

/// A number drawn by `rand::Rng::gen_range` from the generator that
/// `rand::thread_rng` gives the calling thread.
///
/// Trusted, not proved: `gen_range` documents that the value lies in the
/// half-open range from `low` to `high`, and that it panics unless
/// `low < high`. Which value comes is left open, and two calls may differ.
/// `thread_rng` panics on a machine that offers no entropy at all.
#[verifier::external_body]
pub(crate) fn random_between(low: u64, high: u64) -> (value: u64)
    requires
        low < high,
    ensures
        low <= value < high,
{
    rand::thread_rng().gen_range(low, high)
}

} // verus!
