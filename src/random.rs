//! The uniform random source, taken from the `rand` crate.
use rand::distributions::{IndependentSample, Range};
use vstd::prelude::*;

verus! {

/// Relies on `rand::distributions::Range::new` and `IndependentSample::ind_sample`
/// on the thread-local generator: a value drawn uniformly from `[low, high)`.
/// `Range::new` panics unless `low < high`.
#[verifier::external_body]
pub(crate) fn sample_range(low: u32, high: u32) -> (r: u32)
    requires
        low < high,
    ensures
        low <= r < high,
{
    Range::new(low, high).ind_sample(&mut rand::thread_rng())
}

/// Relies on `rand::random::<u8>`: any byte, drawn uniformly.
#[verifier::external_body]
pub(crate) fn random_byte() -> (r: u8) {
    rand::random::<u8>()
}

} // verus!
