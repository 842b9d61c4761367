//! Random draws, from the `rand` crate's thread-local generator.
use vstd::prelude::*;
use rand::Rng;

verus! {

/// Relies on `rand::Rng::gen_range` (rand 0.7) on `u32`: a value in
/// `[low, high)`; it panics when `low >= high`, which `requires` rules out.
#[verifier::external_body]
pub(crate) fn random_u32_in(low: u32, high: u32) -> (r: u32)
    requires
        low < high,
    ensures
        low <= r < high,
{
    rand::thread_rng().gen_range(low, high)
}

/// Relies on `rand::Rng::gen_range` (rand 0.7) on `i64`: a value in
/// `[low, high)`; it panics when `low >= high`, which `requires` rules out.
#[verifier::external_body]
pub(crate) fn random_i64_in(low: i64, high: i64) -> (r: i64)
    requires
        low < high,
    ensures
        low <= r < high,
{
    rand::thread_rng().gen_range(low, high)
}

} // verus!
