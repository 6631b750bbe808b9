//! Draws from the thread-local random number generator.

use vstd::prelude::*;

verus! {

/// Relies on `rand::random_range`: a value of the half-open range
/// `low..high`, which must not be empty.
#[verifier::external_body]
pub(crate) fn random_in(low: i64, high: i64) -> (r: i64)
    requires
        low < high,
    ensures
        low <= r < high,
{
    rand::random_range(low..high)
}

/// Relies on `rand::random`: any `u32`.
#[verifier::external_body]
pub(crate) fn random_u32() -> (r: u32) {
    rand::random::<u32>()
}

/// Relies on `rand::random_ratio`: `true` with chance
/// `numerator / denominator`; always `true` when the two are equal and always
/// `false` when `numerator` is zero.
#[verifier::external_body]
pub(crate) fn random_ratio(numerator: u32, denominator: u32) -> (r: bool)
    requires
        0 < denominator,
        numerator <= denominator,
    ensures
        numerator == denominator ==> r,
        numerator == 0 ==> !r,
{
    rand::random_ratio(numerator, denominator)
}

} // verus!
