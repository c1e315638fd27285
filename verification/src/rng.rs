//! The simulation's randomness: a shared thread-local generator queried
//! through two narrow draws.  Nothing is assumed of an outcome beyond its
//! range; every decision taken on a drawn value is verified for every value
//! the range admits.

use vstd::prelude::*;

verus! {

/// Relies on rand::random_ratio: a Bernoulli draw that is true with
/// probability numerator/denominator on the thread-local generator.  It
/// panics when the denominator is zero or exceeded by the numerator; a zero
/// numerator is documented to always give false, equal arguments always true.
#[verifier::external_body]
pub(crate) fn draw_ratio(numerator: u32, denominator: u32) -> (r: bool)
    requires
        0 < denominator,
        numerator <= denominator,
    ensures
        numerator == 0 ==> !r,
        numerator == denominator ==> r,
{
    rand::random_ratio(numerator, denominator)
}

/// Relies on rand::random_range over a half-open i64 range: the result is
/// uniform over [lo, hi); the call panics when the range is empty.
#[verifier::external_body]
pub(crate) fn draw_range(lo: i64, hi: i64) -> (r: i64)
    requires
        lo < hi,
    ensures
        lo <= r < hi,
{
    rand::random_range(lo..hi)
}

} // verus!
