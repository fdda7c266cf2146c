//! The one source of chance in the simulation.
//!
//! Nothing can be promised of a drawn value beyond its range, so every
//! function that consumes one takes it as an argument and is verified for
//! every value the range admits.

use vstd::prelude::*;
use rand::RngExt;

verus! {

/// Draws a value uniformly from `lo..hi`.
///
/// Relies on `rand::rng` and `rand::RngExt::random_range`: for a non-empty
/// integer range the draw returns a value of that range and does not panic.
#[verifier::external_body]
pub fn random_in_range(lo: i64, hi: i64) -> (r: i64)
    requires
        lo < hi,
    ensures
        lo <= r < hi,
{
    rand::rng().random_range(lo..hi)
}

} // verus!
