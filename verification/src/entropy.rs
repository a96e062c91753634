//! The library's only source of randomness: two draws from the process-wide
//! generator of the `rand` crate. Nothing is assumed of an outcome beyond its
//! range, so every caller is verified for every value that can come back.

use rand::Rng;
use vstd::prelude::*;

verus! {

/// Relies on `rand::Rng::random_range` over `0..=100u8`: it returns a value
/// in that range and panics only on an empty range, which this one is not.
#[verifier::external_body]
pub fn roll_percent() -> (roll: u8)
    ensures
        roll <= 100,
{
    rand::rng().random_range(0..=100u8)
}

/// Relies on `rand::Rng::random_range` over `0..n`: it returns a value in
/// that range and panics only on an empty range, which `n >= 1` rules out.
#[verifier::external_body]
pub fn pick_index(n: usize) -> (i: usize)
    requires
        1 <= n,
    ensures
        i < n,
{
    rand::rng().random_range(0..n)
}

} // verus!
