//! Randomness from the `rand` crate (thread-local CSPRNG).
//!
//! Nothing is promised of a random result beyond its range: two calls on the
//! same arguments may return different values.
use vstd::prelude::*;
use rand::seq::SliceRandom;
use rand::{Rng, RngCore};

verus! {

/// `rand::thread_rng().gen_range(0..n)`: some index below `n`.
/// (`gen_range` panics on an empty range, hence `n > 0`.)
#[verifier::external_body]
pub(crate) fn random_below(n: usize) -> (r: usize)
    requires
        n > 0,
    ensures
        r < n,
{
    rand::thread_rng().gen_range(0..n)
}

/// `SliceRandom::choose` with the thread RNG: `None` exactly for an empty
/// slice, otherwise one of its elements.
#[verifier::external_body]
pub(crate) fn random_choice<'a>(items: &'a [String]) -> (r: Option<&'a String>)
    ensures
        r is None <==> items@.len() == 0,
        r matches Some(x) ==> exists|i: int| 0 <= i < items@.len() && items@[i] == *x,
{
    items.choose(&mut rand::thread_rng())
}

/// `RngCore::fill_bytes` on a fresh 32-byte buffer with the thread RNG.
#[verifier::external_body]
pub(crate) fn random_bytes_32() -> (r: Vec<u8>)
    ensures
        r@.len() == 32,
{
    let mut bytes = vec![0u8; 32];
    rand::thread_rng().fill_bytes(&mut bytes);
    bytes
}

} // verus!
