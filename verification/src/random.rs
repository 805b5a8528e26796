//! Random numbers, as the `rand` crate draws them from the generator of
//! the current thread.

use rand::Rng;
use vstd::prelude::*;

verus! {

/// `Rng::random_range(low..high)`: a number drawn from `low` up to, but
/// not including, `high`. Nothing is claimed of it but its range; the
/// empty range, on which the crate stops, is left out.
#[verifier::external_body]
pub(crate) fn random_in(low: i32, high: i32) -> (r: i32)
    requires
        low < high,
    ensures
        low <= r < high,
{
    rand::rng().random_range(low..high)
}

/// `Rng::fill` on a buffer of `n` bytes: `n` random bytes. Nothing is
/// claimed of them but their number.
#[verifier::external_body]
pub(crate) fn random_bytes(n: usize) -> (bytes: Vec<u8>)
    ensures
        bytes@.len() == n,
{
    let mut bytes = vec![0u8; n];
    rand::rng().fill(&mut bytes[..]);
    bytes
}

/// `Rng::random::<u32>()`: a random number of 32 bits. Nothing is claimed
/// of it.
#[verifier::external_body]
pub(crate) fn random_u32() -> (r: u32) {
    rand::rng().random::<u32>()
}

} // verus!
