//! The library's single source of randomness, and verified helpers that
//! shape it into the ranges the game needs.

use vstd::prelude::*;

verus! {

/// Relies on rand::random: a fresh pseudo-random value from the thread's
/// generator. Nothing is assumed about which value comes back.
#[verifier::external_body]
pub(crate) fn random_u64() -> u64 {
    rand::random::<u64>()
}

/// A random value below `n`. Whatever the generator returns, the result
/// is in range.
pub fn random_below(n: u64) -> (r: u64)
    requires
        n > 0,
    ensures
        r < n,
{
    random_u64() % n
}

/// A random value in the closed interval from `lo` to `hi`.
pub fn random_between(lo: u64, hi: u64) -> (r: u64)
    requires
        lo <= hi,
        hi - lo < u64::MAX,
    ensures
        lo <= r <= hi,
{
    lo + random_below(hi - lo + 1)
}

/// An even chance of either truth value.
pub fn random_coin() -> bool {
    random_below(2) == 0
}

} // verus!
