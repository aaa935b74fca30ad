//! Random-number state, threaded by mutable reference through every
//! geometry, material and sampling call.
//!
//! The generator itself comes from the `rand` crate; everything derived
//! from its raw output is verified code.

use vstd::prelude::*;
use rand::SeedableRng;
use rand::RngCore;

verus! {

#[verifier::external_type_specification]
#[verifier::external_body]
pub struct ExSmallRng(rand::rngs::SmallRng);

/// A per-task random stream.  Tasks never share one, so parallel rows
/// stay independent and reproducible per seed.
pub struct RandState {
    inner: rand::rngs::SmallRng,
}

/// Relies on rand's `SmallRng::seed_from_u64` to build a generator from a seed.
#[verifier::external_body]
pub fn rng_from_seed(seed: u64) -> RandState {
    RandState { inner: rand::rngs::SmallRng::seed_from_u64(seed) }
}

/// Relies on rand's `RngCore::next_u64` for the next raw draw; nothing can
/// be promised of a random value.
#[verifier::external_body]
pub(crate) fn next_u64(rng: &mut RandState) -> u64 {
    rng.inner.next_u64()
}

/// A uniform draw from `[0, 1)` in thousandths.
pub fn next_milli(rng: &mut RandState) -> (r: i64)
    ensures
        0 <= r < 1000,
{
    let raw: u64 = next_u64(rng);
    (raw % 1000) as i64
}

/// A uniform index below `n`.
pub fn next_index(rng: &mut RandState, n: usize) -> (r: usize)
    requires
        n > 0,
    ensures
        r < n,
{
    let raw: u64 = next_u64(rng);
    (raw % (n as u64)) as usize
}

/// A fair coin.
pub fn next_bool(rng: &mut RandState) -> (r: bool) {
    let raw: u64 = next_u64(rng);
    raw % 2 == 0
}

} // verus!
