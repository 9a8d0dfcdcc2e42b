//! Random tokens, drawn by the `rand` crate.
use vstd::prelude::*;

verus! {

/// Draws a `u64` by `rand::random`, which samples the thread's generator
/// uniformly over the whole type. The value differs from call to call, so
/// nothing is claimed of it. `rand::random` panics only where the operating
/// system cannot seed the thread's generator.
#[verifier::external_body]
pub(crate) fn random_u64() -> u64 {
    rand::random()
}

/// Draws a `u128` by `rand::random`, which samples the thread's generator
/// uniformly over the whole type. The value differs from call to call, so
/// nothing is claimed of it. `rand::random` panics only where the operating
/// system cannot seed the thread's generator.
#[verifier::external_body]
pub(crate) fn random_u128() -> u128 {
    rand::random()
}

} // verus!
