//! A seed for the caller who brings none.

use vstd::prelude::*;
use std::hash::{BuildHasher, RandomState};

verus! {

/// `RandomState::new` makes a hasher state with keys of its own: two calls
/// give states that hash differently. Nothing is claimed of the state.
#[verifier::external_body]
fn random_state() -> (state: RandomState) {
    RandomState::new()
}

/// `BuildHasher::hash_one` hashes one value with the state's keys. Nothing
/// is claimed of the hash.
#[verifier::external_body]
fn hash_one(state: &RandomState, value: u64) -> (hash: u64) {
    state.hash_one(value)
}

/// A seed that differs from call to call: the hash of zero under a fresh
/// hasher state, as [`seed_of_hash`] turns it into a seed.
pub(crate) fn fresh_seed() -> (seed: i64) {
    let state = random_state();
    let hash: u64 = hash_one(&state, 0);
    seed_of_hash(hash)
}

/// The seed that a hash stands for: the signed number with the same 64
/// bits.
pub open spec fn seed_of(hash: u64) -> i64 {
    hash as i64
}

/// Turns a hash into a seed without losing a bit: the generator, which
/// starts from the bits of its seed, starts from the hash.
pub fn seed_of_hash(hash: u64) -> (seed: i64)
    ensures
        seed == seed_of(hash),
        seed as u64 == hash,
{
    assert((hash as i64) as u64 == hash) by (bit_vector);
    hash as i64
}

} // verus!
