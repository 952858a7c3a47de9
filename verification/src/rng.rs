//! The pseudo-random number generator behind identifier generation:
//! SplitMix64 (Steele, Lea and Flood, 2014).
//!
//! The state is one 64-bit word. A step adds the constant `GOLDEN_GAMMA` to
//! the state, with wrap-around, and scrambles the sum with two
//! multiplications and three shifts. A seed therefore fixes the whole
//! sequence, on every machine.

use vstd::prelude::*;

verus! {

/// The odd constant that a step adds to the state.
pub const GOLDEN_GAMMA: u64 = 0x9E37_79B9_7F4A_7C15;

/// First multiplier of the scrambling.
pub const MIX_FIRST: u64 = 0xBF58_476D_1CE4_E5B9;

/// Second multiplier of the scrambling.
pub const MIX_SECOND: u64 = 0x94D0_49BB_1331_11EB;

/// The state that follows `state`.
pub open spec fn advance(state: u64) -> u64 {
    state.wrapping_add(GOLDEN_GAMMA)
}

/// The number that a state gives out.
pub open spec fn mix(z: u64) -> u64 {
    let a = (z ^ (z >> 30)).wrapping_mul(MIX_FIRST);
    let b = (a ^ (a >> 27)).wrapping_mul(MIX_SECOND);
    b ^ (b >> 31)
}

/// The number below `bound` that a state gives out: the remainder of its
/// output by `bound`.
pub open spec fn mix_below(z: u64, bound: u64) -> u64
    recommends
        bound > 0,
{
    mix(z) % bound
}

/// A SplitMix64 generator.
#[derive(Debug, Clone, Copy)]
pub struct SplitMix64 {
    pub state: u64,
}

impl SplitMix64 {
    /// A generator that starts from `seed`.
    pub fn new(seed: u64) -> (rng: SplitMix64)
        ensures
            rng.state == seed,
    {
        SplitMix64 { state: seed }
    }

    /// Takes one step and gives out the number of the new state.
    pub fn next_u64(&mut self) -> (out: u64)
        ensures
            final(self).state == advance(old(self).state),
            out == mix(advance(old(self).state)),
    {
        self.state = self.state.wrapping_add(GOLDEN_GAMMA);
        let z: u64 = self.state;
        let a: u64 = (z ^ (z >> 30)).wrapping_mul(MIX_FIRST);
        let b: u64 = (a ^ (a >> 27)).wrapping_mul(MIX_SECOND);
        b ^ (b >> 31)
    }

    /// Takes one step and gives out a number below `bound`.
    pub fn next_below(&mut self, bound: u64) -> (out: u64)
        requires
            bound > 0,
        ensures
            final(self).state == advance(old(self).state),
            out == mix_below(advance(old(self).state), bound),
            out < bound,
    {
        let r: u64 = self.next_u64();
        r % bound
    }
}

} // verus!
