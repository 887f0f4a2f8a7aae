//! The seedable random-delay source: a deterministic pseudo-random sequence
//! whose every draw is a function of the seed alone, so that one seed fixes
//! the whole battle trace bit for bit.

use vstd::prelude::*;

verus! {

/// The additive constant of the state walk.
pub const MIX_GAMMA: u64 = 0x9e3779b97f4a7c15;

/// The first multiplier of the output mix.
pub const MIX_MUL_1: u64 = 0xbf58476d1ce4e5b9;

/// The second multiplier of the output mix.
pub const MIX_MUL_2: u64 = 0x94d049bb133111eb;

/// The state after one step: the old state plus a fixed odd constant,
/// wrapping.
pub open spec fn step_state(s: u64) -> u64 {
    vstd::wrapping::u64_specs::wrapping_add(s, MIX_GAMMA)
}

/// The output word drawn from a state: the state scrambled by two
/// multiply-xorshift rounds.
pub open spec fn mix_output(s: u64) -> u64 {
    let z1 = vstd::wrapping::u64_specs::wrapping_mul(s ^ (s >> 30u64), MIX_MUL_1);
    let z2 = vstd::wrapping::u64_specs::wrapping_mul(z1 ^ (z1 >> 27u64), MIX_MUL_2);
    z2 ^ (z2 >> 31u64)
}

/// A seeded deterministic pseudo-random source. Every draw is pinned by the
/// contract to a function of the current state, so two sources seeded alike
/// produce the same sequence in every process and on every machine.
#[derive(Clone, Copy, Debug)]
pub struct DelaySource {
    pub state: u64,
}

impl DelaySource {
    /// A source whose state is the given seed.
    pub fn seed_from_u64(seed: u64) -> (r: DelaySource)
        ensures
            r.state == seed,
    {
        DelaySource { state: seed }
    }

    /// Draws the next word: advances the state by the fixed step and returns
    /// the scrambled output of the new state.
    pub fn next_u64(&mut self) -> (r: u64)
        ensures
            final(self).state == step_state(old(self).state),
            r == mix_output(step_state(old(self).state)),
    {
        self.state = self.state.wrapping_add(MIX_GAMMA);
        let s = self.state;
        let z1 = (s ^ (s >> 30)).wrapping_mul(MIX_MUL_1);
        let z2 = (z1 ^ (z1 >> 27)).wrapping_mul(MIX_MUL_2);
        z2 ^ (z2 >> 31)
    }

    /// Draws a value uniformly below the bound, by reduction of the next
    /// word; the result is a function of the state and the bound alone.
    pub fn below(&mut self, bound: u64) -> (r: u64)
        requires
            bound > 0,
        ensures
            r < bound,
            r == mix_output(step_state(old(self).state)) % bound,
            final(self).state == step_state(old(self).state),
    {
        let w = self.next_u64();
        w % bound
    }

    /// Draws an integer in the half-open raw range `[lo, hi)`, as the weapon
    /// random-delay draw asks.
    pub fn range_i32(&mut self, lo: i32, hi: i32) -> (r: i32)
        requires
            lo < hi,
        ensures
            lo <= r < hi,
            r == lo + mix_output(step_state(old(self).state)) % ((hi - lo) as u64),
            final(self).state == step_state(old(self).state),
    {
        let span: u64 = (hi as i64 - lo as i64) as u64;
        let off = self.below(span);
        (lo as i64 + off as i64) as i32
    }
}

} // verus!
