//! `rand`: the runtime's linear congruential sequence.
use vstd::prelude::*;

verus! {

/// The state after `state`: multiplied by 214013 and increased by 2531011,
/// modulo 2^32.
pub open spec fn following(state: u32) -> u32 {
    ((state * 214_013 + 2_531_011) % 0x1_0000_0000) as u32
}

/// A pseudo-random sequence, from the state that `srand` set.
pub struct Sequence {
    pub state: u32,
}

impl Default for Sequence {
    /// The sequence before any `srand`: seeded with 1.
    fn default() -> (sequence: Self)
        ensures
            sequence.state == 1,
    {
        Sequence { state: 1 }
    }
}

impl Sequence {
    /// Restarts the sequence from `seed`.
    pub fn seed(&mut self, seed: u32)
        ensures
            final(self).state == seed,
    {
        self.state = seed;
    }

    /// Advances the sequence and gives bits 16 to 30 of the new state.
    pub fn next(&mut self) -> (value: u32)
        ensures
            final(self).state == following(old(self).state),
            value == (following(old(self).state) >> 16u32) & 0x7fff,
    {
        self.state = self.state.wrapping_mul(214_013).wrapping_add(2_531_011);
        (self.state >> 16) & 0x7fff
    }
}

} // verus!
