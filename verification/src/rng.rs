//! A stateful pseudo-random source of unsigned 32-bit values, consumed by
//! fruit placement only. A linear congruential generator keeps the whole
//! source a plain value, so every draw has an exact contract.

use vstd::prelude::*;

verus! {

/// The successor of a 32-bit generator state word.
pub open spec fn lcg_next(s: int) -> int {
    (s * 1664525 + 1013904223) % 0x1_0000_0000
}

/// A pseudo-random generator producing successive unsigned 32-bit values.
#[derive(Clone, Copy, PartialEq, Eq, Structural)]
pub struct Rng {
    pub state: u32,
}

impl Rng {
    pub fn new(seed: u32) -> (r: Rng)
        ensures
            r.state == seed,
    {
        Rng { state: seed }
    }

    /// Draws the next 32-bit value and advances the generator state.
    pub fn next_u32(&mut self) -> (r: u32)
        ensures
            r == lcg_next(old(self).state as int),
            final(self).state == r,
    {
        let wide: u64 = (self.state as u64) * 1664525 + 1013904223;
        let next: u32 = (wide % 0x1_0000_0000) as u32;
        self.state = next;
        next
    }
}

} // verus!
