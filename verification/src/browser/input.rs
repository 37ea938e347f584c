//! Human-like input timing: the shape of the delay distribution and the
//! seeded generator behind the jitter (splitmix64).
use vstd::prelude::*;

verus! {

/// The shape of the delays between keystrokes.
#[derive(Debug, Clone, Copy, PartialEq, Eq, Structural)]
pub enum KeyTimingDistribution {
    /// Box-Muller Gaussian: realistic.
    Gaussian,
    /// Uniform over mean ± deviation: used where Gaussian tails would make
    /// checks flaky.
    Uniform,
    /// Exactly the mean: reproducible screenshots.
    Fixed,
}

/// The splitmix64 increment.
pub const GOLDEN_GAMMA: u64 = 0x9E3779B97F4A7C15;

/// The output of splitmix64 for a state (already advanced).
pub open spec fn mix(s: u64) -> u64 {
    let z1 = vstd::wrapping::u64_specs::wrapping_mul(s ^ (s >> 30u64), 0xBF58476D1CE4E5B9u64);
    let z2 = vstd::wrapping::u64_specs::wrapping_mul(z1 ^ (z1 >> 27u64), 0x94D049BB133111EBu64);
    z2 ^ (z2 >> 31u64)
}

/// Sebastiano Vigna's splitmix64: a small seeded generator, the same
/// sequence for the same seed on every machine.
#[derive(Debug, Clone, Copy, PartialEq, Eq, Structural)]
pub struct SplitMix64 {
    pub state: u64,
}

impl SplitMix64 {
    pub fn new(seed: u64) -> (r: SplitMix64)
        ensures
            r.state == seed,
    {
        SplitMix64 { state: seed }
    }

    /// Advance the state by the golden gamma (wrapping) and return the
    /// mixed new state.
    pub fn next_u64(&mut self) -> (r: u64)
        ensures
            final(self).state == vstd::wrapping::u64_specs::wrapping_add(old(self).state, GOLDEN_GAMMA),
            r == mix(final(self).state),
    {
        self.state = self.state.wrapping_add(GOLDEN_GAMMA);
        let s = self.state;
        let z1 = (s ^ (s >> 30)).wrapping_mul(0xBF58476D1CE4E5B9);
        let z2 = (z1 ^ (z1 >> 27)).wrapping_mul(0x94D049BB133111EB);
        z2 ^ (z2 >> 31)
    }

    /// The top 24 bits of the next output: the mantissa of a uniform
    /// sample in [0, 1) once divided by 2^24.
    pub fn next_uniform_bits(&mut self) -> (r: u32)
        ensures
            final(self).state == vstd::wrapping::u64_specs::wrapping_add(old(self).state, GOLDEN_GAMMA),
            r as u64 == mix(final(self).state) >> 40u64,
            r < 0x100_0000,
    {
        let x = self.next_u64();
        assert(x >> 40u64 < 0x100_0000) by (bit_vector);
        (x >> 40) as u32
    }
}

} // verus!
