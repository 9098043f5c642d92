//! Uniform integer sampling behind a small trait, so that every generation
//! routine is independent of where its randomness comes from.  The library
//! ships a deterministic linear-congruential sampler; the front end may seed
//! it from any entropy it has.

use vstd::prelude::*;

verus! {

/// A source of integers drawn from an inclusive range.  Nothing is promised
/// about the distribution; every caller's proof rests only on the bounds.
pub trait Sampler {
    /// Draw one integer in `[lo, hi]`.
    fn sample(&mut self, lo: i32, hi: i32) -> (r: i32)
        requires
            0 <= lo <= hi,
        ensures
            lo <= r <= hi;
}

/// A 64-bit linear-congruential generator (Knuth's MMIX multiplier),
/// reduced to the requested range by its high bits.
pub struct LcgSampler {
    pub state: u64,
}

impl LcgSampler {
    pub fn new(seed: u64) -> (s: LcgSampler)
        ensures
            s.state == seed,
    {
        LcgSampler { state: seed }
    }
}

impl Sampler for LcgSampler {
    fn sample(&mut self, lo: i32, hi: i32) -> (r: i32) {
        self.state = self.state.wrapping_mul(6364136223846793005).wrapping_add(1442695040888963407);
        let span: u64 = (hi as u64) - (lo as u64) + 1;
        let offset: u64 = (self.state >> 33) % span;
        assert(offset < span);
        assert(lo as u64 + offset <= hi as u64);
        lo + (offset as i32)
    }
}

} // verus!
