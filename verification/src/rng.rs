//! The scenarios' only outside input is a source of randomness; this one is
//! a deterministic linear congruential generator, so a scenario built twice
//! from the same seed is identical.

use vstd::prelude::*;
use crate::math::lemma_product_bound;

verus! {

/// Multiplier of the linear congruential step.
pub const LCG_MUL: u64 = 6364136223846793005;

/// Increment of the linear congruential step.
pub const LCG_INC: u64 = 1442695040888963407;

/// One step of the generator: `state * LCG_MUL + LCG_INC`, modulo `2^64`.
pub open spec fn lcg_next(s: u64) -> u64 {
    (((LCG_MUL as int) * (s as int) + (LCG_INC as int)) % 0x1_0000_0000_0000_0000int) as u64
}

/// The state after `n` steps from `s`.
pub open spec fn lcg_iter(s: u64, n: int) -> u64
    decreases n,
{
    if n <= 0 {
        s
    } else {
        lcg_next(lcg_iter(s, n - 1))
    }
}

/// A deterministic pseudo-random generator seeded once per process.
#[derive(Clone, Copy, Debug, PartialEq, Eq, Structural)]
pub struct Rng {
    pub state: u64,
}

impl Rng {
    pub fn new(seed: u64) -> (r: Rng)
        ensures
            r.state == seed,
    {
        Rng { state: seed }
    }

    /// Advances the generator and returns a value below `bound`.
    pub fn next_below(&mut self, bound: u64) -> (r: u64)
        requires
            0 < bound,
        ensures
            final(self).state == lcg_next(old(self).state),
            r == lcg_next(old(self).state) % bound,
    {
        proof {
            lemma_product_bound(
                LCG_MUL as int,
                self.state as int,
                LCG_MUL as int,
                u64::MAX as int,
            );
        }
        let p: u128 = (LCG_MUL as u128) * (self.state as u128) + (LCG_INC as u128);
        let next = (p % 0x1_0000_0000_0000_0000u128) as u64;
        self.state = next;
        next % bound
    }
}

} // verus!
