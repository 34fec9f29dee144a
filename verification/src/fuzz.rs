//! Deterministic pseudo-random source used to drive randomized scenario runs.
use vstd::prelude::*;

verus! {

/// Modulus of the generator: `2^64`.
pub open spec fn lcg_modulus() -> int {
    0x1_0000_0000_0000_0000
}

/// One step of the linear congruential generator:
/// `seed * 6364136223846793005 + 1 (mod 2^64)`.
pub open spec fn lcg_next(seed: u64) -> u64 {
    ((seed as int * 6364136223846793005 + 1) % lcg_modulus()) as u64
}

/// Deterministic pseudo-random number generator for reproducible runs.
pub struct SimpleRng {
    seed: u64,
}

impl SimpleRng {
    /// The generator's current state.
    pub closed spec fn state(&self) -> u64 {
        self.seed
    }

    /// A generator seeded with `seed`.
    pub fn new(seed: u64) -> (r: Self)
        ensures
            r.state() == seed,
    {
        Self { seed }
    }

    /// Simple linear congruential generator step; returns the new state.
    pub fn next(&mut self) -> (r: u64)
        ensures
            r == lcg_next(old(self).state()),
            final(self).state() == r,
    {
        let m = self.seed.wrapping_mul(6364136223846793005);
        proof {
            let p = self.seed as int * 6364136223846793005;
            vstd::arithmetic::div_mod::lemma_add_mod_noop(p, 1, lcg_modulus());
            vstd::arithmetic::div_mod::lemma_small_mod(1nat, lcg_modulus() as nat);
            assert(m as int == p % lcg_modulus());
            if m as int + 1 == lcg_modulus() {
                vstd::arithmetic::div_mod::lemma_mod_self_0(lcg_modulus());
            } else {
                vstd::arithmetic::div_mod::lemma_small_mod((m + 1) as nat, lcg_modulus() as nat);
            }
        }
        self.seed = m.wrapping_add(1);
        self.seed
    }

    /// Generate a number in `[0, max)`; `0` without advancing when `max == 0`.
    pub fn next_u32(&mut self, max: u32) -> (r: u32)
        ensures
            max == 0 ==> r == 0 && final(self).state() == old(self).state(),
            max > 0 ==> final(self).state() == lcg_next(old(self).state())
                && r == lcg_next(old(self).state()) % (max as u64) && r < max,
    {
        if max == 0 {
            return 0;
        }
        let v = self.next();
        (v % max as u64) as u32
    }

    /// Generate a number in `[0, max)`; `0` without advancing when `max <= 0`.
    pub fn next_i128(&mut self, max: i128) -> (r: i128)
        ensures
            max <= 0 ==> r == 0 && final(self).state() == old(self).state(),
            max > 0 ==> final(self).state() == lcg_next(old(self).state())
                && r == (lcg_next(old(self).state()) as int) % (max as int) && 0 <= r < max,
    {
        if max <= 0 {
            return 0;
        }
        let v = self.next();
        (v as i128) % max
    }

    /// Random bool that is `true` when the next draw modulo 100 is below `probability_true`.
    pub fn next_bool(&mut self, probability_true: u8) -> (r: bool)
        ensures
            final(self).state() == lcg_next(old(self).state()),
            r == (lcg_next(old(self).state()) % 100 < probability_true as u64),
    {
        let v = self.next();
        (v % 100) < probability_true as u64
    }
}

/// Configuration for randomized scenario runs.
pub struct FuzzConfig {
    pub seed: u64,
    pub num_iterations: u32,
    pub max_batch_size: u32,
    pub max_mint_cap: u32,
    pub max_ledger_sequence: u32,
}

impl Default for FuzzConfig {
    fn default() -> (r: Self)
        ensures
            r.seed == 42,
            r.num_iterations == 100,
            r.max_batch_size == 50,
            r.max_mint_cap == 1000,
            r.max_ledger_sequence == 17280 * 10,
    {
        Self {
            seed: 42,
            num_iterations: 100,
            max_batch_size: 50,
            max_mint_cap: 1000,
            max_ledger_sequence: 17280 * 10,
        }
    }
}

} // verus!
