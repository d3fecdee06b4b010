//! Entropy state manager: an evolving counter mixed with a random seed. Every
//! issued value is unique over the manager's lifetime, and no operation lets
//! a caller set the entropy value directly, so a tampered value is one the
//! manager never issued.

use vstd::prelude::*;

use crate::{WORD_MODULUS, wrap_add};

verus! {

/// The entropy value issued for draw number `i` under a seed: the seed offset
/// by the draw number, modulo 2^64.
pub open spec fn entropy_value(seed: u64, i: int) -> u64 {
    ((seed + i) % (WORD_MODULUS as int)) as u64
}

/// Distinct draws under one seed issue distinct entropy values: the issued
/// value never repeats over a manager's lifetime.
pub proof fn lemma_entropy_values_distinct(seed: u64, i: int, j: int)
    requires
        0 <= i < j <= u64::MAX,
    ensures
        entropy_value(seed, i) != entropy_value(seed, j),
{
    crate::lemma_mod_window_distinct(seed + i, seed + j);
}

/// Entropy state manager. The seed is drawn once at construction; the counter
/// advances by one per issued value.
pub struct EntropyManager {
    seed: u64,
    counter: u64,
}

impl EntropyManager {
    /// The random seed drawn at construction.
    pub closed spec fn seed(&self) -> u64 {
        self.seed
    }

    /// How many values have been issued.
    pub closed spec fn counter(&self) -> u64 {
        self.counter
    }

    /// A fresh manager with a random seed and no values issued yet. Whatever
    /// seed was drawn, the counter starts at zero.
    pub fn new() -> (r: Self)
        ensures
            r.counter() == 0,
    {
        EntropyManager { seed: rand::random::<u64>(), counter: 0 }
    }

    /// A fresh manager over a caller-supplied seed, for deterministic use.
    pub fn with_seed(seed: u64) -> (r: Self)
        ensures
            r.seed() == seed,
            r.counter() == 0,
    {
        EntropyManager { seed, counter: 0 }
    }

    /// Issues the next entropy value and advances the counter.
    pub fn next_entropy(&mut self) -> (e: u64)
        requires
            old(self).counter() < u64::MAX,
        ensures
            final(self).seed() == old(self).seed(),
            final(self).counter() == old(self).counter() + 1,
            e == entropy_value(old(self).seed(), old(self).counter() + 1),
    {
        self.counter = self.counter + 1;
        wrap_add(self.seed, self.counter)
    }
}

} // verus!
