//! Deterministic pseudo-random generator.
//!
//! A single 64-bit register driven by the xorshift transform
//! `x ^= x << 13; x ^= x >> 7; x ^= x << 17`. The stream of draws is a pure
//! function of the seed, which is what makes renders reproducible: the same
//! seed replays the same sequence of sampling decisions. Zero is a fixed
//! point of the transform, so a zero seed would poison the whole stream;
//! keeping the state away from zero is therefore a precondition of every
//! draw, established at construction and preserved forever after.

use vstd::prelude::*;

verus! {

/// One application of the xorshift transform to a 64-bit state word.
pub open spec fn xorshift_step(x: u64) -> u64 {
    let a: u64 = x ^ (x << 13);
    let b: u64 = a ^ (a >> 7);
    b ^ (b << 17)
}

/// The generator state after `n` draws from the state `seed`.
pub open spec fn nth_state(seed: u64, n: nat) -> u64
    decreases n,
{
    if n == 0 {
        seed
    } else {
        xorshift_step(nth_state(seed, (n - 1) as nat))
    }
}

/// The xorshift transform never maps a live state onto the zero fixed point.
pub proof fn lemma_xorshift_step_nonzero(x: u64)
    by (bit_vector)
    requires
        x != 0,
    ensures
        xorshift_step(x) != 0,
{
}

/// Pseudo-random generator state: one 64-bit register, mutated on every draw.
pub struct Rand {
    pub x: u64,
}

impl Rand {
    /// A live generator never holds the zero fixed point.
    pub open spec fn well_formed(self) -> bool {
        self.x != 0
    }

    /// A generator starting from the fixed default seed.
    pub fn new() -> (r: Rand)
        ensures
            r.x == 88172645463325252u64,
            r.well_formed(),
    {
        Rand { x: 88172645463325252u64 }
    }

    /// A generator starting from a caller-chosen seed; the seed must not be
    /// zero, since zero is a fixed point of the transform.
    pub fn seeded(seed: u64) -> (r: Rand)
        requires
            seed != 0,
        ensures
            r.x == seed,
            r.well_formed(),
    {
        Rand { x: seed }
    }

    /// Advance the state by one xorshift step and return it. The result is
    /// exactly `xorshift_step` of the prior state, so the whole stream of
    /// draws is fixed by the seed alone.
    pub fn next_int(&mut self) -> (r: u64)
        requires
            old(self).well_formed(),
        ensures
            r == xorshift_step(old(self).x),
            final(self).x == r,
            final(self).well_formed(),
    {
        proof {
            lemma_xorshift_step_nonzero(self.x);
        }
        self.x = self.x ^ (self.x << 13u64);
        self.x = self.x ^ (self.x >> 7u64);
        self.x = self.x ^ (self.x << 17u64);
        self.x
    }
}

/// Determinism: the stream of states is fixed by the seed alone, so two
/// generators seeded alike agree on every draw they will ever make.
pub proof fn lemma_stream_deterministic(s1: u64, s2: u64, n: nat)
    requires
        s1 == s2,
    ensures
        nth_state(s1, n) == nth_state(s2, n),
{
}

/// A generator seeded off zero never reaches the zero fixed point, however
/// many draws are made.
pub proof fn lemma_stream_never_zero(seed: u64, n: nat)
    requires
        seed != 0,
    ensures
        nth_state(seed, n) != 0,
    decreases n,
{
    if n > 0 {
        lemma_stream_never_zero(seed, (n - 1) as nat);
        lemma_xorshift_step_nonzero(nth_state(seed, (n - 1) as nat));
    }
}

} // verus!
