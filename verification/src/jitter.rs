//! Randomising the delay before a retry.
//!
//! With jitter the backoff only bounds the delay: the delay itself is a whole
//! number of milliseconds drawn between zero and the backoff. A seeded policy
//! draws from a generator that is seeded afresh for every attempt, so the
//! delay of each attempt is reproducible on its own.

use vstd::prelude::*;
use rand::rngs::SmallRng;
use rand::Rng;
use rand::SeedableRng;
use crate::policy::{RetryPolicy, NANOS_PER_MILLI};

verus! {

/// What a small generator freshly seeded with `seed` draws first from the
/// whole numbers `lower..=upper`.
///
/// The generator's algorithm is fixed for a given release of its crate and a
/// given pointer width; the name stands for its draw in the program at hand.
pub uninterp spec fn seeded_draw(seed: u64, lower: u64, upper: u64) -> u64;

/// Calls `SmallRng::seed_from_u64(seed)` and draws once with
/// `gen_range(lower..=upper)`.
///
/// Trusted: the draw is the one named by [`seeded_draw`], a function of the
/// seed and the range alone, and it lies within the range. The range must
/// not be empty, or the generator panics.
#[verifier::external_body]
fn draw_seeded(seed: u64, lower: u64, upper: u64) -> (sample: u64)
    requires
        lower <= upper,
    ensures
        sample == seeded_draw(seed, lower, upper),
        lower <= sample <= upper,
{
    let mut rng = SmallRng::seed_from_u64(seed);
    rng.gen_range(lower..=upper)
}

/// Draws once with `rand::thread_rng().gen_range(lower..=upper)`.
///
/// Trusted: the draw lies within the range. Nothing else is known of it, and
/// two draws may differ. The range must not be empty, or the generator
/// panics.
#[verifier::external_body]
fn draw_unseeded(lower: u64, upper: u64) -> (sample: u64)
    requires
        lower <= upper,
    ensures
        lower <= sample <= upper,
{
    rand::thread_rng().gen_range(lower..=upper)
}

/// The largest number of milliseconds that jitter may draw for a backoff of
/// `delay` nanoseconds: the whole milliseconds in it, but at least one.
pub open spec fn jitter_ceiling_spec(delay: u64) -> u64 {
    if delay / NANOS_PER_MILLI >= 1 {
        delay / NANOS_PER_MILLI
    } else {
        1
    }
}

/// Computes the upper end of the range that jitter draws from.
#[verifier::when_used_as_spec(jitter_ceiling_spec)]
pub fn jitter_ceiling(delay: u64) -> (upper: u64)
    ensures
        upper == jitter_ceiling_spec(delay),
        upper >= 1,
{
    let whole: u64 = delay / NANOS_PER_MILLI;
    if whole >= 1 {
        whole
    } else {
        1
    }
}

/// The seed for one attempt: the policy's seed plus the attempt's index,
/// wrapping round at the end of `u64`.
pub open spec fn attempt_seed_spec(seed: u64, attempt: usize) -> u64 {
    ((seed + attempt) % 0x1_0000_0000_0000_0000) as u64
}

/// Computes the seed for one attempt.
#[verifier::when_used_as_spec(attempt_seed_spec)]
pub fn attempt_seed(seed: u64, attempt: usize) -> (derived: u64)
    ensures
        derived == attempt_seed_spec(seed, attempt),
{
    let index: u64 = attempt as u64;
    let room: u64 = u64::MAX - seed;
    if index <= room {
        seed + index
    } else {
        index - room - 1
    }
}

/// The delay that a draw of `sample` milliseconds stands for, in
/// nanoseconds.
pub fn jittered_delay(backoff: u64, sample: u64) -> (delay: u64)
    requires
        sample <= jitter_ceiling_spec(backoff),
    ensures
        delay == sample * NANOS_PER_MILLI,
{
    assert(sample * NANOS_PER_MILLI <= u64::MAX) by {
        if backoff / NANOS_PER_MILLI >= 1 {
            assert(sample * 1_000_000 <= (backoff / 1_000_000) * 1_000_000);
        }
    }
    sample * NANOS_PER_MILLI
}

impl RetryPolicy {
    /// The upper end, in milliseconds, of the range that jitter draws from
    /// where the uncapped backoff is `product`.
    pub open spec fn jitter_range(&self, product: Option<u64>) -> u64 {
        jitter_ceiling_spec(self.backoff(product))
    }

    /// The delay that a policy seeded with `seed` uses after attempt
    /// `attempt` when jitter is on.
    pub open spec fn seeded_delay(&self, seed: u64, attempt: usize, product: Option<u64>) -> nat {
        (seeded_draw(attempt_seed_spec(seed, attempt), 0, self.jitter_range(product))
            * NANOS_PER_MILLI) as nat
    }

    /// Whether `delay` is a delay that the policy may use after attempt
    /// `attempt`, whose uncapped backoff is `product`. Without jitter it is
    /// the backoff itself. With jitter it is a whole number of milliseconds
    /// within the range, and with a seed it is moreover the seeded draw.
    pub open spec fn admits_delay(&self, attempt: usize, product: Option<u64>, delay: u64) -> bool {
        if !self.jitter {
            delay == self.backoff(product)
        } else {
            &&& delay % NANOS_PER_MILLI == 0
            &&& delay / NANOS_PER_MILLI <= self.jitter_range(product)
            &&& self.rng_seed matches Some(seed) ==> delay == self.seeded_delay(
                seed,
                attempt,
                product,
            )
        }
    }

    /// Computes the delay to wait after a failure of attempt `attempt`,
    /// from the uncapped `product` `base_delay * factor^(attempt - 1)`.
    pub fn next_delay(&self, attempt: usize, product: Option<u64>) -> (delay: u64)
        ensures
            self.admits_delay(attempt, product, delay),
    {
        let backoff = self.compute_backoff(product);
        if !self.jitter {
            return backoff;
        }
        let upper = jitter_ceiling(backoff);
        let sample = match self.rng_seed {
            Some(seed) => draw_seeded(attempt_seed(seed, attempt), 0, upper),
            None => draw_unseeded(0, upper),
        };
        jittered_delay(backoff, sample)
    }

    /// Every delay that the policy may use is at most the backoff, and so at
    /// most the ceiling; only with jitter and a backoff under one
    /// millisecond may it reach one millisecond instead.
    pub proof fn lemma_delay_bounded(&self, attempt: usize, product: Option<u64>, delay: u64)
        requires
            self.admits_delay(attempt, product, delay),
        ensures
            delay <= self.backoff(product) || (self.jitter && self.backoff(product)
                < NANOS_PER_MILLI && delay <= NANOS_PER_MILLI),
            delay <= self.max_delay || (self.jitter && self.backoff(product) < NANOS_PER_MILLI
                && delay <= NANOS_PER_MILLI),
    {
        if self.jitter {
            let backoff = self.backoff(product);
            let upper = self.jitter_range(product);
            assert(delay == (delay / 1_000_000) * 1_000_000);
            if backoff / 1_000_000 >= 1 {
                assert(upper * 1_000_000 <= backoff);
            }
        }
    }

    /// Whatever is drawn, two delays that a policy without jitter, or with a
    /// seed, may use after the same attempt with the same product are the
    /// same delay.
    pub proof fn lemma_delay_reproducible(
        &self,
        attempt: usize,
        product: Option<u64>,
        first: u64,
        second: u64,
    )
        requires
            !self.jitter || self.rng_seed is Some,
            self.admits_delay(attempt, product, first),
            self.admits_delay(attempt, product, second),
        ensures
            first == second,
    {
    }
}

} // verus!
