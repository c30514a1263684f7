//! The delay before each retry, without jitter.
//!
//! The backoff after attempt `n` is `base_delay * factor^(n - 1)`, capped at
//! the ceiling. The product is a real number and is formed by the caller; it
//! arrives here cut to whole nanoseconds, or as `None` where it is not a
//! finite number or does not fit in a `u64`. This module caps it.

use vstd::prelude::*;
use crate::policy::RetryPolicy;

verus! {

/// Whether the product `earlier` is at most the product `later`, a product
/// that is out of range being larger than every product that is not.
pub open spec fn product_le(earlier: Option<u64>, later: Option<u64>) -> bool {
    match (earlier, later) {
        (_, None) => true,
        (None, Some(_)) => false,
        (Some(a), Some(b)) => a <= b,
    }
}

impl RetryPolicy {
    /// The backoff for an uncapped `product`: the product itself, or the
    /// ceiling where the product lies above it or is out of range.
    pub open spec fn backoff(&self, product: Option<u64>) -> u64 {
        match product {
            Some(p) => if p <= self.max_delay {
                p
            } else {
                self.max_delay
            },
            None => self.max_delay,
        }
    }

    /// Computes the backoff, without jitter, from the uncapped `product`
    /// `base_delay * factor^(attempt - 1)`.
    pub fn compute_backoff(&self, product: Option<u64>) -> (delay: u64)
        ensures
            delay == self.backoff(product),
            delay <= self.max_delay,
    {
        match product {
            Some(p) => if p <= self.max_delay {
                p
            } else {
                self.max_delay
            },
            None => self.max_delay,
        }
    }

    /// No backoff exceeds the ceiling.
    pub proof fn lemma_backoff_bounded(&self, product: Option<u64>)
        ensures
            self.backoff(product) <= self.max_delay,
    {
    }

    /// The first backoff, whose product is the base delay itself, is the
    /// base delay, or the ceiling where the base delay lies above it.
    pub proof fn lemma_first_backoff(&self)
        ensures
            self.backoff(Some(self.base_delay)) == if self.base_delay <= self.max_delay {
                self.base_delay
            } else {
                self.max_delay
            },
    {
    }

    /// A larger product never gives a shorter backoff: where the products
    /// do not shrink from one attempt to the next, neither do the backoffs.
    pub proof fn lemma_backoff_monotonic(&self, earlier: Option<u64>, later: Option<u64>)
        requires
            product_le(earlier, later),
        ensures
            self.backoff(earlier) <= self.backoff(later),
    {
    }
}

} // verus!
