//! Retry decisions with exponential backoff.
//!
//! After each failed attempt the caller asks [`Retrier::on_failure`] what to
//! do: wait `2^n` milliseconds before retry number `n`, or give up once the
//! allowed number of retries is spent.
use vstd::arithmetic::power2::{
    lemma2_to64, lemma2_to64_rest, lemma_pow2_strictly_increases, lemma_pow2_unfold, pow2,
};
use vstd::prelude::*;

verus! {

/// The largest retry limit whose backoff delays all fit in a `u64`.
pub const MAX_RETRY_LIMIT: u32 = 63;

/// What to do after a failed attempt.
#[derive(Debug, Clone, Copy, PartialEq, Eq)]
pub enum RetryStep {
    /// Wait this many milliseconds, then try again.
    Retry(u64),
    /// Stop and report the last failure.
    GiveUp,
}

/// `2^n` milliseconds, the wait before retry number `n`.
pub fn backoff_ms(n: u32) -> (r: u64)
    requires
        n <= MAX_RETRY_LIMIT,
    ensures
        r as nat == pow2(n as nat),
{
    proof {
        lemma2_to64();
    }
    let mut d: u64 = 1;
    let mut k: u32 = 0;
    while k < n
        invariant
            k <= n <= MAX_RETRY_LIMIT,
            d as nat == pow2(k as nat),
        decreases n - k,
    {
        proof {
            lemma_pow2_unfold((k + 1) as nat);
            if k + 1 < 63 {
                lemma_pow2_strictly_increases((k + 1) as nat, 63);
            }
            lemma2_to64_rest();
            assert(pow2(63) == 0x8000000000000000);
            assert(pow2((k + 1) as nat) <= pow2(63));
            assert(d as nat * 2 == pow2((k + 1) as nat));
        }
        d = d * 2;
        k = k + 1;
    }
    d
}

/// Counts retries against a limit.
pub struct Retrier {
    retries: u32,
    max_retries: u32,
}

/// Mathematical model of a retrier: retries spent and retries allowed.
pub struct RetryState {
    pub retries: nat,
    pub max_retries: nat,
}

impl View for Retrier {
    type V = RetryState;

    closed spec fn view(&self) -> RetryState {
        RetryState { retries: self.retries as nat, max_retries: self.max_retries as nat }
    }
}

impl Retrier {
    /// Internal consistency: never more retries than allowed, and the limit
    /// keeps every delay within a `u64`.
    pub open spec fn wf(&self) -> bool {
        self@.retries <= self@.max_retries <= MAX_RETRY_LIMIT
    }

    /// A retrier that allows `max_retries` retries after the first attempt.
    pub fn new(max_retries: u32) -> (r: Retrier)
        requires
            max_retries <= MAX_RETRY_LIMIT,
        ensures
            r.wf(),
            r@ == (RetryState { retries: 0, max_retries: max_retries as nat }),
    {
        Retrier { retries: 0, max_retries }
    }

    /// Retries spent so far.
    pub fn retries(&self) -> (r: u32)
        ensures
            r as nat == self@.retries,
    {
        self.retries
    }

    /// Decides after a failed attempt: while retries remain, spend one and wait
    /// `2^n` milliseconds before retry number `n`; otherwise give up.
    pub fn on_failure(&mut self) -> (step: RetryStep)
        requires
            old(self).wf(),
        ensures
            final(self).wf(),
            final(self)@.max_retries == old(self)@.max_retries,
            old(self)@.retries < old(self)@.max_retries ==> final(self)@.retries == old(self)@.retries
                + 1 && step == RetryStep::Retry(pow2(old(self)@.retries + 1) as u64),
            old(self)@.retries >= old(self)@.max_retries ==> final(self)@ == old(self)@ && step
                == RetryStep::GiveUp,
    {
        if self.retries < self.max_retries {
            self.retries = self.retries + 1;
            RetryStep::Retry(backoff_ms(self.retries))
        } else {
            RetryStep::GiveUp
        }
    }
}

} // verus!
