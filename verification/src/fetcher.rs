//! Rate-limit-aware retry policy: one logical remote call is tried once and,
//! on each rate-limited failure, retried after an exponentially growing wait,
//! up to a fixed number of retries.

use vstd::prelude::*;
use crate::errors::{ErrorClass, RemoteError, classify, is_rate_limited};

verus! {

/// Retries allowed after the initial try: a call is made at most
/// `1 + MAX_RETRIES` times.
pub const MAX_RETRIES: u32 = 6;

/// Two to the power `k`.
pub open spec fn pow2(k: nat) -> nat
    decreases k,
{
    if k == 0 {
        1
    } else {
        2 * pow2((k - 1) as nat)
    }
}

/// What the fetch layer does next after a failed try.
#[derive(Clone, Copy, Debug, PartialEq, Eq, Structural)]
pub enum FetchStep {
    /// Wait this many seconds, then retry the same call.
    Retry { wait_secs: u64 },
    /// Give up and surface the error, unchanged, to the caller.
    Fail(RemoteError),
}

/// Attempt counter scoped to a single logical remote call; fresh for each.
pub struct RetryState {
    /// Retries taken so far for this call.
    pub attempts: u32,
}

impl RetryState {
    /// The counter never exceeds the retry cap.
    pub open spec fn wf(&self) -> bool {
        self.attempts <= MAX_RETRIES
    }

    /// A fresh counter for one logical remote call.
    pub fn new() -> (s: Self)
        ensures
            s.attempts == 0,
            s.wf(),
    {
        RetryState { attempts: 0 }
    }

    /// Decide what to do after a failed try. A rate-limited failure below the
    /// retry cap is retried after a wait of `2^attempts` seconds; any other
    /// failure, and a rate-limited one at the cap, is surfaced unchanged
    /// without a further wait.
    pub fn on_error(&mut self, e: RemoteError) -> (step: FetchStep)
        requires
            old(self).wf(),
        ensures
            final(self).wf(),
            is_rate_limited(e) && old(self).attempts < MAX_RETRIES ==> ({
                &&& step matches FetchStep::Retry { wait_secs }
                    && wait_secs == pow2(old(self).attempts as nat)
                &&& final(self).attempts == old(self).attempts + 1
            }),
            !(is_rate_limited(e) && old(self).attempts < MAX_RETRIES) ==> ({
                &&& step == FetchStep::Fail(e)
                &&& final(self).attempts == old(self).attempts
            }),
    {
        let class = classify(&e);
        match class {
            ErrorClass::RateLimited => {
                if self.attempts < MAX_RETRIES {
                    let wait_secs = backoff_secs(self.attempts);
                    self.attempts = self.attempts + 1;
                    FetchStep::Retry { wait_secs }
                } else {
                    FetchStep::Fail(e)
                }
            },
            ErrorClass::Other => FetchStep::Fail(e),
        }
    }
}

/// The wait before retry number `k`: two to the power `k` seconds.
pub fn backoff_secs(k: u32) -> (secs: u64)
    requires
        k < MAX_RETRIES,
    ensures
        secs == pow2(k as nat),
{
    proof {
        reveal_with_fuel(pow2, 7);
    }
    if k == 0 {
        1
    } else if k == 1 {
        2
    } else if k == 2 {
        4
    } else if k == 3 {
        8
    } else {
        if k == 4 {
            16
        } else {
            32
        }
    }
}

/// The backoff schedule: the successive waits of a repeatedly rate-limited
/// call are 1, 2, 4, 8, 16 and 32 seconds, and there is no seventh wait.
pub proof fn lemma_backoff_schedule()
    ensures
        pow2(0) == 1,
        pow2(1) == 2,
        pow2(2) == 4,
        pow2(3) == 8,
        pow2(4) == 16,
        pow2(5) == 32,
{
    reveal_with_fuel(pow2, 7);
}

} // verus!
