use vstd::prelude::*;

verus! {

/// What the retry helper does after a failed attempt: give up and surface
/// that failure to the caller, or wait the fixed backoff (in milliseconds)
/// and try again. The waiting itself happens outside the library.
pub enum RetryStep {
    GiveUp,
    RetryAfter(u64),
}

/// The decision state of the retry helper: `retry(operation, attempts,
/// backoff_ms)` calls `operation` until it succeeds or `attempts` calls have
/// failed, sleeping `backoff_ms` between attempts, never after the last.
///
/// A success returns immediately and touches no state, so only failures are
/// recorded here. With `attempts == 0` the operation is still called once —
/// the exhaustion check runs only after a failure, so the first failure gives
/// up without a retry, exactly as with `attempts == 1`.
pub struct RetryState {
    attempts: usize,
    backoff_ms: u64,
    tries: usize,
}

impl RetryState {
    /// The maximum number of failed attempts before giving up.
    pub closed spec fn attempts(self) -> usize {
        self.attempts
    }

    /// The fixed pause between attempts, in milliseconds.
    pub closed spec fn backoff_ms(self) -> u64 {
        self.backoff_ms
    }

    /// How many failed attempts have been recorded so far.
    pub closed spec fn tries(self) -> usize {
        self.tries
    }

    pub fn new(attempts: usize, backoff_ms: u64) -> (s: Self)
        ensures
            s.attempts() == attempts,
            s.backoff_ms() == backoff_ms,
            s.tries() == 0,
    {
        RetryState { attempts, backoff_ms, tries: 0 }
    }

    /// Records one failed attempt and decides what follows: give up exactly
    /// when the failed attempts now reach `attempts` (so at the first failure
    /// when `attempts` is 0 or 1), otherwise back off and try again.
    pub fn on_failure(&mut self) -> (step: RetryStep)
        requires
            old(self).tries() < usize::MAX,
        ensures
            final(self).attempts() == old(self).attempts(),
            final(self).backoff_ms() == old(self).backoff_ms(),
            final(self).tries() == old(self).tries() + 1,
            final(self).tries() >= final(self).attempts() <==> step == RetryStep::GiveUp,
            final(self).tries() < final(self).attempts() <==> step == RetryStep::RetryAfter(
                old(self).backoff_ms(),
            ),
    {
        self.tries = self.tries + 1;
        if self.tries >= self.attempts {
            RetryStep::GiveUp
        } else {
            RetryStep::RetryAfter(self.backoff_ms)
        }
    }

    /// How many failed attempts have been recorded.
    pub fn tries_made(&self) -> (n: usize)
        ensures
            n == self.tries(),
    {
        self.tries
    }
}

} // verus!
