//! The decisions of the retrying fetcher: up to three attempts, where a
//! transport error and a non-success status both count as failures.
use vstd::prelude::*;

verus! {

/// How many attempts a request gets in all.
pub const MAX_ATTEMPTS: u32 = 3;

/// The outcome of one attempt.
#[derive(Debug, PartialEq, Eq, Structural, Clone, Copy)]
pub enum Attempt {
    Success,
    /// A response with a non-success status.
    BadStatus,
    /// No response: the request failed on its way.
    Transport,
}

/// What the fetcher does after an attempt.
#[derive(Debug, PartialEq, Eq, Structural, Clone, Copy)]
pub enum RetryDecision {
    /// Hand the response to the caller.
    Accept,
    /// Send the request once more.
    Retry,
    /// Fail with `ExhaustedRetries`; `transport` tells whether any attempt
    /// failed in transport (the last such error is then handed on).
    GiveUp { transport: bool },
}

/// The failed attempts so far, and whether one of them failed in transport.
#[derive(Debug, PartialEq, Eq, Structural, Clone, Copy)]
pub struct RetryState {
    pub failures: u32,
    pub saw_transport: bool,
}

impl RetryState {
    pub fn new() -> (r: RetryState)
        ensures
            r.failures == 0,
            !r.saw_transport,
    {
        RetryState { failures: 0, saw_transport: false }
    }

    /// The state and decision after an attempt with outcome `outcome`.
    pub fn next(self, outcome: Attempt) -> (r: (RetryState, RetryDecision))
        requires
            self.failures < MAX_ATTEMPTS,
        ensures
            outcome == Attempt::Success ==> r == (self, RetryDecision::Accept),
            outcome != Attempt::Success ==> r.0.failures == self.failures + 1
                && r.0.saw_transport == (self.saw_transport || outcome == Attempt::Transport),
            outcome != Attempt::Success && self.failures + 1 < MAX_ATTEMPTS ==> r.1
                == RetryDecision::Retry,
            outcome != Attempt::Success && self.failures + 1 >= MAX_ATTEMPTS ==> r.1
                == (RetryDecision::GiveUp { transport: r.0.saw_transport }),
            r.1 == RetryDecision::Retry ==> r.0.failures < MAX_ATTEMPTS,
    {
        match outcome {
            Attempt::Success => (self, RetryDecision::Accept),
            _ => {
                let failures = self.failures + 1;
                let saw_transport = self.saw_transport || outcome == Attempt::Transport;
                let next = RetryState { failures, saw_transport };
                if failures < MAX_ATTEMPTS {
                    (next, RetryDecision::Retry)
                } else {
                    (next, RetryDecision::GiveUp { transport: saw_transport })
                }
            },
        }
    }
}

} // verus!
