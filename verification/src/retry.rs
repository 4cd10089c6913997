//! The uniform retry policy of every provider pipeline: transient failures
//! (connection trouble and 5xx statuses) are retried up to a fixed budget;
//! application errors (4xx and other non-success statuses) never are.
use vstd::prelude::*;

use crate::LlmError;

verus! {

/// The retry budget: how many times one upstream call may be retried after
/// a transient failure before the request fails with a transport error.
pub const RETRIES: u32 = 100;

/// What one attempt against the upstream produced, as seen by the policy.
#[derive(Clone, Copy, Debug, PartialEq, Eq)]
pub enum UpstreamEvent {
    /// The transport failed outright: connection error or timeout.
    TransportFailure,
    /// The upstream answered with this HTTP status.
    Status(u16),
}

/// What the pipeline must do after an attempt.
#[derive(Clone, Debug, PartialEq, Eq)]
pub enum RetryDecision {
    /// The attempt succeeded; hand the payload on.
    Accept,
    /// Transient failure within budget: try again.
    Retry,
    /// Stop and fail the request with this error.
    GiveUp(LlmError),
}

/// A successful attempt: a 2xx status.
pub open spec fn spec_success(e: UpstreamEvent) -> bool {
    e matches UpstreamEvent::Status(s) && 200 <= s < 300
}

/// A transient failure: transport trouble or a 5xx status.
pub open spec fn spec_transient(e: UpstreamEvent) -> bool {
    ||| e matches UpstreamEvent::TransportFailure
    ||| e matches UpstreamEvent::Status(s) && 500 <= s < 600
}

/// Tracks one upstream call through the retry budget.
#[derive(Clone, Debug, PartialEq, Eq)]
pub struct RetrySession {
    attempts: u32,
}

impl RetrySession {
    /// How many attempts have failed transiently so far.
    pub closed spec fn attempts_spec(&self) -> u32 {
        self.attempts
    }

    /// A fresh budget for one upstream call.
    pub fn new() -> (s: RetrySession)
        ensures
            s.attempts_spec() == 0,
    {
        RetrySession { attempts: 0 }
    }

    /// Decides the fate of one attempt: accept 2xx; retry a transient
    /// failure while the budget lasts; past the budget fail with a
    /// transport error; fail any other status as an upstream error,
    /// without retrying.
    pub fn observe(&mut self, event: UpstreamEvent) -> (d: RetryDecision)
        ensures
            spec_success(event) ==> d == RetryDecision::Accept && *final(self) == *old(self),
            spec_transient(event) && old(self).attempts_spec() < RETRIES ==> d
                == RetryDecision::Retry && final(self).attempts_spec() == old(
                self,
            ).attempts_spec() + 1,
            spec_transient(event) && old(self).attempts_spec() >= RETRIES ==> d
                == RetryDecision::GiveUp(LlmError::Transport) && *final(self) == *old(self),
            !spec_success(event) && !spec_transient(event) ==> (event matches
                UpstreamEvent::Status(s) && d == RetryDecision::GiveUp(LlmError::Upstream(s))
                && *final(self) == *old(self)),
    {
        match event {
            UpstreamEvent::TransportFailure => {
                if self.attempts < RETRIES {
                    self.attempts = self.attempts + 1;
                    RetryDecision::Retry
                } else {
                    RetryDecision::GiveUp(LlmError::Transport)
                }
            },
            UpstreamEvent::Status(s) => {
                if 200 <= s && s < 300 {
                    RetryDecision::Accept
                } else if 500 <= s && s < 600 {
                    if self.attempts < RETRIES {
                        self.attempts = self.attempts + 1;
                        RetryDecision::Retry
                    } else {
                        RetryDecision::GiveUp(LlmError::Transport)
                    }
                } else {
                    RetryDecision::GiveUp(LlmError::Upstream(s))
                }
            },
        }
    }
}

} // verus!
