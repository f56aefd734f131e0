//! The retry policy for transient failures, and the session state machine
//! that applies it to one request.
//!
//! Only the retryable transport ever retries; see
//! [`transport_for`](crate::request::transport_for). A failure is
//! transient when the connection itself failed (including a timeout) or
//! when the status code is 429 or a server error.

use vstd::arithmetic::power2::lemma_pow2_strictly_increases;
use vstd::arithmetic::power2::lemma_pow2_unfold;
use vstd::arithmetic::power2::pow2;
use vstd::prelude::*;

use crate::request::Transport;

verus! {

/// The policy for retrying transient failures of read-only calls:
/// exponential backoff between the two bounds, up to a maximum number of
/// retries after the first attempt.
#[derive(Debug, Clone, Copy, PartialEq, Eq, Structural)]
pub struct RetryPolicy {
    /// The number of retries allowed after the first attempt.
    pub max_retries: u32,
    /// The delay before the first retry, in milliseconds.
    pub min_backoff_ms: u64,
    /// The largest delay between retries, in milliseconds.
    pub max_backoff_ms: u64,
}

impl RetryPolicy {
    /// A well-formed policy has its backoff bounds in order.
    pub open spec fn wf(&self) -> bool {
        self.min_backoff_ms <= self.max_backoff_ms
    }

    /// Builds a policy from its backoff bounds and retry count.
    pub fn new(min_backoff_ms: u64, max_backoff_ms: u64, max_retries: u32) -> (p: RetryPolicy)
        requires
            min_backoff_ms <= max_backoff_ms,
        ensures
            p == (RetryPolicy { max_retries, min_backoff_ms, max_backoff_ms }),
            p.wf(),
    {
        RetryPolicy { max_retries, min_backoff_ms, max_backoff_ms }
    }
}

/// Whether a status code reports a transient failure: rate limiting or a
/// server error.
pub open spec fn transient_status(status: u16) -> bool {
    status == 429 || (500 <= status && status <= 599)
}

/// Classifies a status code as a transient failure or not.
pub fn is_transient_status(status: u16) -> (b: bool)
    ensures
        b == transient_status(status),
{
    status == 429 || (500 <= status && status <= 599)
}

/// The delay before the retry that follows `retries_made` earlier
/// retries: the minimum backoff doubled that many times, clamped to the
/// maximum backoff.
pub open spec fn backoff_spec(p: RetryPolicy, retries_made: nat) -> int {
    let raw = p.min_backoff_ms * pow2(retries_made);
    if raw <= p.max_backoff_ms {
        raw as int
    } else {
        p.max_backoff_ms as int
    }
}

/// Computes the backoff delay for the retry that follows `retries_made`
/// earlier retries.
pub fn backoff_ms(policy: &RetryPolicy, retries_made: u32) -> (d: u64)
    requires
        policy.wf(),
    ensures
        d == backoff_spec(*policy, retries_made as nat),
{
    let mut d: u64 = policy.min_backoff_ms;
    let mut i: u32 = 0;
    proof {
        assert(pow2(0) == 1) by {
            vstd::arithmetic::power2::lemma2_to64();
        }
    }
    while i < retries_made && d < policy.max_backoff_ms
        invariant
            i <= retries_made,
            policy.wf(),
            d <= policy.max_backoff_ms,
            d == backoff_spec(*policy, i as nat),
        decreases retries_made - i,
    {
        proof {
            let m = policy.min_backoff_ms as int;
            let p_i = pow2(i as nat) as int;
            lemma_pow2_unfold(i as nat + 1);
            assert(m * (2 * p_i) == 2 * (m * p_i)) by (nonlinear_arith);
        }
        if d > policy.max_backoff_ms / 2 {
            d = policy.max_backoff_ms;
        } else {
            d = d * 2;
        }
        i = i + 1;
    }
    proof {
        if i < retries_made {
            // The loop stopped early because the clamp was reached; the
            // clamp also holds at `retries_made`, since doubling further
            // only grows the unclamped value.
            assert(d == policy.max_backoff_ms);
            assert(policy.min_backoff_ms * pow2(i as nat) >= policy.max_backoff_ms);
            lemma_pow2_strictly_increases(i as nat, retries_made as nat);
            assert(policy.min_backoff_ms * pow2(retries_made as nat)
                >= policy.max_backoff_ms) by (nonlinear_arith)
                requires
                    pow2(i as nat) <= pow2(retries_made as nat),
                    policy.min_backoff_ms * pow2(i as nat) >= policy.max_backoff_ms,
            ;
        }
    }
    d
}

/// A decision of the retry session after a failure.
#[derive(Debug, Clone, Copy, PartialEq, Eq, Structural)]
pub enum RetryDecision {
    /// Try the request again after the given delay.
    Retry {
        /// The delay before the next attempt, in milliseconds.
        delay_ms: u64,
    },
    /// Surface the failure to the caller.
    GiveUp,
}

/// The retry state of one in-flight request: its policy, the transport
/// it was routed to, and how many retries have been made so far.
#[derive(Debug, Clone, Copy, PartialEq, Eq, Structural)]
pub struct RetrySession {
    /// The policy in force.
    pub policy: RetryPolicy,
    /// The transport the request was routed to.
    pub transport: Transport,
    /// The number of retries made so far.
    pub retries_made: u32,
}

/// Whether the session may retry once more: only the retryable transport
/// retries, and only while retries remain.
pub open spec fn retry_allowed(s: RetrySession) -> bool {
    s.transport == Transport::Retryable && s.retries_made < s.policy.max_retries
}

/// The session state after one transient failure is recorded.
pub open spec fn retry_step(s: RetrySession) -> RetrySession {
    if retry_allowed(s) {
        RetrySession { retries_made: (s.retries_made + 1) as u32, ..s }
    } else {
        s
    }
}

/// The session state after `k` consecutive transient failures.
pub open spec fn after_failures(s: RetrySession, k: nat) -> RetrySession
    decreases k,
{
    if k == 0 {
        s
    } else {
        retry_step(after_failures(s, (k - 1) as nat))
    }
}

impl RetrySession {
    /// A well-formed session carries a well-formed policy.
    pub open spec fn wf(&self) -> bool {
        self.policy.wf()
    }

    /// Opens a retry session for one request.
    pub fn new(policy: &RetryPolicy, transport: Transport) -> (s: RetrySession)
        requires
            policy.wf(),
        ensures
            s == (RetrySession { policy: *policy, transport, retries_made: 0 }),
            s.wf(),
    {
        RetrySession { policy: *policy, transport, retries_made: 0 }
    }

    /// Records a transient failure of the current attempt and decides
    /// whether to try again.
    pub fn on_transient_failure(&mut self) -> (d: RetryDecision)
        requires
            old(self).wf(),
        ensures
            final(self).wf(),
            *final(self) == retry_step(*old(self)),
            (d matches RetryDecision::Retry { delay_ms }
                && delay_ms == backoff_spec(old(self).policy, old(self).retries_made as nat))
                <==> retry_allowed(*old(self)),
            d == RetryDecision::GiveUp <==> !retry_allowed(*old(self)),
    {
        let retryable = match self.transport {
            Transport::Retryable => true,
            Transport::NonRetryable => false,
        };
        if retryable && self.retries_made < self.policy.max_retries {
            let delay_ms = backoff_ms(&self.policy, self.retries_made);
            self.retries_made = self.retries_made + 1;
            RetryDecision::Retry { delay_ms }
        } else {
            RetryDecision::GiveUp
        }
    }
}

/// Law: a request on the retryable transport is retried up to the
/// configured maximum number of times before the failure surfaces, while
/// a request on the non-retryable transport is attempted exactly once:
/// its first failure already ends the session.
pub proof fn lemma_method_retry_routing(s: RetrySession, k: nat)
    requires
        s.retries_made == 0,
        k <= s.policy.max_retries,
    ensures
        after_failures(s, k).transport == s.transport,
        after_failures(s, k).policy == s.policy,
        s.transport == Transport::Retryable ==> after_failures(s, k).retries_made == k,
        s.transport == Transport::Retryable ==> (retry_allowed(after_failures(s, k)) <==> k
            < s.policy.max_retries),
        s.transport == Transport::NonRetryable ==> !retry_allowed(s) && after_failures(s, k) == s,
    decreases k,
{
    if k > 0 {
        lemma_method_retry_routing(s, (k - 1) as nat);
    }
}

} // verus!
