//! The retry-call discipline: a request is issued with a bounded per-attempt
//! timeout and reissued on every timeout, unchanged, without backoff and
//! without limit, until the target answers.

use vstd::prelude::*;

verus! {

/// What one attempt of a retried call came back with.
#[derive(Clone, Copy, Debug)]
pub enum CallOutcome<R> {
    /// The attempt's timeout elapsed without an answer.
    TimedOut,
    /// The target answered.
    Replied(R),
}

/// What the retry discipline does next after one attempt.
#[derive(Clone, Copy, Debug)]
pub enum RetryDecision<R> {
    /// Reissue the same request with the same timeout.
    Resend,
    /// The call is complete with the target's answer.
    Done(R),
}

/// Decides, from one attempt's outcome, whether a retried call reissues the
/// request or completes: a timeout is never surfaced, only resent; the first
/// answer completes the call.
pub fn retry_step<R>(outcome: CallOutcome<R>) -> (d: RetryDecision<R>)
    ensures
        match outcome {
            CallOutcome::TimedOut => d is Resend,
            CallOutcome::Replied(r) => d == RetryDecision::Done(r),
        },
{
    match outcome {
        CallOutcome::TimedOut => RetryDecision::Resend,
        CallOutcome::Replied(r) => RetryDecision::Done(r),
    }
}

/// How many consecutive attempts time out when delivery starts at position
/// `pos` of the transport script `faults` (`true` marks an attempt whose
/// timeout elapses); the script is exhausted from its end on, so attempts
/// past it succeed.
pub open spec fn leading_timeouts(faults: Seq<bool>, pos: nat) -> nat
    decreases faults.len() - pos,
{
    if pos >= faults.len() {
        0
    } else if faults[pos as int] {
        1 + leading_timeouts(faults, pos + 1)
    } else {
        0
    }
}

/// How many attempts a call retried from position `pos` of the script takes:
/// every leading timeout, then the one answered attempt.
pub open spec fn attempts_from(faults: Seq<bool>, pos: nat) -> nat {
    leading_timeouts(faults, pos) + 1
}

/// Where the script stands after a call retried from position `pos`: the
/// answered attempt consumes its own entry, unless the script had run out.
pub open spec fn pos_after(faults: Seq<bool>, pos: nat) -> nat {
    if pos + leading_timeouts(faults, pos) < faults.len() {
        pos + leading_timeouts(faults, pos) + 1
    } else {
        faults.len()
    }
}

/// Where the script stands after `calls` consecutive retried calls, each
/// picking up where the one before left off.
pub open spec fn pos_after_calls(faults: Seq<bool>, pos: nat, calls: nat) -> nat
    decreases calls,
{
    if calls == 0 {
        pos
    } else {
        pos_after(faults, pos_after_calls(faults, pos, (calls - 1) as nat))
    }
}

} // verus!
