use vstd::prelude::*;

verus! {

/// Consecutive fetch failures tolerated while retrying; one more escalates.
pub const FAILURE_THRESHOLD: u32 = 10;

/// The short wait between retry attempts after a failure, in seconds.
pub const RETRY_BACKOFF_SECONDS: u64 = 10;

/// The normal cadence between successful cycles, in seconds.
pub const POLL_INTERVAL_SECONDS: u64 = 30 * 60;

/// The retry state machine: idle between successful cycles, retrying
/// with a count of consecutive failures, or escalated once sustained
/// failure has itself become an actionable condition.
#[derive(Clone, Copy, Debug, PartialEq, Eq, Structural)]
pub enum RetryState {
    Idle,
    Retrying { count: u32 },
    Escalated,
}

/// The number of consecutive failures a state remembers.
pub open spec fn failure_count(s: RetryState) -> nat {
    match s {
        RetryState::Idle => 0,
        RetryState::Retrying { count } => count as nat,
        RetryState::Escalated => (FAILURE_THRESHOLD + 1) as nat,
    }
}

/// Where one more fetch failure moves the state machine: the counter
/// starts at one, climbs to the threshold, and the next failure past the
/// threshold escalates. Further failures stay escalated.
pub open spec fn spec_after_failure(s: RetryState) -> RetryState {
    match s {
        RetryState::Idle => RetryState::Retrying { count: 1 },
        RetryState::Retrying { count } => if count < FAILURE_THRESHOLD {
            RetryState::Retrying { count: (count + 1) as u32 }
        } else {
            RetryState::Escalated
        },
        RetryState::Escalated => RetryState::Escalated,
    }
}

/// The seconds to wait before the next cycle: the short backoff while
/// retrying; the normal cadence when idle, and again once escalated.
pub open spec fn spec_delay(s: RetryState) -> u64 {
    match s {
        RetryState::Retrying { .. } => RETRY_BACKOFF_SECONDS,
        _ => POLL_INTERVAL_SECONDS,
    }
}

/// Wraps each cycle outcome: owns the counter of consecutive fetch
/// failures and decides retry, backoff, and escalation.
#[derive(Clone, Copy, Debug, PartialEq, Eq, Structural)]
pub struct RetryPolicy {
    pub state: RetryState,
}

impl RetryPolicy {
    /// States the machine can reach: while retrying, the counter runs
    /// from one up to the threshold.
    pub open spec fn wf(self) -> bool {
        self.state matches RetryState::Retrying { count } ==> 1 <= count <= FAILURE_THRESHOLD
    }

    pub fn new() -> (p: RetryPolicy)
        ensures
            p.state == RetryState::Idle,
            p.wf(),
    {
        RetryPolicy { state: RetryState::Idle }
    }

    /// A success resets the failure count to zero, whatever came
    /// before; earlier failures leave no trace behind.
    pub fn on_success(&mut self)
        ensures
            final(self).state == RetryState::Idle,
            failure_count(final(self).state) == 0,
            final(self).wf(),
    {
        self.state = RetryState::Idle;
    }

    /// Record one more fetch failure. Returns whether this failure
    /// crossed into escalation, so the crossing is reported exactly once.
    pub fn on_failure(&mut self) -> (escalated_now: bool)
        ensures
            final(self).state == spec_after_failure(old(self).state),
            old(self).wf() ==> final(self).wf(),
            escalated_now == (final(self).state is Escalated && !(old(self).state is Escalated)),
    {
        match self.state {
            RetryState::Idle => {
                self.state = RetryState::Retrying { count: 1 };
                false
            },
            RetryState::Retrying { count } => {
                if count < FAILURE_THRESHOLD {
                    self.state = RetryState::Retrying { count: count + 1 };
                    false
                } else {
                    self.state = RetryState::Escalated;
                    true
                }
            },
            RetryState::Escalated => false,
        }
    }

    /// The seconds to wait before the next cycle, per [`spec_delay`].
    pub fn next_delay_seconds(&self) -> (d: u64)
        ensures
            d == spec_delay(self.state),
    {
        match self.state {
            RetryState::Retrying { .. } => RETRY_BACKOFF_SECONDS,
            _ => POLL_INTERVAL_SECONDS,
        }
    }
}

/// The state after `k` consecutive fetch failures, starting idle.
pub open spec fn after_failures(k: nat) -> RetryState
    decreases k,
{
    if k == 0 {
        RetryState::Idle
    } else {
        spec_after_failure(after_failures((k - 1) as nat))
    }
}

/// Escalation comes exactly one failure past the threshold: `k`
/// consecutive failures from idle leave the machine retrying with count
/// `k` while `k` is within the threshold, and escalated as soon as `k`
/// exceeds it.
pub proof fn lemma_escalates_exactly_past_threshold(k: nat)
    ensures
        1 <= k <= FAILURE_THRESHOLD ==> after_failures(k) == (RetryState::Retrying {
            count: k as u32,
        }),
        k <= FAILURE_THRESHOLD ==> !(after_failures(k) is Escalated),
        k > FAILURE_THRESHOLD ==> after_failures(k) is Escalated,
    decreases k,
{
    if k > 0 {
        lemma_escalates_exactly_past_threshold((k - 1) as nat);
    }
}

} // verus!
