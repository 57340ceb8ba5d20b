//! Failure tracking for every failure-prone probe (RPC polls, SSH checks).

use vstd::prelude::*;

verus! {

/// A counter-and-timestamp record used uniformly by every probe.  A probe
/// records each outcome; alert policy later reads the consecutive-failure
/// count and the seconds elapsed since the current failure run began.
#[derive(Clone)]
pub struct FailureTracker {
    pub consecutive_failures: u32,
    pub first_failure_at: Option<u64>,
    pub last_error: Option<String>,
}

impl FailureTracker {
    /// Tracker invariant: a first-failure timestamp is present exactly when
    /// the consecutive-failure count is positive.
    pub open spec fn wf(self) -> bool {
        self.first_failure_at is Some <==> self.consecutive_failures > 0
    }

    /// The state of a tracker that has never seen a failure, or whose last
    /// recorded outcome was a success.
    pub open spec fn spec_fresh() -> FailureTracker {
        FailureTracker { consecutive_failures: 0, first_failure_at: None, last_error: None }
    }

    /// How `record_success` transforms a tracker: whatever was recorded
    /// before, the result is the fresh state.
    pub open spec fn spec_record_success(t: FailureTracker) -> FailureTracker {
        FailureTracker::spec_fresh()
    }

    /// How `record_failure` transforms a tracker: the count rises by one, the
    /// first-failure time is set only on the first failure of a run, and the
    /// message is kept.
    pub open spec fn spec_record_failure(t: FailureTracker, now: u64, msg: String) -> FailureTracker {
        FailureTracker {
            consecutive_failures: (t.consecutive_failures + 1) as u32,
            first_failure_at: if t.consecutive_failures == 0 { Some(now) } else { t.first_failure_at },
            last_error: Some(msg),
        }
    }

    /// Seconds elapsed since the current failure run began, if one is under
    /// way.  A clock reading older than the recorded start yields zero.
    pub open spec fn spec_seconds_since_first_failure(t: FailureTracker, now: u64) -> Option<u64> {
        match t.first_failure_at {
            Some(start) => Some(if now >= start { (now - start) as u64 } else { 0u64 }),
            None => None,
        }
    }

    pub fn new() -> (r: FailureTracker)
        ensures
            r == FailureTracker::spec_fresh(),
            r.wf(),
    {
        FailureTracker { consecutive_failures: 0, first_failure_at: None, last_error: None }
    }

    /// A success ends any failure run: the count returns to zero and both the
    /// first-failure time and the stored error are cleared.
    pub fn record_success(&mut self)
        ensures
            *final(self) == FailureTracker::spec_record_success(*old(self)),
            *final(self) == FailureTracker::spec_fresh(),
            final(self).wf(),
    {
        self.consecutive_failures = 0;
        self.first_failure_at = None;
        self.last_error = None;
    }

    /// A failure extends the current run, or begins one at `now`.
    pub fn record_failure(&mut self, now: u64, error_msg: String)
        requires
            old(self).consecutive_failures < u32::MAX,
        ensures
            *final(self) == FailureTracker::spec_record_failure(*old(self), now, error_msg),
            old(self).wf() ==> final(self).wf(),
            final(self).consecutive_failures == old(self).consecutive_failures + 1,
            final(self).first_failure_at == if old(self).consecutive_failures == 0 {
                Some(now)
            } else {
                old(self).first_failure_at
            },
    {
        if self.consecutive_failures == 0 {
            self.first_failure_at = Some(now);
        }
        self.consecutive_failures = self.consecutive_failures + 1;
        self.last_error = Some(error_msg);
    }

    pub fn seconds_since_first_failure(&self, now: u64) -> (r: Option<u64>)
        ensures
            r == FailureTracker::spec_seconds_since_first_failure(*self, now),
    {
        match self.first_failure_at {
            Some(start) => Some(if now >= start { now - start } else { 0 }),
            None => None,
        }
    }
}

/// Within one failure run the derived quantity `seconds_since_first_failure`
/// never decreases as the clock moves forward.
pub proof fn lemma_seconds_since_first_failure_monotonic(t: FailureTracker, n1: u64, n2: u64)
    requires
        t.first_failure_at is Some,
        n1 <= n2,
    ensures
        FailureTracker::spec_seconds_since_first_failure(t, n1) is Some,
        FailureTracker::spec_seconds_since_first_failure(t, n2) is Some,
        FailureTracker::spec_seconds_since_first_failure(t, n1)->Some_0
            <= FailureTracker::spec_seconds_since_first_failure(t, n2)->Some_0,
{
}

/// Recording a failure and then a success restores a tracker to the state of
/// a freshly constructed one, whatever had been recorded before.
pub proof fn lemma_failure_then_success_is_fresh(t: FailureTracker, now: u64, msg: String)
    ensures
        FailureTracker::spec_record_success(FailureTracker::spec_record_failure(t, now, msg))
            == FailureTracker::spec_fresh(),
{
}

} // verus!
