//! The SSH health prober's per-node transition.
//!
//! Every cycle a trivial command runs over SSH against each node.  The
//! resulting reachability record keeps `last_success` across failures and
//! starts the failure clock only on the healthy-to-unhealthy edge.

use vstd::prelude::*;
use crate::suppress::AlertGate;
use crate::tracker::FailureTracker;
use crate::types::{AlertConfig, SshHealthStatus};

verus! {

/// How one probe outcome moves a node's reachability record.
pub open spec fn spec_update_ssh_status(prev: SshHealthStatus, ok: bool, now: u64) -> SshHealthStatus {
    if ok {
        SshHealthStatus { is_healthy: true, last_success: Some(now), failure_start: None }
    } else {
        SshHealthStatus {
            is_healthy: false,
            last_success: prev.last_success,
            failure_start: if prev.is_healthy {
                Some(now)
            } else {
                prev.failure_start
            },
        }
    }
}

/// The SSH-failure alert condition, tested after the failure is recorded:
/// the failure run is at least the threshold old.
pub open spec fn spec_ssh_alert_eligible(t: FailureTracker, now: u64, cfg: AlertConfig) -> bool {
    match FailureTracker::spec_seconds_since_first_failure(t, now) {
        Some(s) => s >= cfg.ssh_failure_threshold_seconds,
        None => 0 >= cfg.ssh_failure_threshold_seconds,
    }
}

/// One SSH probe cycle for one node.
///
/// `prev` is the node's stored reachability record and `outcome_ok` whether
/// the no-op command succeeded; on failure `error_msg` carries its error.
/// The validator's SSH failure tracker and the per-node alert suppressor are
/// updated in place.  Returns the new record and
/// `Some((consecutive_failures, seconds_since_first_failure))` exactly when
/// an SSH-failure alert must be sent.
pub fn ssh_probe_step(
    prev: &SshHealthStatus,
    tracker: &mut FailureTracker,
    gate: &mut AlertGate,
    outcome_ok: bool,
    error_msg: String,
    now: u64,
    cfg: &AlertConfig,
) -> (r: (SshHealthStatus, Option<(u32, u64)>))
    requires
        old(tracker).wf(),
        old(tracker).consecutive_failures < u32::MAX,
    ensures
        r.0 == spec_update_ssh_status(*prev, outcome_ok, now),
        outcome_ok ==> *final(tracker) == FailureTracker::spec_fresh() && r.1 is None
            && *final(gate) == *old(gate),
        !outcome_ok ==> *final(tracker) == FailureTracker::spec_record_failure(
            *old(tracker),
            now,
            error_msg,
        ),
        final(tracker).wf(),
        // An SSH-failure alert is owed exactly when the probe failed, the
        // failure run is old enough, the suppressor permits, and alerts are on.
        r.1 is Some <==> !outcome_ok && cfg.enabled && spec_ssh_alert_eligible(
            *final(tracker),
            now,
            *cfg,
        ) && AlertGate::spec_permits(*old(gate), now),
        r.1 matches Some(a) ==> a.0 == final(tracker).consecutive_failures && Some(a.1)
            == FailureTracker::spec_seconds_since_first_failure(*final(tracker), now),
        // The suppressor is consulted only when the probe failed and the run
        // is old enough; a consultation it permits closes it at `now` with
        // its cooldown kept, a denied one leaves it untouched, and an
        // unconsulted suppressor never moves.
        !outcome_ok && spec_ssh_alert_eligible(*final(tracker), now, *cfg)
            && AlertGate::spec_permits(*old(gate), now) ==> *final(gate) == (AlertGate {
            last_alert_at: Some(now),
            cooldown_seconds: old(gate).cooldown_seconds,
        }),
        !outcome_ok && spec_ssh_alert_eligible(*final(tracker), now, *cfg)
            && !AlertGate::spec_permits(*old(gate), now) ==> *final(gate) == *old(gate),
        !(!outcome_ok && spec_ssh_alert_eligible(*final(tracker), now, *cfg)) ==> *final(gate)
            == *old(gate),
{
    if outcome_ok {
        tracker.record_success();
        let status = SshHealthStatus { is_healthy: true, last_success: Some(now), failure_start: None };
        (status, None)
    } else {
        tracker.record_failure(now, error_msg);
        let status = SshHealthStatus {
            is_healthy: false,
            last_success: prev.last_success,
            failure_start: if prev.is_healthy {
                Some(now)
            } else {
                prev.failure_start
            },
        };
        let seconds: u64 = match tracker.seconds_since_first_failure(now) {
            Some(s) => s,
            None => 0,
        };
        let mut alert: Option<(u32, u64)> = None;
        if seconds >= cfg.ssh_failure_threshold_seconds {
            if gate.should_send_alert(now) && cfg.enabled {
                alert = Some((tracker.consecutive_failures, seconds));
            }
        }
        (status, alert)
    }
}

} // verus!
