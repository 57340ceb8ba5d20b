//! The vote poller's per-validator transition.
//!
//! Each poll cycle fetches the vote account of every validator and then, in
//! one critical section per validator, updates the slot-advance clock, the
//! increment flash, the RPC failure tracker, and decides which alerts to send
//! and whether to start an emergency failover.

use vstd::prelude::*;
use crate::suppress::AlertGate;
use crate::tracker::FailureTracker;
use crate::types::{AlertConfig, ValidatorVoteData};

verus! {

/// What one RPC poll of one validator returned.
pub enum PollOutcome {
    Data(ValidatorVoteData),
    Failed(String),
}

/// Everything the vote poller decides for one validator in one cycle.
pub struct VoteStepEffects {
    /// The new `(last_slot, last_slot_changed_at)` pair.
    pub new_tracked: Option<(u64, u64)>,
    /// When the increment flash was last lit.
    pub new_increment: Option<u64>,
    /// `Some(seconds_since_vote)` exactly when a delinquency alert must be
    /// sent.
    pub delinquency_alert: Option<u64>,
    /// `Some((consecutive_failures, seconds_since_first_failure))` exactly
    /// when an RPC-failure alert must be sent.
    pub rpc_failure_alert: Option<(u32, u64)>,
    /// Whether to spawn the emergency failover orchestrator.
    pub start_failover: bool,
}

/// `a - b`, clamped at zero.
pub open spec fn sat_sub(a: u64, b: u64) -> u64 {
    if a >= b { (a - b) as u64 } else { 0u64 }
}

/// The newest vote slot in a successful observation.
pub open spec fn spec_last_slot(d: ValidatorVoteData) -> Option<u64> {
    if d.recent_votes@.len() > 0 {
        Some(d.recent_votes@.last().slot)
    } else {
        None
    }
}

/// The slot a poll observed: `None` when the RPC call failed, `Some(None)`
/// when it succeeded without any recent vote.
pub open spec fn spec_observed(outcome: PollOutcome) -> Option<Option<u64>> {
    match outcome {
        PollOutcome::Data(d) => Some(spec_last_slot(d)),
        PollOutcome::Failed(_) => None,
    }
}

/// The stored slot advanced: a slot was observed and differs from the stored
/// one (or nothing is stored yet).
pub open spec fn spec_slot_advanced(slot_pair: Option<(u64, u64)>, observed: Option<Option<u64>>) -> bool {
    match observed {
        Some(Some(s)) => match slot_pair {
            Some(t) => t.0 != s,
            None => true,
        },
        _ => false,
    }
}

/// How the `(last_slot, last_slot_changed_at)` pair moves: it is set to
/// `(s, now)` exactly when a differing slot `s` is observed, kept when the
/// observed slot equals the stored one, kept on RPC failure, and cleared
/// when a successful poll carries no vote at all.
pub open spec fn spec_update_tracked(
    slot_pair: Option<(u64, u64)>,
    observed: Option<Option<u64>>,
    now: u64,
) -> Option<(u64, u64)> {
    match observed {
        None => slot_pair,
        Some(None) => None,
        Some(Some(s)) => if spec_slot_advanced(slot_pair, observed) {
            Some((s, now))
        } else {
            slot_pair
        },
    }
}

/// How the increment flash moves: lit at `now` when the observed slot
/// strictly exceeds the previously displayed one, kept while younger than
/// two seconds, otherwise dark.
pub open spec fn spec_update_increment(
    prev_slot: Option<u64>,
    increment_time: Option<u64>,
    observed: Option<Option<u64>>,
    now: u64,
) -> Option<u64> {
    match observed {
        Some(Some(s)) => match prev_slot {
            Some(p) => if s > p {
                Some(now)
            } else {
                match increment_time {
                    Some(e) => if sat_sub(now, e) < 2 {
                        Some(e)
                    } else {
                        None
                    },
                    None => None,
                }
            },
            None => None,
        },
        _ => None,
    }
}


/// On a chain whose observed slots never move backwards, the tracked
/// `(last_slot, last_slot_changed_at)` pair is re-stamped exactly when the
/// observed slot strictly increases; an equal slot and an RPC failure both
/// leave it unchanged, and only a successful poll without any vote clears it.
pub proof fn lemma_slot_clock_moves_iff_slot_increases(
    slot_pair: Option<(u64, u64)>,
    observed: Option<Option<u64>>,
    now: u64,
)
    requires
        observed matches Some(Some(s)) && slot_pair matches Some(t) ==> s >= t.0,
    ensures
        observed is None ==> spec_update_tracked(slot_pair, observed, now) == slot_pair,
        observed matches Some(Some(s)) && slot_pair matches Some(t) ==> spec_update_tracked(
            slot_pair,
            observed,
            now,
        ) == (if s > t.0 {
            Some((s, now))
        } else {
            slot_pair
        }),
{
}

/// The delinquency condition: alerts are configured, the observed slot equals
/// the stored slot, and the slot has not advanced for at least the
/// threshold.
pub open spec fn spec_delinquency_eligible(
    slot_pair: Option<(u64, u64)>,
    observed: Option<Option<u64>>,
    now: u64,
    cfg: AlertConfig,
) -> bool {
    &&& cfg.enabled
    &&& observed matches Some(Some(s))
    &&& slot_pair matches Some(t) && Some(Some(t.0)) == observed
    &&& sat_sub(now, slot_pair->Some_0.1) >= cfg.delinquency_threshold_seconds
}

/// The RPC-failure alert condition, tested after the failure is recorded:
/// the failure run is at least the threshold old.
pub open spec fn spec_rpc_alert_eligible(t: FailureTracker, now: u64, cfg: AlertConfig) -> bool {
    match FailureTracker::spec_seconds_since_first_failure(t, now) {
        Some(s) => s >= cfg.rpc_failure_threshold_seconds,
        None => 0 >= cfg.rpc_failure_threshold_seconds,
    }
}

/// One vote-poll cycle for one validator.
///
/// `slot_pair` is the stored `(last_slot, last_slot_changed_at)` pair,
/// `prev_slot` the newest slot of the previous cycle's observation, and
/// `increment_time` the stored flash time.  The RPC tracker, the delinquency
/// suppressor and the RPC-failure suppressor are updated in place; the returned effects
/// carry the new pair, the new flash time, and the alerts owed.
pub fn vote_poll_step(
    rpc_tracker: &mut FailureTracker,
    delinquency_gate: &mut AlertGate,
    rpc_gate: &mut AlertGate,
    slot_pair: Option<(u64, u64)>,
    prev_slot: Option<u64>,
    increment_time: Option<u64>,
    outcome: &PollOutcome,
    now: u64,
    cfg: &AlertConfig,
    failover_in_progress: bool,
) -> (eff: VoteStepEffects)
    requires
        old(rpc_tracker).wf(),
        old(rpc_tracker).consecutive_failures < u32::MAX,
    ensures
        eff.new_tracked == spec_update_tracked(slot_pair, spec_observed(*outcome), now),
        eff.new_increment == spec_update_increment(
            prev_slot,
            increment_time,
            spec_observed(*outcome),
            now,
        ),
        // The RPC tracker records the outcome.
        (outcome is Data) ==> *final(rpc_tracker) == FailureTracker::spec_fresh(),
        (outcome matches PollOutcome::Failed(e) ==> *final(rpc_tracker)
            == FailureTracker::spec_record_failure(*old(rpc_tracker), now, *e)),
        // Delinquency suppression is cleared exactly when the slot advances;
        // otherwise the suppressor moves only by a permitted alert.
        spec_slot_advanced(slot_pair, spec_observed(*outcome))
            ==> final(delinquency_gate).last_alert_at is None
            && final(delinquency_gate).cooldown_seconds == old(delinquency_gate).cooldown_seconds,
        !spec_delinquency_eligible(slot_pair, spec_observed(*outcome), now, *cfg)
            && !spec_slot_advanced(slot_pair, spec_observed(*outcome)) ==> *final(delinquency_gate)
            == *old(delinquency_gate),
        // Without an advance, a closed suppression record stays closed: only
        // an observed slot advance re-arms delinquency alerting.
        !spec_slot_advanced(slot_pair, spec_observed(*outcome)) && old(
            delinquency_gate,
        ).last_alert_at is Some ==> final(delinquency_gate).last_alert_at is Some,
        // A delinquency alert is owed exactly when the condition holds and
        // the suppressor permits; it carries the seconds since the last advance.
        eff.delinquency_alert is Some <==> spec_delinquency_eligible(
            slot_pair,
            spec_observed(*outcome),
            now,
            *cfg,
        ) && AlertGate::spec_permits(*old(delinquency_gate), now),
        eff.delinquency_alert matches Some(secs) ==> slot_pair matches Some(t) && secs == sat_sub(
            now,
            t.1,
        ),
        // A sent alert closes the suppressor at `now`, keeping its cooldown; a
        // denied request leaves it untouched.
        eff.delinquency_alert is Some ==> *final(delinquency_gate) == (AlertGate {
            last_alert_at: Some(now),
            cooldown_seconds: old(delinquency_gate).cooldown_seconds,
        }),
        spec_delinquency_eligible(slot_pair, spec_observed(*outcome), now, *cfg)
            && !AlertGate::spec_permits(*old(delinquency_gate), now) ==> *final(delinquency_gate)
            == *old(delinquency_gate),
        // Auto-failover starts exactly when a delinquency alert was sent,
        // failover is enabled, none is already running, and the RPC tracker
        // shows a working RPC.
        eff.start_failover <==> eff.delinquency_alert is Some && cfg.auto_failover_enabled
            && !failover_in_progress && final(rpc_tracker).consecutive_failures == 0,
        // An RPC-failure alert is owed exactly when the call failed, the
        // failure run is old enough, the suppressor permits, and alerts are on.
        eff.rpc_failure_alert is Some <==> (outcome is Failed) && cfg.enabled
            && spec_rpc_alert_eligible(*final(rpc_tracker), now, *cfg) && AlertGate::spec_permits(
            *old(rpc_gate),
            now,
        ),
        eff.rpc_failure_alert matches Some(a) ==> a.0 == final(rpc_tracker).consecutive_failures
            && Some(a.1) == FailureTracker::spec_seconds_since_first_failure(
            *final(rpc_tracker),
            now,
        ),
        // The RPC suppressor is consulted only when the call failed and the
        // run is old enough; a consultation it permits closes it at `now`
        // with its cooldown kept, a denied one leaves it untouched, and an
        // unconsulted suppressor never moves.
        (outcome is Failed) && spec_rpc_alert_eligible(*final(rpc_tracker), now, *cfg)
            && AlertGate::spec_permits(*old(rpc_gate), now) ==> *final(rpc_gate) == (AlertGate {
            last_alert_at: Some(now),
            cooldown_seconds: old(rpc_gate).cooldown_seconds,
        }),
        (outcome is Failed) && spec_rpc_alert_eligible(*final(rpc_tracker), now, *cfg)
            && !AlertGate::spec_permits(*old(rpc_gate), now) ==> *final(rpc_gate) == *old(
            rpc_gate,
        ),
        !((outcome is Failed) && spec_rpc_alert_eligible(*final(rpc_tracker), now, *cfg))
            ==> *final(rpc_gate) == *old(rpc_gate),
{
    match outcome {
        PollOutcome::Data(data) => {
            rpc_tracker.record_success();
            let new_last_slot: Option<u64> = if data.recent_votes.len() > 0 {
                Some(data.recent_votes[data.recent_votes.len() - 1].slot)
            } else {
                None
            };
            proof {
                assert(data.recent_votes@.len() > 0 ==> data.recent_votes@[data.recent_votes@.len()
                    - 1] == data.recent_votes@.last());
            }
            let mut delinquency_alert: Option<u64> = None;
            let mut start_failover = false;
            let new_tracked: Option<(u64, u64)>;
            match new_last_slot {
                Some(s) => {
                    let advanced = match slot_pair {
                        Some(t) => t.0 != s,
                        None => true,
                    };
                    if advanced {
                        new_tracked = Some((s, now));
                        delinquency_gate.reset();
                    } else {
                        new_tracked = slot_pair;
                        // `advanced` is false, so a pair is slot_pair and its
                        // slot equals `s`.
                        let t = match slot_pair {
                            Some(t) => t,
                            None => (0u64, 0u64),
                        };
                        let seconds_since_vote: u64 = if now >= t.1 {
                            now - t.1
                        } else {
                            0
                        };
                        if cfg.enabled && seconds_since_vote >= cfg.delinquency_threshold_seconds {
                            if delinquency_gate.should_send_alert(now) {
                                delinquency_alert = Some(seconds_since_vote);
                                if cfg.auto_failover_enabled && !failover_in_progress
                                    && rpc_tracker.consecutive_failures == 0 {
                                    start_failover = true;
                                }
                            }
                        }
                    }
                },
                None => {
                    new_tracked = None;
                },
            }
            let new_increment: Option<u64> = match (new_last_slot, prev_slot) {
                (Some(s), Some(p)) => {
                    if s > p {
                        Some(now)
                    } else {
                        match increment_time {
                            Some(e) => {
                                let age: u64 = if now >= e {
                                    now - e
                                } else {
                                    0
                                };
                                if age < 2 {
                                    Some(e)
                                } else {
                                    None
                                }
                            },
                            None => None,
                        }
                    }
                },
                _ => None,
            };
            VoteStepEffects {
                new_tracked,
                new_increment,
                delinquency_alert,
                rpc_failure_alert: None,
                start_failover,
            }
        },
        PollOutcome::Failed(err) => {
            rpc_tracker.record_failure(now, err.clone());
            let seconds: u64 = match rpc_tracker.seconds_since_first_failure(now) {
                Some(s) => s,
                None => 0,
            };
            let mut rpc_failure_alert: Option<(u32, u64)> = None;
            if seconds >= cfg.rpc_failure_threshold_seconds {
                if rpc_gate.should_send_alert(now) && cfg.enabled {
                    rpc_failure_alert = Some((rpc_tracker.consecutive_failures, seconds));
                }
            }
            VoteStepEffects {
                new_tracked: slot_pair,
                new_increment: None,
                delinquency_alert: None,
                rpc_failure_alert,
                start_failover: false,
            }
        },
    }
}

} // verus!
