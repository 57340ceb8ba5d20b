//! The shared monitor state: the single authoritative snapshot that the
//! probes write and the dashboard reads.
//!
//! All per-validator vectors are indexed by startup order and never resized
//! after construction.  Each update method below is one logically atomic
//! critical section; the caller holds exclusive access to the state for the
//! duration of the call and performs any I/O the returned effects demand
//! only after releasing it.

use vstd::prelude::*;
use crate::catchup::{parse_catchup_output, spec_parse_catchup};
use crate::refresh::{classify_role, spec_classify_role};
use crate::ssh_health::{ssh_probe_step, spec_update_ssh_status};
use crate::strutil::spec_trim;
use crate::suppress::AlertGate;
use crate::tracker::FailureTracker;
use crate::types::{
    AlertConfig, CatchupStatus, FieldRefreshStates, NodeFieldRefreshState, NodeHealthStatus,
    NodePairSshStatus, NodePairStatus, NodeStatus, SshHealthStatus, ValidatorStatus,
    ValidatorType, ValidatorVoteData,
};
use crate::vote::{vote_poll_step, PollOutcome, VoteStepEffects};

verus! {

/// The single mutable aggregate behind the readers/writer lock.
pub struct UiState {
    pub vote_data: Vec<Option<ValidatorVoteData>>,
    pub previous_last_slots: Vec<Option<u64>>,
    pub increment_times: Vec<Option<u64>>,
    /// Per validator, the tracked `(last_slot, last_slot_changed_at)` pair.
    pub last_vote_slot_times: Vec<Option<(u64, u64)>>,
    pub catchup_data: Vec<NodePairStatus>,
    pub ssh_health_data: Vec<NodePairSshStatus>,
    pub validator_health: Vec<NodeHealthStatus>,
    pub last_vote_refresh: u64,
    pub last_catchup_refresh: u64,
    pub last_ssh_health_refresh: u64,
    pub field_refresh_states: Vec<NodeFieldRefreshState>,
    pub validator_statuses: Vec<ValidatorStatus>,
    pub is_refreshing: bool,
}

/// Whether a node takes part in catchup monitoring from startup on: standby
/// nodes and every Firedancer node.
pub open spec fn spec_wants_initial_catchup(n: NodeWithStatusView) -> bool {
    n.status is Standby || n.validator_type is Firedancer
}

/// The fields of a node that initial catchup eligibility reads.
pub struct NodeWithStatusView {
    pub status: NodeStatus,
    pub validator_type: ValidatorType,
}

/// Eligibility of node `k` of validator `i` for initial catchup monitoring.
pub open spec fn spec_initial_catchup_wanted(vs: ValidatorStatus, k: int) -> bool {
    vs.nodes_with_status@.len() >= 2 && spec_wants_initial_catchup(
        NodeWithStatusView {
            status: vs.nodes_with_status@[k].status,
            validator_type: vs.nodes_with_status@[k].validator_type,
        },
    )
}

/// The initial catchup slot for one node: a placeholder entry for nodes that
/// are monitored from startup, nothing for the rest.
pub open spec fn spec_initial_catchup_slot(
    c: Option<CatchupStatus>,
    vs: ValidatorStatus,
    k: int,
    now: u64,
) -> bool {
    if spec_initial_catchup_wanted(vs, k) {
        c matches Some(e) && e.status@ == "⏳ Initializing..."@ && e.last_updated == now
            && !e.is_streaming
    } else {
        c is None
    }
}

impl UiState {
    /// Structural well-formedness: every per-validator vector has one entry
    /// per validator and every failure tracker keeps its invariant.
    pub open spec fn wf(self) -> bool {
        let n = self.validator_statuses@.len();
        &&& self.vote_data@.len() == n
        &&& self.previous_last_slots@.len() == n
        &&& self.increment_times@.len() == n
        &&& self.last_vote_slot_times@.len() == n
        &&& self.catchup_data@.len() == n
        &&& self.ssh_health_data@.len() == n
        &&& self.validator_health@.len() == n
        &&& self.field_refresh_states@.len() == n
        &&& forall|i: int|
            0 <= i < n ==> (#[trigger] self.validator_health@[i]).ssh_status.wf()
                && self.validator_health@[i].rpc_status.wf()
    }

    /// Build the state for a fleet of validators, before any probe has run:
    /// no vote data, everything healthy, fresh trackers, catchup placeholders
    /// on the nodes monitored from startup, and no refresh in flight.
    pub fn new(validator_statuses: Vec<ValidatorStatus>, now: u64) -> (r: UiState)
        ensures
            r.wf(),
            r.validator_statuses == validator_statuses,
            forall|i: int| 0 <= i < r.vote_data@.len() ==> (#[trigger] r.vote_data@[i]) is None,
            forall|i: int|
                0 <= i < r.previous_last_slots@.len() ==> (
                #[trigger] r.previous_last_slots@[i]) is None,
            forall|i: int|
                0 <= i < r.increment_times@.len() ==> (#[trigger] r.increment_times@[i]) is None,
            forall|i: int|
                0 <= i < r.last_vote_slot_times@.len() ==> (
                #[trigger] r.last_vote_slot_times@[i]) is None,
            forall|i: int|
                0 <= i < r.catchup_data@.len() ==> spec_initial_catchup_slot(
                    (#[trigger] r.catchup_data@[i]).node_0,
                    validator_statuses@[i],
                    0,
                    now,
                ) && spec_initial_catchup_slot(r.catchup_data@[i].node_1, validator_statuses@[i], 1, now),
            forall|i: int|
                0 <= i < r.ssh_health_data@.len() ==> (#[trigger] r.ssh_health_data@[i]).node_0
                    == (SshHealthStatus {
                    is_healthy: true,
                    last_success: Some(now),
                    failure_start: None,
                }) && r.ssh_health_data@[i].node_1 == (SshHealthStatus {
                    is_healthy: true,
                    last_success: Some(now),
                    failure_start: None,
                }),
            forall|i: int|
                0 <= i < r.validator_health@.len() ==> (
                #[trigger] r.validator_health@[i]).ssh_status == FailureTracker::spec_fresh()
                    && r.validator_health@[i].rpc_status == FailureTracker::spec_fresh()
                    && r.validator_health@[i].is_voting
                    && r.validator_health@[i].last_vote_slot is None
                    && r.validator_health@[i].last_vote_time is None,
            forall|i: int|
                0 <= i < r.field_refresh_states@.len() ==> (
                #[trigger] r.field_refresh_states@[i]).node_0
                    == FieldRefreshStates::spec_default() && r.field_refresh_states@[i].node_1
                    == FieldRefreshStates::spec_default(),
            r.last_vote_refresh == now,
            r.last_catchup_refresh == now,
            r.last_ssh_health_refresh == now,
            !r.is_refreshing,
    {
        let n: usize = validator_statuses.len();
        let mut vote_data: Vec<Option<ValidatorVoteData>> = Vec::new();
        let mut previous_last_slots: Vec<Option<u64>> = Vec::new();
        let mut increment_times: Vec<Option<u64>> = Vec::new();
        let mut last_vote_slot_times: Vec<Option<(u64, u64)>> = Vec::new();
        let mut catchup_data: Vec<NodePairStatus> = Vec::new();
        let mut ssh_health_data: Vec<NodePairSshStatus> = Vec::new();
        let mut validator_health: Vec<NodeHealthStatus> = Vec::new();
        let mut field_refresh_states: Vec<NodeFieldRefreshState> = Vec::new();
        let mut i: usize = 0;
        while i < n
            invariant
                i <= n == validator_statuses@.len(),
                vote_data@.len() == i,
                previous_last_slots@.len() == i,
                increment_times@.len() == i,
                last_vote_slot_times@.len() == i,
                catchup_data@.len() == i,
                ssh_health_data@.len() == i,
                validator_health@.len() == i,
                field_refresh_states@.len() == i,
                forall|j: int| 0 <= j < i ==> (#[trigger] vote_data@[j]) is None,
                forall|j: int| 0 <= j < i ==> (#[trigger] previous_last_slots@[j]) is None,
                forall|j: int| 0 <= j < i ==> (#[trigger] increment_times@[j]) is None,
                forall|j: int| 0 <= j < i ==> (#[trigger] last_vote_slot_times@[j]) is None,
                forall|j: int|
                    0 <= j < i ==> spec_initial_catchup_slot(
                        (#[trigger] catchup_data@[j]).node_0,
                        validator_statuses@[j],
                        0,
                        now,
                    ) && spec_initial_catchup_slot(
                        catchup_data@[j].node_1,
                        validator_statuses@[j],
                        1,
                        now,
                    ),
                forall|j: int|
                    0 <= j < i ==> (#[trigger] ssh_health_data@[j]).node_0 == (SshHealthStatus {
                        is_healthy: true,
                        last_success: Some(now),
                        failure_start: None,
                    }) && ssh_health_data@[j].node_1 == (SshHealthStatus {
                        is_healthy: true,
                        last_success: Some(now),
                        failure_start: None,
                    }),
                forall|j: int|
                    0 <= j < i ==> (#[trigger] validator_health@[j]).ssh_status
                        == FailureTracker::spec_fresh() && validator_health@[j].rpc_status
                        == FailureTracker::spec_fresh() && validator_health@[j].is_voting
                        && validator_health@[j].last_vote_slot is None
                        && validator_health@[j].last_vote_time is None,
                forall|j: int|
                    0 <= j < i ==> (#[trigger] field_refresh_states@[j]).node_0
                        == FieldRefreshStates::spec_default() && field_refresh_states@[j].node_1
                        == FieldRefreshStates::spec_default(),
            decreases n - i,
        {
            vote_data.push(None);
            previous_last_slots.push(None);
            increment_times.push(None);
            last_vote_slot_times.push(None);
            let vs = &validator_statuses[i];
            let node_0 = Self::initial_catchup_for(vs, 0, now);
            let node_1 = Self::initial_catchup_for(vs, 1, now);
            catchup_data.push(NodePairStatus { node_0, node_1 });
            ssh_health_data.push(
                NodePairSshStatus {
                    node_0: SshHealthStatus {
                        is_healthy: true,
                        last_success: Some(now),
                        failure_start: None,
                    },
                    node_1: SshHealthStatus {
                        is_healthy: true,
                        last_success: Some(now),
                        failure_start: None,
                    },
                },
            );
            validator_health.push(
                NodeHealthStatus {
                    ssh_status: FailureTracker::new(),
                    rpc_status: FailureTracker::new(),
                    is_voting: true,
                    last_vote_slot: None,
                    last_vote_time: None,
                },
            );
            field_refresh_states.push(
                NodeFieldRefreshState {
                    node_0: FieldRefreshStates::default(),
                    node_1: FieldRefreshStates::default(),
                },
            );
            i = i + 1;
        }
        UiState {
            vote_data,
            previous_last_slots,
            increment_times,
            last_vote_slot_times,
            catchup_data,
            ssh_health_data,
            validator_health,
            last_vote_refresh: now,
            last_catchup_refresh: now,
            last_ssh_health_refresh: now,
            field_refresh_states,
            validator_statuses,
            is_refreshing: false,
        }
    }

    /// The startup catchup placeholder for node `k` of a validator.
    fn initial_catchup_for(vs: &ValidatorStatus, k: usize, now: u64) -> (r: Option<CatchupStatus>)
        requires
            k == 0 || k == 1,
        ensures
            spec_initial_catchup_slot(r, *vs, k as int, now),
    {
        if vs.nodes_with_status.len() >= 2 && k < vs.nodes_with_status.len() {
            let node = &vs.nodes_with_status[k];
            if node.status == NodeStatus::Standby || node.validator_type
                == ValidatorType::Firedancer {
                Some(
                    CatchupStatus {
                        status: String::from_str("⏳ Initializing..."),
                        last_updated: now,
                        is_streaming: false,
                    },
                )
            } else {
                None
            }
        } else {
            None
        }
    }
    /// One vote-poll critical section for validator `idx`: record the RPC
    /// outcome, move the slot clock and the increment flash, store the
    /// observation, and decide the alerts owed.  The returned effects carry
    /// the I/O the caller must perform after releasing the state.
    pub fn apply_vote_poll(
        &mut self,
        idx: usize,
        outcome: PollOutcome,
        delinquency_gate: &mut AlertGate,
        rpc_gate: &mut AlertGate,
        now: u64,
        cfg: &AlertConfig,
        failover_in_progress: bool,
    ) -> (eff: VoteStepEffects)
        requires
            old(self).wf(),
            idx < old(self).validator_statuses@.len(),
            old(self).validator_health@[idx as int].rpc_status.consecutive_failures < u32::MAX,
        ensures
            final(self).wf(),
            // The tracked pair, flash, previous slot and observation move as
            // the vote poller's transition says; nothing else at other
            // indices moves.
            final(self).last_vote_slot_times@ == old(self).last_vote_slot_times@.update(
                idx as int,
                crate::vote::spec_update_tracked(
                    old(self).last_vote_slot_times@[idx as int],
                    crate::vote::spec_observed(outcome),
                    now,
                ),
            ),
            final(self).increment_times@ == old(self).increment_times@.update(
                idx as int,
                crate::vote::spec_update_increment(
                    spec_prev_slot(old(self).vote_data@[idx as int]),
                    old(self).increment_times@[idx as int],
                    crate::vote::spec_observed(outcome),
                    now,
                ),
            ),
            final(self).previous_last_slots@ == old(self).previous_last_slots@.update(
                idx as int,
                spec_prev_slot(old(self).vote_data@[idx as int]),
            ),
            final(self).vote_data@ == old(self).vote_data@.update(
                idx as int,
                match outcome {
                    PollOutcome::Data(d) => Some(d),
                    PollOutcome::Failed(_) => None,
                },
            ),
            // Only the RPC tracker of this validator's health record moves.
            final(self).validator_health@ == old(self).validator_health@.update(
                idx as int,
                NodeHealthStatus {
                    rpc_status: final(self).validator_health@[idx as int].rpc_status,
                    ..old(self).validator_health@[idx as int]
                },
            ),
            (outcome is Data) ==> final(self).validator_health@[idx as int].rpc_status
                == FailureTracker::spec_fresh(),
            (outcome matches PollOutcome::Failed(e)
                ==> final(self).validator_health@[idx as int].rpc_status == FailureTracker::spec_record_failure(
                old(self).validator_health@[idx as int].rpc_status,
                now,
                e,
            )),
            final(self).last_vote_refresh == now,
            // Everything else is untouched.
            final(self).catchup_data == old(self).catchup_data,
            final(self).ssh_health_data == old(self).ssh_health_data,
            final(self).field_refresh_states == old(self).field_refresh_states,
            final(self).validator_statuses == old(self).validator_statuses,
            final(self).is_refreshing == old(self).is_refreshing,
            final(self).last_catchup_refresh == old(self).last_catchup_refresh,
            final(self).last_ssh_health_refresh == old(self).last_ssh_health_refresh,
            // The effects mirror the new state.
            eff.new_tracked == final(self).last_vote_slot_times@[idx as int],
            eff.new_increment == final(self).increment_times@[idx as int],
            // Delinquency suppression is cleared exactly when the slot
            // advances; the cooldown setting never changes.
            crate::vote::spec_slot_advanced(
                old(self).last_vote_slot_times@[idx as int],
                crate::vote::spec_observed(outcome),
            ) ==> final(delinquency_gate).last_alert_at is None
                && final(delinquency_gate).cooldown_seconds
                == old(delinquency_gate).cooldown_seconds,
            !crate::vote::spec_delinquency_eligible(
                old(self).last_vote_slot_times@[idx as int],
                crate::vote::spec_observed(outcome),
                now,
                *cfg,
            ) && !crate::vote::spec_slot_advanced(
                old(self).last_vote_slot_times@[idx as int],
                crate::vote::spec_observed(outcome),
            ) ==> *final(delinquency_gate) == *old(delinquency_gate),
            // A delinquency alert is owed exactly when the condition holds
            // and the suppressor permits.
            eff.delinquency_alert is Some <==> crate::vote::spec_delinquency_eligible(
                old(self).last_vote_slot_times@[idx as int],
                crate::vote::spec_observed(outcome),
                now,
                *cfg,
            ) && AlertGate::spec_permits(*old(delinquency_gate), now),
            // A sent alert closes the suppressor at `now`, keeping its
            // cooldown; a denied request leaves it untouched.
            eff.delinquency_alert is Some ==> *final(delinquency_gate) == (AlertGate {
                last_alert_at: Some(now),
                cooldown_seconds: old(delinquency_gate).cooldown_seconds,
            }),
            crate::vote::spec_delinquency_eligible(
                old(self).last_vote_slot_times@[idx as int],
                crate::vote::spec_observed(outcome),
                now,
                *cfg,
            ) && !AlertGate::spec_permits(*old(delinquency_gate), now)
                ==> *final(delinquency_gate) == *old(delinquency_gate),
            // Auto-failover starts exactly when a delinquency alert was sent,
            // failover is enabled, none is running, and RPC is healthy.
            eff.start_failover <==> eff.delinquency_alert is Some && cfg.auto_failover_enabled
                && !failover_in_progress
                && final(self).validator_health@[idx as int].rpc_status.consecutive_failures == 0,
            // An RPC-failure alert is owed exactly when the call failed, the
            // run is old enough, and the suppressor permits.
            eff.rpc_failure_alert is Some <==> (outcome is Failed) && cfg.enabled
                && crate::vote::spec_rpc_alert_eligible(
                    final(self).validator_health@[idx as int].rpc_status,
                    now,
                    *cfg,
                ) && AlertGate::spec_permits(*old(rpc_gate), now),
            // The RPC suppressor is consulted only when the call failed and
            // the run is old enough; a permitted consultation closes it at
            // `now` with its cooldown kept, and otherwise it never moves.
            (outcome is Failed) && crate::vote::spec_rpc_alert_eligible(
                final(self).validator_health@[idx as int].rpc_status,
                now,
                *cfg,
            ) && AlertGate::spec_permits(*old(rpc_gate), now) ==> *final(rpc_gate) == (AlertGate {
                last_alert_at: Some(now),
                cooldown_seconds: old(rpc_gate).cooldown_seconds,
            }),
            !((outcome is Failed) && crate::vote::spec_rpc_alert_eligible(
                final(self).validator_health@[idx as int].rpc_status,
                now,
                *cfg,
            ) && AlertGate::spec_permits(*old(rpc_gate), now)) ==> *final(rpc_gate)
                == *old(rpc_gate),
    {
        let prev_slot: Option<u64> = match &self.vote_data[idx] {
            Some(d) => {
                if d.recent_votes.len() > 0 {
                    Some(d.recent_votes[d.recent_votes.len() - 1].slot)
                } else {
                    None
                }
            },
            None => None,
        };
        proof {
            let ghost d0 = old(self).vote_data@[idx as int];
            if d0 is Some && d0->Some_0.recent_votes@.len() > 0 {
                assert(d0->Some_0.recent_votes@[d0->Some_0.recent_votes@.len() - 1]
                    == d0->Some_0.recent_votes@.last());
            }
        }
        let slot_pair: Option<(u64, u64)> = self.last_vote_slot_times[idx];
        let increment_time: Option<u64> = self.increment_times[idx];
        let eff = vote_poll_step(
            &mut self.validator_health[idx].rpc_status,
            delinquency_gate,
            rpc_gate,
            slot_pair,
            prev_slot,
            increment_time,
            &outcome,
            now,
            cfg,
            failover_in_progress,
        );
        self.last_vote_slot_times[idx] = eff.new_tracked;
        self.increment_times[idx] = eff.new_increment;
        self.previous_last_slots[idx] = prev_slot;
        self.vote_data[idx] = match outcome {
            PollOutcome::Data(d) => Some(d),
            PollOutcome::Failed(_) => None,
        };
        self.last_vote_refresh = now;
        eff
    }

    /// One SSH-probe critical section for node `node_idx` of validator
    /// `idx`: move the reachability record, record the outcome on the
    /// validator's SSH tracker, and decide whether an SSH-failure alert is
    /// owed.
    pub fn apply_ssh_probe(
        &mut self,
        idx: usize,
        node_idx: usize,
        outcome_ok: bool,
        error_msg: String,
        gate: &mut AlertGate,
        now: u64,
        cfg: &AlertConfig,
    ) -> (alert: Option<(u32, u64)>)
        requires
            old(self).wf(),
            idx < old(self).validator_statuses@.len(),
            node_idx == 0 || node_idx == 1,
            old(self).validator_health@[idx as int].ssh_status.consecutive_failures < u32::MAX,
        ensures
            final(self).wf(),
            // The probed node's record moves as the prober's transition says;
            // the other node's record is untouched.
            final(self).ssh_health_data@ == old(self).ssh_health_data@.update(
                idx as int,
                if node_idx == 0 {
                    NodePairSshStatus {
                        node_0: spec_update_ssh_status(
                            old(self).ssh_health_data@[idx as int].node_0,
                            outcome_ok,
                            now,
                        ),
                        node_1: old(self).ssh_health_data@[idx as int].node_1,
                    }
                } else {
                    NodePairSshStatus {
                        node_0: old(self).ssh_health_data@[idx as int].node_0,
                        node_1: spec_update_ssh_status(
                            old(self).ssh_health_data@[idx as int].node_1,
                            outcome_ok,
                            now,
                        ),
                    }
                },
            ),
            // Only the SSH tracker of this validator's health record moves.
            final(self).validator_health@ == old(self).validator_health@.update(
                idx as int,
                NodeHealthStatus {
                    ssh_status: final(self).validator_health@[idx as int].ssh_status,
                    ..old(self).validator_health@[idx as int]
                },
            ),
            outcome_ok ==> final(self).validator_health@[idx as int].ssh_status
                == FailureTracker::spec_fresh() && alert is None && *final(gate) == *old(gate),
            !outcome_ok ==> final(self).validator_health@[idx as int].ssh_status
                == FailureTracker::spec_record_failure(
                old(self).validator_health@[idx as int].ssh_status,
                now,
                error_msg,
            ),
            // An SSH-failure alert is owed exactly when the probe failed, the
            // run is old enough, the suppressor permits, and alerts are on.
            alert is Some <==> !outcome_ok && cfg.enabled
                && crate::ssh_health::spec_ssh_alert_eligible(
                    final(self).validator_health@[idx as int].ssh_status,
                    now,
                    *cfg,
                ) && AlertGate::spec_permits(*old(gate), now),
            // The suppressor is consulted only when the probe failed and the
            // run is old enough; a permitted consultation closes it at `now`
            // with its cooldown kept, and otherwise it never moves.
            !outcome_ok && crate::ssh_health::spec_ssh_alert_eligible(
                final(self).validator_health@[idx as int].ssh_status,
                now,
                *cfg,
            ) && AlertGate::spec_permits(*old(gate), now) ==> *final(gate) == (AlertGate {
                last_alert_at: Some(now),
                cooldown_seconds: old(gate).cooldown_seconds,
            }),
            !(!outcome_ok && crate::ssh_health::spec_ssh_alert_eligible(
                final(self).validator_health@[idx as int].ssh_status,
                now,
                *cfg,
            ) && AlertGate::spec_permits(*old(gate), now)) ==> *final(gate) == *old(gate),
            final(self).last_ssh_health_refresh == now,
            // Everything else is untouched.
            final(self).vote_data == old(self).vote_data,
            final(self).previous_last_slots == old(self).previous_last_slots,
            final(self).increment_times == old(self).increment_times,
            final(self).last_vote_slot_times == old(self).last_vote_slot_times,
            final(self).catchup_data == old(self).catchup_data,
            final(self).field_refresh_states == old(self).field_refresh_states,
            final(self).validator_statuses == old(self).validator_statuses,
            final(self).is_refreshing == old(self).is_refreshing,
            final(self).last_vote_refresh == old(self).last_vote_refresh,
            final(self).last_catchup_refresh == old(self).last_catchup_refresh,
    {
        let prev: SshHealthStatus = if node_idx == 0 {
            self.ssh_health_data[idx].node_0
        } else {
            self.ssh_health_data[idx].node_1
        };
        let (status, alert) = ssh_probe_step(
            &prev,
            &mut self.validator_health[idx].ssh_status,
            gate,
            outcome_ok,
            error_msg,
            now,
            cfg,
        );
        if node_idx == 0 {
            self.ssh_health_data[idx].node_0 = status;
        } else {
            self.ssh_health_data[idx].node_1 = status;
        }
        self.last_ssh_health_refresh = now;
        proof {
            assert(final(self).ssh_health_data@ =~= old(self).ssh_health_data@.update(
                idx as int,
                final(self).ssh_health_data@[idx as int],
            ));
        }
        alert
    }

    /// Record one parsed line from a node's catchup stream: the line is
    /// trimmed, parsed, and stored with the streaming mark set.
    pub fn record_catchup_line(
        &mut self,
        idx: usize,
        node_idx: usize,
        is_firedancer: bool,
        line: &str,
        now: u64,
    )
        requires
            old(self).wf(),
            idx < old(self).validator_statuses@.len(),
            node_idx == 0 || node_idx == 1,
        ensures
            final(self).wf(),
            ({
                let slot = if node_idx == 0 {
                    final(self).catchup_data@[idx as int].node_0
                } else {
                    final(self).catchup_data@[idx as int].node_1
                };
                slot matches Some(c) && c.status@ == spec_parse_catchup(
                    spec_trim(line@),
                    is_firedancer,
                ) && c.last_updated == now && c.is_streaming
            }),
            node_idx == 0 ==> final(self).catchup_data@[idx as int].node_1 == old(self).catchup_data@[idx as int].node_1,
            node_idx == 1 ==> final(self).catchup_data@[idx as int].node_0 == old(self).catchup_data@[idx as int].node_0,
            forall|j: int|
                0 <= j < old(self).catchup_data@.len() && j != idx
                    ==> final(self).catchup_data@[j] == old(self).catchup_data@[j],
            final(self).vote_data == old(self).vote_data,
            final(self).previous_last_slots == old(self).previous_last_slots,
            final(self).increment_times == old(self).increment_times,
            final(self).last_vote_slot_times == old(self).last_vote_slot_times,
            final(self).ssh_health_data == old(self).ssh_health_data,
            final(self).validator_health == old(self).validator_health,
            final(self).field_refresh_states == old(self).field_refresh_states,
            final(self).validator_statuses == old(self).validator_statuses,
            final(self).is_refreshing == old(self).is_refreshing,
            final(self).last_vote_refresh == old(self).last_vote_refresh,
            final(self).last_catchup_refresh == old(self).last_catchup_refresh,
            final(self).last_ssh_health_refresh == old(self).last_ssh_health_refresh,
    {
        let lv = crate::strutil::char_seq(line);
        let trimmed = crate::strutil::trim_chars(&lv);
        let trimmed_str = crate::strutil::chars_string(&trimmed);
        let status = parse_catchup_output(trimmed_str.as_str(), is_firedancer);
        let entry = CatchupStatus { status, last_updated: now, is_streaming: true };
        if node_idx == 0 {
            self.catchup_data[idx].node_0 = Some(entry);
        } else {
            self.catchup_data[idx].node_1 = Some(entry);
        }
    }

    /// The stream for one node ended: clear its streaming mark, keeping the
    /// last parsed status on display.
    pub fn mark_stream_ended(&mut self, idx: usize, node_idx: usize)
        requires
            old(self).wf(),
            idx < old(self).validator_statuses@.len(),
            node_idx == 0 || node_idx == 1,
        ensures
            final(self).wf(),
            ({
                let before = if node_idx == 0 {
                    old(self).catchup_data@[idx as int].node_0
                } else {
                    old(self).catchup_data@[idx as int].node_1
                };
                let after = if node_idx == 0 {
                    final(self).catchup_data@[idx as int].node_0
                } else {
                    final(self).catchup_data@[idx as int].node_1
                };
                match before {
                    Some(c) => after matches Some(d) && d.status == c.status && d.last_updated
                        == c.last_updated && !d.is_streaming,
                    None => after is None,
                }
            }),
            node_idx == 0 ==> final(self).catchup_data@[idx as int].node_1 == old(self).catchup_data@[idx as int].node_1,
            node_idx == 1 ==> final(self).catchup_data@[idx as int].node_0 == old(self).catchup_data@[idx as int].node_0,
            forall|j: int|
                0 <= j < old(self).catchup_data@.len() && j != idx
                    ==> final(self).catchup_data@[j] == old(self).catchup_data@[j],
            final(self).vote_data == old(self).vote_data,
            final(self).previous_last_slots == old(self).previous_last_slots,
            final(self).increment_times == old(self).increment_times,
            final(self).last_vote_slot_times == old(self).last_vote_slot_times,
            final(self).ssh_health_data == old(self).ssh_health_data,
            final(self).validator_health == old(self).validator_health,
            final(self).field_refresh_states == old(self).field_refresh_states,
            final(self).validator_statuses == old(self).validator_statuses,
            final(self).is_refreshing == old(self).is_refreshing,
            final(self).last_vote_refresh == old(self).last_vote_refresh,
            final(self).last_catchup_refresh == old(self).last_catchup_refresh,
            final(self).last_ssh_health_refresh == old(self).last_ssh_health_refresh,
    {
        if node_idx == 0 {
            match &mut self.catchup_data[idx].node_0 {
                Some(c) => {
                    c.is_streaming = false;
                },
                None => {},
            }
        } else {
            match &mut self.catchup_data[idx].node_1 {
                Some(c) => {
                    c.is_streaming = false;
                },
                None => {},
            }
        }
    }
}

/// The newest slot of a stored observation.
pub open spec fn spec_prev_slot(d: Option<ValidatorVoteData>) -> Option<u64> {
    match d {
        Some(data) => crate::vote::spec_last_slot(data),
        None => None,
    }
}

/// How a refresh request marks one node's tint flags: the status, identity
/// and version fields show as refreshing; the catchup and health tints are
/// not touched.
pub open spec fn spec_mark_fields(f: FieldRefreshStates) -> FieldRefreshStates {
    FieldRefreshStates {
        status_refreshing: true,
        identity_refreshing: true,
        version_refreshing: true,
        catchup_refreshing: f.catchup_refreshing,
        health_refreshing: f.health_refreshing,
    }
}

/// How a refresh request marks a validator's pair of tint records.
pub open spec fn spec_mark_refreshing(f: NodeFieldRefreshState) -> NodeFieldRefreshState {
    NodeFieldRefreshState { node_0: spec_mark_fields(f.node_0), node_1: spec_mark_fields(f.node_1) }
}

/// Requesting a refresh twice marks the flags exactly as requesting it once:
/// pressing the refresh key again while a refresh is in flight leaves the
/// same state behind.
pub proof fn lemma_refresh_marking_idempotent(f: NodeFieldRefreshState)
    ensures
        spec_mark_refreshing(spec_mark_refreshing(f)) == spec_mark_refreshing(f),
{
}

/// Any of the tint flags the footer spinner watches is set on this pair.
pub open spec fn spec_pair_refreshing(f: NodeFieldRefreshState) -> bool {
    f.node_0.status_refreshing || f.node_0.identity_refreshing || f.node_0.version_refreshing
        || f.node_1.status_refreshing || f.node_1.identity_refreshing
        || f.node_1.version_refreshing
}

impl UiState {
    /// A field refresh begins: raise the global flag and tint every node's
    /// status, identity and version fields, so the dashboard shows spinners
    /// before the first probe responds.
    pub fn begin_field_refresh(&mut self)
        requires
            old(self).wf(),
        ensures
            final(self).wf(),
            final(self).is_refreshing,
            final(self).field_refresh_states@.len() == old(self).field_refresh_states@.len(),
            forall|i: int|
                0 <= i < old(self).field_refresh_states@.len()
                    ==> final(self).field_refresh_states@[i] == spec_mark_refreshing(
                    #[trigger] old(self).field_refresh_states@[i],
                ),
            final(self).vote_data == old(self).vote_data,
            final(self).previous_last_slots == old(self).previous_last_slots,
            final(self).increment_times == old(self).increment_times,
            final(self).last_vote_slot_times == old(self).last_vote_slot_times,
            final(self).catchup_data == old(self).catchup_data,
            final(self).ssh_health_data == old(self).ssh_health_data,
            final(self).validator_health == old(self).validator_health,
            final(self).validator_statuses == old(self).validator_statuses,
            final(self).last_vote_refresh == old(self).last_vote_refresh,
            final(self).last_catchup_refresh == old(self).last_catchup_refresh,
            final(self).last_ssh_health_refresh == old(self).last_ssh_health_refresh,
    {
        self.is_refreshing = true;
        let n: usize = self.field_refresh_states.len();
        let mut i: usize = 0;
        while i < n
            invariant
                i <= n == self.field_refresh_states@.len(),
                forall|j: int|
                    0 <= j < i ==> self.field_refresh_states@[j] == spec_mark_refreshing(
                        #[trigger] old(self).field_refresh_states@[j],
                    ),
                forall|j: int|
                    i <= j < n ==> #[trigger] self.field_refresh_states@[j]
                        == old(self).field_refresh_states@[j],
                self.vote_data == old(self).vote_data,
                self.previous_last_slots == old(self).previous_last_slots,
                self.increment_times == old(self).increment_times,
                self.last_vote_slot_times == old(self).last_vote_slot_times,
                self.catchup_data == old(self).catchup_data,
                self.ssh_health_data == old(self).ssh_health_data,
                self.validator_health == old(self).validator_health,
                self.validator_statuses == old(self).validator_statuses,
                self.last_vote_refresh == old(self).last_vote_refresh,
                self.last_catchup_refresh == old(self).last_catchup_refresh,
                self.last_ssh_health_refresh == old(self).last_ssh_health_refresh,
                self.is_refreshing,
            decreases n - i,
        {
            let cur: NodeFieldRefreshState = self.field_refresh_states[i];
            self.field_refresh_states[i] = NodeFieldRefreshState {
                node_0: FieldRefreshStates {
                    status_refreshing: true,
                    identity_refreshing: true,
                    version_refreshing: true,
                    catchup_refreshing: cur.node_0.catchup_refreshing,
                    health_refreshing: cur.node_0.health_refreshing,
                },
                node_1: FieldRefreshStates {
                    status_refreshing: true,
                    identity_refreshing: true,
                    version_refreshing: true,
                    catchup_refreshing: cur.node_1.catchup_refreshing,
                    health_refreshing: cur.node_1.health_refreshing,
                },
            };
            i = i + 1;
        }
    }

    /// All refresh sub-tasks have completed: lower the global flag.
    pub fn clear_refresh_complete(&mut self)
        requires
            old(self).wf(),
        ensures
            final(self).wf(),
            !final(self).is_refreshing,
            *final(self) == (UiState { is_refreshing: false, ..*old(self) }),
    {
        self.is_refreshing = false;
    }

    /// Whether the footer spinner should show: some node's status, identity
    /// or version field is being re-probed.
    pub fn any_field_refreshing(&self) -> (r: bool)
        ensures
            r == exists|i: int|
                0 <= i < self.field_refresh_states@.len() && spec_pair_refreshing(
                    #[trigger] self.field_refresh_states@[i],
                ),
    {
        let n: usize = self.field_refresh_states.len();
        let mut i: usize = 0;
        while i < n
            invariant
                i <= n == self.field_refresh_states@.len(),
                forall|j: int|
                    0 <= j < i ==> !spec_pair_refreshing(#[trigger] self.field_refresh_states@[j]),
            decreases n - i,
        {
            let f: NodeFieldRefreshState = self.field_refresh_states[i];
            if f.node_0.status_refreshing || f.node_0.identity_refreshing
                || f.node_0.version_refreshing || f.node_1.status_refreshing
                || f.node_1.identity_refreshing || f.node_1.version_refreshing {
                return true;
            }
            i = i + 1;
        }
        false
    }

    /// A finished identity probe lands: derive the node's role from the
    /// reported identity, store identity, role and sync status, and clear the
    /// status and identity tints for that node.
    pub fn apply_status_identity_refresh(
        &mut self,
        idx: usize,
        node_idx: usize,
        identity: Option<String>,
        sync_status: Option<String>,
    )
        requires
            old(self).wf(),
            idx < old(self).validator_statuses@.len(),
            node_idx == 0 || node_idx == 1,
        ensures
            final(self).wf(),
            // Role is derived state: the node is active exactly when its
            // reported identity equals the validator's identity pubkey.
            node_idx < old(self).validator_statuses@[idx as int].nodes_with_status@.len() ==> ({
                let node =
                    final(self).validator_statuses@[idx as int].nodes_with_status@[node_idx as int];
                let before =
                    old(self).validator_statuses@[idx as int].nodes_with_status@[node_idx as int];
                &&& node.status == spec_classify_role(
                    match identity {
                        Some(id) => Some(id@),
                        None => None,
                    },
                    old(self).validator_statuses@[idx as int].validator_pair.identity_pubkey@,
                )
                &&& (node.status is Active <==> (identity matches Some(id) && id@
                    == old(self).validator_statuses@[idx as int].validator_pair.identity_pubkey@))
                &&& node.current_identity == identity
                &&& node.sync_status == sync_status
                // Every other field of the written node is preserved.
                &&& node.node == before.node
                &&& node.validator_type == before.validator_type
                &&& node.version == before.version
                &&& node.solana_cli_executable == before.solana_cli_executable
                &&& node.agave_validator_executable == before.agave_validator_executable
                &&& node.fdctl_executable == before.fdctl_executable
                &&& node.ledger_path == before.ledger_path
                &&& node.swap_ready == before.swap_ready
            }),
            // The node list keeps its length, the sibling entries are
            // untouched, and an out-of-range node index writes nothing.
            final(self).validator_statuses@[idx as int].nodes_with_status@.len()
                == old(self).validator_statuses@[idx as int].nodes_with_status@.len(),
            forall|k: int|
                0 <= k < old(self).validator_statuses@[idx as int].nodes_with_status@.len() && k
                    != node_idx
                    ==> (#[trigger] final(self).validator_statuses@[idx as int].nodes_with_status@[k])
                    == old(self).validator_statuses@[idx as int].nodes_with_status@[k],
            node_idx >= old(self).validator_statuses@[idx as int].nodes_with_status@.len()
                ==> final(self).validator_statuses@[idx as int].nodes_with_status@
                == old(self).validator_statuses@[idx as int].nodes_with_status@,
            // The refresh tints for this node's status and identity go out.
            ({
                let f = final(self).field_refresh_states@[idx as int];
                let f0 = old(self).field_refresh_states@[idx as int];
                if node_idx == 0 {
                    f.node_1 == f0.node_1 && !f.node_0.status_refreshing
                        && !f.node_0.identity_refreshing && f.node_0.version_refreshing
                        == f0.node_0.version_refreshing
                } else {
                    f.node_0 == f0.node_0 && !f.node_1.status_refreshing
                        && !f.node_1.identity_refreshing && f.node_1.version_refreshing
                        == f0.node_1.version_refreshing
                }
            }),
            forall|j: int|
                0 <= j < old(self).validator_statuses@.len() && j != idx
                    ==> final(self).validator_statuses@[j] == old(self).validator_statuses@[j]
                    && final(self).field_refresh_states@[j] == old(self).field_refresh_states@[j],
            final(self).validator_statuses@[idx as int].validator_pair
                == old(self).validator_statuses@[idx as int].validator_pair,
            final(self).vote_data == old(self).vote_data,
            final(self).previous_last_slots == old(self).previous_last_slots,
            final(self).increment_times == old(self).increment_times,
            final(self).last_vote_slot_times == old(self).last_vote_slot_times,
            final(self).catchup_data == old(self).catchup_data,
            final(self).ssh_health_data == old(self).ssh_health_data,
            final(self).validator_health == old(self).validator_health,
            final(self).is_refreshing == old(self).is_refreshing,
            final(self).last_vote_refresh == old(self).last_vote_refresh,
            final(self).last_catchup_refresh == old(self).last_catchup_refresh,
            final(self).last_ssh_health_refresh == old(self).last_ssh_health_refresh,
    {
        let role = classify_role(
            &identity,
            self.validator_statuses[idx].validator_pair.identity_pubkey.as_str(),
        );
        if node_idx < self.validator_statuses[idx].nodes_with_status.len() {
            let node = &mut self.validator_statuses[idx].nodes_with_status[node_idx];
            node.status = role;
            node.current_identity = identity;
            node.sync_status = sync_status;
        }
        let tint = &mut self.field_refresh_states[idx];
        if node_idx == 0 {
            tint.node_0.status_refreshing = false;
            tint.node_0.identity_refreshing = false;
        } else {
            tint.node_1.status_refreshing = false;
            tint.node_1.identity_refreshing = false;
        }
    }

    /// A finished version probe lands: store the detected client kind and
    /// version and clear the version tint for that node.
    pub fn apply_version_refresh(
        &mut self,
        idx: usize,
        node_idx: usize,
        validator_type: ValidatorType,
        version: Option<String>,
    )
        requires
            old(self).wf(),
            idx < old(self).validator_statuses@.len(),
            node_idx == 0 || node_idx == 1,
        ensures
            final(self).wf(),
            node_idx < old(self).validator_statuses@[idx as int].nodes_with_status@.len() ==> ({
                let node =
                    final(self).validator_statuses@[idx as int].nodes_with_status@[node_idx as int];
                let before =
                    old(self).validator_statuses@[idx as int].nodes_with_status@[node_idx as int];
                &&& node.validator_type == validator_type
                &&& node.version == version
                // Every other field of the written node is preserved.
                &&& node.status == before.status
                &&& node.current_identity == before.current_identity
                &&& node.sync_status == before.sync_status
                &&& node.node == before.node
                &&& node.solana_cli_executable == before.solana_cli_executable
                &&& node.agave_validator_executable == before.agave_validator_executable
                &&& node.fdctl_executable == before.fdctl_executable
                &&& node.ledger_path == before.ledger_path
                &&& node.swap_ready == before.swap_ready
            }),
            // The node list keeps its length, the sibling entries are
            // untouched, and an out-of-range node index writes nothing.
            final(self).validator_statuses@[idx as int].nodes_with_status@.len()
                == old(self).validator_statuses@[idx as int].nodes_with_status@.len(),
            forall|k: int|
                0 <= k < old(self).validator_statuses@[idx as int].nodes_with_status@.len() && k
                    != node_idx
                    ==> (#[trigger] final(self).validator_statuses@[idx as int].nodes_with_status@[k])
                    == old(self).validator_statuses@[idx as int].nodes_with_status@[k],
            node_idx >= old(self).validator_statuses@[idx as int].nodes_with_status@.len()
                ==> final(self).validator_statuses@[idx as int].nodes_with_status@
                == old(self).validator_statuses@[idx as int].nodes_with_status@,
            ({
                let f = final(self).field_refresh_states@[idx as int];
                let f0 = old(self).field_refresh_states@[idx as int];
                if node_idx == 0 {
                    f.node_1 == f0.node_1 && !f.node_0.version_refreshing
                        && f.node_0.status_refreshing == f0.node_0.status_refreshing
                        && f.node_0.identity_refreshing == f0.node_0.identity_refreshing
                } else {
                    f.node_0 == f0.node_0 && !f.node_1.version_refreshing
                        && f.node_1.status_refreshing == f0.node_1.status_refreshing
                        && f.node_1.identity_refreshing == f0.node_1.identity_refreshing
                }
            }),
            forall|j: int|
                0 <= j < old(self).validator_statuses@.len() && j != idx
                    ==> final(self).validator_statuses@[j] == old(self).validator_statuses@[j]
                    && final(self).field_refresh_states@[j] == old(self).field_refresh_states@[j],
            final(self).validator_statuses@[idx as int].validator_pair
                == old(self).validator_statuses@[idx as int].validator_pair,
            final(self).vote_data == old(self).vote_data,
            final(self).previous_last_slots == old(self).previous_last_slots,
            final(self).increment_times == old(self).increment_times,
            final(self).last_vote_slot_times == old(self).last_vote_slot_times,
            final(self).catchup_data == old(self).catchup_data,
            final(self).ssh_health_data == old(self).ssh_health_data,
            final(self).validator_health == old(self).validator_health,
            final(self).is_refreshing == old(self).is_refreshing,
            final(self).last_vote_refresh == old(self).last_vote_refresh,
            final(self).last_catchup_refresh == old(self).last_catchup_refresh,
            final(self).last_ssh_health_refresh == old(self).last_ssh_health_refresh,
    {
        if node_idx < self.validator_statuses[idx].nodes_with_status.len() {
            let node = &mut self.validator_statuses[idx].nodes_with_status[node_idx];
            node.validator_type = validator_type;
            node.version = version;
        }
        let tint = &mut self.field_refresh_states[idx];
        if node_idx == 0 {
            tint.node_0.version_refreshing = false;
        } else {
            tint.node_1.version_refreshing = false;
        }
    }
}

} // verus!
