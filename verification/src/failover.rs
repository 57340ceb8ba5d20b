//! The emergency failover orchestrator: a single-shot state machine that
//! coordinates the takeover action and the render-suspension handshake.
//!
//! The orchestrator begins only after the validator's active and standby
//! nodes are identified; while it is anywhere between beginning and settling,
//! the global `emergency_takeover_in_progress` flag is raised so the
//! dashboard releases the terminal to the switch mechanism's own output.

use vstd::prelude::*;
use crate::types::{NodeStatus, NodeWithStatus};

verus! {

#[derive(Debug, Clone, Copy, PartialEq, Eq, Structural)]
pub enum FailoverStage {
    Idle,
    Suspending,
    Executing,
    Settling,
}

/// The orchestrator's state together with the render-suspension flag it
/// drives.
pub struct FailoverOrchestrator {
    pub stage: FailoverStage,
    pub takeover_in_progress: bool,
}

impl FailoverOrchestrator {
    /// The handshake invariant: the render-suspension flag is raised exactly
    /// while the orchestrator is busy.
    pub open spec fn wf(self) -> bool {
        self.takeover_in_progress <==> !(self.stage is Idle)
    }

    pub fn new() -> (r: FailoverOrchestrator)
        ensures
            r.wf(),
            r.stage is Idle,
            !r.takeover_in_progress,
    {
        FailoverOrchestrator { stage: FailoverStage::Idle, takeover_in_progress: false }
    }

    /// Begin a takeover: raise the flag so the dashboard suspends rendering.
    /// The caller must already have identified both roles of the pair.
    pub fn begin(&mut self)
        requires
            old(self).wf(),
            old(self).stage is Idle,
        ensures
            final(self).wf(),
            final(self).stage is Suspending,
            final(self).takeover_in_progress,
    {
        self.stage = FailoverStage::Suspending;
        self.takeover_in_progress = true;
    }

    /// The dashboard has had time to release the terminal: invoke the
    /// external switch mechanism.
    pub fn start_executing(&mut self)
        requires
            old(self).wf(),
            old(self).stage is Suspending,
        ensures
            final(self).wf(),
            final(self).stage is Executing,
            final(self).takeover_in_progress,
    {
        self.stage = FailoverStage::Executing;
    }

    /// The switch mechanism returned (with or without an error): hold the
    /// console so the operator can read the outcome.
    pub fn settle(&mut self)
        requires
            old(self).wf(),
            old(self).stage is Executing,
        ensures
            final(self).wf(),
            final(self).stage is Settling,
            final(self).takeover_in_progress,
    {
        self.stage = FailoverStage::Settling;
    }

    /// Settling over: lower the flag so the dashboard resumes rendering.
    pub fn finish(&mut self)
        requires
            old(self).wf(),
            old(self).stage is Settling,
        ensures
            final(self).wf(),
            final(self).stage is Idle,
            !final(self).takeover_in_progress,
    {
        self.stage = FailoverStage::Idle;
        self.takeover_in_progress = false;
    }
}

/// The active and standby nodes a takeover would swap: the first node of
/// each role, when both roles are present.
pub fn select_failover_nodes(nodes: &Vec<NodeWithStatus>) -> (r: Option<(usize, usize)>)
    ensures
        r matches Some(p) ==> p.0 < nodes@.len() && p.1 < nodes@.len()
            && nodes@[p.0 as int].status is Active && nodes@[p.1 as int].status is Standby
            && (forall|j: int| 0 <= j < p.0 ==> !((#[trigger] nodes@[j]).status is Active))
            && (forall|j: int| 0 <= j < p.1 ==> !((#[trigger] nodes@[j]).status is Standby)),
        r is None ==> !(exists|j: int|
            0 <= j < nodes@.len() && (#[trigger] nodes@[j]).status is Active) || !(exists|j: int|
            0 <= j < nodes@.len() && (#[trigger] nodes@[j]).status is Standby),
{
    let n: usize = nodes.len();
    let mut active: Option<usize> = None;
    let mut i: usize = 0;
    while i < n
        invariant
            i <= n == nodes@.len(),
            match active {
                Some(a) => a < i && nodes@[a as int].status is Active && forall|j: int|
                    0 <= j < a ==> !((#[trigger] nodes@[j]).status is Active),
                None => forall|j: int| 0 <= j < i ==> !((#[trigger] nodes@[j]).status is Active),
            },
        decreases n - i,
    {
        if active.is_none() && nodes[i].status == NodeStatus::Active {
            active = Some(i);
        }
        i = i + 1;
    }
    let mut standby: Option<usize> = None;
    let mut k: usize = 0;
    while k < n
        invariant
            k <= n == nodes@.len(),
            match standby {
                Some(s) => s < k && nodes@[s as int].status is Standby && forall|j: int|
                    0 <= j < s ==> !((#[trigger] nodes@[j]).status is Standby),
                None => forall|j: int| 0 <= j < k ==> !((#[trigger] nodes@[j]).status is Standby),
            },
        decreases n - k,
    {
        if standby.is_none() && nodes[k].status == NodeStatus::Standby {
            standby = Some(k);
        }
        k = k + 1;
    }
    match (active, standby) {
        (Some(a), Some(s)) => Some((a, s)),
        _ => None,
    }
}

} // verus!
