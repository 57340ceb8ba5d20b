//! Alert suppression: per-probe cooldown and re-arm arbitration.
//!
//! A suppressor sits in front of the alert transport.  Once an alert passes, the
//! suppressor closes; it reopens after its cooldown window, or — without
//! a cooldown — only when the probe observes recovery and resets it.

use vstd::prelude::*;

verus! {

/// Suppression record for one (validator, probe-kind) pair.
#[derive(Clone, Copy)]
pub struct AlertGate {
    pub last_alert_at: Option<u64>,
    /// `None`: the suppressor re-arms only by an explicit `reset` (delinquency).
    /// `Some(w)`: the suppressor re-arms once `w` seconds have passed.
    pub cooldown_seconds: Option<u64>,
}

impl AlertGate {
    /// Whether an alert may pass at time `now`: nothing was sent yet, or the
    /// cooldown window has elapsed since the last one.
    pub open spec fn spec_permits(g: AlertGate, now: u64) -> bool {
        match g.last_alert_at {
            None => true,
            Some(t) => match g.cooldown_seconds {
                Some(w) => now >= t + w,
                None => false,
            },
        }
    }

    pub fn new(cooldown_seconds: Option<u64>) -> (r: AlertGate)
        ensures
            r.last_alert_at is None,
            r.cooldown_seconds == cooldown_seconds,
            forall|now: u64| AlertGate::spec_permits(r, now),
    {
        AlertGate { last_alert_at: None, cooldown_seconds }
    }

    /// Ask the suppressor whether to send an alert now.  A `true` answer is a
    /// side-effecting acknowledgement: the suppressor records the send and closes.
    pub fn should_send_alert(&mut self, now: u64) -> (r: bool)
        ensures
            r == AlertGate::spec_permits(*old(self), now),
            r ==> *final(self) == (AlertGate {
                last_alert_at: Some(now),
                cooldown_seconds: old(self).cooldown_seconds,
            }),
            !r ==> *final(self) == *old(self),
            r ==> !AlertGate::spec_permits(*final(self), now) || final(self).cooldown_seconds
                == Some(0u64),
    {
        let permits = match self.last_alert_at {
            None => true,
            Some(t) => match self.cooldown_seconds {
                Some(w) => now >= t && now - t >= w,
                None => false,
            },
        };
        if permits {
            self.last_alert_at = Some(now);
        }
        permits
    }

    /// Re-arm the suppressor after observed recovery.
    pub fn reset(&mut self)
        ensures
            final(self).last_alert_at is None,
            final(self).cooldown_seconds == old(self).cooldown_seconds,
            forall|now: u64| AlertGate::spec_permits(*final(self), now),
    {
        self.last_alert_at = None;
    }
}

} // verus!
