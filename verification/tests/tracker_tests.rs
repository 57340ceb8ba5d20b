use valmon::suppress::AlertGate;
use valmon::tracker::FailureTracker;

#[test]
fn fresh_tracker_has_no_failure_run() {
    let t = FailureTracker::new();
    assert_eq!(t.consecutive_failures, 0);
    assert!(t.first_failure_at.is_none());
    assert!(t.last_error.is_none());
    assert_eq!(t.seconds_since_first_failure(100), None);
}

#[test]
fn first_failure_time_present_iff_failures_positive() {
    let mut t = FailureTracker::new();
    assert!(t.first_failure_at.is_some() == (t.consecutive_failures > 0));
    t.record_failure(10, String::from("boom"));
    assert!(t.first_failure_at.is_some() == (t.consecutive_failures > 0));
    t.record_failure(20, String::from("boom again"));
    assert!(t.first_failure_at.is_some() == (t.consecutive_failures > 0));
    t.record_success();
    assert!(t.first_failure_at.is_some() == (t.consecutive_failures > 0));
}

#[test]
fn success_resets_everything() {
    let mut t = FailureTracker::new();
    t.record_failure(10, String::from("a"));
    t.record_failure(15, String::from("b"));
    t.record_success();
    assert_eq!(t.consecutive_failures, 0);
    assert!(t.first_failure_at.is_none());
    assert!(t.last_error.is_none());
}

#[test]
fn failure_then_success_equals_fresh() {
    let mut t = FailureTracker::new();
    t.record_failure(10, String::from("a"));
    t.record_success();
    let fresh = FailureTracker::new();
    assert_eq!(t.consecutive_failures, fresh.consecutive_failures);
    assert_eq!(t.first_failure_at, fresh.first_failure_at);
    assert_eq!(t.last_error, fresh.last_error);
}

#[test]
fn failure_run_keeps_first_time_and_counts() {
    let mut t = FailureTracker::new();
    t.record_failure(100, String::from("x"));
    assert_eq!(t.first_failure_at, Some(100));
    assert_eq!(t.consecutive_failures, 1);
    t.record_failure(160, String::from("y"));
    assert_eq!(t.first_failure_at, Some(100));
    assert_eq!(t.consecutive_failures, 2);
    assert_eq!(t.last_error, Some(String::from("y")));
}

#[test]
fn seconds_since_first_failure_is_monotonic_in_time() {
    let mut t = FailureTracker::new();
    t.record_failure(100, String::from("x"));
    let s1 = t.seconds_since_first_failure(130).unwrap();
    let s2 = t.seconds_since_first_failure(190).unwrap();
    assert_eq!(s1, 30);
    assert_eq!(s2, 90);
    assert!(s1 <= s2);
}

#[test]
fn gate_without_cooldown_fires_once_until_reset() {
    let mut g = AlertGate::new(None);
    assert!(g.should_send_alert(50));
    assert!(!g.should_send_alert(50));
    assert!(!g.should_send_alert(1_000_000));
    g.reset();
    assert!(g.should_send_alert(2_000_000));
}

#[test]
fn gate_with_cooldown_rearms_after_window() {
    let mut g = AlertGate::new(Some(300));
    assert!(g.should_send_alert(1000));
    assert!(!g.should_send_alert(1299));
    assert!(g.should_send_alert(1300));
    assert!(!g.should_send_alert(1301));
}
