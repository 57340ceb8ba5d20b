use valmon::failover::{select_failover_nodes, FailoverOrchestrator, FailoverStage};
use valmon::ssh_health::ssh_probe_step;
use valmon::state::UiState;
use valmon::suppress::AlertGate;
use valmon::tracker::FailureTracker;
use valmon::types::{
    AlertConfig, Node, NodeStatus, SshHealthStatus, ValidatorPair, ValidatorStatus, ValidatorType,
    NodeWithStatus, ValidatorVoteData, VoteInfo, ViewState,
};
use valmon::ui::{emergency_transition, handle_key, KeyAction, KeyInput, TerminalTransition};
use valmon::vote::PollOutcome;

fn test_node(label: &str, status: NodeStatus) -> NodeWithStatus {
    NodeWithStatus {
        node: Node { label: String::from(label), host: format!("{}.example", label) },
        status,
        validator_type: ValidatorType::Agave,
        solana_cli_executable: None,
        agave_validator_executable: Some(String::from("/usr/bin/agave-validator")),
        fdctl_executable: None,
        ledger_path: None,
        current_identity: None,
        version: None,
        sync_status: None,
        swap_ready: Some(true),
    }
}

fn test_fleet() -> Vec<ValidatorStatus> {
    vec![ValidatorStatus {
        validator_pair: ValidatorPair {
            identity_pubkey: String::from("IDENTITY"),
            vote_pubkey: String::from("VOTE"),
            rpc: String::from("https://rpc.example"),
        },
        nodes_with_status: vec![
            test_node("alpha", NodeStatus::Active),
            test_node("beta", NodeStatus::Standby),
        ],
    }]
}

fn test_config() -> AlertConfig {
    AlertConfig {
        enabled: true,
        auto_failover_enabled: false,
        delinquency_threshold_seconds: 30,
        ssh_failure_threshold_seconds: 1800,
        rpc_failure_threshold_seconds: 1800,
    }
}

fn poll_with_slot(slot: u64) -> PollOutcome {
    PollOutcome::Data(ValidatorVoteData {
        recent_votes: vec![VoteInfo { slot: slot - 2 }, VoteInfo { slot }],
        is_voting: true,
    })
}

#[test]
fn happy_vote_advance_updates_clock_and_flash_without_alert() {
    let mut st = UiState::new(test_fleet(), 0);
    let mut delinquency = AlertGate::new(None);
    let mut rpc_gate = AlertGate::new(Some(1800));
    let cfg = test_config();

    let eff1 = st.apply_vote_poll(0, poll_with_slot(1000), &mut delinquency, &mut rpc_gate, 0, &cfg, false);
    assert_eq!(st.last_vote_slot_times[0], Some((1000, 0)));
    assert!(eff1.delinquency_alert.is_none());
    assert!(!eff1.start_failover);

    let eff2 = st.apply_vote_poll(0, poll_with_slot(1001), &mut delinquency, &mut rpc_gate, 5, &cfg, false);
    assert_eq!(st.last_vote_slot_times[0], Some((1001, 5)));
    assert_eq!(st.increment_times[0], Some(5));
    assert_eq!(st.previous_last_slots[0], Some(1000));
    assert!(eff2.delinquency_alert.is_none());
    assert!(eff2.rpc_failure_alert.is_none());
    assert!(!eff2.start_failover);
}

#[test]
fn delinquency_alert_fires_exactly_once_per_stall() {
    let mut st = UiState::new(test_fleet(), 0);
    let mut delinquency = AlertGate::new(None);
    let mut rpc_gate = AlertGate::new(Some(1800));
    let cfg = test_config();

    st.apply_vote_poll(0, poll_with_slot(1000), &mut delinquency, &mut rpc_gate, 0, &cfg, false);
    // One second short of the threshold: no alert.
    let eff = st.apply_vote_poll(0, poll_with_slot(1000), &mut delinquency, &mut rpc_gate, 29, &cfg, false);
    assert!(eff.delinquency_alert.is_none());
    // At the threshold: exactly one alert.
    let eff = st.apply_vote_poll(0, poll_with_slot(1000), &mut delinquency, &mut rpc_gate, 30, &cfg, false);
    assert_eq!(eff.delinquency_alert, Some(30));
    // Well past the threshold while suppressed: still just the one.
    let eff = st.apply_vote_poll(0, poll_with_slot(1000), &mut delinquency, &mut rpc_gate, 60, &cfg, false);
    assert!(eff.delinquency_alert.is_none());
}

#[test]
fn slot_advance_clears_suppression_and_rearms_alerting() {
    let mut st = UiState::new(test_fleet(), 0);
    let mut delinquency = AlertGate::new(None);
    let mut rpc_gate = AlertGate::new(Some(1800));
    let cfg = test_config();

    st.apply_vote_poll(0, poll_with_slot(1000), &mut delinquency, &mut rpc_gate, 0, &cfg, false);
    let eff = st.apply_vote_poll(0, poll_with_slot(1000), &mut delinquency, &mut rpc_gate, 30, &cfg, false);
    assert_eq!(eff.delinquency_alert, Some(30));
    // Recovery at t = 45: suppression cleared, no new alert.
    let eff = st.apply_vote_poll(0, poll_with_slot(1001), &mut delinquency, &mut rpc_gate, 45, &cfg, false);
    assert!(eff.delinquency_alert.is_none());
    assert_eq!(st.last_vote_slot_times[0], Some((1001, 45)));
    // A new stall of thirty seconds fires a new alert.
    let eff = st.apply_vote_poll(0, poll_with_slot(1001), &mut delinquency, &mut rpc_gate, 75, &cfg, false);
    assert_eq!(eff.delinquency_alert, Some(30));
}

#[test]
fn rpc_outage_alerts_once_and_never_triggers_failover() {
    let mut st = UiState::new(test_fleet(), 0);
    let mut delinquency = AlertGate::new(None);
    let mut rpc_gate = AlertGate::new(Some(1800));
    let mut cfg = test_config();
    cfg.auto_failover_enabled = true;

    // A healthy observation pins the delinquency clock.
    st.apply_vote_poll(0, poll_with_slot(1000), &mut delinquency, &mut rpc_gate, 0, &cfg, false);

    // RPC then fails for half an hour.
    let mut t = 5;
    let mut alerts = 0;
    while t <= 1805 {
        let eff = st.apply_vote_poll(
            0,
            PollOutcome::Failed(String::from("connect timeout")),
            &mut delinquency,
            &mut rpc_gate,
            t,
            &cfg,
            false,
        );
        if let Some((consecutive, seconds)) = eff.rpc_failure_alert {
            alerts += 1;
            assert!(seconds >= 1800);
            assert!(consecutive > 0);
        }
        assert!(eff.delinquency_alert.is_none());
        assert!(!eff.start_failover);
        // The delinquency clock is not advanced (nor reset) by RPC failures.
        assert_eq!(st.last_vote_slot_times[0], Some((1000, 0)));
        t += 30;
    }
    assert_eq!(alerts, 1);
}

#[test]
fn failover_starts_only_with_healthy_rpc_flag_and_no_other_run() {
    let cfg_on = AlertConfig { auto_failover_enabled: true, ..test_config() };

    // Eligible: frozen slot past the threshold, healthy RPC, flag on.
    let mut st = UiState::new(test_fleet(), 0);
    let mut delinquency = AlertGate::new(None);
    let mut rpc_gate = AlertGate::new(Some(1800));
    st.apply_vote_poll(0, poll_with_slot(1000), &mut delinquency, &mut rpc_gate, 0, &cfg_on, false);
    let eff = st.apply_vote_poll(0, poll_with_slot(1000), &mut delinquency, &mut rpc_gate, 45, &cfg_on, false);
    assert_eq!(eff.delinquency_alert, Some(45));
    assert!(eff.start_failover);

    // Another failover already in progress blocks the spawn.
    let mut st = UiState::new(test_fleet(), 0);
    let mut delinquency = AlertGate::new(None);
    let mut rpc_gate = AlertGate::new(Some(1800));
    st.apply_vote_poll(0, poll_with_slot(1000), &mut delinquency, &mut rpc_gate, 0, &cfg_on, false);
    let eff = st.apply_vote_poll(0, poll_with_slot(1000), &mut delinquency, &mut rpc_gate, 45, &cfg_on, true);
    assert_eq!(eff.delinquency_alert, Some(45));
    assert!(!eff.start_failover);

    // Auto-failover disabled blocks the spawn.
    let mut st = UiState::new(test_fleet(), 0);
    let mut delinquency = AlertGate::new(None);
    let mut rpc_gate = AlertGate::new(Some(1800));
    let cfg_off = test_config();
    st.apply_vote_poll(0, poll_with_slot(1000), &mut delinquency, &mut rpc_gate, 0, &cfg_off, false);
    let eff = st.apply_vote_poll(0, poll_with_slot(1000), &mut delinquency, &mut rpc_gate, 45, &cfg_off, false);
    assert_eq!(eff.delinquency_alert, Some(45));
    assert!(!eff.start_failover);
}

#[test]
fn ssh_probe_tracks_edges_and_preserves_last_success() {
    let mut tracker = FailureTracker::new();
    let mut gate = AlertGate::new(Some(1800));
    let cfg = test_config();
    let healthy = SshHealthStatus { is_healthy: true, last_success: Some(100), failure_start: None };

    let (s1, a1) = ssh_probe_step(&healthy, &mut tracker, &mut gate, false, String::from("down"), 130, &cfg);
    assert!(!s1.is_healthy);
    assert_eq!(s1.last_success, Some(100));
    assert_eq!(s1.failure_start, Some(130));
    assert!(a1.is_none());

    let (s2, a2) = ssh_probe_step(&s1, &mut tracker, &mut gate, false, String::from("down"), 160, &cfg);
    assert_eq!(s2.last_success, Some(100));
    assert_eq!(s2.failure_start, Some(130));
    assert!(a2.is_none());

    let (s3, a3) = ssh_probe_step(&s2, &mut tracker, &mut gate, true, String::new(), 200, &cfg);
    assert!(s3.is_healthy);
    assert_eq!(s3.last_success, Some(200));
    assert_eq!(s3.failure_start, None);
    assert!(a3.is_none());
    assert_eq!(tracker.consecutive_failures, 0);
}

#[test]
fn ssh_outage_alerts_at_threshold() {
    let mut tracker = FailureTracker::new();
    let mut gate = AlertGate::new(Some(1800));
    let cfg = test_config();
    let mut status = SshHealthStatus { is_healthy: true, last_success: Some(0), failure_start: None };
    let mut alerts = 0;
    let mut t = 30;
    while t <= 1860 {
        let (s, a) = ssh_probe_step(&status, &mut tracker, &mut gate, false, String::from("down"), t, &cfg);
        status = s;
        if let Some((consecutive, seconds)) = a {
            alerts += 1;
            assert!(seconds >= 1800);
            assert!(consecutive > 0);
        }
        t += 30;
    }
    assert_eq!(alerts, 1);
}

#[test]
fn refresh_key_is_idempotent_while_in_flight() {
    let mut st = UiState::new(test_fleet(), 0);
    st.begin_field_refresh();
    assert!(st.is_refreshing);
    assert!(st.any_field_refreshing());
    let once = st.field_refresh_states.clone();
    st.begin_field_refresh();
    st.begin_field_refresh();
    assert_eq!(st.field_refresh_states.len(), once.len());
    for (a, b) in st.field_refresh_states.iter().zip(once.iter()) {
        assert_eq!(a, b);
    }
    st.clear_refresh_complete();
    assert!(!st.is_refreshing);
}

#[test]
fn identity_refresh_derives_the_role() {
    let mut st = UiState::new(test_fleet(), 0);
    st.begin_field_refresh();
    st.apply_status_identity_refresh(0, 1, Some(String::from("IDENTITY")), Some(String::from("Caught up")));
    let node = &st.validator_statuses[0].nodes_with_status[1];
    assert_eq!(node.status, NodeStatus::Active);
    assert_eq!(node.current_identity, Some(String::from("IDENTITY")));
    assert_eq!(node.sync_status, Some(String::from("Caught up")));
    assert!(!st.field_refresh_states[0].node_1.status_refreshing);
    assert!(!st.field_refresh_states[0].node_1.identity_refreshing);
    assert!(st.field_refresh_states[0].node_1.version_refreshing);

    st.apply_status_identity_refresh(0, 0, Some(String::from("SOMETHING_ELSE")), None);
    assert_eq!(st.validator_statuses[0].nodes_with_status[0].status, NodeStatus::Standby);
    st.apply_status_identity_refresh(0, 0, None, None);
    assert_eq!(st.validator_statuses[0].nodes_with_status[0].status, NodeStatus::Unknown);
}

#[test]
fn version_refresh_stores_client_and_clears_tint() {
    let mut st = UiState::new(test_fleet(), 0);
    st.begin_field_refresh();
    st.apply_version_refresh(0, 0, ValidatorType::Jito, Some(String::from("2.0.14-jito")));
    let node = &st.validator_statuses[0].nodes_with_status[0];
    assert_eq!(node.validator_type, ValidatorType::Jito);
    assert_eq!(node.version, Some(String::from("2.0.14-jito")));
    assert!(!st.field_refresh_states[0].node_0.version_refreshing);
    assert!(st.field_refresh_states[0].node_0.status_refreshing);
}

#[test]
fn catchup_stream_lines_update_the_cell() {
    let mut st = UiState::new(test_fleet(), 0);
    st.record_catchup_line(0, 1, false, "  5 slot(s) behind \n", 42);
    let cell = st.catchup_data[0].node_1.as_ref().unwrap();
    assert_eq!(cell.status, "5 slots behind");
    assert_eq!(cell.last_updated, 42);
    assert!(cell.is_streaming);
    st.mark_stream_ended(0, 1);
    let cell = st.catchup_data[0].node_1.as_ref().unwrap();
    assert_eq!(cell.status, "5 slots behind");
    assert!(!cell.is_streaming);
}

#[test]
fn initial_state_marks_standby_catchup_only() {
    let st = UiState::new(test_fleet(), 7);
    assert!(st.catchup_data[0].node_0.is_none());
    let standby_cell = st.catchup_data[0].node_1.as_ref().unwrap();
    assert_eq!(standby_cell.status, "⏳ Initializing...");
    assert!(st.ssh_health_data[0].node_0.is_healthy);
    assert_eq!(st.ssh_health_data[0].node_0.last_success, Some(7));
    assert!(st.vote_data[0].is_none());
    assert!(!st.is_refreshing);
}

#[test]
fn key_bindings_follow_the_views() {
    assert_eq!(handle_key(KeyInput::Char('q'), ViewState::Status), KeyAction::Quit);
    assert_eq!(handle_key(KeyInput::Esc, ViewState::Status), KeyAction::Quit);
    assert_eq!(
        handle_key(KeyInput::Char('q'), ViewState::Switch),
        KeyAction::ReturnToStatusAndRefresh
    );
    assert_eq!(handle_key(KeyInput::CtrlC, ViewState::Switch), KeyAction::Quit);
    assert_eq!(handle_key(KeyInput::Char('s'), ViewState::Status), KeyAction::EnterSwitchView);
    assert_eq!(handle_key(KeyInput::Char('S'), ViewState::Status), KeyAction::EnterSwitchView);
    assert_eq!(
        handle_key(KeyInput::Char('y'), ViewState::Switch),
        KeyAction::ConfirmSwitchAndQuit
    );
    assert_eq!(handle_key(KeyInput::Char('y'), ViewState::Status), KeyAction::Ignore);
    assert_eq!(handle_key(KeyInput::Char('r'), ViewState::Status), KeyAction::TriggerRefresh);
    assert_eq!(handle_key(KeyInput::Char('r'), ViewState::Switch), KeyAction::Ignore);
    assert_eq!(handle_key(KeyInput::Char('x'), ViewState::Status), KeyAction::Ignore);
    assert_eq!(handle_key(KeyInput::Other, ViewState::Status), KeyAction::Ignore);
}

#[test]
fn takeover_flag_is_raised_exactly_while_busy() {
    let mut orchestrator = FailoverOrchestrator::new();
    assert!(!orchestrator.takeover_in_progress);
    orchestrator.begin();
    assert!(orchestrator.takeover_in_progress);
    assert_eq!(orchestrator.stage, FailoverStage::Suspending);
    orchestrator.start_executing();
    assert!(orchestrator.takeover_in_progress);
    orchestrator.settle();
    assert!(orchestrator.takeover_in_progress);
    orchestrator.finish();
    assert!(!orchestrator.takeover_in_progress);
    assert_eq!(orchestrator.stage, FailoverStage::Idle);
}

#[test]
fn render_loop_hands_terminal_over_on_edges() {
    assert_eq!(emergency_transition(true, false), TerminalTransition::Suspend);
    assert_eq!(emergency_transition(false, true), TerminalTransition::Restore);
    assert_eq!(emergency_transition(true, true), TerminalTransition::Stay);
    assert_eq!(emergency_transition(false, false), TerminalTransition::Stay);
}

#[test]
fn failover_nodes_need_both_roles() {
    let nodes = vec![test_node("a", NodeStatus::Standby), test_node("b", NodeStatus::Active)];
    assert_eq!(select_failover_nodes(&nodes), Some((1, 0)));
    let nodes = vec![test_node("a", NodeStatus::Unknown), test_node("b", NodeStatus::Active)];
    assert_eq!(select_failover_nodes(&nodes), None);
    let nodes = vec![test_node("a", NodeStatus::Standby), test_node("b", NodeStatus::Standby)];
    assert_eq!(select_failover_nodes(&nodes), None);
}

#[test]
fn successful_poll_without_votes_clears_the_clock() {
    let mut st = UiState::new(test_fleet(), 0);
    let mut delinquency = AlertGate::new(None);
    let mut rpc_gate = AlertGate::new(Some(1800));
    let cfg = test_config();
    st.apply_vote_poll(0, poll_with_slot(1000), &mut delinquency, &mut rpc_gate, 0, &cfg, false);
    let empty = PollOutcome::Data(ValidatorVoteData { recent_votes: vec![], is_voting: false });
    st.apply_vote_poll(0, empty, &mut delinquency, &mut rpc_gate, 5, &cfg, false);
    assert_eq!(st.last_vote_slot_times[0], None);
}
