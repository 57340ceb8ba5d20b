//! The data model: validators, nodes, probe observations and display state.
//!
//! A validator is a stable pair of nodes; a node's role (active, standby,
//! unknown) is derived from its reported identity, never stored as primary
//! truth.  Timestamps are monotonic seconds supplied by the caller.

use vstd::prelude::*;

verus! {

/// The single global UI mode.
#[derive(Debug, Clone, Copy, PartialEq, Eq, Structural)]
pub enum ViewState {
    Status,
    Switch,
}

/// The derived role of a node within its pair.
#[derive(Debug, Clone, Copy, PartialEq, Eq, Structural)]
pub enum NodeStatus {
    Active,
    Standby,
    Unknown,
}

/// The validator client software detected on a node.
#[derive(Debug, Clone, Copy, PartialEq, Eq, Structural)]
pub enum ValidatorType {
    Firedancer,
    Agave,
    Jito,
    Unknown,
}

/// A physical host.
#[derive(Clone)]
pub struct Node {
    pub label: String,
    pub host: String,
}

/// The on-chain identity of a logical validator and where to reach it.
#[derive(Clone)]
pub struct ValidatorPair {
    pub identity_pubkey: String,
    pub vote_pubkey: String,
    pub rpc: String,
}

/// A node together with everything the console has learned about it.
#[derive(Clone)]
pub struct NodeWithStatus {
    pub node: Node,
    pub status: NodeStatus,
    pub validator_type: ValidatorType,
    pub solana_cli_executable: Option<String>,
    pub agave_validator_executable: Option<String>,
    pub fdctl_executable: Option<String>,
    pub ledger_path: Option<String>,
    pub current_identity: Option<String>,
    pub version: Option<String>,
    pub sync_status: Option<String>,
    pub swap_ready: Option<bool>,
}

/// A logical validator: its identity and its ordered pair of nodes.
#[derive(Clone)]
pub struct ValidatorStatus {
    pub validator_pair: ValidatorPair,
    pub nodes_with_status: Vec<NodeWithStatus>,
}

/// One observed vote.
#[derive(Clone, Copy)]
pub struct VoteInfo {
    pub slot: u64,
}

/// The latest successful vote-account read for a validator.
#[derive(Clone)]
pub struct ValidatorVoteData {
    pub recent_votes: Vec<VoteInfo>,
    pub is_voting: bool,
}

/// Parsed sync status of one node, as produced by the catchup streamer.
#[derive(Clone)]
pub struct CatchupStatus {
    pub status: String,
    pub last_updated: u64,
    pub is_streaming: bool,
}

/// Catchup status for both nodes of a pair.
#[derive(Clone)]
pub struct NodePairStatus {
    pub node_0: Option<CatchupStatus>,
    pub node_1: Option<CatchupStatus>,
}

/// SSH reachability of one node.  `failure_start` is set on the
/// healthy-to-unhealthy edge and cleared on recovery; `last_success` is
/// preserved across failures.
#[derive(Clone, Copy)]
pub struct SshHealthStatus {
    pub is_healthy: bool,
    pub last_success: Option<u64>,
    pub failure_start: Option<u64>,
}

/// SSH reachability for both nodes of a pair.
#[derive(Clone, Copy)]
pub struct NodePairSshStatus {
    pub node_0: SshHealthStatus,
    pub node_1: SshHealthStatus,
}

/// Health record for a validator: its probes' failure trackers and the last
/// known voting state.
#[derive(Clone)]
pub struct NodeHealthStatus {
    pub ssh_status: crate::tracker::FailureTracker,
    pub rpc_status: crate::tracker::FailureTracker,
    pub is_voting: bool,
    pub last_vote_slot: Option<u64>,
    pub last_vote_time: Option<u64>,
}

/// Which fields of one node are being re-probed right now (display tinting).
#[derive(Debug, Clone, Copy, PartialEq, Eq, Structural)]
pub struct FieldRefreshStates {
    pub status_refreshing: bool,
    pub identity_refreshing: bool,
    pub version_refreshing: bool,
    pub catchup_refreshing: bool,
    pub health_refreshing: bool,
}

impl FieldRefreshStates {
    /// The state with no re-probe in flight.
    pub open spec fn spec_default() -> FieldRefreshStates {
        FieldRefreshStates {
            status_refreshing: false,
            identity_refreshing: false,
            version_refreshing: false,
            catchup_refreshing: false,
            health_refreshing: false,
        }
    }
}

impl Default for FieldRefreshStates {
    fn default() -> (r: FieldRefreshStates)
        ensures
            r == FieldRefreshStates::spec_default(),
    {
        FieldRefreshStates {
            status_refreshing: false,
            identity_refreshing: false,
            version_refreshing: false,
            catchup_refreshing: false,
            health_refreshing: false,
        }
    }
}

/// Refresh tinting for both nodes of a pair.
#[derive(Debug, Clone, Copy, PartialEq, Eq, Structural)]
pub struct NodeFieldRefreshState {
    pub node_0: FieldRefreshStates,
    pub node_1: FieldRefreshStates,
}

/// The alerting options recognized by the engine.  Transport settings stay
/// outside the library.
#[derive(Clone, Copy)]
pub struct AlertConfig {
    pub enabled: bool,
    pub auto_failover_enabled: bool,
    pub delinquency_threshold_seconds: u64,
    pub ssh_failure_threshold_seconds: u64,
    pub rpc_failure_threshold_seconds: u64,
}

impl AlertConfig {
    /// The default thresholds: thirty seconds of a frozen slot count as
    /// delinquency; SSH and RPC outages alert after half an hour.
    pub open spec fn spec_default() -> AlertConfig {
        AlertConfig {
            enabled: false,
            auto_failover_enabled: false,
            delinquency_threshold_seconds: 30,
            ssh_failure_threshold_seconds: 1800,
            rpc_failure_threshold_seconds: 1800,
        }
    }
}

impl Default for AlertConfig {
    fn default() -> (r: AlertConfig)
        ensures
            r == AlertConfig::spec_default(),
    {
        AlertConfig {
            enabled: false,
            auto_failover_enabled: false,
            delinquency_threshold_seconds: 30,
            ssh_failure_threshold_seconds: 1800,
            rpc_failure_threshold_seconds: 1800,
        }
    }
}

/// A log line produced by a background task.
#[derive(Clone)]
pub struct LogMessage {
    pub host: String,
    pub message: String,
    pub timestamp: u64,
    pub level: LogLevel,
}

#[derive(Clone, Copy)]
pub enum LogLevel {
    Info,
    Warning,
    Error,
}

} // verus!
