//! Monitoring and failover engine for a paired-node validator deployment.
//!
//! Each logical validator runs as two physical nodes, one holding the funded
//! (voting) identity and one holding an unfunded standby identity.  This
//! library contains the verified core of the operator console that watches
//! such pairs: the failure-tracking state machines, the shared monitor state
//! that probes write and the dashboard reads, the vote-poll and SSH-probe
//! transition functions, alert suppression, catchup-output parsing, and the
//! emergency-failover orchestration rules.  All timestamps are monotonic
//! seconds supplied by the caller; the I/O loops that produce probe results
//! and render the terminal live outside the library.

pub mod catchup;
pub mod display;
pub mod failover;
pub mod refresh;
pub mod ssh_health;
pub mod state;
pub mod strutil;
pub mod suppress;
pub mod tracker;
pub mod types;
pub mod ui;
pub mod vote;
