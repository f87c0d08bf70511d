//! Core logic of a disposable, remotely controlled browser session: process
//! orchestration, profile provisioning, a challenge-detection state machine,
//! a fixed sign-in flow, and registry-based teardown.
//!
//! All I/O (process spawning, the control connection, the filesystem) lives in
//! the surrounding application; this crate holds the decisions, the data, and
//! their proofs.

pub mod challenge;
pub mod cli;
pub mod errors;
pub mod listing;
pub mod orchestrator;
pub mod profile;
pub mod registry;
pub mod signin;
