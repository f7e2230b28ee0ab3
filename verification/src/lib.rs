//! Supervision of one long-running local backend process: configuration
//! checks, the readiness wait with its backoff, the lifecycle state machine
//! driven by health polls and process exit, and the bounded shutdown policy.
//!
//! Everything here computes on plain values. The embedding application
//! performs the actual process, network and clock operations and feeds their
//! outcomes to these functions.

pub mod backend;
pub mod commands;
pub mod error;
pub mod events;
pub mod text;
