//! Errors of backend supervision.

use crate::text::{decimal, decimal_text};
use vstd::prelude::*;

verus! {

#[derive(Debug, Clone, PartialEq, Eq)]
pub enum BackendError {
    /// Configuration error (missing/invalid setting, invalid port, etc)
    ConfigError(String),
    /// Binary not found at expected path
    BinaryNotFound(String),
    /// Port is already in use
    PortAlreadyBound { port: u16 },
    /// Failed to spawn backend process
    SpawnFailed(String),
    /// Backend not responding to health checks
    HealthCheckTimeout { duration_secs: u64 },
    /// Health check returned a status outside 2xx
    UnhealthyResponse { status: u16, body: String },
    /// Network error (connection refused, timeout, etc)
    NetworkError(String),
    /// Database is corrupted or inaccessible
    DatabaseError(String),
    /// Graceful shutdown timeout exceeded
    ShutdownTimeout { duration_secs: u64 },
    /// Unexpected internal error
    Internal(String),
}

/// What a `BackendError` holds, with texts as character sequences.
pub enum BackendErrorView {
    ConfigError(Seq<char>),
    BinaryNotFound(Seq<char>),
    PortAlreadyBound { port: u16 },
    SpawnFailed(Seq<char>),
    HealthCheckTimeout { duration_secs: u64 },
    UnhealthyResponse { status: u16, body: Seq<char> },
    NetworkError(Seq<char>),
    DatabaseError(Seq<char>),
    ShutdownTimeout { duration_secs: u64 },
    Internal(Seq<char>),
}

impl View for BackendError {
    type V = BackendErrorView;

    open spec fn view(&self) -> BackendErrorView {
        match *self {
            BackendError::ConfigError(m) => BackendErrorView::ConfigError(m@),
            BackendError::BinaryNotFound(p) => BackendErrorView::BinaryNotFound(p@),
            BackendError::PortAlreadyBound { port } => BackendErrorView::PortAlreadyBound { port },
            BackendError::SpawnFailed(m) => BackendErrorView::SpawnFailed(m@),
            BackendError::HealthCheckTimeout { duration_secs } => {
                BackendErrorView::HealthCheckTimeout { duration_secs }
            },
            BackendError::UnhealthyResponse { status, body } => {
                BackendErrorView::UnhealthyResponse { status, body: body@ }
            },
            BackendError::NetworkError(m) => BackendErrorView::NetworkError(m@),
            BackendError::DatabaseError(m) => BackendErrorView::DatabaseError(m@),
            BackendError::ShutdownTimeout { duration_secs } => {
                BackendErrorView::ShutdownTimeout { duration_secs }
            },
            BackendError::Internal(m) => BackendErrorView::Internal(m@),
        }
    }
}

impl BackendErrorView {
    /// The message that the error shows to a user.
    pub open spec fn display_text(self) -> Seq<char> {
        match self {
            BackendErrorView::ConfigError(m) => "Configuration error: "@ + m,
            BackendErrorView::BinaryNotFound(p) => "Backend binary not found: "@ + p,
            BackendErrorView::PortAlreadyBound { port } => "Port "@ + decimal_text(port as nat)
                + " is already in use. Check for running instances or change BACKEND_PORT."@,
            BackendErrorView::SpawnFailed(m) => "Failed to spawn backend process: "@ + m,
            BackendErrorView::HealthCheckTimeout { duration_secs } => {
                "Backend did not become healthy within "@ + decimal_text(duration_secs as nat)
                    + "s. Check logs for startup errors."@
            },
            BackendErrorView::UnhealthyResponse { status, body } => {
                "Backend returned unhealthy status "@ + decimal_text(status as nat) + ": "@ + body
            },
            BackendErrorView::NetworkError(m) => "Network error connecting to backend: "@ + m
                + ". Backend may not be running."@,
            BackendErrorView::DatabaseError(m) => "Database error: "@ + m,
            BackendErrorView::ShutdownTimeout { duration_secs } => {
                "Backend did not stop gracefully within "@ + decimal_text(duration_secs as nat)
                    + "s"@
            },
            BackendErrorView::Internal(m) => "Internal error: "@ + m,
        }
    }
}

impl BackendError {
    /// The message that the error shows to a user.
    pub fn to_string(&self) -> (r: String)
        ensures
            r@ == self@.display_text(),
    {
        match self {
            BackendError::ConfigError(msg) => {
                String::from_str("Configuration error: ").concat(msg.as_str())
            },
            BackendError::BinaryNotFound(path) => {
                String::from_str("Backend binary not found: ").concat(path.as_str())
            },
            BackendError::PortAlreadyBound { port } => {
                let n = decimal(*port as u64);
                String::from_str("Port ").concat(n.as_str()).concat(
                    " is already in use. Check for running instances or change BACKEND_PORT.",
                )
            },
            BackendError::SpawnFailed(msg) => {
                String::from_str("Failed to spawn backend process: ").concat(msg.as_str())
            },
            BackendError::HealthCheckTimeout { duration_secs } => {
                let n = decimal(*duration_secs);
                String::from_str("Backend did not become healthy within ").concat(
                    n.as_str(),
                ).concat("s. Check logs for startup errors.")
            },
            BackendError::UnhealthyResponse { status, body } => {
                let n = decimal(*status as u64);
                String::from_str("Backend returned unhealthy status ").concat(n.as_str()).concat(
                    ": ",
                ).concat(body.as_str())
            },
            BackendError::NetworkError(msg) => {
                String::from_str("Network error connecting to backend: ").concat(
                    msg.as_str(),
                ).concat(". Backend may not be running.")
            },
            BackendError::DatabaseError(msg) => {
                String::from_str("Database error: ").concat(msg.as_str())
            },
            BackendError::ShutdownTimeout { duration_secs } => {
                let n = decimal(*duration_secs);
                String::from_str("Backend did not stop gracefully within ").concat(
                    n.as_str(),
                ).concat("s")
            },
            BackendError::Internal(msg) => {
                String::from_str("Internal error: ").concat(msg.as_str())
            },
        }
    }
}

} // verus!
