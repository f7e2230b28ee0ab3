//! The shutdown policy: a best-effort request that asks the backend to save
//! its work, bounded in time, and then termination in every case.

use super::config::BackendConfig;
use vstd::prelude::*;

verus! {

/// The time allowed for connecting to the backend for the flush request.
pub const FLUSH_CONNECT_TIMEOUT_MS: u64 = 200;

/// The time allowed for the whole flush request.
pub const FLUSH_TIMEOUT_MS: u64 = 300;

/// How long shutdown waits for the flush request to have been attempted
/// before it goes on to terminate the backend.
pub const FLUSH_WAIT_MS: u64 = 400;

/// The request that asks the backend to save its work before it is stopped.
#[derive(Debug, Clone, PartialEq, Eq)]
pub struct FlushRequest {
    /// Where to `POST`.
    pub url: String,
    pub connect_timeout_ms: u64,
    pub timeout_ms: u64,
    /// The bound on waiting for the request to have been attempted.
    pub wait_ms: u64,
}

/// How the flush request went.
#[derive(Debug, Clone, PartialEq, Eq)]
pub enum FlushOutcome {
    /// No configuration was registered, so none was made.
    NotAttempted,
    /// No HTTP client could be built.
    ClientFailed(String),
    /// The request failed.
    Failed(String),
    /// A response arrived, with its status code.
    Responded { status: u16 },
    /// The bounded wait ran out before the request had been attempted.
    WaitElapsed,
}

/// What shutdown is to do: first the flush request, if there is one, within
/// its bounds; then, whatever came of it, terminate the process named.
#[derive(Debug, Clone, PartialEq, Eq)]
pub struct ShutdownPlan {
    pub flush: Option<FlushRequest>,
    /// The process id of the child to terminate; `None` where none is held.
    pub terminate: Option<u32>,
}

/// The address of the backup trigger.
pub open spec fn flush_url_text(config: &BackendConfig) -> Seq<char> {
    config.url_text() + "/backups/trigger"@
}

/// The flush request for a backend with this configuration.
pub fn flush_request(config: &BackendConfig) -> (r: FlushRequest)
    ensures
        r.url@ == flush_url_text(config),
        r.connect_timeout_ms == FLUSH_CONNECT_TIMEOUT_MS,
        r.timeout_ms == FLUSH_TIMEOUT_MS,
        r.wait_ms == FLUSH_WAIT_MS,
{
    FlushRequest {
        url: config.backend_url().concat("/backups/trigger"),
        connect_timeout_ms: FLUSH_CONNECT_TIMEOUT_MS,
        timeout_ms: FLUSH_TIMEOUT_MS,
        wait_ms: FLUSH_WAIT_MS,
    }
}

/// The result of a shutdown as a function of the termination alone.
pub open spec fn shutdown_result(kill_error: Option<Seq<char>>) -> Result<(), Seq<char>> {
    match kill_error {
        None => Ok(()),
        Some(text) => Err("Failed to kill process: "@ + text),
    }
}

/// The bounds of the flush request lie within each other, and the wait is
/// strictly shorter than the shutdown timeout of any configuration that
/// passes validation: the flush can never use up the time allowed for
/// stopping.
pub proof fn lemma_flush_wait_is_bounded(config: BackendConfig)
    requires
        config.valid(),
    ensures
        FLUSH_CONNECT_TIMEOUT_MS <= FLUSH_TIMEOUT_MS < FLUSH_WAIT_MS,
        FLUSH_WAIT_MS < config.shutdown_timeout_secs * 1000,
{
}

} // verus!
