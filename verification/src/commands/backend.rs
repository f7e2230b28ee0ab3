//! Backend management commands: the status query surface and the restart
//! request.

use crate::backend::monitor::BackendMonitor;
use crate::backend::state::BackendState;
use vstd::prelude::*;

verus! {

#[derive(Debug, Clone, PartialEq, Eq)]
pub struct BackendStatus {
    pub state: String,
    pub is_running: bool,
    pub is_healthy: bool,
    pub can_restart: bool,
}

/// What a `BackendStatus` holds, with the state's name as a character
/// sequence.
pub struct BackendStatusView {
    pub state: Seq<char>,
    pub is_running: bool,
    pub is_healthy: bool,
    pub can_restart: bool,
}

impl View for BackendStatus {
    type V = BackendStatusView;

    open spec fn view(&self) -> BackendStatusView {
        BackendStatusView {
            state: self.state@,
            is_running: self.is_running,
            is_healthy: self.is_healthy,
            can_restart: self.can_restart,
        }
    }
}

#[derive(Debug, Clone, PartialEq, Eq)]
pub struct BackendHealth {
    pub status: String,
    pub ready: bool,
    pub db_status: String,
}

/// What a `BackendHealth` holds, with texts as character sequences.
pub struct BackendHealthView {
    pub status: Seq<char>,
    pub ready: bool,
    pub db_status: Seq<char>,
}

impl View for BackendHealth {
    type V = BackendHealthView;

    open spec fn view(&self) -> BackendHealthView {
        BackendHealthView { status: self.status@, ready: self.ready, db_status: self.db_status@ }
    }
}

/// The status that is reported for a lifecycle state: its name, whether it
/// is a running state, whether it is `Healthy`, and whether a restart is
/// possible, which it is exactly in a terminal state.
pub open spec fn status_of(state: BackendState) -> BackendStatusView {
    BackendStatusView {
        state: state.description_text(),
        is_running: state.running(),
        is_healthy: state == BackendState::Healthy,
        can_restart: state.stopped(),
    }
}

/// The health summary that is reported for a lifecycle state.
pub open spec fn health_of(state: BackendState) -> BackendHealthView {
    BackendHealthView {
        status: state.description_text(),
        ready: state == BackendState::Healthy,
        db_status: "ok"@,
    }
}

/// The answer to a restart request in a lifecycle state: refused while the
/// backend is running, accepted otherwise.
pub open spec fn restart_answer(state: BackendState) -> Result<Seq<char>, Seq<char>> {
    if state.running() {
        Err("Backend is already running. Stop it first."@)
    } else {
        Ok("Backend restart initiated"@)
    }
}

/// Get current backend status
pub fn get_backend_status(monitor: &BackendMonitor) -> (r: BackendStatus)
    ensures
        r@ == status_of(monitor.state()),
{
    let state = monitor.get_state();
    BackendStatus {
        state: state.to_string(),
        is_running: state.is_running(),
        is_healthy: state.is_healthy(),
        can_restart: state.is_stopped(),
    }
}

/// Get backend health information, as far as the monitor knows it
pub fn get_backend_health(monitor: &BackendMonitor) -> (r: Result<BackendHealth, String>)
    ensures
        r is Ok,
        r->Ok_0@ == health_of(monitor.state()),
{
    let state = monitor.get_state();
    Ok(
        BackendHealth {
            status: state.to_string(),
            ready: state.is_healthy(),
            db_status: String::from_str("ok"),
        },
    )
}

/// Answers a request to restart the backend
pub fn restart_backend(monitor: &BackendMonitor) -> (r: Result<String, String>)
    ensures
        match restart_answer(monitor.state()) {
            Ok(text) => r is Ok && r->Ok_0@ == text,
            Err(text) => r is Err && r->Err_0@ == text,
        },
{
    let state = monitor.get_state();
    if state.is_running() {
        return Err(String::from_str("Backend is already running. Stop it first."));
    }
    Ok(String::from_str("Backend restart initiated"))
}

/// The status query changes nothing and reads the lifecycle state alone, so
/// two queries with no transition between them give the same status.
pub proof fn lemma_status_query_repeats(
    monitor: BackendMonitor,
    first: BackendStatus,
    second: BackendStatus,
)
    requires
        first@ == status_of(monitor.state()),
        second@ == status_of(monitor.state()),
    ensures
        first@ == second@,
{
}

/// A restart is offered exactly in the terminal states, and never while the
/// backend counts as running or healthy.
pub proof fn lemma_restart_only_when_stopped(state: BackendState)
    ensures
        status_of(state).can_restart <==> state.stopped(),
        status_of(state).can_restart ==> !status_of(state).is_running && !status_of(
            state,
        ).is_healthy,
        status_of(state).is_healthy ==> status_of(state).is_running,
{
}

} // verus!
