//! Lifecycle states of the supervised backend and the transitions between them.

use vstd::prelude::*;

verus! {

#[derive(Debug, Clone, Copy, PartialEq, Eq, Structural)]
pub enum BackendState {
    /// Initial state, backend not yet started
    NotStarted,
    /// Backend process is spawning
    Starting,
    /// Backend is running and healthy
    Healthy,
    /// Backend is running but health checks are failing
    Unhealthy,
    /// Graceful shutdown in progress
    Stopping,
    /// Backend has stopped cleanly
    StoppedClean,
    /// Backend was force-killed
    StoppedForce,
    /// Backend crashed unexpectedly
    Crashed,
}

impl BackendState {
    /// The running states: `Starting` and `Healthy`.
    pub open spec fn running(self) -> bool {
        self == BackendState::Starting || self == BackendState::Healthy
    }

    /// The terminal states of one process instance.
    pub open spec fn stopped(self) -> bool {
        self == BackendState::StoppedClean || self == BackendState::StoppedForce || self
            == BackendState::Crashed
    }

    /// The transition relation of the lifecycle: `self` may be followed by `next`.
    pub open spec fn may_become(self, next: BackendState) -> bool {
        match (self, next) {
            (BackendState::NotStarted, BackendState::Starting) => true,
            (BackendState::Starting, BackendState::Healthy) => true,
            (BackendState::Starting, BackendState::Crashed) => true,
            (BackendState::Healthy, BackendState::Unhealthy) => true,
            (BackendState::Healthy, BackendState::Crashed) => true,
            (BackendState::Healthy, BackendState::Stopping) => true,
            (BackendState::Unhealthy, BackendState::Healthy) => true,
            (BackendState::Unhealthy, BackendState::Stopping) => true,
            (BackendState::Stopping, BackendState::StoppedClean) => true,
            (BackendState::Stopping, BackendState::StoppedForce) => true,
            _ => false,
        }
    }

    /// The human-readable name of the state.
    pub open spec fn description_text(self) -> Seq<char> {
        match self {
            BackendState::NotStarted => "Not Started"@,
            BackendState::Starting => "Starting"@,
            BackendState::Healthy => "Healthy"@,
            BackendState::Unhealthy => "Unhealthy"@,
            BackendState::Stopping => "Stopping"@,
            BackendState::StoppedClean => "Stopped (Clean)"@,
            BackendState::StoppedForce => "Stopped (Forced)"@,
            BackendState::Crashed => "Crashed"@,
        }
    }

    pub fn is_running(&self) -> (r: bool)
        ensures
            r == self.running(),
    {
        matches!(self, BackendState::Starting | BackendState::Healthy)
    }

    pub fn is_healthy(&self) -> (r: bool)
        ensures
            r == (*self == BackendState::Healthy),
    {
        matches!(self, BackendState::Healthy)
    }

    pub fn is_stopped(&self) -> (r: bool)
        ensures
            r == self.stopped(),
    {
        matches!(
            self,
            BackendState::StoppedClean | BackendState::StoppedForce | BackendState::Crashed
        )
    }

    pub fn is_stopping(&self) -> (r: bool)
        ensures
            r == (*self == BackendState::Stopping),
    {
        matches!(self, BackendState::Stopping)
    }

    /// Whether the lifecycle allows moving from this state to `next`.
    pub fn can_become(&self, next: BackendState) -> (r: bool)
        ensures
            r == self.may_become(next),
    {
        match (*self, next) {
            (BackendState::NotStarted, BackendState::Starting) => true,
            (BackendState::Starting, BackendState::Healthy) => true,
            (BackendState::Starting, BackendState::Crashed) => true,
            (BackendState::Healthy, BackendState::Unhealthy) => true,
            (BackendState::Healthy, BackendState::Crashed) => true,
            (BackendState::Healthy, BackendState::Stopping) => true,
            (BackendState::Unhealthy, BackendState::Healthy) => true,
            (BackendState::Unhealthy, BackendState::Stopping) => true,
            (BackendState::Stopping, BackendState::StoppedClean) => true,
            (BackendState::Stopping, BackendState::StoppedForce) => true,
            _ => false,
        }
    }

    pub fn description(&self) -> (r: &'static str)
        ensures
            r@ == self.description_text(),
    {
        match self {
            BackendState::NotStarted => "Not Started",
            BackendState::Starting => "Starting",
            BackendState::Healthy => "Healthy",
            BackendState::Unhealthy => "Unhealthy",
            BackendState::Stopping => "Stopping",
            BackendState::StoppedClean => "Stopped (Clean)",
            BackendState::StoppedForce => "Stopped (Forced)",
            BackendState::Crashed => "Crashed",
        }
    }

    /// The text that a display of the state shows: its description.
    pub fn to_string(&self) -> (r: String)
        ensures
            r@ == self.description_text(),
    {
        String::from_str(self.description())
    }
}

/// A terminal state has no successor, so monitoring of that process instance
/// ends there.
pub proof fn lemma_stopped_is_final(s: BackendState, next: BackendState)
    requires
        s.stopped(),
    ensures
        !s.may_become(next),
{
}

/// A state is never both running and terminal.
pub proof fn lemma_running_excludes_stopped(s: BackendState)
    ensures
        !(s.running() && s.stopped()),
{
}

} // verus!
