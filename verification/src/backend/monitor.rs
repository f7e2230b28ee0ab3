//! The monitor of one supervised backend: the lifecycle state, the child it
//! holds, and the rules by which health polls, process exit and shutdown
//! move the state.
//!
//! The monitor holds no operating-system handle. The child is known by its
//! process id; whoever owns the handle feeds the monitor what it observed and
//! carries out what the monitor returns.

use super::config::BackendConfig;
use super::shutdown::{flush_request, flush_url_text, shutdown_result, FlushOutcome, ShutdownPlan};
use super::state::BackendState;
use crate::events::{Notification, NotificationView};
use crate::text::{signed_decimal, signed_decimal_text};
use vstd::prelude::*;

verus! {

/// The number of consecutive failed polls at which a healthy backend counts
/// as unhealthy.
pub const UNHEALTHY_AFTER_FAILURES: u32 = 3;

/// The failure count after one more failure. It stops at the largest value
/// it can hold.
pub open spec fn count_failure(failures: u32) -> u32 {
    if failures < u32::MAX {
        (failures + 1) as u32
    } else {
        failures
    }
}

/// State and failure count after one health poll. A terminal state takes no
/// poll. A success clears the count and makes a starting or unhealthy
/// backend healthy. A failure is counted; it ends a start that has not been
/// healthy yet, and makes a healthy backend unhealthy once the count has
/// reached the threshold.
pub open spec fn poll_next(state: BackendState, failures: u32, healthy: bool) -> (
    BackendState,
    u32,
) {
    if state.stopped() {
        (state, failures)
    } else if healthy {
        if state == BackendState::Starting || state == BackendState::Unhealthy {
            (BackendState::Healthy, 0u32)
        } else {
            (state, 0u32)
        }
    } else {
        let counted = count_failure(failures);
        if state == BackendState::Starting {
            (BackendState::Crashed, counted)
        } else if state == BackendState::Healthy && counted >= UNHEALTHY_AFTER_FAILURES {
            (BackendState::Unhealthy, counted)
        } else {
            (state, counted)
        }
    }
}

/// The reason given when a start ends on a failed health poll.
pub open spec fn startup_failure_reason() -> Seq<char> {
    "Backend did not become healthy after startup"@
}

/// The notification for the transition that a poll made, if it made one.
pub open spec fn poll_notice(before: BackendState, after: BackendState) -> Option<
    NotificationView,
> {
    if before == after {
        None
    } else if after == BackendState::Healthy {
        Some(NotificationView::Ready)
    } else if after == BackendState::Unhealthy {
        Some(NotificationView::Unhealthy)
    } else if after == BackendState::Crashed {
        Some(NotificationView::Crashed(startup_failure_reason()))
    } else {
        None
    }
}

/// The state after the child has exited: stopped cleanly on exit code 0,
/// crashed on any other code and where no code could be had.
pub open spec fn exit_state(code: Option<i32>) -> BackendState {
    if code == Some(0i32) {
        BackendState::StoppedClean
    } else {
        BackendState::Crashed
    }
}

/// The reason given for a crash.
pub open spec fn exit_reason(code: Option<i32>) -> Seq<char> {
    match code {
        Some(c) => "Process exited with code "@ + signed_decimal_text(c as int),
        None => "Process terminated abnormally"@,
    }
}

/// The notification for an exit of the child.
pub open spec fn exit_notice(code: Option<i32>) -> NotificationView {
    if code == Some(0i32) {
        NotificationView::Stopped
    } else {
        NotificationView::Crashed(exit_reason(code))
    }
}

/// Whether a restart is attempted after an exit: only after a crash, only
/// where the configuration asks for it, and only while the attempts made so
/// far are fewer than the configured maximum.
pub open spec fn restart_granted(
    code: Option<i32>,
    config: Option<BackendConfig>,
    attempts: u32,
) -> bool {
    &&& code != Some(0i32)
    &&& config is Some
    &&& config->Some_0.auto_restart
    &&& attempts < config->Some_0.max_restart_attempts
}

/// The state after a shutdown has been requested.
pub open spec fn stopping_state(state: BackendState) -> BackendState {
    if state == BackendState::Healthy || state == BackendState::Unhealthy {
        BackendState::Stopping
    } else {
        state
    }
}

/// The state after the termination step of a shutdown.
pub open spec fn terminated_state(state: BackendState, killed: bool) -> BackendState {
    if killed && state == BackendState::Stopping {
        BackendState::StoppedForce
    } else {
        state
    }
}

/// What to do after the child has exited.
#[derive(Debug, Clone, PartialEq, Eq)]
pub struct ExitDecision {
    /// What to tell the user interface.
    pub notification: Notification,
    /// Whether to start the backend again.
    pub restart: bool,
}

pub struct BackendMonitor {
    state: BackendState,
    child: Option<u32>,
    config: Option<BackendConfig>,
    consecutive_failures: u32,
    restart_attempts: u32,
}

impl BackendMonitor {
    /// The current lifecycle state.
    pub closed spec fn state(&self) -> BackendState {
        self.state
    }

    /// The process id of the child that is held, if one is.
    pub closed spec fn child(&self) -> Option<u32> {
        self.child
    }

    /// The configuration registered with the monitor, if one is.
    pub closed spec fn config(&self) -> Option<BackendConfig> {
        self.config
    }

    /// The number of health polls that have failed in a row.
    pub closed spec fn failures(&self) -> u32 {
        self.consecutive_failures
    }

    /// The number of restarts attempted over the monitor's lifetime.
    pub closed spec fn restarts(&self) -> u32 {
        self.restart_attempts
    }

    pub fn new() -> (r: Self)
        ensures
            r.state() == BackendState::NotStarted,
            r.child() is None,
            r.config() is None,
            r.failures() == 0,
            r.restarts() == 0,
    {
        BackendMonitor {
            state: BackendState::NotStarted,
            child: None,
            config: None,
            consecutive_failures: 0,
            restart_attempts: 0,
        }
    }

    pub fn get_state(&self) -> (r: BackendState)
        ensures
            r == self.state(),
    {
        self.state
    }

    /// The process id of the child that is held, if one is.
    pub fn child_pid(&self) -> (r: Option<u32>)
        ensures
            r == self.child(),
    {
        self.child
    }

    /// The number of health polls that have failed in a row.
    pub fn consecutive_failures(&self) -> (r: u32)
        ensures
            r == self.failures(),
    {
        self.consecutive_failures
    }

    /// The number of restarts attempted over the monitor's lifetime.
    pub fn restart_attempts(&self) -> (r: u32)
        ensures
            r == self.restarts(),
    {
        self.restart_attempts
    }

    /// The configuration registered with the monitor, if one is.
    pub fn registered_config(&self) -> (r: Option<&BackendConfig>)
        ensures
            r is Some <==> self.config() is Some,
            r is Some ==> *r->Some_0 == self.config()->Some_0,
    {
        self.config.as_ref()
    }

    /// Writes the state. Writing the state that is already there changes
    /// nothing.
    pub fn set_state(&mut self, state: BackendState)
        ensures
            final(self).state() == state,
            final(self).child() == old(self).child(),
            final(self).config() == old(self).config(),
            final(self).failures() == old(self).failures(),
            final(self).restarts() == old(self).restarts(),
    {
        self.state = state;
    }

    /// Takes hold of a child, known by its process id.
    pub fn set_child(&mut self, pid: u32)
        ensures
            final(self).child() == Some(pid),
            final(self).state() == old(self).state(),
            final(self).config() == old(self).config(),
            final(self).failures() == old(self).failures(),
            final(self).restarts() == old(self).restarts(),
    {
        self.child = Some(pid);
    }

    pub fn set_config(&mut self, cfg: BackendConfig)
        ensures
            final(self).config() == Some(cfg),
            final(self).state() == old(self).state(),
            final(self).child() == old(self).child(),
            final(self).failures() == old(self).failures(),
            final(self).restarts() == old(self).restarts(),
    {
        self.config = Some(cfg);
    }

    /// Lets go of the child and returns its process id for termination.
    /// The child is handed out once: a second call finds none.
    pub fn kill_child(&mut self) -> (r: Option<u32>)
        ensures
            r == old(self).child(),
            final(self).child() is None,
            final(self).state() == old(self).state(),
            final(self).config() == old(self).config(),
            final(self).failures() == old(self).failures(),
            final(self).restarts() == old(self).restarts(),
    {
        self.child.take()
    }

    /// Whether the health-poll loop goes on: until the state is terminal.
    pub fn should_poll(&self) -> (r: bool)
        ensures
            r == !self.state().stopped(),
    {
        !self.state.is_stopped()
    }

    /// Takes in the outcome of one health poll cycle and returns the
    /// notification to emit, if the poll moved the state.
    pub fn record_poll(&mut self, healthy: bool) -> (r: Option<Notification>)
        ensures
            (final(self).state(), final(self).failures()) == poll_next(
                old(self).state(),
                old(self).failures(),
                healthy,
            ),
            final(self).child() == old(self).child(),
            final(self).config() == old(self).config(),
            final(self).restarts() == old(self).restarts(),
            r is Some <==> poll_notice(old(self).state(), final(self).state()) is Some,
            r is Some ==> Some(r->Some_0@) == poll_notice(old(self).state(), final(self).state()),
    {
        if self.state.is_stopped() {
            return None;
        }
        if healthy {
            self.consecutive_failures = 0;
            match self.state {
                BackendState::Starting | BackendState::Unhealthy => {
                    self.state = BackendState::Healthy;
                    Some(Notification::Ready)
                },
                _ => None,
            }
        } else {
            if self.consecutive_failures < u32::MAX {
                self.consecutive_failures = self.consecutive_failures + 1;
            }
            match self.state {
                BackendState::Starting => {
                    self.state = BackendState::Crashed;
                    Some(
                        Notification::Crashed(
                            String::from_str("Backend did not become healthy after startup"),
                        ),
                    )
                },
                BackendState::Healthy => {
                    if self.consecutive_failures >= UNHEALTHY_AFTER_FAILURES {
                        self.state = BackendState::Unhealthy;
                        Some(Notification::Unhealthy)
                    } else {
                        None
                    }
                },
                _ => None,
            }
        }
    }

    /// Takes in the exit of the child, with its exit code where one could be
    /// had. Exit code 0 is a clean stop; anything else is a crash. The child
    /// is no longer held. After a crash a restart is granted where the
    /// configuration asks for restarts and fewer than its maximum have been
    /// attempted over the monitor's lifetime; a granted restart is counted.
    pub fn record_exit(&mut self, code: Option<i32>) -> (r: ExitDecision)
        ensures
            final(self).state() == exit_state(code),
            final(self).child() is None,
            final(self).config() == old(self).config(),
            final(self).failures() == old(self).failures(),
            r.notification@ == exit_notice(code),
            r.restart == restart_granted(code, old(self).config(), old(self).restarts()),
            final(self).restarts() == if r.restart {
                (old(self).restarts() + 1) as u32
            } else {
                old(self).restarts()
            },
    {
        self.child = None;
        let clean = match code {
            Some(c) => c == 0,
            None => false,
        };
        if clean {
            self.state = BackendState::StoppedClean;
            return ExitDecision { notification: Notification::Stopped, restart: false };
        }
        self.state = BackendState::Crashed;
        let reason = match code {
            Some(c) => {
                let number = signed_decimal(c);
                String::from_str("Process exited with code ").concat(number.as_str())
            },
            None => String::from_str("Process terminated abnormally"),
        };
        let restart = match &self.config {
            Some(cfg) => cfg.auto_restart && self.restart_attempts < cfg.max_restart_attempts,
            None => false,
        };
        if restart {
            self.restart_attempts = self.restart_attempts + 1;
        }
        ExitDecision { notification: Notification::Crashed(reason), restart }
    }

    /// Ends a shutdown after the termination step. Only a failure to
    /// terminate the process is an error; how the flush request went does not
    /// matter. A backend that was stopping and has been terminated is stopped
    /// by force.
    pub fn complete_shutdown(&mut self, flush: &FlushOutcome, kill_error: Option<String>) -> (r:
        Result<(), String>)
        ensures
            match kill_error {
                None => r is Ok,
                Some(text) => r is Err && Err::<(), Seq<char>>(r->Err_0@) == shutdown_result(
                    Some(text@),
                ),
            },
            final(self).state() == terminated_state(old(self).state(), kill_error is None),
            final(self).child() == old(self).child(),
            final(self).config() == old(self).config(),
            final(self).failures() == old(self).failures(),
            final(self).restarts() == old(self).restarts(),
    {
        match kill_error {
            None => {
                if self.state.is_stopping() {
                    self.state = BackendState::StoppedForce;
                }
                Ok(())
            },
            Some(text) => Err(String::from_str("Failed to kill process: ").concat(text.as_str())),
        }
    }
}

/// Puts a freshly spawned backend under the monitor: the state becomes
/// `Starting`, the child and its configuration are held, and the count of
/// failed polls starts anew. The count of restart attempts stays.
pub fn monitor_backend(monitor: &mut BackendMonitor, config: BackendConfig, child_pid: u32)
    ensures
        final(monitor).state() == BackendState::Starting,
        final(monitor).child() == Some(child_pid),
        final(monitor).config() == Some(config),
        final(monitor).failures() == 0,
        final(monitor).restarts() == old(monitor).restarts(),
{
    monitor.state = BackendState::Starting;
    monitor.child = Some(child_pid);
    monitor.config = Some(config);
    monitor.consecutive_failures = 0;
}

pub fn get_backend_state(monitor: &BackendMonitor) -> (r: BackendState)
    ensures
        r == monitor.state(),
{
    monitor.get_state()
}

/// Lets go of the monitor's child and returns its process id for
/// termination.
pub fn kill_backend(monitor: &mut BackendMonitor) -> (r: Option<u32>)
    ensures
        r == old(monitor).child(),
        final(monitor).child() is None,
        final(monitor).state() == old(monitor).state(),
        final(monitor).config() == old(monitor).config(),
        final(monitor).failures() == old(monitor).failures(),
        final(monitor).restarts() == old(monitor).restarts(),
{
    monitor.kill_child()
}

/// Begins a shutdown and says what it consists of. Where a configuration is
/// registered, the backend is first asked to save its work, within the
/// bounds of the flush request. Termination of the child that the monitor
/// holds follows in every case, with or without a configuration; the monitor
/// lets go of the child here. A healthy or unhealthy backend is stopping
/// from now on.
pub fn trigger_backup_and_shutdown(monitor: &mut BackendMonitor) -> (plan: ShutdownPlan)
    ensures
        plan.terminate == old(monitor).child(),
        plan.flush is Some <==> old(monitor).config() is Some,
        plan.flush is Some ==> {
            &&& plan.flush->Some_0.url@ == flush_url_text(&old(monitor).config()->Some_0)
            &&& plan.flush->Some_0.connect_timeout_ms == super::shutdown::FLUSH_CONNECT_TIMEOUT_MS
            &&& plan.flush->Some_0.timeout_ms == super::shutdown::FLUSH_TIMEOUT_MS
            &&& plan.flush->Some_0.wait_ms == super::shutdown::FLUSH_WAIT_MS
        },
        final(monitor).child() is None,
        final(monitor).state() == stopping_state(old(monitor).state()),
        final(monitor).config() == old(monitor).config(),
        final(monitor).failures() == old(monitor).failures(),
        final(monitor).restarts() == old(monitor).restarts(),
{
    let flush = match &monitor.config {
        Some(cfg) => Some(flush_request(cfg)),
        None => None,
    };
    match monitor.state {
        BackendState::Healthy | BackendState::Unhealthy => {
            monitor.state = BackendState::Stopping;
        },
        _ => {},
    }
    let terminate = kill_backend(monitor);
    ShutdownPlan { flush, terminate }
}

/// Three failed polls in a row make a healthy backend unhealthy, whatever
/// the count was before; counted from zero, it stays healthy through the
/// first two. The very next successful poll makes it healthy again and
/// clears the count.
pub proof fn lemma_three_failures_then_recovery(failures: u32)
    ensures
        ({
            let first = poll_next(BackendState::Healthy, failures, false);
            let second = poll_next(first.0, first.1, false);
            let third = poll_next(second.0, second.1, false);
            let recovered = poll_next(third.0, third.1, true);
            &&& third.0 == BackendState::Unhealthy
            &&& failures == 0 ==> first.0 == BackendState::Healthy && second.0
                == BackendState::Healthy
            &&& recovered == (BackendState::Healthy, 0u32)
        }),
{
}

/// One successful poll is enough to leave `Unhealthy`, whatever the count of
/// failures.
pub proof fn lemma_one_success_recovers(failures: u32)
    ensures
        poll_next(BackendState::Unhealthy, failures, true) == (BackendState::Healthy, 0u32),
{
}

/// A poll leaves the state as it is or moves it along the lifecycle.
pub proof fn lemma_poll_follows_lifecycle(state: BackendState, failures: u32, healthy: bool)
    ensures
        poll_next(state, failures, healthy).0 == state || state.may_become(
            poll_next(state, failures, healthy).0,
        ),
{
}

/// Exit code 0 means stopped cleanly, anything else crashed. Either state is
/// terminal, and no health poll changes it afterwards: a poll that comes
/// after the exit can neither revive the backend nor count against it.
pub proof fn lemma_exit_is_final(code: Option<i32>, failures: u32, healthy: bool)
    ensures
        code == Some(0i32) ==> exit_state(code) == BackendState::StoppedClean,
        code != Some(0i32) ==> exit_state(code) == BackendState::Crashed,
        exit_state(code).stopped(),
        poll_next(exit_state(code), failures, healthy) == (exit_state(code), failures),
{
}

/// A granted restart keeps the count of attempts within the configured
/// maximum, so a backend that keeps crashing is restarted only so often.
pub proof fn lemma_restarts_are_bounded(
    code: Option<i32>,
    config: Option<BackendConfig>,
    attempts: u32,
)
    requires
        restart_granted(code, config, attempts),
    ensures
        attempts + 1 <= config->Some_0.max_restart_attempts,
        exit_state(code) == BackendState::Crashed,
{
}

/// Requesting a shutdown and terminating move the state along the
/// lifecycle, or leave it.
pub proof fn lemma_shutdown_follows_lifecycle(state: BackendState, killed: bool)
    ensures
        stopping_state(state) == state || state.may_become(stopping_state(state)),
        terminated_state(state, killed) == state || state.may_become(
            terminated_state(state, killed),
        ),
        killed ==> terminated_state(stopping_state(BackendState::Healthy), killed)
            == BackendState::StoppedForce,
{
}

} // verus!
