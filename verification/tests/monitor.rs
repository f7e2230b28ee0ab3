use backend_supervisor::backend::config::BackendConfig;
use backend_supervisor::backend::monitor::{
    get_backend_state, kill_backend, monitor_backend, trigger_backup_and_shutdown, BackendMonitor,
    ExitDecision,
};
use backend_supervisor::backend::shutdown::{flush_request, FlushOutcome, FlushRequest};
use backend_supervisor::backend::state::BackendState;
use backend_supervisor::commands::backend::{
    get_backend_health, get_backend_status, restart_backend, BackendHealth, BackendStatus,
};
use backend_supervisor::events::Notification;

fn config(auto_restart: bool, max_restart_attempts: u32) -> BackendConfig {
    BackendConfig {
        binary_path: "/".to_string(),
        db_path: None,
        host: "127.0.0.1".to_string(),
        port: 8000,
        startup_timeout_secs: 5,
        shutdown_timeout_secs: 10,
        health_check_interval_secs: 5,
        auto_restart,
        max_restart_attempts,
        env_vars: Vec::new(),
    }
}

fn healthy_monitor() -> BackendMonitor {
    let mut m = BackendMonitor::new();
    monitor_backend(&mut m, config(false, 0), 4242);
    assert_eq!(m.record_poll(true), Some(Notification::Ready));
    m
}

const ALL: [BackendState; 8] = [
    BackendState::NotStarted,
    BackendState::Starting,
    BackendState::Healthy,
    BackendState::Unhealthy,
    BackendState::Stopping,
    BackendState::StoppedClean,
    BackendState::StoppedForce,
    BackendState::Crashed,
];

#[test]
fn a_new_monitor_has_not_started() {
    let m = BackendMonitor::new();
    assert_eq!(m.get_state(), BackendState::NotStarted);
    assert_eq!(get_backend_state(&m), BackendState::NotStarted);
    assert_eq!(m.child_pid(), None);
    assert!(m.registered_config().is_none());
    assert_eq!(m.consecutive_failures(), 0);
    assert_eq!(m.restart_attempts(), 0);
}

#[test]
fn monitoring_a_spawned_backend_sets_starting() {
    let mut m = BackendMonitor::new();
    monitor_backend(&mut m, config(true, 3), 77);
    assert_eq!(m.get_state(), BackendState::Starting);
    assert_eq!(m.child_pid(), Some(77));
    assert_eq!(m.registered_config().map(|c| c.port), Some(8000));
    assert!(m.should_poll());
}

#[test]
fn set_state_twice_is_the_same_as_once() {
    let mut m = BackendMonitor::new();
    m.set_state(BackendState::Stopping);
    assert_eq!(m.get_state(), BackendState::Stopping);
    m.set_state(BackendState::Stopping);
    assert_eq!(m.get_state(), BackendState::Stopping);
}

#[test]
fn first_successful_poll_makes_a_starting_backend_healthy() {
    let mut m = BackendMonitor::new();
    monitor_backend(&mut m, config(false, 0), 1);
    assert_eq!(m.record_poll(true), Some(Notification::Ready));
    assert_eq!(m.get_state(), BackendState::Healthy);
    assert_eq!(m.record_poll(true), None);
    assert_eq!(m.get_state(), BackendState::Healthy);
}

#[test]
fn failed_poll_ends_a_start_that_was_never_healthy() {
    let mut m = BackendMonitor::new();
    monitor_backend(&mut m, config(false, 0), 1);
    assert_eq!(
        m.record_poll(false),
        Some(Notification::Crashed("Backend did not become healthy after startup".to_string()))
    );
    assert_eq!(m.get_state(), BackendState::Crashed);
    assert!(!m.should_poll());
}

#[test]
fn three_failed_polls_make_a_healthy_backend_unhealthy() {
    let mut m = healthy_monitor();
    assert_eq!(m.record_poll(false), None);
    assert_eq!(m.get_state(), BackendState::Healthy);
    assert_eq!(m.consecutive_failures(), 1);
    assert_eq!(m.record_poll(false), None);
    assert_eq!(m.get_state(), BackendState::Healthy);
    assert_eq!(m.consecutive_failures(), 2);
    assert_eq!(m.record_poll(false), Some(Notification::Unhealthy));
    assert_eq!(m.get_state(), BackendState::Unhealthy);
    assert_eq!(m.consecutive_failures(), 3);
}

#[test]
fn one_successful_poll_recovers_an_unhealthy_backend() {
    let mut m = healthy_monitor();
    for _ in 0..5 {
        m.record_poll(false);
    }
    assert_eq!(m.get_state(), BackendState::Unhealthy);
    assert_eq!(m.record_poll(true), Some(Notification::Ready));
    assert_eq!(m.get_state(), BackendState::Healthy);
    assert_eq!(m.consecutive_failures(), 0);
}

#[test]
fn failures_that_are_not_consecutive_do_not_add_up() {
    let mut m = healthy_monitor();
    m.record_poll(false);
    m.record_poll(false);
    m.record_poll(true);
    m.record_poll(false);
    m.record_poll(false);
    assert_eq!(m.get_state(), BackendState::Healthy);
    assert_eq!(m.record_poll(false), Some(Notification::Unhealthy));
}

#[test]
fn unhealthy_is_notified_once() {
    let mut m = healthy_monitor();
    m.record_poll(false);
    m.record_poll(false);
    assert_eq!(m.record_poll(false), Some(Notification::Unhealthy));
    assert_eq!(m.record_poll(false), None);
    assert_eq!(m.get_state(), BackendState::Unhealthy);
}

#[test]
fn polls_do_not_touch_a_stopping_backend() {
    let mut m = healthy_monitor();
    m.set_state(BackendState::Stopping);
    assert_eq!(m.record_poll(true), None);
    assert_eq!(m.get_state(), BackendState::Stopping);
    for _ in 0..4 {
        assert_eq!(m.record_poll(false), None);
    }
    assert_eq!(m.get_state(), BackendState::Stopping);
}

#[test]
fn exit_code_zero_is_a_clean_stop() {
    for before in ALL {
        let mut m = healthy_monitor();
        m.set_state(before);
        let d = m.record_exit(Some(0));
        assert_eq!(d, ExitDecision { notification: Notification::Stopped, restart: false });
        assert_eq!(m.get_state(), BackendState::StoppedClean);
        assert_eq!(m.child_pid(), None);
    }
}

#[test]
fn any_other_exit_code_is_a_crash() {
    for code in [1, 2, -1, 137, 255, i32::MAX, i32::MIN] {
        for before in ALL {
            let mut m = healthy_monitor();
            m.set_state(before);
            let d = m.record_exit(Some(code));
            assert_eq!(
                d.notification,
                Notification::Crashed(format!("Process exited with code {}", code))
            );
            assert_eq!(m.get_state(), BackendState::Crashed);
            assert_eq!(m.child_pid(), None);
        }
    }
}

#[test]
fn an_exit_without_a_code_is_a_crash() {
    let mut m = healthy_monitor();
    let d = m.record_exit(None);
    assert_eq!(d.notification, Notification::Crashed("Process terminated abnormally".to_string()));
    assert_eq!(m.get_state(), BackendState::Crashed);
}

#[test]
fn exit_is_independent_of_polls_around_it() {
    let mut m = healthy_monitor();
    m.record_poll(false);
    m.record_poll(false);
    m.record_exit(Some(9));
    assert_eq!(m.get_state(), BackendState::Crashed);
    assert_eq!(m.record_poll(true), None);
    assert_eq!(m.get_state(), BackendState::Crashed);
    assert_eq!(m.record_poll(false), None);
    assert_eq!(m.get_state(), BackendState::Crashed);
    assert!(!m.should_poll());

    let mut m = healthy_monitor();
    m.record_exit(Some(0));
    assert_eq!(m.record_poll(true), None);
    assert_eq!(m.get_state(), BackendState::StoppedClean);
}

#[test]
fn restarts_are_granted_up_to_the_maximum_over_the_monitors_lifetime() {
    let mut m = BackendMonitor::new();
    let mut granted = 0;
    for round in 0..5u32 {
        monitor_backend(&mut m, config(true, 2), 100 + round);
        m.record_poll(true);
        let d = m.record_exit(Some(1));
        if d.restart {
            granted += 1;
        }
        assert_eq!(d.restart, round < 2);
    }
    assert_eq!(granted, 2);
    assert_eq!(m.restart_attempts(), 2);
}

#[test]
fn no_restart_without_auto_restart_or_after_a_clean_stop() {
    let mut m = BackendMonitor::new();
    monitor_backend(&mut m, config(false, 5), 1);
    assert!(!m.record_exit(Some(1)).restart);
    assert_eq!(m.restart_attempts(), 0);

    let mut m = BackendMonitor::new();
    monitor_backend(&mut m, config(true, 5), 1);
    assert!(!m.record_exit(Some(0)).restart);
    assert_eq!(m.restart_attempts(), 0);

    let mut m = BackendMonitor::new();
    m.set_child(1);
    assert!(!m.record_exit(Some(1)).restart);
}

#[test]
fn the_child_is_handed_out_for_termination_once() {
    let mut m = healthy_monitor();
    assert_eq!(m.kill_child(), Some(4242));
    assert_eq!(m.kill_child(), None);
    let mut m = healthy_monitor();
    assert_eq!(kill_backend(&mut m), Some(4242));
    assert_eq!(kill_backend(&mut m), None);
    assert_eq!(m.get_state(), BackendState::Healthy);
}

#[test]
fn shutdown_plans_flush_then_termination() {
    let mut m = healthy_monitor();
    let plan = trigger_backup_and_shutdown(&mut m);
    assert_eq!(
        plan.flush,
        Some(FlushRequest {
            url: "http://127.0.0.1:8000/backups/trigger".to_string(),
            connect_timeout_ms: 200,
            timeout_ms: 300,
            wait_ms: 400,
        })
    );
    assert_eq!(plan.terminate, Some(4242));
    assert_eq!(m.get_state(), BackendState::Stopping);
    assert_eq!(m.child_pid(), None);
}

#[test]
fn shutdown_terminates_without_a_registered_config() {
    let mut m = BackendMonitor::new();
    m.set_child(9);
    let plan = trigger_backup_and_shutdown(&mut m);
    assert_eq!(plan.flush, None);
    assert_eq!(plan.terminate, Some(9));
    assert_eq!(m.complete_shutdown(&FlushOutcome::NotAttempted, None), Ok(()));
}

#[test]
fn shutdown_with_nothing_registered_has_nothing_to_do_and_succeeds() {
    let mut m = BackendMonitor::new();
    let plan = trigger_backup_and_shutdown(&mut m);
    assert_eq!(plan.flush, None);
    assert_eq!(plan.terminate, None);
    assert_eq!(m.complete_shutdown(&FlushOutcome::NotAttempted, None), Ok(()));
    assert_eq!(m.get_state(), BackendState::NotStarted);
}

#[test]
fn shutdown_succeeds_whatever_came_of_the_flush() {
    let outcomes = [
        FlushOutcome::NotAttempted,
        FlushOutcome::ClientFailed("no client".to_string()),
        FlushOutcome::Failed("connection refused".to_string()),
        FlushOutcome::Responded { status: 200 },
        FlushOutcome::Responded { status: 500 },
        FlushOutcome::WaitElapsed,
    ];
    for outcome in outcomes {
        let mut m = healthy_monitor();
        let plan = trigger_backup_and_shutdown(&mut m);
        assert_eq!(plan.terminate, Some(4242));
        assert_eq!(m.complete_shutdown(&outcome, None), Ok(()));
        assert_eq!(m.get_state(), BackendState::StoppedForce);
    }
}

#[test]
fn only_a_failed_termination_fails_the_shutdown() {
    let mut m = healthy_monitor();
    trigger_backup_and_shutdown(&mut m);
    assert_eq!(
        m.complete_shutdown(&FlushOutcome::Responded { status: 200 }, Some("EPERM".to_string())),
        Err("Failed to kill process: EPERM".to_string())
    );
    assert_eq!(m.get_state(), BackendState::Stopping);
}

#[test]
fn shutdown_from_unhealthy_goes_through_stopping() {
    let mut m = healthy_monitor();
    for _ in 0..3 {
        m.record_poll(false);
    }
    trigger_backup_and_shutdown(&mut m);
    assert_eq!(m.get_state(), BackendState::Stopping);
}

#[test]
fn flush_wait_is_shorter_than_the_shortest_shutdown_timeout() {
    let r = flush_request(&config(false, 0));
    assert!(r.connect_timeout_ms <= r.timeout_ms);
    assert!(r.timeout_ms < r.wait_ms);
    assert!(r.wait_ms < 10 * 1000);
}

#[test]
fn status_query_reports_the_state() {
    let m = healthy_monitor();
    assert_eq!(
        get_backend_status(&m),
        BackendStatus {
            state: "Healthy".to_string(),
            is_running: true,
            is_healthy: true,
            can_restart: false
        }
    );
    let m = BackendMonitor::new();
    assert_eq!(
        get_backend_status(&m),
        BackendStatus {
            state: "Not Started".to_string(),
            is_running: false,
            is_healthy: false,
            can_restart: false
        }
    );
}

#[test]
fn status_query_twice_gives_the_same() {
    for s in ALL {
        let mut m = BackendMonitor::new();
        m.set_state(s);
        let first = get_backend_status(&m);
        let second = get_backend_status(&m);
        assert_eq!(first, second);
        assert_eq!(get_backend_health(&m), get_backend_health(&m));
        assert_eq!(m.get_state(), s);
    }
}

#[test]
fn restart_is_possible_exactly_in_terminal_states() {
    for s in ALL {
        let mut m = BackendMonitor::new();
        m.set_state(s);
        assert_eq!(get_backend_status(&m).can_restart, s.is_stopped());
    }
}

#[test]
fn health_query_reports_readiness_from_the_state() {
    let m = healthy_monitor();
    assert_eq!(
        get_backend_health(&m),
        Ok(BackendHealth {
            status: "Healthy".to_string(),
            ready: true,
            db_status: "ok".to_string()
        })
    );
    let mut m = healthy_monitor();
    m.record_exit(Some(1));
    assert_eq!(
        get_backend_health(&m),
        Ok(BackendHealth {
            status: "Crashed".to_string(),
            ready: false,
            db_status: "ok".to_string()
        })
    );
}

#[test]
fn restart_request_is_refused_while_running() {
    let m = healthy_monitor();
    assert_eq!(
        restart_backend(&m),
        Err("Backend is already running. Stop it first.".to_string())
    );
    let mut m = BackendMonitor::new();
    m.set_state(BackendState::Starting);
    assert_eq!(
        restart_backend(&m),
        Err("Backend is already running. Stop it first.".to_string())
    );
}

#[test]
fn restart_request_is_accepted_when_not_running() {
    for s in ALL {
        if !s.is_running() {
            let mut m = BackendMonitor::new();
            m.set_state(s);
            assert_eq!(restart_backend(&m), Ok("Backend restart initiated".to_string()));
        }
    }
}
