use backend_supervisor::backend::config::BackendConfig;
use backend_supervisor::backend::error::BackendError;
use backend_supervisor::backend::health::{
    backoff_secs, decode_health, health_from_fields, perform_health_check, replay_wait, wait_step,
    HealthStatus, Observation, ProbeResponse, WaitStep, WaitVerdict,
};

fn config(startup_timeout_secs: u64) -> BackendConfig {
    BackendConfig {
        binary_path: "/".to_string(),
        db_path: None,
        host: "127.0.0.1".to_string(),
        port: 8000,
        startup_timeout_secs,
        shutdown_timeout_secs: 10,
        health_check_interval_secs: 5,
        auto_restart: true,
        max_restart_attempts: 3,
        env_vars: Vec::new(),
    }
}

fn status(ready: bool) -> HealthStatus {
    HealthStatus {
        status: "ok".to_string(),
        ready,
        uptime_ms: 1200,
        db_status: "connected".to_string(),
        db_response_time_ms: 3,
    }
}

fn refused() -> BackendError {
    BackendError::NetworkError("connection refused".to_string())
}

const BODY: &str = "{\"status\":\"ok\",\"ready\":true,\"uptime_ms\":1200,\"db_status\":\"connected\",\"db_response_time_ms\":3}";

#[test]
fn decode_health_reads_the_five_members() {
    assert_eq!(decode_health(BODY), Ok(status(true)));
}

#[test]
fn decode_health_ignores_other_members_and_order() {
    let body = "{\"extra\":[1,2],\"db_response_time_ms\":3,\"db_status\":\"connected\",\"uptime_ms\":1200,\"ready\":false,\"status\":\"ok\"}";
    assert_eq!(decode_health(body), Ok(status(false)));
}

#[test]
fn decode_health_rejects_what_is_no_json() {
    for body in ["", "not json", "{\"status\":", "{} trailing"] {
        match decode_health(body) {
            Err(BackendError::Internal(m)) => {
                assert!(m.starts_with("Failed to parse health response: "), "{}", m)
            }
            other => panic!("{:?}", other),
        }
    }
}

#[test]
fn decode_health_names_the_first_missing_member() {
    assert_eq!(
        decode_health("{}"),
        Err(BackendError::Internal(
            "Failed to parse health response: missing or invalid field status".to_string()
        ))
    );
    assert_eq!(
        decode_health("{\"status\":\"ok\",\"ready\":true}"),
        Err(BackendError::Internal(
            "Failed to parse health response: missing or invalid field uptime_ms".to_string()
        ))
    );
}

#[test]
fn decode_health_rejects_members_of_the_wrong_type() {
    let body = "{\"status\":\"ok\",\"ready\":\"true\",\"uptime_ms\":1200,\"db_status\":\"connected\",\"db_response_time_ms\":3}";
    assert_eq!(
        decode_health(body),
        Err(BackendError::Internal(
            "Failed to parse health response: missing or invalid field ready".to_string()
        ))
    );
    let body = "{\"status\":\"ok\",\"ready\":true,\"uptime_ms\":-5,\"db_status\":\"connected\",\"db_response_time_ms\":3}";
    assert_eq!(
        decode_health(body),
        Err(BackendError::Internal(
            "Failed to parse health response: missing or invalid field uptime_ms".to_string()
        ))
    );
}

#[test]
fn decode_health_rejects_json_that_is_no_object() {
    for body in ["[]", "3", "\"ok\"", "null", "true"] {
        assert_eq!(
            decode_health(body),
            Err(BackendError::Internal(
                "Failed to parse health response: missing or invalid field status".to_string()
            ))
        );
    }
}

#[test]
fn health_from_fields_needs_all_five() {
    let ok = health_from_fields(
        Some("ok".to_string()),
        Some(true),
        Some(1200),
        Some("connected".to_string()),
        Some(3),
    );
    assert_eq!(ok, Ok(status(true)));
    let missing = health_from_fields(Some("ok".to_string()), Some(true), Some(1), None, Some(3));
    assert_eq!(
        missing,
        Err(BackendError::Internal(
            "Failed to parse health response: missing or invalid field db_status".to_string()
        ))
    );
    let missing = health_from_fields(Some("ok".to_string()), Some(true), Some(1), Some("c".to_string()), None);
    assert_eq!(
        missing,
        Err(BackendError::Internal(
            "Failed to parse health response: missing or invalid field db_response_time_ms"
                .to_string()
        ))
    );
}

#[test]
fn probe_timeout_is_a_health_check_timeout_of_two_seconds() {
    assert_eq!(
        perform_health_check(&ProbeResponse::TimedOut),
        Err(BackendError::HealthCheckTimeout { duration_secs: 2 })
    );
}

#[test]
fn transport_failures_are_network_errors() {
    assert_eq!(
        perform_health_check(&ProbeResponse::SendFailed("connection refused".to_string())),
        Err(BackendError::NetworkError("connection refused".to_string()))
    );
    assert_eq!(
        perform_health_check(&ProbeResponse::ClientFailed("no tls".to_string())),
        Err(BackendError::NetworkError("no tls".to_string()))
    );
}

#[test]
fn status_outside_2xx_is_an_unhealthy_response() {
    for code in [100u16, 199, 300, 404, 500, 503] {
        assert_eq!(
            perform_health_check(&ProbeResponse::Received {
                status: code,
                body: "down".to_string()
            }),
            Err(BackendError::UnhealthyResponse { status: code, body: "down".to_string() })
        );
    }
}

#[test]
fn status_2xx_is_decoded() {
    for code in [200u16, 204, 299] {
        assert_eq!(
            perform_health_check(&ProbeResponse::Received { status: code, body: BODY.to_string() }),
            Ok(status(true))
        );
    }
}

#[test]
fn a_2xx_probe_that_is_not_ready_is_ok_but_not_ready() {
    let body = BODY.replace("true", "false");
    let r = perform_health_check(&ProbeResponse::Received { status: 200, body });
    assert_eq!(r, Ok(status(false)));
}

#[test]
fn a_2xx_probe_with_a_malformed_body_is_an_internal_error() {
    let r = perform_health_check(&ProbeResponse::Received {
        status: 200,
        body: "<html>".to_string(),
    });
    assert!(matches!(r, Err(BackendError::Internal(_))));
}

#[test]
fn backoff_by_attempt() {
    let expected = [(1u32, 2u64), (2, 2), (3, 2), (4, 2), (5, 2), (6, 4), (7, 4), (8, 4), (9, 8), (10, 8), (100, 8), (u32::MAX, 8)];
    for (attempt, secs) in expected {
        assert_eq!(backoff_secs(attempt), secs, "attempt {}", attempt);
    }
    assert_eq!(backoff_secs(0), 2);
}

#[test]
fn backoff_follows_the_formula() {
    for attempt in 0u32..40 {
        let exponent = if attempt / 3 < 3 { attempt / 3 } else { 3 };
        let power = 2u64.pow(exponent);
        let formula = if power < 2 { 2 } else { power };
        assert_eq!(backoff_secs(attempt), formula);
    }
}

#[test]
fn ready_probe_ends_the_wait_at_once() {
    assert_eq!(wait_step(&config(5), 1, Ok(status(true)), 0), WaitStep::Done(Ok(status(true))));
    assert_eq!(wait_step(&config(5), 9, Ok(status(true)), 100), WaitStep::Done(Ok(status(true))));
}

#[test]
fn unready_probe_before_the_deadline_backs_off() {
    assert_eq!(wait_step(&config(5), 1, Ok(status(false)), 0), WaitStep::Retry { backoff_secs: 2 });
    assert_eq!(wait_step(&config(30), 6, Err(refused()), 29), WaitStep::Retry { backoff_secs: 4 });
    assert_eq!(wait_step(&config(300), 12, Err(refused()), 40), WaitStep::Retry { backoff_secs: 8 });
}

#[test]
fn unready_probe_at_the_deadline_times_out() {
    let timeout = WaitStep::Done(Err(BackendError::HealthCheckTimeout { duration_secs: 5 }));
    assert_eq!(wait_step(&config(5), 3, Ok(status(false)), 5), timeout);
    assert_eq!(wait_step(&config(5), 3, Err(refused()), 6), timeout);
    assert_eq!(wait_step(&config(5), 3, Err(refused()), u64::MAX), timeout);
}

/// Drives `wait_step` against a scripted probe source on a clock that
/// advances by the pauses alone. Returns the result, the attempts made and
/// the seconds that passed.
fn drive(
    cfg: &BackendConfig,
    probe: &dyn Fn(u32) -> Result<HealthStatus, BackendError>,
) -> (Result<HealthStatus, BackendError>, u32, u64) {
    let mut attempt = 0u32;
    let mut elapsed = 0u64;
    loop {
        attempt += 1;
        match wait_step(cfg, attempt, probe(attempt), elapsed) {
            WaitStep::Done(r) => return (r, attempt, elapsed),
            WaitStep::Retry { backoff_secs } => elapsed += backoff_secs,
        }
    }
}

#[test]
fn never_ready_source_times_out_and_never_returns_ok() {
    for timeout in [5u64, 6, 7, 30, 61] {
        let (r, _, elapsed) = drive(&config(timeout), &|_| Ok(status(false)));
        assert_eq!(r, Err(BackendError::HealthCheckTimeout { duration_secs: timeout }));
        assert!(elapsed >= timeout);
        let (r, _, elapsed) = drive(&config(timeout), &|_| Err(refused()));
        assert_eq!(r, Err(BackendError::HealthCheckTimeout { duration_secs: timeout }));
        assert!(elapsed >= timeout);
    }
}

#[test]
fn ready_on_third_call_returns_ok_without_a_third_pause() {
    let (r, attempts, elapsed) =
        drive(&config(30), &|n| if n >= 3 { Ok(status(true)) } else { Err(refused()) });
    assert_eq!(r, Ok(status(true)));
    assert_eq!(attempts, 3);
    assert_eq!(elapsed, backoff_secs(1) + backoff_secs(2));
}

#[test]
fn scenario_two_failures_then_ready_within_five_seconds() {
    let cfg = config(5);
    assert_eq!(cfg.port, 8000);
    assert_eq!(cfg.validate(), Ok(()));
    let (r, attempts, elapsed) =
        drive(&cfg, &|n| if n >= 3 { Ok(status(true)) } else { Err(refused()) });
    assert_eq!(r, Ok(status(true)));
    assert_eq!(attempts, 3);
    assert_eq!(elapsed, 4);
    assert!(elapsed <= 5);
}

#[test]
fn scenario_never_ready_times_out_after_five_seconds() {
    let cfg = config(5);
    assert_eq!(cfg.validate(), Ok(()));
    let (r, attempts, elapsed) = drive(&cfg, &|_| Ok(status(false)));
    assert_eq!(r, Err(BackendError::HealthCheckTimeout { duration_secs: 5 }));
    assert!(elapsed >= 5);
    assert_eq!(elapsed, 6);
    assert_eq!(attempts, 4);
}

fn seen(probe: Result<HealthStatus, BackendError>, elapsed_secs: u64) -> Observation {
    Observation { probe, elapsed_secs }
}

#[test]
fn replay_ends_at_the_first_ready_attempt() {
    let trace = vec![
        seen(Err(refused()), 0),
        seen(Ok(status(false)), 2),
        seen(Ok(status(true)), 4),
        seen(Ok(status(true)), 6),
    ];
    assert_eq!(
        replay_wait(&config(5), &trace),
        Some(WaitVerdict { attempts: 3, result: Ok(status(true)) })
    );
}

#[test]
fn replay_ends_at_the_first_attempt_past_the_deadline() {
    let trace = vec![
        seen(Err(refused()), 0),
        seen(Err(refused()), 2),
        seen(Err(refused()), 4),
        seen(Err(refused()), 6),
        seen(Ok(status(true)), 8),
    ];
    assert_eq!(
        replay_wait(&config(5), &trace),
        Some(WaitVerdict {
            attempts: 4,
            result: Err(BackendError::HealthCheckTimeout { duration_secs: 5 })
        })
    );
}

#[test]
fn replay_of_an_undecided_trace_is_none() {
    let trace = vec![seen(Err(refused()), 0), seen(Ok(status(false)), 2)];
    assert_eq!(replay_wait(&config(5), &trace), None);
    assert_eq!(replay_wait(&config(5), &Vec::new()), None);
}

#[test]
fn replay_prefers_ready_over_the_deadline() {
    let trace = vec![seen(Ok(status(true)), 99)];
    assert_eq!(
        replay_wait(&config(5), &trace),
        Some(WaitVerdict { attempts: 1, result: Ok(status(true)) })
    );
}
