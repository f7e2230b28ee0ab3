use backend_supervisor::events::Notification;

#[test]
fn ready_event() {
    let n = Notification::Ready;
    assert_eq!(n.event_name(), "backend:ready");
    assert_eq!(n.status(), "ready");
    assert_eq!(n.message(), "Backend is operational");
    assert_eq!(n.cause(), None);
}

#[test]
fn unhealthy_event() {
    let n = Notification::Unhealthy;
    assert_eq!(n.event_name(), "backend:unhealthy");
    assert_eq!(n.status(), "unhealthy");
    assert_eq!(n.message(), "Backend is running but health checks are failing");
    assert_eq!(n.cause(), None);
}

#[test]
fn stopped_event() {
    let n = Notification::Stopped;
    assert_eq!(n.event_name(), "backend:stopped");
    assert_eq!(n.status(), "stopped");
    assert_eq!(n.message(), "Backend has stopped");
    assert_eq!(n.cause(), None);
}

#[test]
fn crashed_event_carries_the_reason() {
    let n = Notification::Crashed("exit code 1".to_string());
    assert_eq!(n.event_name(), "backend:crashed");
    assert_eq!(n.status(), "crashed");
    assert_eq!(n.message(), "Backend crashed: exit code 1");
    assert_eq!(n.cause(), Some(("reason", "exit code 1".to_string())));
}

#[test]
fn error_event_carries_the_error() {
    let n = Notification::Error("bad port".to_string());
    assert_eq!(n.event_name(), "backend:error");
    assert_eq!(n.status(), "error");
    assert_eq!(n.message(), "Backend error: bad port");
    assert_eq!(n.cause(), Some(("error", "bad port".to_string())));
}
