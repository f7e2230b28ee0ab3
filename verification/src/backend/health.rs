//! Health probes: decoding and classifying one probe, and the retry policy
//! of the wait for readiness.

use super::config::BackendConfig;
use super::error::{BackendError, BackendErrorView};
use vstd::prelude::*;

verus! {

/// The time allowed to one probe, in seconds. It is distinct from the
/// startup timeout, which bounds the whole wait.
pub const PROBE_TIMEOUT_SECS: u64 = 2;

#[derive(Debug, Clone, PartialEq, Eq)]
pub struct HealthStatus {
    pub status: String,
    pub ready: bool,
    pub uptime_ms: u64,
    pub db_status: String,
    pub db_response_time_ms: u64,
}

/// What a `HealthStatus` holds, with texts as character sequences.
pub struct HealthStatusView {
    pub status: Seq<char>,
    pub ready: bool,
    pub uptime_ms: u64,
    pub db_status: Seq<char>,
    pub db_response_time_ms: u64,
}

impl View for HealthStatus {
    type V = HealthStatusView;

    open spec fn view(&self) -> HealthStatusView {
        HealthStatusView {
            status: self.status@,
            ready: self.ready,
            uptime_ms: self.uptime_ms,
            db_status: self.db_status@,
            db_response_time_ms: self.db_response_time_ms,
        }
    }
}

impl HealthStatus {
    /// A copy with the same contents.
    pub fn duplicate(&self) -> (r: HealthStatus)
        ensures
            r@ == self@,
    {
        HealthStatus {
            status: self.status.clone(),
            ready: self.ready,
            uptime_ms: self.uptime_ms,
            db_status: self.db_status.clone(),
            db_response_time_ms: self.db_response_time_ms,
        }
    }
}

#[verifier::external_type_specification]
#[verifier::external_body]
pub struct ExJsonValue(serde_json::Value);

#[verifier::external_type_specification]
#[verifier::external_body]
pub struct ExJsonError(serde_json::Error);

/// The JSON value that `serde_json::from_str` reads from a text, `None`
/// where it rejects the text.
pub uninterp spec fn json_parse(text: Seq<char>) -> Option<serde_json::Value>;

/// The member that `serde_json::Value::get` finds under a key.
pub uninterp spec fn json_member(doc: serde_json::Value, key: Seq<char>) -> Option<
    serde_json::Value,
>;

/// The text that `serde_json::Value::as_str` reads from a value.
pub uninterp spec fn json_text(value: serde_json::Value) -> Option<Seq<char>>;

/// The boolean that `serde_json::Value::as_bool` reads from a value.
pub uninterp spec fn json_flag(value: serde_json::Value) -> Option<bool>;

/// The number that `serde_json::Value::as_u64` reads from a value.
pub uninterp spec fn json_count(value: serde_json::Value) -> Option<u64>;

/// Calls `serde_json::from_str` to read one JSON value from the whole text.
/// The result depends on the text alone; it is `Ok` with the value named
/// `json_parse`, or the crate's error where the text is rejected.
#[verifier::external_body]
fn parse_json(text: &str) -> (r: Result<serde_json::Value, serde_json::Error>)
    ensures
        r is Ok <==> json_parse(text@) is Some,
        r is Ok ==> Some(r->Ok_0) == json_parse(text@),
{
    serde_json::from_str::<serde_json::Value>(text)
}

/// Calls `serde_json::Value::get` with a string key: the member of an object
/// under that key, `None` for a missing key or a value that is no object.
#[verifier::external_body]
fn member<'a>(doc: &'a serde_json::Value, key: &str) -> (r: Option<&'a serde_json::Value>)
    ensures
        r is Some <==> json_member(*doc, key@) is Some,
        r is Some ==> Some(*r->Some_0) == json_member(*doc, key@),
{
    doc.get(key)
}

/// Calls `serde_json::Value::as_str`: the text of a JSON string, `None` for
/// any other value.
#[verifier::external_body]
fn text_of(value: &serde_json::Value) -> (r: Option<String>)
    ensures
        r is Some <==> json_text(*value) is Some,
        r is Some ==> Some(r->Some_0@) == json_text(*value),
{
    value.as_str().map(|s| s.to_string())
}

/// Calls `serde_json::Value::as_bool`: the value of a JSON boolean, `None`
/// for any other value.
#[verifier::external_body]
fn flag_of(value: &serde_json::Value) -> (r: Option<bool>)
    ensures
        r == json_flag(*value),
{
    value.as_bool()
}

/// Calls `serde_json::Value::as_u64`: a JSON integer that fits `u64`, `None`
/// for any other value.
#[verifier::external_body]
fn count_of(value: &serde_json::Value) -> (r: Option<u64>)
    ensures
        r == json_count(*value),
{
    value.as_u64()
}

/// The message of a `serde_json::Error`, as its `Display` writes it. Nothing
/// is claimed of the text.
#[verifier::external_body]
fn json_error_text(error: &serde_json::Error) -> String {
    error.to_string()
}

/// The text member of `doc` under `key`.
pub open spec fn text_member(doc: serde_json::Value, key: Seq<char>) -> Option<Seq<char>> {
    match json_member(doc, key) {
        Some(v) => json_text(v),
        None => None,
    }
}

/// The boolean member of `doc` under `key`.
pub open spec fn flag_member(doc: serde_json::Value, key: Seq<char>) -> Option<bool> {
    match json_member(doc, key) {
        Some(v) => json_flag(v),
        None => None,
    }
}

/// The unsigned integer member of `doc` under `key`.
pub open spec fn count_member(doc: serde_json::Value, key: Seq<char>) -> Option<u64> {
    match json_member(doc, key) {
        Some(v) => json_count(v),
        None => None,
    }
}

/// The name of the first health field that is absent, in the order of the
/// fields; `None` where all five are there.
pub open spec fn first_missing_field(
    status: Option<Seq<char>>,
    ready: Option<bool>,
    uptime_ms: Option<u64>,
    db_status: Option<Seq<char>>,
    db_response_time_ms: Option<u64>,
) -> Option<Seq<char>> {
    if status is None {
        Some("status"@)
    } else if ready is None {
        Some("ready"@)
    } else if uptime_ms is None {
        Some("uptime_ms"@)
    } else if db_status is None {
        Some("db_status"@)
    } else if db_response_time_ms is None {
        Some("db_response_time_ms"@)
    } else {
        None
    }
}

/// The error for a health response whose field `name` is absent or of the
/// wrong type.
pub open spec fn missing_field_error(name: Seq<char>) -> BackendErrorView {
    BackendErrorView::Internal(
        "Failed to parse health response: missing or invalid field "@ + name,
    )
}

/// The health status that a decoded JSON document holds: its five members,
/// each of its type. `None` where one is absent or of another type.
pub open spec fn health_in(doc: serde_json::Value) -> Option<HealthStatusView> {
    let status = text_member(doc, "status"@);
    let ready = flag_member(doc, "ready"@);
    let uptime_ms = count_member(doc, "uptime_ms"@);
    let db_status = text_member(doc, "db_status"@);
    let db_response_time_ms = count_member(doc, "db_response_time_ms"@);
    if first_missing_field(status, ready, uptime_ms, db_status, db_response_time_ms) is None {
        Some(
            HealthStatusView {
                status: status->Some_0,
                ready: ready->Some_0,
                uptime_ms: uptime_ms->Some_0,
                db_status: db_status->Some_0,
                db_response_time_ms: db_response_time_ms->Some_0,
            },
        )
    } else {
        None
    }
}

/// The name of the first of the five members that a decoded JSON document
/// lacks or holds with another type; `None` where it has them all.
pub open spec fn missing_member(doc: serde_json::Value) -> Option<Seq<char>> {
    first_missing_field(
        text_member(doc, "status"@),
        flag_member(doc, "ready"@),
        count_member(doc, "uptime_ms"@),
        text_member(doc, "db_status"@),
        count_member(doc, "db_response_time_ms"@),
    )
}

/// What decoding gives for a body that `serde_json` reads as `doc`: the
/// status it holds, or the error that names the first member it lacks.
pub open spec fn decoded(doc: serde_json::Value, r: Result<HealthStatus, BackendError>) -> bool {
    match missing_member(doc) {
        None => r is Ok && Some(r->Ok_0@) == health_in(doc),
        Some(name) => r is Err && r->Err_0@ == missing_field_error(name),
    }
}

fn missing_field(name: &str) -> (r: BackendError)
    ensures
        r@ == missing_field_error(name@),
{
    BackendError::Internal(
        String::from_str("Failed to parse health response: missing or invalid field ").concat(
            name,
        ),
    )
}

/// Builds a health status from its five fields as they were read from a
/// response. All five present give the status; otherwise the error names the
/// first one that is absent.
pub fn health_from_fields(
    status: Option<String>,
    ready: Option<bool>,
    uptime_ms: Option<u64>,
    db_status: Option<String>,
    db_response_time_ms: Option<u64>,
) -> (r: Result<HealthStatus, BackendError>)
    ensures
        match first_missing_field(
            match status {
                Some(s) => Some(s@),
                None => None,
            },
            ready,
            uptime_ms,
            match db_status {
                Some(s) => Some(s@),
                None => None,
            },
            db_response_time_ms,
        ) {
            Some(name) => r is Err && r->Err_0@ == missing_field_error(name),
            None => r is Ok && r->Ok_0@ == (HealthStatusView {
                status: status->Some_0@,
                ready: ready->Some_0,
                uptime_ms: uptime_ms->Some_0,
                db_status: db_status->Some_0@,
                db_response_time_ms: db_response_time_ms->Some_0,
            }),
        },
{
    let status = match status {
        Some(s) => s,
        None => {
            return Err(missing_field("status"));
        },
    };
    let ready = match ready {
        Some(b) => b,
        None => {
            return Err(missing_field("ready"));
        },
    };
    let uptime_ms = match uptime_ms {
        Some(n) => n,
        None => {
            return Err(missing_field("uptime_ms"));
        },
    };
    let db_status = match db_status {
        Some(s) => s,
        None => {
            return Err(missing_field("db_status"));
        },
    };
    let db_response_time_ms = match db_response_time_ms {
        Some(n) => n,
        None => {
            return Err(missing_field("db_response_time_ms"));
        },
    };
    Ok(HealthStatus { status, ready, uptime_ms, db_status, db_response_time_ms })
}

fn text_field(doc: &serde_json::Value, key: &str) -> (r: Option<String>)
    ensures
        r is Some <==> text_member(*doc, key@) is Some,
        r is Some ==> Some(r->Some_0@) == text_member(*doc, key@),
{
    match member(doc, key) {
        Some(v) => text_of(v),
        None => None,
    }
}

fn flag_field(doc: &serde_json::Value, key: &str) -> (r: Option<bool>)
    ensures
        r == flag_member(*doc, key@),
{
    match member(doc, key) {
        Some(v) => flag_of(v),
        None => None,
    }
}

fn count_field(doc: &serde_json::Value, key: &str) -> (r: Option<u64>)
    ensures
        r == count_member(*doc, key@),
{
    match member(doc, key) {
        Some(v) => count_of(v),
        None => None,
    }
}

/// Whether `text` begins with `prefix`.
pub open spec fn starts_with(text: Seq<char>, prefix: Seq<char>) -> bool {
    prefix.len() <= text.len() && text.subrange(0, prefix.len() as int) == prefix
}

/// Decodes the body of a successful health response: a JSON object with the
/// members `status`, `ready`, `uptime_ms`, `db_status` and
/// `db_response_time_ms`. Other members are ignored. A body that is no JSON,
/// or lacks one of the five, is an internal error; for a body that is no
/// JSON its text ends in the parser's own message.
pub fn decode_health(body: &str) -> (r: Result<HealthStatus, BackendError>)
    ensures
        match json_parse(body@) {
            Some(doc) => decoded(doc, r),
            None => r is Err,
        },
        r is Err ==> r->Err_0@ is Internal && starts_with(
            r->Err_0@->Internal_0,
            "Failed to parse health response: "@,
        ),
{
    proof {
        reveal_strlit("Failed to parse health response: ");
        reveal_strlit("Failed to parse health response: missing or invalid field ");
    }
    match parse_json(body) {
        Ok(doc) => {
            let status = text_field(&doc, "status");
            let ready = flag_field(&doc, "ready");
            let uptime_ms = count_field(&doc, "uptime_ms");
            let db_status = text_field(&doc, "db_status");
            let db_response_time_ms = count_field(&doc, "db_response_time_ms");
            let r = health_from_fields(status, ready, uptime_ms, db_status, db_response_time_ms);
            proof {
                if r is Err {
                    let prefix = "Failed to parse health response: "@;
                    let m = r->Err_0@->Internal_0;
                    assert(m.subrange(0, prefix.len() as int) =~= prefix);
                }
            }
            r
        },
        Err(e) => {
            let detail = json_error_text(&e);
            let message = String::from_str("Failed to parse health response: ").concat(
                detail.as_str(),
            );
            proof {
                let prefix = "Failed to parse health response: "@;
                assert(message@.subrange(0, prefix.len() as int) =~= prefix);
            }
            Err(BackendError::Internal(message))
        },
    }
}

/// What one HTTP request to the health endpoint gave, as the transport saw it.
#[derive(Debug, Clone, PartialEq, Eq)]
pub enum ProbeResponse {
    /// No HTTP client could be built; the text says why.
    ClientFailed(String),
    /// The request ran into the probe timeout.
    TimedOut,
    /// The request failed otherwise (connection refused and the like).
    SendFailed(String),
    /// A response arrived, with its status code and body text.
    Received { status: u16, body: String },
}

/// Whether an HTTP status code is one of success (2xx).
pub open spec fn status_is_success(status: u16) -> bool {
    200 <= status < 300
}

/// Classifies the outcome of one probe. A transport timeout is a health
/// check timeout of the probe's own duration; any other transport failure is
/// a network error with its text; a status outside 2xx is an unhealthy
/// response with status and body; a 2xx body is decoded. A decoded status
/// with `ready` false is still `Ok`: the probe succeeded, the backend is not
/// ready yet.
pub fn perform_health_check(response: &ProbeResponse) -> (r: Result<HealthStatus, BackendError>)
    ensures
        match *response {
            ProbeResponse::ClientFailed(text) => r is Err && r->Err_0@
                == BackendErrorView::NetworkError(text@),
            ProbeResponse::TimedOut => r is Err && r->Err_0@ == (
            BackendErrorView::HealthCheckTimeout { duration_secs: PROBE_TIMEOUT_SECS }),
            ProbeResponse::SendFailed(text) => r is Err && r->Err_0@
                == BackendErrorView::NetworkError(text@),
            ProbeResponse::Received { status, body } => if !status_is_success(status) {
                r is Err && r->Err_0@ == (BackendErrorView::UnhealthyResponse {
                    status,
                    body: body@,
                })
            } else {
                match json_parse(body@) {
                    Some(doc) => decoded(doc, r),
                    None => r is Err && r->Err_0@ is Internal && starts_with(
                        r->Err_0@->Internal_0,
                        "Failed to parse health response: "@,
                    ),
                }
            },
        },
{
    match response {
        ProbeResponse::ClientFailed(text) => Err(BackendError::NetworkError(text.clone())),
        ProbeResponse::TimedOut => Err(
            BackendError::HealthCheckTimeout { duration_secs: PROBE_TIMEOUT_SECS },
        ),
        ProbeResponse::SendFailed(text) => Err(BackendError::NetworkError(text.clone())),
        ProbeResponse::Received { status, body } => {
            if *status < 200 || *status >= 300 {
                Err(BackendError::UnhealthyResponse { status: *status, body: body.clone() })
            } else {
                decode_health(body.as_str())
            }
        },
    }
}

/// Two to the power `e`.
pub open spec fn two_to(e: nat) -> nat
    decreases e,
{
    if e == 0 {
        1
    } else {
        2 * two_to((e - 1) as nat)
    }
}

/// The pause after the attempt with the given number, in seconds: two to the
/// power of a third of the attempt number (rounded down, at most three), and
/// never under two.
pub open spec fn backoff(attempt: nat) -> nat {
    let exponent = if attempt / 3 < 3 {
        attempt / 3
    } else {
        3
    };
    if two_to(exponent) < 2 {
        2
    } else {
        two_to(exponent)
    }
}

/// The pause after the attempt with the given number, in seconds.
pub fn backoff_secs(attempt: u32) -> (r: u64)
    ensures
        r == backoff(attempt as nat),
        2 <= r <= 8,
{
    proof {
        reveal_with_fuel(two_to, 5);
    }
    let third = attempt / 3;
    if third == 0 {
        2
    } else if third == 1 {
        2
    } else if third == 2 {
        4
    } else {
        8
    }
}

/// The pauses by attempt number: two seconds up to the fifth attempt, four
/// from the sixth to the eighth, eight from the ninth on.
pub proof fn lemma_backoff_table(attempt: nat)
    ensures
        attempt < 6 ==> backoff(attempt) == 2,
        6 <= attempt < 9 ==> backoff(attempt) == 4,
        attempt >= 9 ==> backoff(attempt) == 8,
{
    reveal_with_fuel(two_to, 5);
}

/// The pause never shrinks from one attempt to a later one.
pub proof fn lemma_backoff_monotonic(earlier: nat, later: nat)
    requires
        earlier <= later,
    ensures
        backoff(earlier) <= backoff(later),
{
    lemma_backoff_table(earlier);
    lemma_backoff_table(later);
}

/// Whether a probe result counts as ready: a successful probe whose status
/// says so.
pub open spec fn probe_ready(probe: Result<HealthStatus, BackendError>) -> bool {
    probe is Ok && probe->Ok_0.ready
}

/// What the wait for readiness does after one attempt.
#[derive(Debug, PartialEq, Eq)]
pub enum WaitStep {
    /// The wait is over, with its result.
    Done(Result<HealthStatus, BackendError>),
    /// Pause for so many seconds, then probe again.
    Retry { backoff_secs: u64 },
}

/// The rule of the wait for readiness after one attempt.
pub enum WaitRule {
    /// The probe was ready: the wait returns its status.
    Ready,
    /// The probe was not ready and the startup time is up: the wait returns
    /// a health check timeout of the startup duration.
    TimedOut,
    /// Pause for so many seconds, then probe again.
    Retry(nat),
}

/// What follows the attempt numbered `attempt`, whose probe was ready or
/// not, `elapsed_secs` whole seconds after the wait began.
pub open spec fn wait_rule(timeout_secs: u64, attempt: nat, ready: bool, elapsed_secs: u64)
    -> WaitRule {
    if ready {
        WaitRule::Ready
    } else if elapsed_secs >= timeout_secs {
        WaitRule::TimedOut
    } else {
        WaitRule::Retry(backoff(attempt))
    }
}

/// Decides what follows one attempt of the wait for readiness. `attempt`
/// counts the probes made so far, this one included; `elapsed_secs` is the
/// whole seconds since the wait began, read after the probe. A ready probe
/// ends the wait with its status, at once. Otherwise the wait ends with a
/// timeout of the startup duration once that much time has passed, and
/// pauses for the backoff of this attempt before the next probe if not.
pub fn wait_step(
    config: &BackendConfig,
    attempt: u32,
    probe: Result<HealthStatus, BackendError>,
    elapsed_secs: u64,
) -> (r: WaitStep)
    ensures
        match wait_rule(
            config.startup_timeout_secs,
            attempt as nat,
            probe_ready(probe),
            elapsed_secs,
        ) {
            WaitRule::Ready => r == WaitStep::Done(Ok::<HealthStatus, BackendError>(probe->Ok_0)),
            WaitRule::TimedOut => r == WaitStep::Done(
                Err::<HealthStatus, BackendError>(
                    BackendError::HealthCheckTimeout {
                        duration_secs: config.startup_timeout_secs,
                    },
                ),
            ),
            WaitRule::Retry(pause) => r == (WaitStep::Retry { backoff_secs: pause as u64 }),
        },
{
    match probe {
        Ok(health) => {
            if health.ready {
                return WaitStep::Done(Ok(health));
            }
        },
        Err(_) => {},
    }
    if elapsed_secs >= config.startup_timeout_secs {
        return WaitStep::Done(
            Err(BackendError::HealthCheckTimeout { duration_secs: config.startup_timeout_secs }),
        );
    }
    WaitStep::Retry { backoff_secs: backoff_secs(attempt) }
}

/// One attempt of a wait as it was observed: what the probe gave, and the
/// whole seconds since the wait began, read after the probe.
#[derive(Debug, PartialEq, Eq)]
pub struct Observation {
    pub probe: Result<HealthStatus, BackendError>,
    pub elapsed_secs: u64,
}

impl Observation {
    /// Whether this attempt ends a wait with the given startup timeout: the
    /// probe was ready, or the time was up.
    pub open spec fn decides(&self, timeout_secs: u64) -> bool {
        probe_ready(self.probe) || self.elapsed_secs >= timeout_secs
    }
}

/// How a replayed wait ended.
#[derive(Debug, PartialEq, Eq)]
pub struct WaitVerdict {
    /// The number of probes made, the deciding one included.
    pub attempts: usize,
    /// What the wait returned.
    pub result: Result<HealthStatus, BackendError>,
}

/// Replays a wait for readiness over recorded attempts, in order, and says
/// how it ended: at the first attempt that was ready or came at or after the
/// startup timeout. `None` where no recorded attempt ends it.
pub fn replay_wait(config: &BackendConfig, trace: &Vec<Observation>) -> (r: Option<WaitVerdict>)
    ensures
        r is None <==> forall|i: int|
            0 <= i < trace@.len() ==> !(#[trigger] trace@[i]).decides(config.startup_timeout_secs),
        r is Some ==> {
            let verdict = r->Some_0;
            let last = verdict.attempts - 1;
            &&& 1 <= verdict.attempts <= trace@.len()
            &&& trace@[last].decides(config.startup_timeout_secs)
            &&& forall|i: int|
                0 <= i < last ==> !(#[trigger] trace@[i]).decides(config.startup_timeout_secs)
            &&& probe_ready(trace@[last].probe) ==> verdict.result is Ok && verdict.result->Ok_0@
                == trace@[last].probe->Ok_0@
            &&& !probe_ready(trace@[last].probe) ==> verdict.result is Err
                && verdict.result->Err_0@ == (BackendErrorView::HealthCheckTimeout {
                duration_secs: config.startup_timeout_secs,
            })
        },
        (forall|i: int| 0 <= i < trace@.len() ==> !probe_ready((#[trigger] trace@[i]).probe))
            ==> r is None || (r->Some_0.result is Err && trace@[r->Some_0.attempts
            - 1].elapsed_secs >= config.startup_timeout_secs),
{
    let mut i: usize = 0;
    while i < trace.len()
        invariant
            i <= trace@.len(),
            forall|j: int|
                0 <= j < i ==> !(#[trigger] trace@[j]).decides(config.startup_timeout_secs),
        decreases trace@.len() - i,
    {
        let seen = &trace[i];
        let ready = match &seen.probe {
            Ok(health) => health.ready,
            Err(_) => false,
        };
        if ready {
            let health = match &seen.probe {
                Ok(health) => health.duplicate(),
                Err(_) => {
                    return None;
                },
            };
            return Some(WaitVerdict { attempts: i + 1, result: Ok(health) });
        }
        if seen.elapsed_secs >= config.startup_timeout_secs {
            return Some(
                WaitVerdict {
                    attempts: i + 1,
                    result: Err(
                        BackendError::HealthCheckTimeout {
                            duration_secs: config.startup_timeout_secs,
                        },
                    ),
                },
            );
        }
        i = i + 1;
    }
    None
}

/// A recorded attempt ends a replayed wait exactly where the rule of the
/// wait does not pause after it, whatever the attempt's number.
pub proof fn lemma_replay_follows_rule(seen: Observation, timeout_secs: u64, attempt: nat)
    ensures
        seen.decides(timeout_secs) <==> !(wait_rule(
            timeout_secs,
            attempt,
            probe_ready(seen.probe),
            seen.elapsed_secs,
        ) is Retry),
{
}

/// After a probe that is not ready the wait never returns a status: it
/// returns the timeout exactly when the startup time has passed, and pauses
/// otherwise.
pub proof fn lemma_never_ready_never_ok(timeout_secs: u64, attempt: nat, elapsed_secs: u64)
    ensures
        wait_rule(timeout_secs, attempt, false, elapsed_secs) != WaitRule::Ready,
        wait_rule(timeout_secs, attempt, false, elapsed_secs) == WaitRule::TimedOut
            <==> elapsed_secs >= timeout_secs,
        elapsed_secs < timeout_secs ==> wait_rule(timeout_secs, attempt, false, elapsed_secs)
            == WaitRule::Retry(backoff(attempt)),
{
}

/// A ready probe ends the wait at once, whatever the attempt number and
/// however much time has passed.
pub proof fn lemma_ready_ends_wait(timeout_secs: u64, attempt: nat, elapsed_secs: u64)
    ensures
        wait_rule(timeout_secs, attempt, true, elapsed_secs) == WaitRule::Ready,
{
}

/// The seconds that a wait has paused before the attempt with the given
/// number, where no earlier probe was ready: the pauses after all attempts
/// before it.
pub open spec fn pauses_before(attempt: nat) -> nat
    decreases attempt,
{
    if attempt <= 1 {
        0
    } else {
        pauses_before((attempt - 1) as nat) + backoff((attempt - 1) as nat)
    }
}

/// Every pause lasts at least two and at most eight seconds, so the pauses
/// before an attempt add up to between two and eight seconds for each
/// earlier attempt.
pub proof fn lemma_pauses_bounds(attempt: nat)
    requires
        attempt >= 1,
    ensures
        2 * (attempt - 1) <= pauses_before(attempt) <= 8 * (attempt - 1),
    decreases attempt,
{
    if attempt > 1 {
        lemma_pauses_bounds((attempt - 1) as nat);
        lemma_backoff_table((attempt - 1) as nat);
    }
}

/// A wait cannot go on for ever: on a clock that shows at least the pauses
/// made, a wait whose probes are never ready has timed out by the attempt
/// whose number is one more than half the startup timeout, rounded up.
pub proof fn lemma_wait_ends(timeout_secs: u64, attempt: nat, elapsed_secs: u64)
    requires
        attempt >= 1,
        2 * (attempt - 1) >= timeout_secs,
        elapsed_secs >= pauses_before(attempt),
    ensures
        wait_rule(timeout_secs, attempt, false, elapsed_secs) == WaitRule::TimedOut,
{
    lemma_pauses_bounds(attempt);
}

/// A backend that is ready at its third probe has been waited for four
/// seconds: the pauses after the first and the second attempt, with none
/// after the third.
pub proof fn lemma_ready_at_third_attempt(timeout_secs: u64, elapsed_secs: u64)
    ensures
        pauses_before(3) == 4,
        wait_rule(timeout_secs, 3, true, elapsed_secs) == WaitRule::Ready,
{
    reveal_with_fuel(pauses_before, 4);
    lemma_backoff_table(1);
    lemma_backoff_table(2);
}

} // verus!
