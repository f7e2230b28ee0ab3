//! Backend configuration: its checks, its addresses, and its construction
//! from defaults and environment overrides.

use super::environment::{env_lookup, lookup, pairs_view};
use super::error::{BackendError, BackendErrorView};
use crate::text::{decimal, decimal_text, parse_decimal, parse_decimal_text};
use vstd::prelude::*;

verus! {

/// The smallest port a backend may listen on.
pub const MIN_PORT: u16 = 1024;

/// The smallest accepted startup timeout, in seconds.
pub const MIN_STARTUP_TIMEOUT_SECS: u64 = 5;

/// The smallest accepted shutdown timeout, in seconds. It has to leave room
/// for the backend to persist its data before it is terminated.
pub const MIN_SHUTDOWN_TIMEOUT_SECS: u64 = 10;

#[derive(Debug, Clone, PartialEq, Eq)]
pub struct BackendConfig {
    /// Path to backend binary
    pub binary_path: String,
    /// Database path (SQLite)
    pub db_path: Option<String>,
    /// Server host
    pub host: String,
    /// Server port
    pub port: u16,
    /// Startup timeout in seconds
    pub startup_timeout_secs: u64,
    /// Graceful shutdown timeout in seconds
    pub shutdown_timeout_secs: u64,
    /// Health check interval in seconds
    pub health_check_interval_secs: u64,
    /// Enable auto-restart on failure
    pub auto_restart: bool,
    /// Maximum restart attempts
    pub max_restart_attempts: u32,
    /// Environment variables for the backend process, in order; of two
    /// entries with one key the later one counts
    pub env_vars: Vec<(String, String)>,
}

/// What an attempt to bind a test listener on the configured address gave.
#[derive(Debug, Clone, PartialEq, Eq)]
pub enum BindOutcome {
    /// The listener was bound: the port is free.
    Bound,
    /// The address is in use.
    AddrInUse,
    /// Binding failed for another reason, with the system's error text.
    Failed(String),
}

/// Asks the file system whether anything exists at `path`, through
/// `std::path::Path::exists`. The answer depends on what is on disk at the
/// time of the call, so nothing is claimed of it.
#[verifier::external_body]
fn path_exists(path: &str) -> bool {
    std::path::Path::new(path).exists()
}

impl BackendConfig {
    /// The base address of the backend server.
    pub open spec fn url_text(&self) -> Seq<char> {
        "http://"@ + self.host@ + ":"@ + decimal_text(self.port as nat)
    }

    /// The address of the health endpoint.
    pub open spec fn health_url_text(&self) -> Seq<char> {
        self.url_text() + "/health"@
    }

    /// The first failing check, in the order host, port, binary, startup
    /// timeout, shutdown timeout; `None` where every check passes.
    pub open spec fn validation_error(&self, binary_exists: bool) -> Option<BackendErrorView> {
        if self.host@.len() == 0 {
            Some(BackendErrorView::ConfigError("Host cannot be empty"@))
        } else if self.port < MIN_PORT {
            Some(
                BackendErrorView::ConfigError(
                    "Port must be between 1024 and 65535, got "@ + decimal_text(self.port as nat),
                ),
            )
        } else if !binary_exists {
            Some(BackendErrorView::BinaryNotFound(self.binary_path@))
        } else if self.startup_timeout_secs < MIN_STARTUP_TIMEOUT_SECS {
            Some(BackendErrorView::ConfigError("Startup timeout must be at least 5 seconds"@))
        } else if self.shutdown_timeout_secs < MIN_SHUTDOWN_TIMEOUT_SECS {
            Some(
                BackendErrorView::ConfigError(
                    "Shutdown timeout must be at least 10 seconds to allow time for backups"@,
                ),
            )
        } else {
            None
        }
    }

    /// A configuration that passes every check, the binary being there.
    pub open spec fn valid(&self) -> bool {
        self.validation_error(true) is None
    }

    /// Get the backend server URL
    pub fn backend_url(&self) -> (r: String)
        ensures
            r@ == self.url_text(),
    {
        let port = decimal(self.port as u64);
        String::from_str("http://").concat(self.host.as_str()).concat(":").concat(port.as_str())
    }

    /// Get the health check URL
    pub fn health_url(&self) -> (r: String)
        ensures
            r@ == self.health_url_text(),
    {
        self.backend_url().concat("/health")
    }

    /// Says whether the configured port is free, from the outcome of binding
    /// a test listener on it. Only "address in use" means that it is taken;
    /// any other failure is reported and never read as a free port.
    pub fn is_port_available(&self, bind: &BindOutcome) -> (r: Result<bool, BackendError>)
        ensures
            match *bind {
                BindOutcome::Bound => r == Ok::<bool, BackendError>(true),
                BindOutcome::AddrInUse => r == Ok::<bool, BackendError>(false),
                BindOutcome::Failed(text) => r is Err && r->Err_0@ == BackendErrorView::Internal(
                    text@,
                ),
            },
    {
        match bind {
            BindOutcome::Bound => Ok(true),
            BindOutcome::AddrInUse => Ok(false),
            BindOutcome::Failed(text) => Err(BackendError::Internal(text.clone())),
        }
    }

    /// Decides whether the backend can be started on the configured port,
    /// from the outcome of binding a test listener on it: only a port that
    /// was seen free will do. A port in use, and one that could not be
    /// probed, is reported as already bound.
    pub fn require_free_port(&self, bind: &BindOutcome) -> (r: Result<(), BackendError>)
        ensures
            *bind is Bound ==> r is Ok,
            !(*bind is Bound) ==> r is Err && r->Err_0@ == (BackendErrorView::PortAlreadyBound {
                port: self.port,
            }),
    {
        match self.is_port_available(bind) {
            Ok(true) => Ok(()),
            _ => Err(BackendError::PortAlreadyBound { port: self.port }),
        }
    }

    /// Checks the configuration, given whether the binary exists on disk, and
    /// reports the first failing check.
    pub fn validate_with_binary(&self, binary_exists: bool) -> (r: Result<(), BackendError>)
        ensures
            r is Ok <==> self.validation_error(binary_exists) is None,
            r is Err ==> Some(r->Err_0@) == self.validation_error(binary_exists),
    {
        if self.host.as_str().is_empty() {
            return Err(BackendError::ConfigError(String::from_str("Host cannot be empty")));
        }
        if self.port < MIN_PORT {
            let port = decimal(self.port as u64);
            return Err(
                BackendError::ConfigError(
                    String::from_str("Port must be between 1024 and 65535, got ").concat(
                        port.as_str(),
                    ),
                ),
            );
        }
        if !binary_exists {
            return Err(BackendError::BinaryNotFound(self.binary_path.clone()));
        }
        if self.startup_timeout_secs < MIN_STARTUP_TIMEOUT_SECS {
            return Err(
                BackendError::ConfigError(
                    String::from_str("Startup timeout must be at least 5 seconds"),
                ),
            );
        }
        if self.shutdown_timeout_secs < MIN_SHUTDOWN_TIMEOUT_SECS {
            return Err(
                BackendError::ConfigError(
                    String::from_str(
                        "Shutdown timeout must be at least 10 seconds to allow time for backups",
                    ),
                ),
            );
        }
        Ok(())
    }

    /// Validate configuration. Whether the binary exists is asked of the file
    /// system; the result is that of `validate_with_binary` on the answer.
    pub fn validate(&self) -> (r: Result<(), BackendError>)
        ensures
            exists|on_disk: bool|
                {
                    &&& r is Ok <==> (#[trigger] self.validation_error(on_disk)) is None
                    &&& r is Err ==> Some(r->Err_0@) == self.validation_error(on_disk)
                },
            self.host@.len() == 0 || self.port < MIN_PORT ==> r is Err && r->Err_0 is ConfigError,
    {
        let on_disk = path_exists(self.binary_path.as_str());
        self.validate_with_binary(on_disk)
    }
}

/// A port below the accepted range fails validation with a configuration
/// error, and with no other kind, whatever the other fields hold and whether
/// or not the binary exists.
pub proof fn lemma_port_out_of_range_is_config_error(config: BackendConfig, binary_exists: bool)
    requires
        config.port < MIN_PORT,
    ensures
        config.validation_error(binary_exists) is Some,
        config.validation_error(binary_exists)->Some_0 is ConfigError,
{
}

/// With a host and a port that pass, a missing binary fails validation with
/// `BinaryNotFound` naming the configured path, whatever the timeouts hold.
pub proof fn lemma_missing_binary_is_reported(config: BackendConfig)
    requires
        config.host@.len() > 0,
        config.port >= MIN_PORT,
    ensures
        config.validation_error(false) == Some(
            BackendErrorView::BinaryNotFound(config.binary_path@),
        ),
{
}

/// Validation passes exactly on a non-empty host, a port in range, an
/// existing binary and timeouts at or above their minimums.
pub proof fn lemma_validation_conditions(config: BackendConfig, binary_exists: bool)
    ensures
        config.validation_error(binary_exists) is None <==> {
            &&& config.host@.len() > 0
            &&& config.port >= MIN_PORT
            &&& binary_exists
            &&& config.startup_timeout_secs >= MIN_STARTUP_TIMEOUT_SECS
            &&& config.shutdown_timeout_secs >= MIN_SHUTDOWN_TIMEOUT_SECS
        },
{
}

/// Whether a text is the word `true`, in any mix of upper and lower case.
pub open spec fn is_true_word(s: Seq<char>) -> bool {
    &&& s.len() == 4
    &&& (s[0] == 't' || s[0] == 'T')
    &&& (s[1] == 'r' || s[1] == 'R')
    &&& (s[2] == 'u' || s[2] == 'U')
    &&& (s[3] == 'e' || s[3] == 'E')
}

/// The text that the settings give to a key, or the default where they have
/// none.
pub open spec fn text_setting(
    env: Seq<(Seq<char>, Seq<char>)>,
    key: Seq<char>,
    default: Seq<char>,
) -> Seq<char> {
    match env_lookup(env, key) {
        Some(value) => value,
        None => default,
    }
}

/// The number that the settings give to a key, or the default where they
/// have none or one that is no number of at most `max`.
pub open spec fn number_setting(
    env: Seq<(Seq<char>, Seq<char>)>,
    key: Seq<char>,
    max: nat,
    default: nat,
) -> nat {
    match env_lookup(env, key) {
        Some(value) => match parse_decimal_text(value, max) {
            Some(n) => n,
            None => default,
        },
        None => default,
    }
}

/// The switch that the settings give to a key: on exactly where the value is
/// the word `true`; the default where they have none.
pub open spec fn flag_setting(env: Seq<(Seq<char>, Seq<char>)>, key: Seq<char>, default: bool)
    -> bool {
    match env_lookup(env, key) {
        Some(value) => is_true_word(value),
        None => default,
    }
}

/// Whether a configuration is the one that the settings describe: each field
/// from its key where the settings have a usable value, from its default
/// otherwise; the settings themselves are passed on to the backend.
pub open spec fn from_settings(
    config: BackendConfig,
    binary_path: Seq<char>,
    env: Seq<(Seq<char>, Seq<char>)>,
) -> bool {
    &&& config.binary_path@ == binary_path
    &&& config.db_path is None
    &&& config.host@ == text_setting(env, "BACKEND_HOST"@, "127.0.0.1"@)
    &&& config.port as nat == number_setting(env, "BACKEND_PORT"@, 65535, 8000)
    &&& config.startup_timeout_secs as nat == number_setting(
        env,
        "BACKEND_STARTUP_TIMEOUT"@,
        u64::MAX as nat,
        30,
    )
    &&& config.shutdown_timeout_secs as nat == number_setting(
        env,
        "BACKEND_SHUTDOWN_TIMEOUT"@,
        u64::MAX as nat,
        30,
    )
    &&& config.health_check_interval_secs as nat == number_setting(
        env,
        "BACKEND_HEALTH_INTERVAL"@,
        u64::MAX as nat,
        5,
    )
    &&& config.auto_restart == flag_setting(env, "BACKEND_AUTO_RESTART"@, true)
    &&& config.max_restart_attempts as nat == number_setting(
        env,
        "BACKEND_MAX_RESTART_ATTEMPTS"@,
        u32::MAX as nat,
        3,
    )
    &&& pairs_view(config.env_vars@) == env
}

fn is_true(s: &str) -> (r: bool)
    ensures
        r == is_true_word(s@),
{
    if s.unicode_len() != 4 {
        return false;
    }
    let c0 = s.get_char(0);
    let c1 = s.get_char(1);
    let c2 = s.get_char(2);
    let c3 = s.get_char(3);
    (c0 == 't' || c0 == 'T') && (c1 == 'r' || c1 == 'R') && (c2 == 'u' || c2 == 'U') && (c3 == 'e'
        || c3 == 'E')
}

fn number_from(env: &Vec<(String, String)>, key: &str, max: u64, default: u64) -> (r: u64)
    requires
        default <= max,
    ensures
        r as nat == number_setting(pairs_view(env@), key@, max as nat, default as nat),
        r <= max,
{
    match lookup(env, key) {
        Some(value) => match parse_decimal(value.as_str(), max) {
            Some(n) => n,
            None => default,
        },
        None => default,
    }
}

/// Builds the configuration from the path of the binary and the settings
/// read from the environment file, with defaults for what they leave out.
pub fn config_from_env(binary_path: String, env_vars: Vec<(String, String)>) -> (r: BackendConfig)
    ensures
        from_settings(r, binary_path@, pairs_view(env_vars@)),
{
    let host = match lookup(&env_vars, "BACKEND_HOST") {
        Some(value) => value,
        None => String::from_str("127.0.0.1"),
    };
    let port = number_from(&env_vars, "BACKEND_PORT", 65535, 8000) as u16;
    let startup_timeout_secs = number_from(&env_vars, "BACKEND_STARTUP_TIMEOUT", u64::MAX, 30);
    let shutdown_timeout_secs = number_from(&env_vars, "BACKEND_SHUTDOWN_TIMEOUT", u64::MAX, 30);
    let health_check_interval_secs = number_from(
        &env_vars,
        "BACKEND_HEALTH_INTERVAL",
        u64::MAX,
        5,
    );
    let auto_restart = match lookup(&env_vars, "BACKEND_AUTO_RESTART") {
        Some(value) => is_true(value.as_str()),
        None => true,
    };
    let max_restart_attempts = number_from(
        &env_vars,
        "BACKEND_MAX_RESTART_ATTEMPTS",
        4294967295,
        3,
    ) as u32;
    BackendConfig {
        binary_path,
        db_path: None,
        host,
        port,
        startup_timeout_secs,
        shutdown_timeout_secs,
        health_check_interval_secs,
        auto_restart,
        max_restart_attempts,
        env_vars,
    }
}

/// Loads the backend configuration: builds it from the settings and
/// validates it. The configuration that comes back has passed every check.
pub fn load_config(binary_path: String, env_vars: Vec<(String, String)>) -> (r: Result<
    BackendConfig,
    BackendError,
>)
    ensures
        r is Ok ==> from_settings(r->Ok_0, binary_path@, pairs_view(env_vars@)) && r->Ok_0.valid(),
        exists|built: BackendConfig, on_disk: bool|
            {
                &&& from_settings(built, binary_path@, pairs_view(env_vars@))
                &&& r is Ok <==> (#[trigger] built.validation_error(on_disk)) is None
                &&& r is Err ==> Some(r->Err_0@) == built.validation_error(on_disk)
            },
{
    let config = config_from_env(binary_path, env_vars);
    match config.validate() {
        Ok(()) => {
            proof {
                let on_disk = choose|on_disk: bool|
                    {
                        &&& (#[trigger] config.validation_error(on_disk)) is None
                    };
                lemma_validation_conditions(config, on_disk);
                lemma_validation_conditions(config, true);
            }
            Ok(config)
        },
        Err(e) => Err(e),
    }
}

/// The defaults pass validation: a configuration built from no settings at
/// all is valid wherever its binary exists.
pub proof fn lemma_defaults_are_valid(config: BackendConfig, binary_path: Seq<char>)
    requires
        from_settings(config, binary_path, Seq::empty()),
    ensures
        config.valid(),
        config.port == 8000,
        config.startup_timeout_secs == 30,
        config.shutdown_timeout_secs == 30,
        config.health_check_interval_secs == 5,
        config.auto_restart,
        config.max_restart_attempts == 3,
{
    reveal_strlit("127.0.0.1");
}

} // verus!
