//! How the backend process is launched: program, arguments, working
//! directory and environment.

use super::config::BackendConfig;
use super::environment::pairs_view;
use super::error::{BackendError, BackendErrorView};
use crate::text::{decimal, decimal_text};
use vstd::prelude::*;

verus! {

/// What becomes of the standard output and standard error of the backend
/// process. Neither choice discards them.
#[derive(Debug, Clone, Copy, PartialEq, Eq, Structural)]
pub enum ChildOutput {
    /// The process writes to the streams of its parent.
    Inherit,
    /// The parent reads the streams and logs them line by line.
    Capture,
}

/// Everything needed to start the backend process.
#[derive(Debug, Clone, PartialEq, Eq)]
pub struct LaunchPlan {
    /// The program to run.
    pub program: String,
    /// Its arguments.
    pub args: Vec<String>,
    /// The directory to run it in; `None` leaves the current one.
    pub working_dir: Option<String>,
    /// The settings to add to its environment, in order: a later entry
    /// overrides an earlier one with the same key.
    pub env: Vec<(String, String)>,
    /// Where its standard output and standard error go.
    pub output: ChildOutput,
}

/// The parent directory of a path, by `std::path::Path::parent`; `None`
/// where the path has none. How a path splits into components depends on
/// the platform, so nothing is claimed of the result.
#[verifier::external_body]
fn parent_of(path: &str) -> Option<String> {
    std::path::Path::new(path).parent().map(|p| p.to_string_lossy().into_owned())
}

/// The extension of a path's file name, by `std::path::Path::extension`;
/// `None` where it has none. Nothing is claimed of the result, for the same
/// reason.
#[verifier::external_body]
fn extension_of(path: &str) -> Option<String> {
    std::path::Path::new(path).extension().map(|e| e.to_string_lossy().into_owned())
}

/// A list of texts as character sequences.
pub open spec fn texts_view(texts: Seq<String>) -> Seq<Seq<char>> {
    Seq::new(texts.len(), |i: int| texts[i]@)
}

/// An optional text as a character sequence.
pub open spec fn optional_text(text: Option<String>) -> Option<Seq<char>> {
    match text {
        Some(t) => Some(t@),
        None => None,
    }
}

/// Whether a file extension marks the backend as a Python script, which is
/// run through an interpreter.
pub open spec fn is_script(extension: Option<Seq<char>>) -> bool {
    extension == Some("py"@)
}

/// The settings that every backend process gets: its host and port, the
/// marker that it runs under the desktop application, and its data
/// directory.
pub open spec fn base_env(config: &BackendConfig, data_dir: Seq<char>) -> Seq<
    (Seq<char>, Seq<char>),
> {
    seq![
        ("BACKEND_HOST"@, config.host@),
        ("BACKEND_PORT"@, decimal_text(config.port as nat)),
        ("TAURI_ENABLED"@, "true"@),
        ("DATA_DIR"@, data_dir),
    ]
}

/// The whole environment of the backend process: the base settings, then
/// the configured ones, which therefore override them.
pub open spec fn launch_env(config: &BackendConfig, data_dir: Seq<char>) -> Seq<
    (Seq<char>, Seq<char>),
> {
    base_env(config, data_dir) + pairs_view(config.env_vars@)
}

/// The arguments with which the interpreter serves a script backend.
pub open spec fn script_args(config: &BackendConfig) -> Seq<Seq<char>> {
    seq![
        "-m"@,
        "uvicorn"@,
        "main:app"@,
        "--host"@,
        config.host@,
        "--port"@,
        decimal_text(config.port as nat),
    ]
}

fn environment_for(config: &BackendConfig, data_dir: &str) -> (env: Vec<(String, String)>)
    ensures
        pairs_view(env@) == launch_env(config, data_dir@),
{
    let mut env: Vec<(String, String)> = Vec::new();
    env.push((String::from_str("BACKEND_HOST"), config.host.clone()));
    env.push((String::from_str("BACKEND_PORT"), decimal(config.port as u64)));
    env.push((String::from_str("TAURI_ENABLED"), String::from_str("true")));
    env.push((String::from_str("DATA_DIR"), String::from_str(data_dir)));
    let mut i: usize = 0;
    assert(pairs_view(env@) =~= base_env(config, data_dir@) + pairs_view(
        config.env_vars@,
    ).take(0));
    while i < config.env_vars.len()
        invariant
            i <= config.env_vars@.len(),
            pairs_view(env@) == base_env(config, data_dir@) + pairs_view(config.env_vars@).take(
                i as int,
            ),
        decreases config.env_vars@.len() - i,
    {
        let entry = &config.env_vars[i];
        let ghost before = pairs_view(env@);
        env.push((entry.0.clone(), entry.1.clone()));
        proof {
            assert(pairs_view(env@) =~= before.push((entry.0@, entry.1@)));
            assert(pairs_view(config.env_vars@).take(i + 1) =~= pairs_view(
                config.env_vars@,
            ).take(i as int).push((entry.0@, entry.1@)));
            assert(pairs_view(env@) =~= base_env(config, data_dir@) + pairs_view(
                config.env_vars@,
            ).take(i + 1));
        }
        i = i + 1;
    }
    assert(pairs_view(config.env_vars@).take(i as int) =~= pairs_view(config.env_vars@));
    env
}

/// Plans the launch of the backend, given the parent directory and the
/// extension of its binary path as the platform reads them. The process
/// runs in the parent directory of the binary. A binary runs as it is, with
/// no arguments; a script runs through the interpreter `python`, and needs
/// a parent directory. The environment holds the base settings and then the
/// configured ones.
pub fn plan_launch(
    config: &BackendConfig,
    data_dir: &str,
    python: &str,
    parent: Option<String>,
    extension: Option<String>,
) -> (r: Result<LaunchPlan, BackendError>)
    ensures
        r is Err <==> is_script(optional_text(extension)) && parent is None,
        r is Err ==> r->Err_0@ == BackendErrorView::Internal(
            "Cannot determine backend directory"@,
        ),
        r is Ok ==> {
            let plan = r->Ok_0;
            &&& plan.program@ == if is_script(optional_text(extension)) {
                python@
            } else {
                config.binary_path@
            }
            &&& texts_view(plan.args@) == if is_script(optional_text(extension)) {
                script_args(config)
            } else {
                Seq::<Seq<char>>::empty()
            }
            &&& optional_text(plan.working_dir) == optional_text(parent)
            &&& pairs_view(plan.env@) == launch_env(config, data_dir@)
            &&& plan.output == ChildOutput::Inherit
        },
{
    let script = match &extension {
        Some(e) => *e == String::from_str("py"),
        None => false,
    };
    if script {
        if parent.is_none() {
            return Err(
                BackendError::Internal(String::from_str("Cannot determine backend directory")),
            );
        }
        let mut args: Vec<String> = Vec::new();
        args.push(String::from_str("-m"));
        args.push(String::from_str("uvicorn"));
        args.push(String::from_str("main:app"));
        args.push(String::from_str("--host"));
        args.push(config.host.clone());
        args.push(String::from_str("--port"));
        args.push(decimal(config.port as u64));
        assert(texts_view(args@) =~= script_args(config));
        Ok(
            LaunchPlan {
                program: String::from_str(python),
                args,
                working_dir: parent,
                env: environment_for(config, data_dir),
                output: ChildOutput::Inherit,
            },
        )
    } else {
        let args: Vec<String> = Vec::new();
        Ok(
            LaunchPlan {
                program: config.binary_path.clone(),
                args,
                working_dir: parent,
                env: environment_for(config, data_dir),
                output: ChildOutput::Inherit,
            },
        )
    }
}

/// Plans the launch of the backend: asks the platform for the parent
/// directory and the extension of the binary path, and plans with them as
/// `plan_launch` does. The environment does not depend on what the platform
/// says.
pub fn launch_plan(config: &BackendConfig, data_dir: &str, python: &str) -> (r: Result<
    LaunchPlan,
    BackendError,
>)
    ensures
        r is Err ==> r->Err_0@ == BackendErrorView::Internal(
            "Cannot determine backend directory"@,
        ),
        r is Ok ==> {
            let plan = r->Ok_0;
            &&& pairs_view(plan.env@) == launch_env(config, data_dir@)
            &&& plan.output == ChildOutput::Inherit
            &&& (plan.program@ == config.binary_path@ && texts_view(plan.args@) == Seq::<
                Seq<char>,
            >::empty()) || (plan.program@ == python@ && texts_view(plan.args@) == script_args(
                config,
            ) && plan.working_dir is Some)
        },
{
    let parent = parent_of(config.binary_path.as_str());
    let extension = extension_of(config.binary_path.as_str());
    plan_launch(config, data_dir, python, parent, extension)
}

/// The error for a backend process that could not be started, whatever
/// the cause: `SpawnFailed` with the system's error text.
pub fn spawn_failure(os_error: String) -> (r: BackendError)
    ensures
        r@ == BackendErrorView::SpawnFailed(os_error@),
{
    BackendError::SpawnFailed(os_error)
}

/// A configured setting overrides a base setting with the same key, and of
/// two configured settings with one key the later one counts: the launch
/// environment gives a key what the configured list gives it, and the base
/// value only where the configured list has none.
pub proof fn lemma_configured_env_overrides(
    config: BackendConfig,
    data_dir: Seq<char>,
    key: Seq<char>,
)
    ensures
        super::environment::env_lookup(launch_env(&config, data_dir), key)
            == match super::environment::env_lookup(pairs_view(config.env_vars@), key) {
            Some(value) => Some(value),
            None => super::environment::env_lookup(base_env(&config, data_dir), key),
        },
{
    super::environment::lemma_later_entries_win(
        base_env(&config, data_dir),
        pairs_view(config.env_vars@),
        key,
    );
}

} // verus!
