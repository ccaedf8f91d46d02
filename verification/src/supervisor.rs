//! Process supervisor: validating a launch request, computing the spawn, and
//! recognising readiness or failure from the subprocess's output.
//!
//! A launch may only be requested from the designated entry surface. An
//! authorized launch yields a [`LaunchPlan`]: the provisioning work, a fresh
//! endpoint, the exact subprocess invocation, and the display-surface URL.
//! The driver spawns the plan's command and feeds the observed output events
//! back; the monitor turns them into a verdict, and only a launch that was
//! not observed to fail is handed to the registry.

use vstd::prelude::*;
use vstd::string::StringExecFns;

use rand::Rng;

use crate::command::LaunchCommand;
use crate::endpoint::{allocate, Endpoint};
use crate::errors::LaunchError;
use crate::installer::{install_if_needed, spec_install_plan, InstallPlan, InstallState};
use crate::python_env::{
    path_with_python_env, spec_path_with_python_env, string_views, PythonEnvCommand,
};
use crate::registry::{contains_pid, contains_port, registry_wf, JupyterProcess, Registry};
use crate::text::{contains_substr, dec_digits, has_substr, str_eq, u64_to_string};

verus! {

/// A request to launch the kernel server of one project workspace.
pub struct LaunchRequest {
    pub area: String,
    pub project: String,
}

/// Everything the driver needs to perform one launch: the provisioning work,
/// the allocated endpoint, the subprocess invocation, the display-surface
/// URL to open on readiness, and a fresh label for the display surface.
pub struct LaunchPlan {
    pub install: InstallPlan,
    pub endpoint: Endpoint,
    pub command: LaunchCommand,
    pub url: String,
    pub window_label: String,
}

/// The label of the single entry surface that may request launches.
pub open spec fn entry_surface() -> Seq<char> {
    "init"@
}

/// The heuristic readiness marker a kernel server prints once it accepts
/// connections.
pub open spec fn running_marker() -> Seq<char> {
    "is running at"@
}

/// The display-surface URL of a ready kernel server.
pub open spec fn spec_lab_url(port: u16, token: Seq<char>) -> Seq<char> {
    "http://localhost:"@ + dec_digits(port as nat) + "/lab?token="@ + token
}

/// Builds the display-surface URL for a ready kernel server.
pub fn lab_url(port: u16, token: &str) -> (r: String)
    ensures
        r@ == spec_lab_url(port, token@),
{
    let mut r = String::from_str("http://localhost:");
    let port_str = u64_to_string(port as u64);
    r.append(port_str.as_str());
    r.append("/lab?token=");
    r.append(token);
    r
}

/// Does this output line carry the readiness marker?
pub fn contains_running_marker(line: &str) -> (r: bool)
    ensures
        r == has_substr(line@, running_marker()),
{
    contains_substr(line, "is running at")
}

/// One observation from a monitored subprocess: an output line from either
/// stream, a stream error, termination with an exit code, or anything else.
pub enum LaunchEvent {
    Stdout(String),
    Stderr(String),
    Error(String),
    Terminated { code: Option<i32> },
    Other,
}

/// What the monitor concludes: the server is ready, the launch failed, or
/// nothing decisive has been observed yet.
#[derive(Clone, Copy, Debug, PartialEq, Eq, Structural)]
pub enum MonitorVerdict {
    Ready,
    Failed(LaunchError),
    Pending,
}

/// An absent exit code is reported as zero.
pub open spec fn exit_code(code: Option<i32>) -> i32 {
    match code {
        Some(c) => c,
        None => 0,
    }
}

/// The monitor's reaction to a single event: a stream error is fatal, an
/// exit before readiness is fatal with its code, an output line carrying the
/// readiness marker means the server is ready, and everything else is not
/// yet decisive.
pub open spec fn spec_step(e: LaunchEvent) -> MonitorVerdict {
    match e {
        LaunchEvent::Error(_) => MonitorVerdict::Failed(LaunchError::SpawnFailed),
        LaunchEvent::Terminated { code } => MonitorVerdict::Failed(
            LaunchError::LauncherExited { code: exit_code(code) },
        ),
        LaunchEvent::Stdout(m) => if has_substr(m@, running_marker()) {
            MonitorVerdict::Ready
        } else {
            MonitorVerdict::Pending
        },
        LaunchEvent::Stderr(m) => if has_substr(m@, running_marker()) {
            MonitorVerdict::Ready
        } else {
            MonitorVerdict::Pending
        },
        LaunchEvent::Other => MonitorVerdict::Pending,
    }
}

/// Reacts to a single observed event.
pub fn step(e: &LaunchEvent) -> (r: MonitorVerdict)
    ensures
        r == spec_step(*e),
{
    match e {
        LaunchEvent::Error(_) => MonitorVerdict::Failed(LaunchError::SpawnFailed),
        LaunchEvent::Terminated { code } => {
            let c: i32 = match code {
                Some(v) => *v,
                None => 0,
            };
            MonitorVerdict::Failed(LaunchError::LauncherExited { code: c })
        },
        LaunchEvent::Stdout(m) => {
            if contains_running_marker(m.as_str()) {
                MonitorVerdict::Ready
            } else {
                MonitorVerdict::Pending
            }
        },
        LaunchEvent::Stderr(m) => {
            if contains_running_marker(m.as_str()) {
                MonitorVerdict::Ready
            } else {
                MonitorVerdict::Pending
            }
        },
        LaunchEvent::Other => MonitorVerdict::Pending,
    }
}

/// The verdict over a whole event stream: the first decisive event decides;
/// a stream that ends without one is still pending.
pub open spec fn spec_monitor(events: Seq<LaunchEvent>) -> MonitorVerdict
    decreases events.len(),
{
    if events.len() == 0 {
        MonitorVerdict::Pending
    } else if spec_step(events[0]) is Pending {
        spec_monitor(events.drop_first())
    } else {
        spec_step(events[0])
    }
}

/// Scans an event stream for the first decisive event.
pub fn monitor_output(events: &Vec<LaunchEvent>) -> (r: MonitorVerdict)
    ensures
        r == spec_monitor(events@),
{
    proof {
        assert(events@.skip(0) =~= events@);
    }
    let mut i: usize = 0;
    while i < events.len()
        invariant
            i <= events@.len(),
            spec_monitor(events@) == spec_monitor(events@.skip(i as int)),
        decreases events@.len() - i,
    {
        let v = step(&events[i]);
        proof {
            assert(events@.skip(i as int)[0] == events@[i as int]);
            assert(events@.skip(i as int).drop_first() =~= events@.skip(i as int + 1));
        }
        match v {
            MonitorVerdict::Pending => {
                i += 1;
            },
            _ => {
                return v;
            },
        }
    }
    proof {
        assert(events@.skip(events@.len() as int) =~= Seq::<LaunchEvent>::empty());
    }
    MonitorVerdict::Pending
}

/// A subprocess that terminates before any readiness signal fails the launch
/// with its exit code: if the event at `at` is a termination and no earlier
/// event is decisive, the monitor's verdict over the whole stream is
/// `LauncherExited` with that code.
pub proof fn lemma_exit_before_ready(events: Seq<LaunchEvent>, at: int, code: Option<i32>)
    requires
        0 <= at < events.len(),
        events[at] == (LaunchEvent::Terminated { code }),
        forall|k: int| 0 <= k < at ==> spec_step(#[trigger] events[k]) is Pending,
    ensures
        spec_monitor(events) == (MonitorVerdict::Failed(
            LaunchError::LauncherExited { code: exit_code(code) },
        )),
    decreases at,
{
    if at == 0 {
    } else {
        assert(spec_step(events[0]) is Pending);
        assert(events.drop_first()[at - 1] == events[at]);
        assert forall|k: int| 0 <= k < at - 1 implies spec_step(
            #[trigger] events.drop_first()[k],
        ) is Pending by {
            assert(events.drop_first()[k] == events[k + 1]);
        }
        lemma_exit_before_ready(events.drop_first(), at - 1, code);
    }
}

/// A first readiness marker with no earlier decisive event makes the launch
/// ready: if the event at `at` carries the marker and nothing before it is
/// decisive, the monitor's verdict over the whole stream is `Ready`.
pub proof fn lemma_ready_signal(events: Seq<LaunchEvent>, at: int)
    requires
        0 <= at < events.len(),
        spec_step(events[at]) is Ready,
        forall|k: int| 0 <= k < at ==> spec_step(#[trigger] events[k]) is Pending,
    ensures
        spec_monitor(events) == MonitorVerdict::Ready,
    decreases at,
{
    if at > 0 {
        assert(spec_step(events[0]) is Pending);
        assert(events.drop_first()[at - 1] == events[at]);
        assert forall|k: int| 0 <= k < at - 1 implies spec_step(
            #[trigger] events.drop_first()[k],
        ) is Pending by {
            assert(events.drop_first()[k] == events[k + 1]);
        }
        lemma_ready_signal(events.drop_first(), at - 1);
    }
}

/// Relies on rand's Alphanumeric distribution: every sampled value is an
/// ASCII letter or digit, so seven samples make a seven-character label.
#[verifier::external_body]
fn random_window_label() -> (r: String)
    ensures
        r@.len() == 7,
{
    rand::thread_rng().sample_iter(&rand::distributions::Alphanumeric).take(7).map(
        char::from,
    ).collect()
}

/// How readiness of a spawned kernel server is detected.
///
/// Scanning for the output marker is preferred. The fixed delay is a
/// documented fallback and a known source of failures in both directions: it
/// can expire before the server actually listens, and a server that logs the
/// marker differently never matches the pattern.
pub enum ReadinessDetector {
    /// The first output line carrying [`running_marker`] is the signal.
    Pattern,
    /// Expiry of a fixed delay, in time units, is the signal.
    FixedDelay { units: u64 },
}

/// The fixed-delay fallback, sized by the provisioning outcome: a launch
/// right after a fresh install waits longer than one on an already
/// provisioned environment.
pub fn fallback_delay(install: &InstallPlan) -> (r: u64)
    ensures
        r == (if install.installed {
            8u64
        } else {
            2u64
        }),
{
    if install.installed {
        8
    } else {
        2
    }
}

/// Whether the launch counts as ready under the chosen strategy, given the
/// events observed so far and the time units elapsed since the spawn.
pub fn is_ready(
    detector: &ReadinessDetector,
    events: &Vec<LaunchEvent>,
    elapsed_units: u64,
) -> (r: bool)
    ensures
        r == (match *detector {
            ReadinessDetector::Pattern => spec_monitor(events@) is Ready,
            ReadinessDetector::FixedDelay { units } => elapsed_units >= units,
        }),
{
    match detector {
        ReadinessDetector::Pattern => {
            let v = monitor_output(events);
            match v {
                MonitorVerdict::Ready => true,
                _ => false,
            }
        },
        ReadinessDetector::FixedDelay { units } => elapsed_units >= *units,
    }
}

/// The plan `p` is exactly the launch that `state` and the given paths and
/// request call for: the provisioning decision for `state`, a four-argument
/// launcher invocation `(area, project, token, port)` with the runtime
/// framework in its environment, the display-surface URL for the plan's own
/// endpoint, and a fresh seven-character surface label.
pub open spec fn plan_matches(
    p: LaunchPlan,
    state: InstallState,
    launcher_path: Seq<char>,
    framework_path: Seq<char>,
    area: Seq<char>,
    project: Seq<char>,
) -> bool {
    &&& p.install == spec_install_plan(state)
    &&& p.command.program@ == launcher_path
    &&& p.command.args@.len() == 4
    &&& p.command.args@[0]@ == area
    &&& p.command.args@[1]@ == project
    &&& p.command.args@[2]@ == p.endpoint.token@
    &&& p.command.args@[3]@ == dec_digits(p.endpoint.port as nat)
    &&& p.command.cwd is None
    &&& p.command.env@.len() == 1
    &&& p.command.env@[0].0@ == "GPYTHON_FRAMEWORK_PATH"@
    &&& p.command.env@[0].1@ == framework_path
    &&& p.command.path_entries@.len() == 0
    &&& p.url@ == spec_lab_url(p.endpoint.port, p.endpoint.token@)
    &&& p.window_label@.len() == 7
    &&& exists|n: u64| p.endpoint.token@ == dec_digits(n as nat)
    &&& crate::text::all_digits(p.endpoint.token@)
    &&& p.endpoint.token@.len() >= 1
}

/// The first step of every launch: only the entry surface may proceed. The
/// driver calls this before touching the filesystem, so a rejected request
/// has no side effects at all; `do_launch` repeats the check, so the library
/// enforces it even for a driver that skips this step.
pub fn authorize_launch(window_label: &str) -> (r: Result<(), LaunchError>)
    ensures
        r is Ok <==> window_label@ == entry_surface(),
        r is Err ==> r == Err::<(), LaunchError>(LaunchError::UnauthorizedLaunch),
{
    if str_eq(window_label, "init") {
        Ok(())
    } else {
        Err(LaunchError::UnauthorizedLaunch)
    }
}

/// Decides one launch request: rejects any caller but the entry surface
/// without doing any other work, and otherwise computes the provisioning
/// plan, allocates a fresh endpoint, and lays out the launcher invocation.
pub fn do_launch(
    window_label: &str,
    state: &InstallState,
    launcher_path: &str,
    framework_path: &str,
    request: &LaunchRequest,
) -> (r: Result<LaunchPlan, LaunchError>)
    ensures
        window_label@ != entry_surface() ==> r == Err::<LaunchPlan, LaunchError>(
            LaunchError::UnauthorizedLaunch,
        ),
        r matches Err(e) ==> (e == LaunchError::UnauthorizedLaunch <==> window_label@
            != entry_surface()),
        r matches Err(e) ==> e == LaunchError::UnauthorizedLaunch || e
            == LaunchError::NoPortAvailable,
        r matches Ok(p) ==> window_label@ == entry_surface() && plan_matches(
            p,
            *state,
            launcher_path@,
            framework_path@,
            request.area@,
            request.project@,
        ),
{
    if !str_eq(window_label, "init") {
        return Err(LaunchError::UnauthorizedLaunch);
    }
    let install = install_if_needed(state);
    let endpoint = match allocate() {
        Ok(e) => e,
        Err(err) => {
            return Err(err);
        },
    };
    let mut args: Vec<String> = Vec::new();
    args.push(request.area.clone());
    args.push(request.project.clone());
    args.push(endpoint.token.clone());
    args.push(u64_to_string(endpoint.port as u64));
    let mut env: Vec<(String, String)> = Vec::new();
    env.push((String::from_str("GPYTHON_FRAMEWORK_PATH"), String::from_str(framework_path)));
    let command = LaunchCommand {
        program: String::from_str(launcher_path),
        args,
        cwd: None,
        env,
        path_entries: Vec::new(),
    };
    let url = lab_url(endpoint.port, endpoint.token.as_str());
    let window_label_fresh = random_window_label();
    Ok(LaunchPlan { install, endpoint, command, url, window_label: window_label_fresh })
}

/// Completes a launch once the subprocess's output has been observed: a
/// fatal verdict reports the failure and leaves the registry untouched;
/// otherwise the process is registered. A stream that ended with nothing
/// decisive counts as ready, the supervisor's optimistic fallback.
pub fn finish_launch(
    registry: &mut Registry,
    endpoint: Endpoint,
    pid: u32,
    events: &Vec<LaunchEvent>,
) -> (r: Result<(), LaunchError>)
    requires
        registry_wf(old(registry)@),
        !contains_pid(old(registry)@, pid),
        !contains_port(old(registry)@, endpoint.port),
    ensures
        spec_monitor(events@) matches MonitorVerdict::Failed(e) ==> r == Err::<(), LaunchError>(e)
            && final(registry)@ == old(registry)@,
        !(spec_monitor(events@) matches MonitorVerdict::Failed(_)) ==> r is Ok && final(registry)@
            == old(registry)@.push(
            (JupyterProcess { pid, port: endpoint.port, token: endpoint.token }),
        ) && registry_wf(final(registry)@),
{
    let verdict = monitor_output(events);
    match verdict {
        MonitorVerdict::Failed(e) => Err(e),
        _ => {
            registry.insert(JupyterProcess { pid, port: endpoint.port, token: endpoint.token });
            Ok(())
        },
    }
}

/// Lays out the direct invocation of a kernel server: `python -m jupyterlab`
/// in the user's home directory, told its port and origin policy, with the
/// access token in its environment and the runtime's executable directories
/// ahead of the inherited search path.
pub fn run(home: &str, env_path: &str, existing_path: Vec<String>, port: u16, token: &str) -> (c:
    LaunchCommand)
    ensures
        c.program@ == "python"@,
        c.args@.len() == 8,
        c.args@[0]@ == "-m"@,
        c.args@[1]@ == "jupyterlab"@,
        c.args@[2]@ == "--no-browser"@,
        c.args@[3]@ == "--expose-app-in-browser"@,
        c.args@[4]@ == "--JupyterApp.config_file_name=\"\""@,
        c.args@[5]@ == "--ServerApp.port="@ + dec_digits(port as nat),
        c.args@[6]@ == "--ServerApp.allow_origin=\" * \""@,
        c.args@[7]@ == "--ContentsManager.allow_hidden=True"@,
        c.cwd matches Some(h) && h@ == home@,
        c.env@.len() == 1,
        c.env@[0].0@ == "JUPYTER_TOKEN"@,
        c.env@[0].1@ == token@,
        c.path_view() == spec_path_with_python_env(string_views(existing_path@), env_path@),
{
    let mut args: Vec<String> = Vec::new();
    args.push(String::from_str("-m"));
    args.push(String::from_str("jupyterlab"));
    args.push(String::from_str("--no-browser"));
    args.push(String::from_str("--expose-app-in-browser"));
    args.push(String::from_str("--JupyterApp.config_file_name=\"\""));
    let mut port_arg = String::from_str("--ServerApp.port=");
    let port_str = u64_to_string(port as u64);
    port_arg.append(port_str.as_str());
    args.push(port_arg);
    args.push(String::from_str("--ServerApp.allow_origin=\" * \""));
    args.push(String::from_str("--ContentsManager.allow_hidden=True"));
    let mut env: Vec<(String, String)> = Vec::new();
    env.push((String::from_str("JUPYTER_TOKEN"), String::from_str(token)));
    let path_entries = path_with_python_env(existing_path, env_path);
    LaunchCommand {
        program: String::from_str("python"),
        args,
        cwd: Some(String::from_str(home)),
        env,
        path_entries,
    }
}

} // verus!
