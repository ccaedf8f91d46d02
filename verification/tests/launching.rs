use gennaker::errors::LaunchError;
use gennaker::installer::InstallState;
use gennaker::registry::Registry;
use gennaker::installer::install_if_needed;
use gennaker::supervisor::{
    authorize_launch, contains_running_marker, do_launch, fallback_delay, finish_launch, is_ready,
    lab_url, monitor_output, run, step, LaunchEvent, LaunchRequest, MonitorVerdict,
    ReadinessDetector,
};

fn provisioned_state() -> InstallState {
    InstallState {
        projects_exist: true,
        venvs_exist: true,
        config_exists: true,
        libraries_exist: true,
    }
}

fn readings_request() -> LaunchRequest {
    LaunchRequest {
        area: String::from("Readings"),
        project: String::from("Symbolic Math"),
    }
}

#[test]
fn only_the_entry_surface_is_authorized() {
    assert_eq!(authorize_launch("init"), Ok(()));
    assert_eq!(authorize_launch("main"), Err(LaunchError::UnauthorizedLaunch));
    assert_eq!(authorize_launch(""), Err(LaunchError::UnauthorizedLaunch));
    assert_eq!(authorize_launch("init2"), Err(LaunchError::UnauthorizedLaunch));
}

#[test]
fn error_messages_are_exact() {
    assert_eq!(
        LaunchError::UnauthorizedLaunch.message(),
        "cannot launch on this window"
    );
    assert_eq!(
        LaunchError::NoPortAvailable.message(),
        "failed to pick unused port"
    );
    assert_eq!(
        LaunchError::LauncherExited { code: 2 }.message(),
        "launcher exited with status code 2"
    );
    assert_eq!(
        LaunchError::LauncherExited { code: -3 }.message(),
        "launcher exited with status code -3"
    );
    assert_eq!(
        LaunchError::ElevatedProcessFailed { code: 1 }.message(),
        "the setup step exited with status code 1"
    );
    assert_eq!(
        LaunchError::PathResolution.message(),
        "failed to resolve the home directory"
    );
}

#[test]
fn launch_from_other_window_is_rejected() {
    let r = do_launch(
        "main",
        &provisioned_state(),
        "/res/launch.sh",
        "/fw/gpython.framework",
        &readings_request(),
    );
    match r {
        Err(e) => assert_eq!(e, LaunchError::UnauthorizedLaunch),
        Ok(_) => panic!("launch from a non-entry surface must be rejected"),
    }
}

#[test]
fn launch_from_entry_surface_builds_full_plan() {
    let r = do_launch(
        "init",
        &provisioned_state(),
        "/res/launch.sh",
        "/fw/gpython.framework",
        &readings_request(),
    );
    let plan = r.expect("an authorized launch on a provisioned environment must produce a plan");
    assert!(!plan.install.installed);
    assert_eq!(plan.command.program, "/res/launch.sh");
    assert_eq!(plan.command.args.len(), 4);
    assert_eq!(plan.command.args[0], "Readings");
    assert_eq!(plan.command.args[1], "Symbolic Math");
    assert_eq!(plan.command.args[2], plan.endpoint.token);
    assert_eq!(plan.command.args[3], plan.endpoint.port.to_string());
    assert_eq!(plan.command.env.len(), 1);
    assert_eq!(plan.command.env[0].0, "GPYTHON_FRAMEWORK_PATH");
    assert_eq!(plan.command.env[0].1, "/fw/gpython.framework");
    assert!(plan.command.cwd.is_none());
    assert!(!plan.endpoint.token.is_empty());
    assert!(plan.endpoint.token.chars().all(|c| c.is_ascii_digit()));
    assert_eq!(plan.window_label.len(), 7);
    assert_eq!(
        plan.url,
        format!(
            "http://localhost:{}/lab?token={}",
            plan.endpoint.port, plan.endpoint.token
        )
    );
}

#[test]
fn ready_launch_registers_process() {
    let plan = do_launch(
        "init",
        &provisioned_state(),
        "/res/launch.sh",
        "/fw/gpython.framework",
        &readings_request(),
    )
    .unwrap();
    let port = plan.endpoint.port;
    let events = vec![
        LaunchEvent::Stdout(String::from("[I 2023-01-01 ServerApp] starting")),
        LaunchEvent::Other,
        LaunchEvent::Stderr(format!(
            "[I 2023-01-01 ServerApp] Jupyter Server is running at http://localhost:{port}/lab"
        )),
        LaunchEvent::Stdout(String::from("further output")),
    ];
    assert_eq!(monitor_output(&events), MonitorVerdict::Ready);
    let mut registry = Registry::new();
    let r = finish_launch(&mut registry, plan.endpoint, 4242, &events);
    assert!(r.is_ok());
    assert_eq!(registry.len(), 1);
    assert_eq!(registry.list_ids(), vec![4242]);
}

#[test]
fn exit_before_readiness_fails_and_registers_nothing() {
    let plan = do_launch(
        "init",
        &provisioned_state(),
        "/res/launch.sh",
        "/fw/gpython.framework",
        &readings_request(),
    )
    .unwrap();
    let events = vec![
        LaunchEvent::Stderr(String::from("Traceback (most recent call last):")),
        LaunchEvent::Terminated { code: Some(2) },
        LaunchEvent::Stdout(String::from("is running at (too late)")),
    ];
    assert_eq!(
        monitor_output(&events),
        MonitorVerdict::Failed(LaunchError::LauncherExited { code: 2 })
    );
    let mut registry = Registry::new();
    let r = finish_launch(&mut registry, plan.endpoint, 4242, &events);
    assert_eq!(r, Err(LaunchError::LauncherExited { code: 2 }));
    assert_eq!(registry.len(), 0);
}

#[test]
fn stream_error_fails_the_launch() {
    let events = vec![
        LaunchEvent::Other,
        LaunchEvent::Error(String::from("broken pipe")),
    ];
    assert_eq!(
        monitor_output(&events),
        MonitorVerdict::Failed(LaunchError::SpawnFailed)
    );
}

#[test]
fn exit_without_code_reports_zero() {
    let events = vec![LaunchEvent::Terminated { code: None }];
    assert_eq!(
        monitor_output(&events),
        MonitorVerdict::Failed(LaunchError::LauncherExited { code: 0 })
    );
}

#[test]
fn undecided_stream_stays_pending() {
    let events = vec![
        LaunchEvent::Stdout(String::from("warming up")),
        LaunchEvent::Stderr(String::from("still warming up")),
    ];
    assert_eq!(monitor_output(&events), MonitorVerdict::Pending);
    assert_eq!(monitor_output(&Vec::new()), MonitorVerdict::Pending);
}

#[test]
fn step_reacts_to_single_events() {
    assert_eq!(
        step(&LaunchEvent::Stdout(String::from("server is running at x"))),
        MonitorVerdict::Ready
    );
    assert_eq!(
        step(&LaunchEvent::Stdout(String::from("nothing yet"))),
        MonitorVerdict::Pending
    );
    assert_eq!(step(&LaunchEvent::Other), MonitorVerdict::Pending);
    assert_eq!(
        step(&LaunchEvent::Terminated { code: Some(137) }),
        MonitorVerdict::Failed(LaunchError::LauncherExited { code: 137 })
    );
}

#[test]
fn readiness_marker_detection() {
    assert!(contains_running_marker(
        "[I ServerApp] Jupyter Server 2.7.0 is running at:"
    ));
    assert!(contains_running_marker("is running at"));
    assert!(!contains_running_marker("is running"));
    assert!(!contains_running_marker(""));
    assert!(!contains_running_marker("server stopped"));
}

#[test]
fn readiness_strategies() {
    let events = vec![LaunchEvent::Stderr(String::from(
        "Jupyter Server is running at http://localhost:1/",
    ))];
    let quiet = vec![LaunchEvent::Stdout(String::from("starting"))];
    assert!(is_ready(&ReadinessDetector::Pattern, &events, 0));
    assert!(!is_ready(&ReadinessDetector::Pattern, &quiet, 100));
    assert!(is_ready(&ReadinessDetector::FixedDelay { units: 8 }, &quiet, 8));
    assert!(!is_ready(&ReadinessDetector::FixedDelay { units: 8 }, &quiet, 7));
}

#[test]
fn fallback_delay_sized_by_install_work() {
    let fresh = InstallState {
        projects_exist: false,
        venvs_exist: false,
        config_exists: false,
        libraries_exist: false,
    };
    assert_eq!(fallback_delay(&install_if_needed(&fresh)), 8);
    assert_eq!(fallback_delay(&install_if_needed(&provisioned_state())), 2);
}

#[test]
fn lab_url_formatting() {
    assert_eq!(
        lab_url(54321, "8374662990"),
        "http://localhost:54321/lab?token=8374662990"
    );
    assert_eq!(lab_url(80, ""), "http://localhost:80/lab?token=");
}

#[test]
fn run_lays_out_jupyterlab_invocation() {
    let existing = vec![String::from("/usr/bin"), String::from("/bin")];
    let c = run("/Users/ada", "/opt/runtime", existing, 8888, "tok123");
    assert_eq!(c.program, "python");
    assert_eq!(
        c.args,
        vec![
            String::from("-m"),
            String::from("jupyterlab"),
            String::from("--no-browser"),
            String::from("--expose-app-in-browser"),
            String::from("--JupyterApp.config_file_name=\"\""),
            String::from("--ServerApp.port=8888"),
            String::from("--ServerApp.allow_origin=\" * \""),
            String::from("--ContentsManager.allow_hidden=True"),
        ]
    );
    assert_eq!(c.cwd.as_deref(), Some("/Users/ada"));
    assert_eq!(c.env.len(), 1);
    assert_eq!(c.env[0].0, "JUPYTER_TOKEN");
    assert_eq!(c.env[0].1, "tok123");
    assert_eq!(
        c.path_entries,
        vec![
            String::from("/opt/runtime"),
            String::from("/opt/runtime/bin"),
            String::from("/usr/bin"),
            String::from("/bin"),
        ]
    );
}
