//! Command line, progress and output of the daemon.

use reachy_mini_tray::daemon::{
    build_daemon_args, derive_bootstrap_event, handle_daemon_line, monitor_daemon_output,
    spawn_real_daemon, DaemonEvent, Reaction, PROGRESS_INDETERMINATE,
};
use reachy_mini_tray::logs::LogStore;
use reachy_mini_tray::state::{AppState, DaemonState, Mode, Platform};

fn platform(os: &str) -> Platform {
    match os {
        "windows" => Platform::Windows,
        "macos" => Platform::MacOs,
        _ => Platform::Linux,
    }
}

#[test]
fn build_daemon_args_usb_has_no_mockup() {
    let args = build_daemon_args(Mode::Usb, None, platform("linux"));
    assert!(args.iter().any(|a| a == "--desktop-app-daemon"));
    assert!(args.iter().any(|a| a == "--no-wake-up-on-start"));
    assert!(!args.iter().any(|a| a == "--mockup-sim"));
    assert!(!args.iter().any(|a| a == "--serialport"));
    // The trampoline interprets args[0] as the python interpreter path.
    for os in ["windows", "macos", "linux"] {
        let args = build_daemon_args(Mode::Usb, None, platform(os));
        let py = &args[0];
        if os == "windows" {
            assert!(py.ends_with("python.exe"));
        } else {
            assert!(py.ends_with("python3"));
        }
    }
    assert_eq!(args[1], "-m");
    assert_eq!(args[2], "reachy_mini.daemon.app.main");
}

#[test]
fn build_daemon_args_simulation_adds_mockup() {
    let args = build_daemon_args(Mode::Simulation, None, platform("linux"));
    assert!(args.iter().any(|a| a == "--mockup-sim"));
}

#[test]
fn build_daemon_args_usb_injects_explicit_serialport() {
    let args = build_daemon_args(Mode::Usb, Some("/dev/cu.usbserial-2120"), platform("macos"));
    let idx = args
        .iter()
        .position(|a| a == "--serialport")
        .expect("--serialport flag missing");
    assert_eq!(
        args.get(idx + 1).map(String::as_str),
        Some("/dev/cu.usbserial-2120")
    );
}

#[test]
fn build_daemon_args_simulation_ignores_serialport() {
    let args = build_daemon_args(
        Mode::Simulation,
        Some("/dev/cu.usbserial-2120"),
        platform("macos"),
    );
    assert!(args.iter().any(|a| a == "--mockup-sim"));
    assert!(!args.iter().any(|a| a == "--serialport"));
}

#[test]
fn build_daemon_args_usb_skips_empty_serialport() {
    let args = build_daemon_args(Mode::Usb, Some(""), platform("linux"));
    assert!(!args.iter().any(|a| a == "--serialport"));
}

#[test]
fn build_daemon_args_spells_the_whole_command_line() {
    assert_eq!(
        build_daemon_args(Mode::Usb, Some("COM3"), platform("windows")),
        vec![
            ".venv\\Scripts\\python.exe",
            "-m",
            "reachy_mini.daemon.app.main",
            "--desktop-app-daemon",
            "--no-wake-up-on-start",
            "--serialport",
            "COM3",
        ]
    );
}

#[test]
fn spawn_request_sets_encoding_and_forwards_central_url() {
    let bare = spawn_real_daemon(Mode::Usb, None, Platform::Linux, None);
    assert_eq!(bare.program, "uv-trampoline");
    assert_eq!(bare.args.len(), 5);
    assert_eq!(
        bare.env,
        vec![("PYTHONIOENCODING".to_string(), "utf-8".to_string())]
    );
    let forked = spawn_real_daemon(
        Mode::Simulation,
        None,
        Platform::Linux,
        Some("https://central.example".to_string()),
    );
    assert_eq!(forked.args[5], "--mockup-sim");
    assert_eq!(
        forked.env[1],
        (
            "REACHY_CENTRAL_URL".to_string(),
            "https://central.example".to_string()
        )
    );
}

#[test]
fn derive_bootstrap_event_anchors_milestones() {
    let p = derive_bootstrap_event("[bootstrap] Downloading uv 0.4.0");
    assert_eq!(p.percent, Some(12));
    assert!(p.label.is_some());

    let p = derive_bootstrap_event("Setup complete!");
    assert_eq!(p.percent, Some(98));

    let p = derive_bootstrap_event("Pre-warming complete (apps_venv)");
    assert_eq!(p.percent, Some(95));
}

#[test]
fn derive_bootstrap_event_indeterminate_for_gstreamer_scan() {
    let p = derive_bootstrap_event("Scanning plugin registry, please wait...");
    assert_eq!(p.percent, Some(PROGRESS_INDETERMINATE));
}

#[test]
fn derive_bootstrap_event_unknown_line_yields_default() {
    let p = derive_bootstrap_event("totally generic uvicorn output");
    assert!(p.percent.is_none());
    assert!(p.label.is_none());
    assert!(p.line.is_none());
}

#[test]
fn derive_bootstrap_event_runtime_hints_have_label_no_percent() {
    let p = derive_bootstrap_event("INFO:reachy_mini.daemon: Starting Reachy Mini daemon");
    assert!(p.percent.is_none());
    assert!(p.label.is_some());
}

#[test]
fn derive_bootstrap_event_specificity_order() {
    let p = derive_bootstrap_event("Setup complete! Starting Reachy Mini daemon now");
    assert_eq!(p.percent, Some(98));
}

#[test]
fn derive_bootstrap_event_gives_every_milestone_its_label() {
    let cases: [(&str, Option<u8>, Option<&str>); 26] = [
        ("SETUP COMPLETE!", Some(98), Some("Setup complete - starting daemon\u{2026}")),
        ("pre-warming complete", Some(95), Some("Pre-warm complete")),
        ("reachy_mini imported", Some(94), Some("Reachy Mini SDK loaded")),
        ("importing reachy_mini", Some(92), Some("Loading Reachy Mini SDK\u{2026}")),
        ("GStreamer ready", Some(90), Some("GStreamer ready")),
        (
            "initializing gstreamer",
            Some(255),
            Some("Scanning GStreamer plugins (first run, ~3 min)\u{2026}"),
        ),
        ("[prewarm:.venv] importing gi", Some(82), Some("Pre-warming Python bindings\u{2026}")),
        ("[bootstrap] Pre-warming Python imports (still working... 60s)", None, None),
        ("pre-warming gstreamer", Some(80), Some("Pre-warming GStreamer\u{2026}")),
        ("[bootstrap] pre-warming", Some(78), Some("Pre-warming runtime\u{2026}")),
        ("[bootstrap] signing", Some(72), Some("Signing Python binaries\u{2026}")),
        ("packages installed successfully", Some(65), Some("Packages installed")),
        ("creating apps_venv", Some(55), Some("Creating apps environment\u{2026}")),
        (
            "installing reachy-mini",
            Some(40),
            Some("Installing reachy-mini and dependencies\u{2026}"),
        ),
        (
            "installing reachy_mini",
            Some(40),
            Some("Installing reachy-mini and dependencies\u{2026}"),
        ),
        ("creating .venv", Some(30), Some("Creating virtual environment\u{2026}")),
        ("installing python", Some(20), Some("Installing Python 3.12\u{2026}")),
        ("downloading uv", Some(12), Some("Downloading package manager (uv)\u{2026}")),
        ("uv downloaded successfully", Some(15), Some("Package manager ready")),
        (
            "first run detected",
            Some(8),
            Some("First run detected, preparing environment\u{2026}"),
        ),
        ("starting reachy mini daemon", None, Some("Starting daemon\u{2026}")),
        ("found reachy mini serial port", None, Some("Reachy Mini detected on USB")),
        ("creating RobotBackend", None, Some("Initializing robot backend\u{2026}")),
        ("uvicorn: Started server process [1]", None, Some("HTTP server started")),
        ("importing gi", None, None),
        ("[bootstrap] Checking disk space", None, Some("Preparing environment\u{2026}")),
    ];
    for (line, percent, label) in cases {
        let p = derive_bootstrap_event(line);
        assert_eq!(p.percent, percent, "{}", line);
        assert_eq!(p.label.as_deref(), label, "{}", line);
    }
}

#[test]
fn daemon_lines_are_trimmed_logged_and_shown() {
    let mut store = LogStore::new();
    assert!(handle_daemon_line(&mut store, " \t\r\n", "INFO", 0, true).is_none());
    assert!(store.snapshot().is_empty());

    let report = handle_daemon_line(
        &mut store,
        "  ERROR: Setup complete! \n",
        "INFO",
        3_661_000,
        true,
    )
    .expect("a line");
    assert_eq!(report.record.console, "[01:01:01][ERROR][daemon]   ERROR: Setup complete!");
    let progress = report.progress.expect("the window is open");
    assert_eq!(progress.percent, Some(98));
    assert_eq!(progress.line.as_deref(), Some("  ERROR: Setup complete!"));

    let quiet = handle_daemon_line(&mut store, "plain", "WARN", 1, false).expect("a line");
    assert!(quiet.progress.is_none());
    let kept = store.snapshot();
    assert_eq!(kept.len(), 2);
    assert_eq!(kept[0].level, "ERROR");
    assert_eq!(kept[1].level, "WARN");
    assert_eq!(kept[1].target, "daemon");
}

#[test]
fn generic_bootstrap_line_has_a_label_and_no_percent() {
    let mut store = LogStore::new();
    let report =
        handle_daemon_line(&mut store, "[bootstrap] Checking disk space", "INFO", 0, true)
            .expect("a line");
    let progress = report.progress.expect("the window is open");
    assert_eq!(progress.percent, None);
    assert!(progress.label.is_some());
    assert_eq!(progress.line.as_deref(), Some("[bootstrap] Checking disk space"));
}

#[test]
fn monitor_reads_output_as_utf8_and_replaces_what_is_not() {
    let mut app = AppState::new();
    let mut store = LogStore::new();
    let ok = DaemonEvent::Stdout("caf\u{e9} \u{1f916}\n".as_bytes().to_vec());
    match monitor_daemon_output(&mut app, &mut store, &ok, 0, 5, true) {
        Reaction::Line(report) => {
            assert_eq!(report.record.entry.message, "caf\u{e9} \u{1f916}");
            assert_eq!(report.record.entry.level, "INFO");
        }
        _ => panic!("a line was expected"),
    }
    let broken = DaemonEvent::Stderr(vec![b'a', 0xff, b'b']);
    match monitor_daemon_output(&mut app, &mut store, &broken, 0, 6, false) {
        Reaction::Line(report) => {
            assert_eq!(report.record.entry.message, "a\u{fffd}b");
            assert_eq!(report.record.entry.level, "WARN");
            assert!(report.progress.is_none());
        }
        _ => panic!("a line was expected"),
    }
    let blank = DaemonEvent::Stdout(b"   \n".to_vec());
    assert!(matches!(
        monitor_daemon_output(&mut app, &mut store, &blank, 0, 7, true),
        Reaction::Nothing
    ));
    assert!(matches!(
        monitor_daemon_output(&mut app, &mut store, &DaemonEvent::Other, 0, 8, true),
        Reaction::Nothing
    ));
    assert_eq!(store.snapshot().len(), 2);
    assert_eq!(app.state, DaemonState::Idle);
}
