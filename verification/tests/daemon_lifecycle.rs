//! Launch, readiness, end and removal of the daemon's process.

use reachy_mini_tray::api::Verb;
use reachy_mini_tray::daemon::{
    begin_launch, finish_launch, handle_exit, healthcheck_reply, healthcheck_request,
    healthcheck_tick, kill_daemon, monitor_daemon_output, read_listing, reap_orphaned_daemons,
    reap_steps, start_daemon, DaemonEvent, HealthStep, HealthVerdict, KillStep, Reaction, Signal,
};
use reachy_mini_tray::logs::LogStore;
use reachy_mini_tray::router::{apply_effect, stop_daemon};
use reachy_mini_tray::state::{set_serialport, AppState, DaemonState, Mode, Platform};

const SECOND: u128 = 1_000_000_000;

fn stop(app: &mut AppState) -> Vec<KillStep> {
    let mut steps = Vec::new();
    for effect in stop_daemon() {
        steps.extend(apply_effect(app, effect, Platform::Linux));
    }
    steps
}

#[test]
fn start_is_planned_from_the_selection_and_ignored_while_busy() {
    let mut app = AppState::new();
    set_serialport(&mut app, Some("/dev/ttyUSB0".to_string()));
    let plan = start_daemon(&app, Platform::Linux).expect("idle");
    assert_eq!(plan.mode, Mode::Usb);
    assert_eq!(plan.serialport.as_deref(), Some("/dev/ttyUSB0"));
    assert!(plan.sweep_port);
    assert!(!start_daemon(&app, Platform::Windows).expect("idle").sweep_port);

    let generation = begin_launch(&mut app);
    assert_eq!(generation, 1);
    assert_eq!(app.state, DaemonState::Starting);
    assert!(start_daemon(&app, Platform::Linux).is_none());
    app.state = DaemonState::Running;
    assert!(start_daemon(&app, Platform::Linux).is_none());
    app.state = DaemonState::Crashed;
    assert!(start_daemon(&app, Platform::Linux).is_some());
}

#[test]
fn failed_launch_crashes() {
    let mut app = AppState::new();
    begin_launch(&mut app);
    assert!(!finish_launch(&mut app, None));
    assert_eq!(app.state, DaemonState::Crashed);
    assert_eq!(app.daemon, None);
}

#[test]
fn generation_wraps_around() {
    let mut app = AppState::new();
    app.generation = u64::MAX;
    assert_eq!(begin_launch(&mut app), 0);
}

#[test]
fn healthcheck_asks_the_daemon_status_route() {
    let request = healthcheck_request();
    assert_eq!(request.verb, Verb::Get);
    assert_eq!(request.url, "http://127.0.0.1:8000/api/daemon/status");
}

#[test]
fn healthcheck_waits_for_grace_and_times_out() {
    let mut app = AppState::new();
    let generation = begin_launch(&mut app);
    assert!(finish_launch(&mut app, Some(42)));
    assert_eq!(healthcheck_tick(&mut app, generation, 0), HealthStep::Probe);
    // Too early to be the daemon just spawned.
    assert_eq!(
        healthcheck_reply(&mut app, generation, Some(200), 1_499_999_999),
        HealthVerdict::TooEarly
    );
    assert_eq!(app.state, DaemonState::Starting);
    assert_eq!(
        healthcheck_reply(&mut app, generation, Some(503), 2 * SECOND),
        HealthVerdict::NotYet
    );
    assert_eq!(
        healthcheck_reply(&mut app, generation, None, 2 * SECOND),
        HealthVerdict::NotYet
    );
    assert_eq!(
        healthcheck_tick(&mut app, generation, 300 * SECOND),
        HealthStep::Probe
    );
    assert_eq!(
        healthcheck_tick(&mut app, generation, 300 * SECOND + 1),
        HealthStep::TimedOut
    );
    assert_eq!(app.state, DaemonState::Crashed);
    assert_eq!(
        healthcheck_tick(&mut app, generation, 301 * SECOND),
        HealthStep::Exit
    );
}

#[test]
fn healthcheck_success_after_grace_makes_it_running() {
    for code in [200u16, 204, 299] {
        let mut app = AppState::new();
        let generation = begin_launch(&mut app);
        assert_eq!(
            healthcheck_reply(&mut app, generation, Some(code), 1_500_000_000),
            HealthVerdict::Ready
        );
        assert_eq!(app.state, DaemonState::Running);
    }
    for code in [100u16, 199, 300, 404, 500, 0, 65535] {
        let mut app = AppState::new();
        let generation = begin_launch(&mut app);
        assert_eq!(
            healthcheck_reply(&mut app, generation, Some(code), 10 * SECOND),
            HealthVerdict::NotYet
        );
    }
}

#[test]
fn late_callbacks_of_a_stopped_daemon_are_ignored() {
    let mut app = AppState::new();
    let mut store = LogStore::new();
    let first = begin_launch(&mut app);
    finish_launch(&mut app, Some(42));
    let steps = stop(&mut app);
    assert_eq!(steps.len(), 4);
    assert_eq!(app.state, DaemonState::Idle);
    assert_eq!(app.daemon, None);
    assert_eq!(
        healthcheck_reply(&mut app, first, Some(200), 5 * SECOND),
        HealthVerdict::Late
    );
    assert_eq!(app.state, DaemonState::Idle);

    let second = begin_launch(&mut app);
    finish_launch(&mut app, Some(43));
    let reaction =
        monitor_daemon_output(&mut app, &mut store, &DaemonEvent::Terminated, first, 0, false);
    assert!(matches!(reaction, Reaction::Nothing));
    assert_eq!(app.state, DaemonState::Starting);
    assert_eq!(app.daemon, Some(43));

    let reaction =
        monitor_daemon_output(&mut app, &mut store, &DaemonEvent::Terminated, second, 0, false);
    assert!(matches!(reaction, Reaction::Ended { crashed: true }));
    assert_eq!(app.state, DaemonState::Crashed);
    assert_eq!(app.daemon, None);
}

#[test]
fn end_of_an_idle_daemon_is_no_crash() {
    let mut app = AppState::new();
    app.daemon = Some(7);
    assert!(matches!(handle_exit(&mut app, 1), Reaction::Nothing));
    assert_eq!(app.daemon, Some(7));
    assert!(matches!(handle_exit(&mut app, 0), Reaction::Ended { crashed: false }));
    assert_eq!(app.state, DaemonState::Idle);
    assert_eq!(app.daemon, None);
}

#[test]
fn kill_goes_for_the_whole_group_on_unix() {
    let mut app = AppState::new();
    app.daemon = Some(4242);
    assert_eq!(
        kill_daemon(&mut app, Platform::MacOs),
        vec![
            KillStep::Group { pgid: 4242, signal: Signal::Term },
            KillStep::Pause { ms: 250 },
            KillStep::Child,
            KillStep::Group { pgid: 4242, signal: Signal::Kill },
        ]
    );
    assert_eq!(app.daemon, None);
    assert!(kill_daemon(&mut app, Platform::MacOs).is_empty());
    app.daemon = Some(4242);
    assert_eq!(kill_daemon(&mut app, Platform::Windows), vec![KillStep::Child]);
}

#[test]
fn kill_refuses_dangerous_groups() {
    for pid in [0u32, 1, u32::MAX, 0x8000_0000] {
        let mut app = AppState::new();
        app.daemon = Some(pid);
        assert_eq!(
            kill_daemon(&mut app, Platform::Linux),
            vec![KillStep::Pause { ms: 250 }, KillStep::Child]
        );
    }
}

#[test]
fn listing_is_read_line_by_line() {
    let sweep = read_listing("123\r\n  +7 \n\nnope\n-5\n2147483647\n2147483648\n-2147483648\n12a\n-\n0009");
    assert_eq!(sweep.pids, vec![123, 7, -5, 2147483647, -2147483648, 9]);
    assert_eq!(sweep.settle_ms, 200);
    let none = read_listing("\n\n");
    assert!(none.pids.is_empty());
    assert_eq!(none.settle_ms, 0);
}

#[test]
fn listing_bytes_are_read_leniently() {
    let sweep = reap_orphaned_daemons(&b"41\n\xff42\n43\n".to_vec());
    assert_eq!(sweep.pids, vec![41, 43]);
    assert!(reap_orphaned_daemons(&Vec::new()).pids.is_empty());
}

#[test]
fn leftover_processes_go_down_with_their_group() {
    assert_eq!(
        reap_steps(41, 40),
        vec![
            KillStep::Group { pgid: 40, signal: Signal::Kill },
            KillStep::Process { pid: 41, signal: Signal::Kill },
        ]
    );
    assert_eq!(
        reap_steps(41, -1),
        vec![KillStep::Process { pid: 41, signal: Signal::Kill }]
    );
    assert_eq!(
        reap_steps(41, 1),
        vec![KillStep::Process { pid: 41, signal: Signal::Kill }]
    );
}
