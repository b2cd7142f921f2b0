//! Icon, tooltip, menu and the events of the user interface.

use reachy_mini_tray::commands::{show_first_run_window, show_logs_window, WindowAction};
use reachy_mini_tray::hf_auth::{AuthSnapshot, AuthStatus, AuthStatusStore, RelayStatus};
use reachy_mini_tray::router::{
    apply_effect, exit_effects, on_exit_requested, on_menu_event, on_second_launch, on_setup, Effect,
    ExitDecision,
};
use reachy_mini_tray::state::{AppState, DaemonState, Mode, Platform};
use reachy_mini_tray::tray_icon::{build_icon_cache, compose_with_dot, dots_fit, DotPixel, Rgb};
use reachy_mini_tray::tray_menu::{
    account_slot, build_tray_menu, choose_icon, logged_in_label, refresh_status,
    request_menu_refresh, tooltip, AccountSlot, Icon, MenuEntry,
};

fn account(name: Option<&str>, relay: Option<(&str, bool)>) -> AuthSnapshot {
    AuthSnapshot {
        auth: AuthStatus { is_logged_in: true, username: name.map(|s| s.to_string()) },
        relay: relay.map(|(state, is_connected)| RelayStatus {
            state: state.to_string(),
            message: None,
            is_connected,
        }),
        oauth_in_flight: false,
    }
}

fn in_state(state: DaemonState) -> AppState {
    let mut app = AppState::new();
    app.state = state;
    app
}

/// The menu in one line: rows by id, disabled ones in brackets, ticked ones starred.
fn outline(menu: &[MenuEntry]) -> String {
    let mut out = Vec::new();
    for entry in menu {
        out.push(match entry {
            MenuEntry::Separator => "-".to_string(),
            MenuEntry::Row(row) => {
                if row.enabled {
                    row.id.clone()
                } else {
                    format!("[{}]", row.id)
                }
            }
            MenuEntry::Sub(sub) => {
                let rows: Vec<String> = sub
                    .rows
                    .iter()
                    .map(|r| {
                        if r.checked == Some(true) {
                            format!("*{}", r.id)
                        } else {
                            r.id.clone()
                        }
                    })
                    .collect();
                let text = format!("{}({})", sub.id, rows.join(","));
                if sub.enabled {
                    text
                } else {
                    format!("[{}]", text)
                }
            }
        });
    }
    out.join(" ")
}

#[test]
fn label_sums_up_user_and_relay() {
    for (name, relay, label) in [
        (Some("tfrere"), Some(("connected", true)), "@tfrere \u{00b7} remote on"),
        (Some("tfrere"), Some(("connecting", false)), "@tfrere \u{00b7} reconnecting\u{2026}"),
        (Some("tfrere"), Some(("reconnecting", false)), "@tfrere \u{00b7} reconnecting\u{2026}"),
        (Some("tfrere"), Some(("unavailable", false)), "@tfrere \u{00b7} remote unavailable"),
        (Some("tfrere"), Some(("", false)), "@tfrere \u{00b7} remote unknown"),
        (Some("tfrere"), Some(("stopped", false)), "@tfrere \u{00b7} remote stopped"),
        (Some(""), None, "@? \u{00b7} remote unknown"),
        (None, None, "@? \u{00b7} remote unknown"),
    ] {
        assert_eq!(logged_in_label(&account(name, relay)), label);
    }
}

#[test]
fn menu_follows_state_and_account() {
    let nobody = AuthSnapshot::default();
    let idle = build_tray_menu(DaemonState::Idle, Mode::Usb, &nobody);
    assert_eq!(
        outline(&idle),
        "toggle - mode(*mode_usb,mode_sim) - show_logs reset_setup - quit"
    );
    let starting = build_tray_menu(DaemonState::Starting, Mode::Simulation, &nobody);
    assert_eq!(
        outline(&starting),
        "[toggle] - [mode(mode_usb,*mode_sim)] - show_logs [reset_setup] - quit"
    );
    let running = build_tray_menu(DaemonState::Running, Mode::Usb, &nobody);
    assert_eq!(
        outline(&running),
        "toggle - [mode(*mode_usb,mode_sim)] - account_signin - show_logs [reset_setup] - quit"
    );
    let signed_in = build_tray_menu(
        DaemonState::Running,
        Mode::Usb,
        &account(Some("ada"), Some(("connected", true))),
    );
    assert_eq!(
        outline(&signed_in),
        "toggle - [mode(*mode_usb,mode_sim)] - account(account_refresh_relay,account_signout) - \
         show_logs [reset_setup] - quit"
    );
}

#[test]
fn menu_texts_name_the_next_action() {
    let nobody = AuthSnapshot::default();
    for (state, text) in [
        (DaemonState::Idle, "Start daemon"),
        (DaemonState::Starting, "Starting\u{2026}"),
        (DaemonState::Running, "Stop daemon"),
        (DaemonState::Crashed, "Restart daemon"),
    ] {
        match &build_tray_menu(state, Mode::Usb, &nobody)[0] {
            MenuEntry::Row(row) => assert_eq!(row.text, text),
            _ => panic!("the toggle comes first"),
        }
    }
}

#[test]
fn account_slot_shows_a_sign_in_in_flight() {
    let mut snap = account(Some("ada"), None);
    snap.oauth_in_flight = true;
    match account_slot(DaemonState::Running, &snap) {
        AccountSlot::Flat(row) => {
            assert_eq!(row.text, "Signing in\u{2026} (check your browser)");
            assert!(!row.enabled);
        }
        _ => panic!("a flat row was expected"),
    }
    assert!(matches!(account_slot(DaemonState::Crashed, &snap), AccountSlot::Hidden));
}

#[test]
fn tray_boots_idle() {
    let face = refresh_status(&AppState::new(), &AuthStatusStore::new());
    assert_eq!(face.icon, Icon::Idle);
    assert!(face.template);
    assert_eq!(face.tooltip, "Reachy Mini - Idle (USB)");
    assert_eq!(face.menu.len(), 8);
}

#[test]
fn tooltip_and_icon_follow_state_and_mode() {
    assert_eq!(
        tooltip(DaemonState::Starting, Mode::Simulation),
        "Reachy Mini - Starting (Simulation)..."
    );
    assert_eq!(tooltip(DaemonState::Running, Mode::Usb), "Reachy Mini - Running (USB)");
    assert_eq!(tooltip(DaemonState::Crashed, Mode::Usb), "Reachy Mini - Crashed (USB)");
    assert_eq!(choose_icon(DaemonState::Running, Mode::Usb), Icon::RunningUsb);
    assert_eq!(choose_icon(DaemonState::Running, Mode::Simulation), Icon::RunningSim);
    assert_eq!(choose_icon(DaemonState::Crashed, Mode::Usb), Icon::Crashed);
    assert_eq!(choose_icon(DaemonState::Starting, Mode::Usb), Icon::Starting);
    let mut app = in_state(DaemonState::Running);
    app.mode = Mode::Simulation;
    let mut store = AuthStatusStore::new();
    store.try_acquire_oauth();
    let face = request_menu_refresh(&app, &store);
    assert_eq!(face.icon, Icon::RunningSim);
    assert!(!face.template);
    assert!(outline(&face.menu).contains("[account_signin]"));
}

#[test]
fn toggle_starts_stops_and_waits() {
    for (state, effects) in [
        (DaemonState::Idle, vec![Effect::StartDaemon]),
        (DaemonState::Crashed, vec![Effect::StartDaemon]),
        (DaemonState::Starting, vec![]),
        (
            DaemonState::Running,
            vec![
                Effect::NextGeneration,
                Effect::KillDaemon,
                Effect::MarkIdle,
                Effect::Refresh,
            ],
        ),
    ] {
        assert_eq!(on_menu_event(&mut in_state(state), "toggle"), effects);
    }
}

#[test]
fn mode_changes_only_while_nothing_runs() {
    let mut app = in_state(DaemonState::Crashed);
    assert_eq!(on_menu_event(&mut app, "mode_sim"), vec![Effect::Refresh]);
    assert_eq!(app.mode, Mode::Simulation);
    app.state = DaemonState::Starting;
    assert!(on_menu_event(&mut app, "mode_usb").is_empty());
    assert_eq!(app.mode, Mode::Simulation);
    app.state = DaemonState::Idle;
    assert_eq!(on_menu_event(&mut app, "mode_usb"), vec![Effect::Refresh]);
    assert_eq!(app.mode, Mode::Usb);
}

#[test]
fn other_rows_have_their_effects() {
    let mut app = in_state(DaemonState::Running);
    assert_eq!(on_menu_event(&mut app, "account_signin"), vec![Effect::SignIn]);
    assert_eq!(on_menu_event(&mut app, "account_signout"), vec![Effect::SignOut]);
    assert_eq!(on_menu_event(&mut app, "account_refresh_relay"), vec![Effect::RefreshRelay]);
    assert_eq!(on_menu_event(&mut app, "show_logs"), vec![Effect::ShowLogs]);
    assert!(on_menu_event(&mut app, "account").is_empty());
    assert!(on_menu_event(&mut app, "mode").is_empty());
    assert!(on_menu_event(&mut app, "bogus").is_empty());
    assert_eq!(
        on_menu_event(&mut app, "reset_setup"),
        vec![
            Effect::KillDaemon,
            Effect::MarkIdle,
            Effect::Refresh,
            Effect::WipeSetup,
            Effect::ShowFirstRun,
            Effect::StartDaemon,
        ]
    );
    assert!(!app.quit_requested);
}

#[test]
fn reset_leaves_an_idle_daemon_without_a_process() {
    let mut app = in_state(DaemonState::Running);
    app.daemon = Some(99);
    let mut steps = Vec::new();
    for effect in on_menu_event(&mut app, "reset_setup") {
        steps.extend(apply_effect(&mut app, effect, Platform::Windows));
    }
    assert_eq!(steps.len(), 1);
    assert_eq!(app.daemon, None);
    assert_eq!(app.state, DaemonState::Idle);
    assert_eq!(app.generation, 0);
}

#[test]
fn only_quit_leaves() {
    let mut app = AppState::new();
    assert_eq!(on_exit_requested(&app, None), ExitDecision::Prevent);
    assert_eq!(on_exit_requested(&app, Some(0)), ExitDecision::Confirm);
    assert_eq!(
        on_menu_event(&mut app, "quit"),
        vec![Effect::KillDaemon, Effect::Exit]
    );
    assert!(app.quit_requested);
    assert_eq!(on_exit_requested(&app, None), ExitDecision::Confirm);
}

#[test]
fn leaving_ends_the_process_whoever_asked() {
    let mut app = in_state(DaemonState::Running);
    app.daemon = Some(99);
    assert!(exit_effects(on_exit_requested(&app, None)).is_empty());
    let effects = exit_effects(on_exit_requested(&app, Some(1)));
    assert_eq!(effects, vec![Effect::KillDaemon]);
    for effect in effects {
        assert_eq!(apply_effect(&mut app, effect, Platform::Linux).len(), 4);
    }
    assert_eq!(app.daemon, None);
}

#[test]
fn first_launch_opens_setup_and_starts() {
    assert!(on_setup(true).is_empty());
    assert_eq!(on_setup(false), vec![Effect::ShowFirstRun, Effect::StartDaemon]);
    assert_eq!(on_second_launch(), vec![Effect::ShowLogs]);
}

#[test]
fn windows_are_built_once() {
    assert!(matches!(show_first_run_window(true), WindowAction::Focus));
    assert!(matches!(show_logs_window(true), WindowAction::Focus));
    match show_first_run_window(false) {
        WindowAction::Build(w) => {
            assert_eq!((w.label, w.page), ("first-run", "index.html"));
            assert_eq!(w.title, "Reachy Mini - First-time setup");
            assert_eq!((w.width, w.height, w.min_width, w.min_height), (520, 460, 440, 380));
        }
        WindowAction::Focus => panic!("nothing to focus"),
    }
    match show_logs_window(false) {
        WindowAction::Build(w) => {
            assert_eq!((w.label, w.page), ("logs", "logs.html"));
            assert_eq!(w.title, "Reachy Mini - Logs");
            assert_eq!((w.width, w.height, w.min_width, w.min_height), (720, 480, 420, 240));
        }
        WindowAction::Focus => panic!("nothing to focus"),
    }
}

#[test]
fn badge_covers_blends_and_erases() {
    let base = vec![10, 20, 30, 200, 10, 20, 30, 200, 10, 20, 30, 200, 10, 20, 30, 200, 7];
    let dots = vec![
        DotPixel { disc: 0, keep: 255 },
        DotPixel { disc: 255, keep: 255 },
        DotPixel { disc: 0, keep: 0 },
        DotPixel { disc: 128, keep: 100 },
        DotPixel { disc: 0, keep: 255 },
    ];
    let icon = compose_with_dot(&base, &dots, Rgb { red: 0xFF, green: 0x9F, blue: 0x0A });
    assert_eq!(&icon[0..4], &[10, 20, 30, 200]);
    assert_eq!(&icon[4..8], &[255, 159, 10, 255]);
    assert_eq!(&icon[8..12], &[10, 20, 30, 0]);
    // 128 + 200 * 127 / 255 = 227, of which 100 / 255 stay.
    assert_eq!(&icon[12..16], &[132, 89, 19, 89]);
    assert_eq!(icon[16], 7);
}

#[test]
fn icon_cache_has_one_colour_per_state() {
    let base = vec![0, 0, 0, 0];
    let dots = vec![DotPixel { disc: 255, keep: 255 }];
    let cache = build_icon_cache(&base, &dots);
    assert_eq!(cache.pixels(Icon::Idle), &vec![0, 0, 0, 0]);
    assert_eq!(cache.pixels(Icon::Starting), &vec![0xFF, 0x9F, 0x0A, 255]);
    assert_eq!(cache.pixels(Icon::RunningUsb), &vec![0x30, 0xD1, 0x58, 255]);
    assert_eq!(cache.pixels(Icon::RunningSim), &vec![0x0A, 0x84, 0xFF, 255]);
    assert_eq!(cache.pixels(Icon::Crashed), &vec![0xFF, 0x45, 0x3A, 255]);
}

#[test]
fn badge_must_lie_in_the_icon() {
    let blank = DotPixel { disc: 0, keep: 255 };
    let disc = DotPixel { disc: 1, keep: 255 };
    let ring = DotPixel { disc: 0, keep: 254 };
    let base = vec![0u8; 7];
    assert!(dots_fit(&base, &vec![disc, blank, blank]));
    assert!(!dots_fit(&base, &vec![blank, disc]));
    assert!(!dots_fit(&base, &vec![blank, ring]));
    assert!(dots_fit(&vec![0u8; 8], &vec![blank, ring]));
    assert!(dots_fit(&vec![], &vec![]));
}
