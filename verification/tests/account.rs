//! The account: cached status, sign-in flow and status poller.

use reachy_mini_tray::api::{checked, Reply, Verb};
use reachy_mini_tray::hf_auth::{
    auth_status_request, central_status_request, check_browser, conclude_oauth, confirm_oauth,
    fetch_auth_status, fetch_central_robot_status, fetch_relay_status, hf_url, oauth_start_request,
    oauth_tick, oauth_verdict, open_session, poll_interval_ms, poller_asks, refresh_relay,
    refresh_relay_request, relay_status_request, sign_out, sign_out_request, start_oauth_flow,
    wants_central_status, AuthSnapshot, AuthStatus, AuthStatusStore, CentralRobotStatus,
    OauthStart, OauthStartResponse, OauthStatusResponse, OauthStep, Poller, RelayStatus,
};
use reachy_mini_tray::state::{AppState, DaemonState};

const SECOND: u128 = 1_000_000_000;

fn logged_in(name: &str) -> Option<AuthStatus> {
    Some(AuthStatus { is_logged_in: true, username: Some(name.to_string()) })
}

fn relay(state: &str, is_connected: bool) -> Option<RelayStatus> {
    Some(RelayStatus { state: state.to_string(), message: None, is_connected })
}

fn running() -> AppState {
    let mut app = AppState::new();
    app.state = DaemonState::Running;
    app
}

#[test]
fn hf_url_concatenates_base_prefix_and_suffix() {
    assert_eq!(
        hf_url("/status"),
        "http://127.0.0.1:8000/api/hf-auth/status"
    );
    assert_eq!(
        hf_url("/oauth/start?use_localhost=true"),
        "http://127.0.0.1:8000/api/hf-auth/oauth/start?use_localhost=true"
    );
}

#[test]
fn auth_snapshot_default_is_logged_out_no_oauth() {
    let snap = AuthSnapshot::default();
    assert!(!snap.auth.is_logged_in);
    assert!(snap.relay.is_none());
    assert!(!snap.oauth_in_flight);
}

#[test]
fn auth_status_store_oauth_acquire_is_exclusive() {
    let mut store = AuthStatusStore::new();
    assert!(store.try_acquire_oauth());
    assert!(
        !store.try_acquire_oauth(),
        "second acquire must fail while one is in flight"
    );
    store.release_oauth();
    assert!(store.try_acquire_oauth(), "release should re-allow acquire");
}

#[test]
fn auth_status_store_burst_window_starts_closed() {
    let mut store = AuthStatusStore::new();
    assert!(!store.in_burst_window(0));
    store.trigger_burst(0);
    assert!(store.in_burst_window(0));
}

#[test]
fn burst_window_lasts_twenty_seconds() {
    let mut store = AuthStatusStore::new();
    store.trigger_burst(5 * SECOND);
    assert!(store.in_burst_window(25 * SECOND - 1));
    assert!(!store.in_burst_window(25 * SECOND));
    store.trigger_burst(u128::MAX);
    assert!(store.in_burst_window(u128::MAX));
}

#[test]
fn poll_interval_follows_daemon_and_burst() {
    let mut store = AuthStatusStore::new();
    assert_eq!(poll_interval_ms(&store, DaemonState::Running, 0), 15_000);
    assert_eq!(poll_interval_ms(&store, DaemonState::Starting, 0), 5_000);
    refresh_relay(&mut store, 0);
    assert_eq!(poll_interval_ms(&store, DaemonState::Running, 1), 2_000);
    assert_eq!(poll_interval_ms(&store, DaemonState::Idle, 1), 5_000);
}

#[test]
fn poller_asks_only_a_running_daemon() {
    assert!(poller_asks(DaemonState::Running));
    for state in [DaemonState::Idle, DaemonState::Starting, DaemonState::Crashed] {
        assert!(!poller_asks(state));
    }
}

#[test]
fn requests_name_their_routes() {
    let base = "http://127.0.0.1:8000/api/hf-auth";
    for (request, verb, suffix) in [
        (auth_status_request(), Verb::Get, "/status"),
        (relay_status_request(), Verb::Get, "/relay-status"),
        (central_status_request(), Verb::Get, "/central-robot-status"),
        (oauth_start_request(), Verb::Get, "/oauth/start?use_localhost=true"),
        (sign_out_request(), Verb::Delete, "/token"),
        (refresh_relay_request(), Verb::Post, "/refresh-relay"),
    ] {
        assert_eq!(request.verb, verb);
        assert_eq!(request.url, format!("{}{}", base, suffix));
    }
}

#[test]
fn fetch_reports_what_went_wrong() {
    let lost: Reply<AuthStatus> = Reply::Lost("refused".to_string());
    assert_eq!(
        fetch_auth_status(lost).unwrap_err(),
        "GET http://127.0.0.1:8000/api/hf-auth/status: refused"
    );
    let busy: Reply<RelayStatus> = Reply::Answered { code: 503, body: Err("html".to_string()) };
    assert_eq!(
        fetch_relay_status(busy).unwrap_err(),
        "GET http://127.0.0.1:8000/api/hf-auth/relay-status -> 503 Service Unavailable"
    );
    let garbled: Reply<CentralRobotStatus> =
        Reply::Answered { code: 200, body: Err("expected value".to_string()) };
    assert_eq!(
        fetch_central_robot_status(garbled).unwrap_err(),
        "decode central robot status: expected value"
    );
    let fine = Reply::Answered { code: 200, body: Ok(logged_in("ada").unwrap()) };
    assert_eq!(fetch_auth_status(fine).unwrap().username.as_deref(), Some("ada"));
    let unknown: Reply<AuthStatus> = Reply::Answered { code: 99, body: Err(String::new()) };
    assert!(fetch_auth_status(unknown).is_err());
    assert_eq!(checked("reqwest build", Ok(3)), Ok(3));
}

#[test]
fn sign_in_needs_a_running_daemon_and_is_exclusive() {
    let mut store = AuthStatusStore::new();
    for state in [DaemonState::Idle, DaemonState::Starting, DaemonState::Crashed] {
        let mut app = AppState::new();
        app.state = state;
        assert_eq!(start_oauth_flow(&app, &mut store), OauthStart::DaemonDown);
        assert!(!store.snapshot().oauth_in_flight);
    }
    let app = running();
    assert_eq!(start_oauth_flow(&app, &mut store), OauthStart::Started);
    assert!(store.snapshot().oauth_in_flight);
    assert_eq!(start_oauth_flow(&app, &mut store), OauthStart::AlreadyInFlight);
    conclude_oauth(&mut store, &Err("no".to_string()));
    assert_eq!(start_oauth_flow(&app, &mut store), OauthStart::Started);
}

fn start_answer(
    status: &str,
    session_id: Option<&str>,
    auth_url: Option<&str>,
    message: Option<&str>,
) -> Reply<OauthStartResponse> {
    Reply::Answered {
        code: 200,
        body: Ok(OauthStartResponse {
            status: status.to_string(),
            session_id: session_id.map(|s| s.to_string()),
            auth_url: auth_url.map(|s| s.to_string()),
            message: message.map(|s| s.to_string()),
        }),
    }
}

fn start_error(reply: Reply<OauthStartResponse>) -> String {
    match open_session(reply) {
        Ok(_) => panic!("an error was expected"),
        Err(e) => e,
    }
}

#[test]
fn oauth_session_is_read_or_refused() {
    let session = match open_session(start_answer("success", Some("s1"), Some("https://hf"), None)) {
        Ok(session) => session,
        Err(e) => panic!("{}", e),
    };
    assert_eq!(session.session_id, "s1");
    assert_eq!(session.auth_url, "https://hf");
    assert_eq!(
        start_error(start_answer("failed", Some("s1"), Some("u"), Some("no client"))),
        "oauth/start status=failed message=no client"
    );
    assert_eq!(
        start_error(start_answer("", None, None, None)),
        "oauth/start status= message="
    );
    assert_eq!(
        start_error(start_answer("success", None, None, None)),
        "oauth/start: missing session_id"
    );
    assert_eq!(
        start_error(start_answer("success", Some("s1"), None, None)),
        "oauth/start: missing auth_url"
    );
    assert_eq!(start_error(Reply::Lost("refused".to_string())), "oauth/start: refused");
    assert_eq!(
        start_error(Reply::Answered { code: 404, body: Err(String::new()) }),
        "oauth/start -> 404 Not Found"
    );
    assert_eq!(
        start_error(Reply::Answered { code: 200, body: Err("eof".to_string()) }),
        "oauth/start decode: eof"
    );
    assert_eq!(
        check_browser(Err("no browser".to_string())).unwrap_err(),
        "failed to open browser: no browser"
    );
    assert!(check_browser(Ok(())).is_ok());
}

#[test]
fn oauth_poll_goes_on_until_daemon_stops_or_time_is_up() {
    let mut app = running();
    match oauth_tick("s1", &app, 600 * SECOND) {
        OauthStep::Poll(request) => {
            assert_eq!(request.verb, Verb::Get);
            assert_eq!(request.url, "http://127.0.0.1:8000/api/hf-auth/oauth/status/s1");
        }
        OauthStep::Abandon { .. } => panic!("still in time"),
    }
    match oauth_tick("s1", &app, 600 * SECOND + 1) {
        OauthStep::Abandon { cleanup, error } => {
            assert_eq!(cleanup.verb, Verb::Delete);
            assert_eq!(cleanup.url, "http://127.0.0.1:8000/api/hf-auth/oauth/session/s1");
            assert_eq!(error, "OAuth poll timed out (10 min)");
        }
        OauthStep::Poll(_) => panic!("time is up"),
    }
    app.state = DaemonState::Crashed;
    match oauth_tick("s1", &app, 0) {
        OauthStep::Abandon { error, .. } => assert_eq!(error, "daemon stopped during OAuth flow"),
        OauthStep::Poll(_) => panic!("the daemon is gone"),
    }
}

fn status_answer(status: &str, username: Option<&str>, message: Option<&str>) -> Option<OauthStatusResponse> {
    Some(OauthStatusResponse {
        status: status.to_string(),
        username: username.map(|s| s.to_string()),
        message: message.map(|s| s.to_string()),
    })
}

#[test]
fn oauth_verdict_by_status() {
    assert_eq!(
        oauth_verdict(status_answer("authorized", Some("ada"), None)),
        Some(Ok("ada".to_string()))
    );
    assert_eq!(
        oauth_verdict(status_answer("authorized", None, None)),
        Some(Ok("?".to_string()))
    );
    assert_eq!(
        oauth_verdict(status_answer("error", None, Some("denied"))),
        Some(Err("OAuth error: denied".to_string()))
    );
    assert_eq!(
        oauth_verdict(status_answer("expired", None, None)),
        Some(Err("OAuth expired: ".to_string()))
    );
    assert_eq!(oauth_verdict(status_answer("pending", None, None)), None);
    assert_eq!(oauth_verdict(None), None);
}

#[test]
fn successful_sign_in_is_never_downgraded() {
    let mut store = AuthStatusStore::new();
    store.try_acquire_oauth();
    conclude_oauth(&mut store, &Ok("ada".to_string()));
    assert!(!store.snapshot().oauth_in_flight);
    confirm_oauth(&mut store, Some(AuthStatus::default()), relay("connecting", false), 7);
    let snap = store.snapshot();
    assert!(snap.auth.is_logged_in);
    assert_eq!(snap.auth.username.as_deref(), Some("ada"));
    assert_eq!(snap.relay.unwrap().state, "connecting");
    assert!(store.in_burst_window(7));
    confirm_oauth(&mut store, logged_in("ada2"), None, 8);
    let snap = store.snapshot();
    assert_eq!(snap.auth.username.as_deref(), Some("ada2"));
    assert!(snap.relay.is_some());
}

#[test]
fn failed_sign_in_keeps_the_account() {
    let mut store = AuthStatusStore::new();
    store.set_auth(logged_in("ada").unwrap());
    conclude_oauth(&mut store, &Err("denied".to_string()));
    confirm_oauth(&mut store, None, None, 0);
    assert_eq!(store.snapshot().auth.username.as_deref(), Some("ada"));
}

#[test]
fn sign_out_forgets_user_and_relay() {
    let mut store = AuthStatusStore::new();
    store.set_auth(logged_in("ada").unwrap());
    store.set_relay(relay("connected", true));
    sign_out(&mut store, 3);
    let snap = store.snapshot();
    assert!(!snap.auth.is_logged_in);
    assert!(snap.auth.username.is_none());
    assert!(snap.relay.is_none());
    assert!(store.in_burst_window(3));
}

#[test]
fn one_negative_answer_does_not_log_out_two_do() {
    let mut poller = Poller::new();
    let mut store = AuthStatusStore::new();
    assert!(poller.tick_running(&mut store, logged_in("ada"), relay("connecting", false), None));
    assert!(!poller.tick_running(&mut store, logged_in("ada"), relay("connecting", false), None));
    // A single negative answer, or none at all, keeps the login.
    assert!(!poller.tick_running(
        &mut store,
        Some(AuthStatus::default()),
        relay("connecting", false),
        None
    ));
    assert_eq!(store.snapshot().auth.username.as_deref(), Some("ada"));
    assert!(poller.tick_running(&mut store, None, relay("connecting", false), None));
    assert!(!store.snapshot().auth.is_logged_in);
    assert!(!poller.tick_running(&mut store, None, relay("connecting", false), None));
}

#[test]
fn connected_relay_keeps_the_login() {
    let mut poller = Poller::new();
    let mut store = AuthStatusStore::new();
    poller.tick_running(&mut store, logged_in("ada"), relay("connected", true), None);
    for _ in 0..5 {
        assert!(!poller.tick_running(&mut store, None, relay("connected", true), None));
        assert!(store.snapshot().auth.is_logged_in);
    }
}

#[test]
fn first_negative_answer_without_a_login_is_believed() {
    for relay in [None, relay("connecting", false)] {
        let mut poller = Poller::new();
        let mut store = AuthStatusStore::new();
        assert!(poller.tick_running(&mut store, None, relay, None));
        assert!(!store.snapshot().auth.is_logged_in);
    }
}

#[test]
fn connected_relay_means_a_login_even_without_a_name() {
    for answer in [None, Some(AuthStatus::default())] {
        let mut poller = Poller::new();
        let mut store = AuthStatusStore::new();
        assert!(poller.tick_running(&mut store, answer, relay("connected", true), None));
        assert!(store.snapshot().auth.is_logged_in);
        assert!(store.snapshot().auth.username.is_none());
        // Nothing was remembered that could outlast the relay.
        assert!(poller.tick_running(&mut store, None, relay("connecting", false), None));
        assert!(!store.snapshot().auth.is_logged_in);
    }
}

#[test]
fn login_without_a_name_is_not_remembered() {
    let mut poller = Poller::new();
    let mut store = AuthStatusStore::new();
    poller.tick_running(&mut store, logged_in(""), None, None);
    assert!(store.snapshot().auth.is_logged_in);
    poller.tick_running(&mut store, None, None, None);
    assert!(!store.snapshot().auth.is_logged_in);
}

#[test]
fn central_server_overrules_an_unavailable_relay() {
    let mut poller = Poller::new();
    let mut store = AuthStatusStore::new();
    assert!(wants_central_status(&logged_in("ada"), &relay("unavailable", false)));
    assert!(!wants_central_status(&logged_in("ada"), &relay("connecting", false)));
    assert!(!wants_central_status(&logged_in("ada"), &None));
    assert!(!wants_central_status(&None, &relay("unavailable", false)));
    assert!(!wants_central_status(
        &Some(AuthStatus::default()),
        &relay("unavailable", false)
    ));

    let listed = CentralRobotStatus { available: true, robots: 1 };
    poller.tick_running(&mut store, logged_in("ada"), relay("unavailable", false), Some(listed));
    let shown = store.snapshot().relay.unwrap();
    assert_eq!(shown.state, "connected");
    assert_eq!(shown.message.as_deref(), Some("inferred from central-robot-status"));
    assert!(shown.is_connected);

    for central in [
        None,
        Some(CentralRobotStatus { available: false, robots: 1 }),
        Some(CentralRobotStatus { available: true, robots: 0 }),
    ] {
        poller.tick_running(&mut store, logged_in("ada"), relay("unavailable", false), central);
        assert_eq!(store.snapshot().relay.unwrap().state, "unavailable");
    }
}

#[test]
fn idle_poller_forgets_relay_and_login() {
    let mut poller = Poller::new();
    let mut store = AuthStatusStore::new();
    assert!(!poller.tick_idle(&mut store));
    poller.tick_running(&mut store, logged_in("ada"), relay("connected", true), None);
    assert!(poller.tick_idle(&mut store));
    assert!(store.snapshot().relay.is_none());
    assert!(store.snapshot().auth.is_logged_in);
    assert!(!poller.tick_idle(&mut store));
    poller.tick_running(&mut store, None, relay("connecting", false), None);
    assert!(!store.snapshot().auth.is_logged_in);
}

#[test]
fn menu_is_rendered_anew_only_on_a_visible_change() {
    let mut poller = Poller::new();
    let mut store = AuthStatusStore::new();
    let mut quiet = relay("stopped", false).unwrap();
    assert!(poller.tick_running(&mut store, logged_in("ada"), Some(quiet.clone()), None));
    // The detail of the relay is not shown.
    quiet.message = Some("retrying".to_string());
    assert!(!poller.tick_running(&mut store, logged_in("ada"), Some(quiet), None));
    assert!(poller.tick_running(&mut store, logged_in("bob"), relay("stopped", false), None));
    assert!(poller.tick_running(&mut store, logged_in("bob"), relay("stopped", true), None));
    assert!(poller.tick_running(&mut store, logged_in("bob"), None, None));
    assert!(!poller.tick_running(&mut store, logged_in("bob"), relay("", false), None));
}

#[test]
fn a_change_shows_whatever_the_names_hold() {
    let mut poller = Poller::new();
    let mut store = AuthStatusStore::new();
    assert!(poller.tick_running(&mut store, logged_in("a|b"), relay("c", false), None));
    assert!(poller.tick_running(&mut store, logged_in("a"), relay("b|c", false), None));
    assert!(!poller.tick_running(&mut store, logged_in("a"), relay("b|c", false), None));
}
