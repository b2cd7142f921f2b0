//! Hugging Face account integration: the cached account status, the sign-in flow and the status
//! poller. The daemon does the real work and keeps the token; the launcher only ever sees
//! usernames and connection states.

use vstd::prelude::*;
use vstd::string::*;

use crate::api;
use crate::state::AppState;
use crate::state::DaemonState;
use crate::text;

verus! {

/// Prefix of every account route of the daemon.
pub const HF_AUTH_PATH: &'static str = "/hf-auth";

/// How long, in milliseconds, an account request may take.
pub const HTTP_TIMEOUT_MS: u64 = 3_000;

/// Poll cadence, in milliseconds, while the daemon runs.
pub const POLL_INTERVAL_RUNNING_MS: u64 = 15_000;

/// Poll cadence, in milliseconds, right after an account action.
pub const POLL_INTERVAL_BURST_MS: u64 = 2_000;

/// How long, in nanoseconds, the faster cadence lasts.
pub const POLL_BURST_NS: u128 = 20_000_000_000;

/// Poll cadence, in milliseconds, while the daemon does not run.
pub const POLL_INTERVAL_IDLE_MS: u64 = 5_000;

/// Pause, in milliseconds, between two looks at a sign-in under way.
pub const OAUTH_POLL_INTERVAL_MS: u64 = 1_000;

/// How long, in nanoseconds, a sign-in may take.
pub const OAUTH_POLL_MAX_NS: u128 = 600_000_000_000;

/// How many negative answers in a row confirm a logout.
pub const LOGOUT_CONFIRM_TICKS: u32 = 2;

/// The address of an account route of the daemon.
pub open spec fn account_route(suffix: Seq<char>) -> Seq<char> {
    api::route("/hf-auth"@) + suffix
}

/// Builds the address of an account route of the daemon.
pub fn hf_url(suffix: &str) -> (r: String)
    ensures
        r@ == account_route(suffix@),
{
    let mut r: String = api::daemon_url(HF_AUTH_PATH);
    r.append(suffix);
    r
}

/// Authentication status reported by the daemon.
#[derive(Debug)]
pub struct AuthStatus {
    pub is_logged_in: bool,
    pub username: Option<String>,
}

/// The mathematical content of an [`AuthStatus`].
pub struct AuthView {
    pub is_logged_in: bool,
    pub username: Option<Seq<char>>,
}

impl View for AuthStatus {
    type V = AuthView;

    open spec fn view(&self) -> AuthView {
        AuthView {
            is_logged_in: self.is_logged_in,
            username: text::option_text(self.username),
        }
    }
}

/// Nobody is logged in.
pub open spec fn logged_out() -> AuthView {
    AuthView { is_logged_in: false, username: None }
}

impl Default for AuthStatus {
    fn default() -> (r: Self)
        ensures
            r@ == logged_out(),
    {
        AuthStatus { is_logged_in: false, username: None }
    }
}

impl Clone for AuthStatus {
    fn clone(&self) -> (r: Self)
        ensures
            r == *self,
    {
        AuthStatus {
            is_logged_in: self.is_logged_in,
            username: text::copy_option(&self.username),
        }
    }
}

/// Status of the central signaling relay reported by the daemon.
#[derive(Debug)]
pub struct RelayStatus {
    pub state: String,
    /// Human-readable detail.
    pub message: Option<String>,
    pub is_connected: bool,
}

/// The mathematical content of a [`RelayStatus`].
pub struct RelayView {
    pub state: Seq<char>,
    pub message: Option<Seq<char>>,
    pub is_connected: bool,
}

impl View for RelayStatus {
    type V = RelayView;

    open spec fn view(&self) -> RelayView {
        RelayView {
            state: self.state@,
            message: text::option_text(self.message),
            is_connected: self.is_connected,
        }
    }
}

impl Default for RelayStatus {
    fn default() -> (r: Self)
        ensures
            r@ == (RelayView { state: Seq::empty(), message: None, is_connected: false }),
    {
        RelayStatus { state: String::new(), message: None, is_connected: false }
    }
}

impl Clone for RelayStatus {
    fn clone(&self) -> (r: Self)
        ensures
            r == *self,
    {
        RelayStatus {
            state: self.state.clone(),
            message: text::copy_option(&self.message),
            is_connected: self.is_connected,
        }
    }
}

/// The mathematical content of an optional relay status.
pub open spec fn relay_view(relay: Option<RelayStatus>) -> Option<RelayView> {
    match relay {
        Some(r) => Some(r@),
        None => None,
    }
}

/// The mathematical content of an optional authentication status.
pub open spec fn auth_view(auth: Option<AuthStatus>) -> Option<AuthView> {
    match auth {
        Some(a) => Some(a@),
        None => None,
    }
}

/// A copy of an optional relay status.
fn copy_relay(relay: &Option<RelayStatus>) -> (r: Option<RelayStatus>)
    ensures
        r == *relay,
{
    match relay {
        Some(status) => Some(status.clone()),
        None => None,
    }
}

/// What the tray menu shows of the account.
#[derive(Debug)]
pub struct AuthSnapshot {
    pub auth: AuthStatus,
    pub relay: Option<RelayStatus>,
    /// `true` while a sign-in is in flight.
    pub oauth_in_flight: bool,
}

/// The mathematical content of an [`AuthSnapshot`].
pub struct SnapshotView {
    pub auth: AuthView,
    pub relay: Option<RelayView>,
    pub oauth_in_flight: bool,
}

impl View for AuthSnapshot {
    type V = SnapshotView;

    open spec fn view(&self) -> SnapshotView {
        SnapshotView {
            auth: self.auth@,
            relay: relay_view(self.relay),
            oauth_in_flight: self.oauth_in_flight,
        }
    }
}

/// The snapshot before anything is known.
pub open spec fn empty_snapshot() -> SnapshotView {
    SnapshotView { auth: logged_out(), relay: None, oauth_in_flight: false }
}

impl Default for AuthSnapshot {
    fn default() -> (r: Self)
        ensures
            r@ == empty_snapshot(),
    {
        AuthSnapshot { auth: AuthStatus::default(), relay: None, oauth_in_flight: false }
    }
}

/// The account status the launcher has cached.
///
/// Moments are nanoseconds on a clock that never goes back, counted from any fixed origin.
pub struct AuthStatusStore {
    auth: AuthStatus,
    relay: Option<RelayStatus>,
    oauth_running: bool,
    /// When the latest window of faster polling was opened.
    burst_from: Option<u128>,
}

/// The mathematical content of an [`AuthStatusStore`].
pub struct StoreView {
    pub auth: AuthView,
    pub relay: Option<RelayView>,
    pub oauth_running: bool,
    pub burst_from: Option<u128>,
}

impl View for AuthStatusStore {
    type V = StoreView;

    closed spec fn view(&self) -> StoreView {
        StoreView {
            auth: self.auth@,
            relay: relay_view(self.relay),
            oauth_running: self.oauth_running,
            burst_from: self.burst_from,
        }
    }
}

/// A store that knows nothing yet.
pub open spec fn empty_store() -> StoreView {
    StoreView { auth: logged_out(), relay: None, oauth_running: false, burst_from: None }
}

/// The moment `now` lies in the window of faster polling.
pub open spec fn in_burst(store: StoreView, now: u128) -> bool {
    store.burst_from matches Some(from) && now < from + POLL_BURST_NS
}

impl AuthStatusStore {
    pub fn new() -> (r: Self)
        ensures
            r@ == empty_store(),
    {
        AuthStatusStore {
            auth: AuthStatus::default(),
            relay: None,
            oauth_running: false,
            burst_from: None,
        }
    }

    pub fn snapshot(&self) -> (r: AuthSnapshot)
        ensures
            r@ == (SnapshotView {
                auth: self@.auth,
                relay: self@.relay,
                oauth_in_flight: self@.oauth_running,
            }),
    {
        AuthSnapshot {
            auth: self.auth.clone(),
            relay: copy_relay(&self.relay),
            oauth_in_flight: self.oauth_running,
        }
    }

    pub fn set_auth(&mut self, auth: AuthStatus)
        ensures
            final(self)@ == (StoreView { auth: auth@, ..old(self)@ }),
    {
        self.auth = auth;
    }

    pub fn set_relay(&mut self, relay: Option<RelayStatus>)
        ensures
            final(self)@ == (StoreView { relay: relay_view(relay), ..old(self)@ }),
    {
        self.relay = relay;
    }

    /// Claims the sign-in; fails while another one is in flight.
    pub fn try_acquire_oauth(&mut self) -> (r: bool)
        ensures
            r == !old(self)@.oauth_running,
            final(self)@ == (StoreView { oauth_running: true, ..old(self)@ }),
    {
        let free: bool = !self.oauth_running;
        self.oauth_running = true;
        free
    }

    pub fn release_oauth(&mut self)
        ensures
            final(self)@ == (StoreView { oauth_running: false, ..old(self)@ }),
    {
        self.oauth_running = false;
    }

    /// Opens a window of faster polling, so that the menu reflects an account action in seconds.
    pub fn trigger_burst(&mut self, now: u128)
        ensures
            final(self)@ == (StoreView { burst_from: Some(now), ..old(self)@ }),
            in_burst(final(self)@, now),
    {
        self.burst_from = Some(now);
    }

    pub fn in_burst_window(&self, now: u128) -> (r: bool)
        ensures
            r == in_burst(self@, now),
    {
        match self.burst_from {
            Some(from) => now < from || now - from < POLL_BURST_NS,
            None => false,
        }
    }
}

/// What the daemon learned from the central server: whether it could be asked, and how many robots
/// are registered under the user's account.
#[derive(Copy, Clone, Debug)]
pub struct CentralRobotStatus {
    pub available: bool,
    pub robots: usize,
}

/// The relay is reported as unavailable although a user is logged in. A daemon in desktop mode
/// always answers so, whatever the relay does; the central server knows the truth.
pub open spec fn relay_doubtful(auth: AuthView, relay: Option<RelayView>) -> bool {
    &&& auth.is_logged_in
    &&& relay matches Some(r) && r.state == "unavailable"@
}

/// The relay status to believe: a doubtful one gives way to a connection when the central server
/// lists a robot.
pub open spec fn believed_relay(
    auth: AuthView,
    relay: Option<RelayView>,
    central: Option<CentralRobotStatus>,
) -> Option<RelayView> {
    if relay_doubtful(auth, relay) && (central matches Some(c) && c.available && c.robots > 0) {
        Some(
            RelayView {
                state: "connected"@,
                message: Some("inferred from central-robot-status"@),
                is_connected: true,
            },
        )
    } else {
        relay
    }
}

/// The relay is known to be connected.
pub open spec fn connected(relay: Option<RelayView>) -> bool {
    relay matches Some(r) && r.is_connected
}

/// What the poller remembers between two ticks.
pub struct Poller {
    /// What the last tick made the menu show.
    last_shown: Option<Shown>,
    /// Latest username of a logged-in answer.
    sticky_username: Option<String>,
    /// How many logged-out answers have come in a row.
    consecutive_logged_out: u32,
}

/// The mathematical content of a [`Poller`].
pub struct PollerView {
    pub last_shown: Option<ShownView>,
    pub sticky_username: Option<Seq<char>>,
    pub consecutive_logged_out: u32,
}

impl View for Poller {
    type V = PollerView;

    closed spec fn view(&self) -> PollerView {
        PollerView {
            last_shown: match self.last_shown {
                Some(last) => Some(last@),
                None => None,
            },
            sticky_username: text::option_text(self.sticky_username),
            consecutive_logged_out: self.consecutive_logged_out,
        }
    }
}

/// A poller that remembers nothing.
pub open spec fn fresh_poller() -> PollerView {
    PollerView { last_shown: None, sticky_username: None, consecutive_logged_out: 0 }
}

/// How many logged-out answers have come in a row after one more.
pub open spec fn one_more(count: u32) -> u32 {
    if count == u32::MAX {
        count
    } else {
        (count + 1) as u32
    }
}

/// A logged-out answer is not believed, or not yet: the relay cannot be connected without a valid
/// token, and a single negative answer may come from a rate limit.
pub open spec fn login_still_trusted(poller: PollerView, relay: Option<RelayView>) -> bool {
    connected(relay) || one_more(poller.consecutive_logged_out) < LOGOUT_CONFIRM_TICKS
}

/// The authentication status to show for the answer `auth`. A connected relay means a login
/// whatever the answer, under the remembered name if there is one; otherwise a remembered login
/// outlasts negative answers until they are confirmed.
pub open spec fn effective_auth(
    poller: PollerView,
    auth: AuthView,
    relay: Option<RelayView>,
) -> AuthView {
    if auth.is_logged_in {
        auth
    } else if connected(relay) {
        AuthView {
            is_logged_in: true,
            username: match poller.sticky_username {
                Some(name) => Some(name),
                None => auth.username,
            },
        }
    } else if one_more(poller.consecutive_logged_out) < LOGOUT_CONFIRM_TICKS
        && poller.sticky_username is Some {
        AuthView { is_logged_in: true, username: poller.sticky_username }
    } else {
        auth
    }
}

/// The username to remember after the answer `auth`.
pub open spec fn next_sticky(
    poller: PollerView,
    auth: AuthView,
    relay: Option<RelayView>,
) -> Option<Seq<char>> {
    if auth.is_logged_in {
        match auth.username {
            Some(name) => if name.len() > 0 {
                Some(name)
            } else {
                poller.sticky_username
            },
            None => poller.sticky_username,
        }
    } else if login_still_trusted(poller, relay) {
        poller.sticky_username
    } else {
        None
    }
}

/// An optional text, empty where there is none.
pub open spec fn or_empty(o: Option<Seq<char>>) -> Seq<char> {
    match o {
        Some(s) => s,
        None => Seq::empty(),
    }
}

/// The state of the relay, empty where it is not known.
pub open spec fn relay_state(relay: Option<RelayView>) -> Seq<char> {
    match relay {
        Some(r) => r.state,
        None => Seq::empty(),
    }
}

/// What the menu shows of an account status.
pub struct ShownView {
    pub is_logged_in: bool,
    /// Empty where it is not known.
    pub username: Seq<char>,
    /// Empty where it is not known.
    pub relay_state: Seq<char>,
    pub relay_connected: bool,
}

/// What the menu shows of an account status.
pub open spec fn shown(auth: AuthView, relay: Option<RelayView>) -> ShownView {
    ShownView {
        is_logged_in: auth.is_logged_in,
        username: or_empty(auth.username),
        relay_state: relay_state(relay),
        relay_connected: connected(relay),
    }
}

/// What one tick of the poller against a running daemon leads to.
pub struct PollView {
    pub poller: PollerView,
    pub auth: AuthView,
    pub relay: Option<RelayView>,
    /// The menu must be rendered anew.
    pub refresh: bool,
}

/// One tick of the poller against a running daemon. A failed look at the account counts as a
/// logged-out answer; a failed look at the relay gives no relay status.
pub open spec fn poll(
    poller: PollerView,
    answer: Option<AuthView>,
    relay: Option<RelayView>,
    central: Option<CentralRobotStatus>,
) -> PollView {
    let raw = match answer {
        Some(a) => a,
        None => logged_out(),
    };
    let believed = believed_relay(raw, relay, central);
    let auth = effective_auth(poller, raw, believed);
    let now_shown = shown(auth, believed);
    PollView {
        poller: PollerView {
            last_shown: Some(now_shown),
            sticky_username: next_sticky(poller, raw, believed),
            consecutive_logged_out: if raw.is_logged_in {
                0
            } else {
                one_more(poller.consecutive_logged_out)
            },
        },
        auth,
        relay: believed,
        refresh: poller.last_shown != Some(now_shown),
    }
}

/// The store after a tick while the daemon does not run: a status shown before loses its relay.
pub open spec fn idle_store(poller: PollerView, store: StoreView) -> StoreView {
    if poller.last_shown is Some {
        StoreView { relay: None, ..store }
    } else {
        store
    }
}

/// Tells whether the central server must be asked about the relay.
pub fn wants_central_status(answer: &Option<AuthStatus>, relay: &Option<RelayStatus>) -> (r: bool)
    ensures
        r == (answer matches Some(a) && relay_doubtful(a@, relay_view(*relay))),
{
    match (answer, relay) {
        (Some(a), Some(status)) => a.is_logged_in && text::same(
            status.state.as_str(),
            "unavailable",
        ),
        _ => false,
    }
}

/// Appends an optional text.
fn append_option(out: &mut String, o: &Option<String>)
    ensures
        final(out)@ == old(out)@ + or_empty(text::option_text(*o)),
{
    match o {
        Some(s) => out.append(s.as_str()),
        None => {
            assert(out@ + Seq::<char>::empty() =~= out@);
        },
    }
}

/// What the menu shows of an account status.
struct Shown {
    is_logged_in: bool,
    username: String,
    relay_state: String,
    relay_connected: bool,
}

impl View for Shown {
    type V = ShownView;

    closed spec fn view(&self) -> ShownView {
        ShownView {
            is_logged_in: self.is_logged_in,
            username: self.username@,
            relay_state: self.relay_state@,
            relay_connected: self.relay_connected,
        }
    }
}

impl Shown {
    /// What the menu shows of an account status.
    fn of(auth: &AuthStatus, relay: &Option<RelayStatus>) -> (r: Self)
        ensures
            r@ == shown(auth@, relay_view(*relay)),
    {
        let username: String = match &auth.username {
            Some(name) => name.clone(),
            None => String::new(),
        };
        match relay {
            Some(status) => Shown {
                is_logged_in: auth.is_logged_in,
                username,
                relay_state: status.state.clone(),
                relay_connected: status.is_connected,
            },
            None => Shown {
                is_logged_in: auth.is_logged_in,
                username,
                relay_state: String::new(),
                relay_connected: false,
            },
        }
    }

    /// Tells whether the menu shows the same of both.
    fn same(&self, other: &Shown) -> (r: bool)
        ensures
            r == (self@ == other@),
    {
        self.is_logged_in == other.is_logged_in && self.relay_connected == other.relay_connected
            && text::same(self.username.as_str(), other.username.as_str()) && text::same(
            self.relay_state.as_str(),
            other.relay_state.as_str(),
        )
    }
}

impl Poller {
    pub fn new() -> (r: Self)
        ensures
            r@ == fresh_poller(),
    {
        Poller { last_shown: None, sticky_username: None, consecutive_logged_out: 0 }
    }

    /// One tick against a running daemon: takes what the daemon answered (`None` for a request
    /// that failed, or that was not made), updates the store and tells whether the menu must be
    /// rendered anew.
    pub fn tick_running(
        &mut self,
        store: &mut AuthStatusStore,
        answer: Option<AuthStatus>,
        relay: Option<RelayStatus>,
        central: Option<CentralRobotStatus>,
    ) -> (refresh: bool)
        ensures
            ({
                let step = poll(old(self)@, auth_view(answer), relay_view(relay), central);
                &&& final(self)@ == step.poller
                &&& final(store)@ == (StoreView {
                    auth: step.auth,
                    relay: step.relay,
                    ..old(store)@
                })
                &&& refresh == step.refresh
            }),
    {
        let ghost step = poll(old(self)@, auth_view(answer), relay_view(relay), central);
        let doubtful: bool = wants_central_status(&answer, &relay);
        let raw: AuthStatus = match answer {
            Some(a) => a,
            None => AuthStatus::default(),
        };
        let listed: bool = match central {
            Some(c) => c.available && c.robots > 0,
            None => false,
        };
        let believed: Option<RelayStatus> = if doubtful && listed {
            Some(
                RelayStatus {
                    state: "connected".to_string(),
                    message: Some("inferred from central-robot-status".to_string()),
                    is_connected: true,
                },
            )
        } else {
            relay
        };
        assert(relay_view(believed) == step.relay);
        let relay_connected: bool = match &believed {
            Some(status) => status.is_connected,
            None => false,
        };
        let mut effective: AuthStatus = raw.clone();
        if raw.is_logged_in {
            self.consecutive_logged_out = 0;
            if let Some(name) = &raw.username {
                if !name.as_str().is_empty() {
                    self.sticky_username = Some(name.clone());
                }
            }
        } else {
            if self.consecutive_logged_out < u32::MAX {
                self.consecutive_logged_out = self.consecutive_logged_out + 1;
            }
            let still_trusted: bool = relay_connected || self.consecutive_logged_out
                < LOGOUT_CONFIRM_TICKS;
            if !still_trusted {
                self.sticky_username = None;
            } else if self.sticky_username.is_some() {
                effective.is_logged_in = true;
                effective.username = text::copy_option(&self.sticky_username);
            } else if relay_connected {
                effective.is_logged_in = true;
            }
        }
        assert(effective@ == step.auth);
        let now_shown: Shown = Shown::of(&effective, &believed);
        store.set_auth(effective);
        store.set_relay(believed);
        let refresh: bool = match &self.last_shown {
            Some(last) => !last.same(&now_shown),
            None => true,
        };
        self.last_shown = Some(now_shown);
        refresh
    }

    /// One tick while the daemon does not run: the relay status is forgotten, and so is what is
    /// remembered of the login. Tells whether the menu must be rendered anew.
    pub fn tick_idle(&mut self, store: &mut AuthStatusStore) -> (refresh: bool)
        ensures
            final(self)@ == fresh_poller(),
            refresh == (old(self)@.last_shown is Some),
            final(store)@ == idle_store(old(self)@, old(store)@),
    {
        let refresh: bool = self.last_shown.is_some();
        if refresh {
            self.last_shown = None;
            store.set_relay(None);
        }
        self.sticky_username = None;
        self.consecutive_logged_out = 0;
        refresh
    }
}

/// Tells whether the poller asks the daemon about the account. No request is made while the daemon
/// does not run: nothing would answer.
pub fn poller_asks(state: DaemonState) -> (r: bool)
    ensures
        r == (state == DaemonState::Running),
{
    match state {
        DaemonState::Running => true,
        _ => false,
    }
}

/// The pause before the next tick, in milliseconds.
pub fn poll_interval_ms(store: &AuthStatusStore, state: DaemonState, now: u128) -> (r: u64)
    ensures
        r == (if state != DaemonState::Running {
            POLL_INTERVAL_IDLE_MS
        } else if in_burst(store@, now) {
            POLL_INTERVAL_BURST_MS
        } else {
            POLL_INTERVAL_RUNNING_MS
        }),
{
    match state {
        DaemonState::Running => if store.in_burst_window(now) {
            POLL_INTERVAL_BURST_MS
        } else {
            POLL_INTERVAL_RUNNING_MS
        },
        _ => POLL_INTERVAL_IDLE_MS,
    }
}

/// A logged-in answer is believed at once, and its username is remembered.
pub proof fn law_positive_answer_trusted(
    poller: PollerView,
    answer: AuthView,
    relay: Option<RelayView>,
    central: Option<CentralRobotStatus>,
)
    requires
        answer.is_logged_in,
    ensures
        poll(poller, Some(answer), relay, central).auth == answer,
        poll(poller, Some(answer), relay, central).poller.consecutive_logged_out == 0,
        match answer.username {
            Some(name) => name.len() > 0 ==> poll(
                poller,
                Some(answer),
                relay,
                central,
            ).poller.sticky_username == Some(name),
            None => true,
        },
{
}

/// After a login under a name, one negative or failed answer does not log the user out; a second
/// one in a row does, unless the relay is connected.
pub proof fn law_logout_needs_two_answers(
    poller: PollerView,
    name: Seq<char>,
    login_relay: Option<RelayView>,
    login_central: Option<CentralRobotStatus>,
    first: Option<AuthView>,
    first_relay: Option<RelayView>,
    second: Option<AuthView>,
    second_relay: Option<RelayView>,
    central: Option<CentralRobotStatus>,
)
    requires
        name.len() > 0,
        first matches Some(a) ==> !a.is_logged_in,
        second matches Some(a) ==> !a.is_logged_in,
    ensures
        ({
            let login = AuthView { is_logged_in: true, username: Some(name) };
            let p0 = poll(poller, Some(login), login_relay, login_central).poller;
            let p1 = poll(p0, first, first_relay, central);
            let p2 = poll(p1.poller, second, second_relay, central);
            &&& p1.auth == login
            &&& connected(second_relay) ==> p2.auth == login
            &&& !connected(second_relay) ==> !p2.auth.is_logged_in
                && p2.poller.sticky_username is None
        }),
{
}

/// A connected relay means a login, whatever the poller remembers and whatever the daemon answers.
pub proof fn law_connected_relay_means_login(
    poller: PollerView,
    answer: Option<AuthView>,
    relay: Option<RelayView>,
    central: Option<CentralRobotStatus>,
)
    ensures
        connected(poll(poller, answer, relay, central).relay) ==> poll(
            poller,
            answer,
            relay,
            central,
        ).auth.is_logged_in,
{
}

/// While the relay is connected, a remembered login outlasts any negative answer under its name,
/// however many came before.
pub proof fn law_connected_relay_keeps_login(
    poller: PollerView,
    name: Seq<char>,
    answer: Option<AuthView>,
    relay: Option<RelayView>,
    central: Option<CentralRobotStatus>,
)
    requires
        poller.sticky_username == Some(name),
        answer matches Some(a) ==> !a.is_logged_in,
        connected(relay),
    ensures
        ({
            let step = poll(poller, answer, relay, central);
            &&& step.auth == AuthView { is_logged_in: true, username: Some(name) }
            &&& step.poller.sticky_username == Some(name)
        }),
{
}

/// Answers that stay the same render the menu anew at most once for an account that is logged in,
/// and at most twice for any other.
pub proof fn law_unchanged_status_is_quiet(
    poller: PollerView,
    answer: Option<AuthView>,
    relay: Option<RelayView>,
    central: Option<CentralRobotStatus>,
)
    ensures
        ({
            let first = poll(poller, answer, relay, central);
            let second = poll(first.poller, answer, relay, central);
            let third = poll(second.poller, answer, relay, central);
            &&& (answer matches Some(a) && a.is_logged_in) ==> !second.refresh
            &&& !third.refresh
        }),
{
}

/// A tick renders the menu anew if and only if the shown status has changed since the last one.
pub proof fn law_refresh_on_change(
    poller: PollerView,
    before_answer: Option<AuthView>,
    before_relay: Option<RelayView>,
    before_central: Option<CentralRobotStatus>,
    answer: Option<AuthView>,
    relay: Option<RelayView>,
    central: Option<CentralRobotStatus>,
)
    ensures
        ({
            let before = poll(poller, before_answer, before_relay, before_central);
            let after = poll(before.poller, answer, relay, central);
            after.refresh <==> shown(before.auth, before.relay) != shown(after.auth, after.relay)
        }),
{
}

/// Once the daemon has stopped running, nothing of the old login is trusted: a negative answer
/// afterwards is believed at once, unless the relay is connected. A second tick without a daemon
/// changes nothing, and the first tick with one renders the menu anew.
pub proof fn law_stop_forgets_login(
    store: StoreView,
    answer: Option<AuthView>,
    relay: Option<RelayView>,
    central: Option<CentralRobotStatus>,
)
    ensures
        idle_store(fresh_poller(), store) == store,
        poll(fresh_poller(), answer, relay, central).refresh,
        ({
            let first = poll(fresh_poller(), answer, relay, central);
            (answer matches Some(a) ==> !a.is_logged_in) && !connected(first.relay)
                ==> !first.auth.is_logged_in
        }),
{
}

/// What the daemon answers when a sign-in is started.
pub struct OauthStartResponse {
    pub status: String,
    pub session_id: Option<String>,
    pub auth_url: Option<String>,
    pub message: Option<String>,
}

/// What the daemon answers about a sign-in under way.
pub struct OauthStatusResponse {
    pub status: String,
    pub username: Option<String>,
    pub message: Option<String>,
}

/// A sign-in the daemon has opened a session for.
pub struct OauthSession {
    pub session_id: String,
    /// The page on which the user authorizes the launcher.
    pub auth_url: String,
}

/// What becomes of the wish to sign in.
#[derive(Copy, Clone, Debug, PartialEq, Eq, Structural)]
pub enum OauthStart {
    /// The daemon, which receives the callback, does not run.
    DaemonDown,
    /// Another sign-in is in flight.
    AlreadyInFlight,
    Started,
}

/// What becomes of the wish to sign in.
pub open spec fn oauth_start(daemon: DaemonState, store: StoreView) -> OauthStart {
    if daemon != DaemonState::Running {
        OauthStart::DaemonDown
    } else if store.oauth_running {
        OauthStart::AlreadyInFlight
    } else {
        OauthStart::Started
    }
}

/// Claims a sign-in. Nothing happens while the daemon does not run or while another one is in
/// flight.
pub fn start_oauth_flow(state: &AppState, store: &mut AuthStatusStore) -> (r: OauthStart)
    ensures
        r == oauth_start(state@.state, old(store)@),
        final(store)@ == (if r == OauthStart::Started {
            StoreView { oauth_running: true, ..old(store)@ }
        } else {
            old(store)@
        }),
{
    match state.state {
        DaemonState::Running => {
            if store.try_acquire_oauth() {
                OauthStart::Started
            } else {
                OauthStart::AlreadyInFlight
            }
        },
        _ => OauthStart::DaemonDown,
    }
}

/// The session that the answer to the start of a sign-in describes, or what is wrong with it.
pub open spec fn session_of(payload: OauthStartResponse) -> Result<
    (Seq<char>, Seq<char>),
    Seq<char>,
> {
    if payload.status@ != "success"@ {
        Err(
            "oauth/start status="@ + payload.status@ + " message="@ + or_empty(
                text::option_text(payload.message),
            ),
        )
    } else {
        match (payload.session_id, payload.auth_url) {
            (Some(id), Some(url)) => Ok((id@, url@)),
            (Some(_), None) => Err("oauth/start: missing auth_url"@),
            (None, _) => Err("oauth/start: missing session_id"@),
        }
    }
}

/// The session that the daemon's reply to the start of a sign-in describes.
pub open spec fn opened_session(reply: api::Reply<OauthStartResponse>) -> Result<
    (Seq<char>, Seq<char>),
    Seq<char>,
> {
    match api::fetch_result("oauth/start"@, "oauth/start decode"@, reply) {
        Ok(payload) => session_of(payload),
        Err(e) => Err(e),
    }
}

/// Reads the daemon's reply to the start of a sign-in.
pub fn open_session(reply: api::Reply<OauthStartResponse>) -> (r: Result<OauthSession, String>)
    ensures
        match r {
            Ok(session) => opened_session(reply) == Ok::<_, Seq<char>>(
                (session.session_id@, session.auth_url@),
            ),
            Err(e) => opened_session(reply) == Err::<(Seq<char>, Seq<char>), _>(e@),
        },
{
    let fetched: Result<OauthStartResponse, String> = api::fetched(
        "oauth/start",
        "oauth/start decode",
        reply,
    );
    match fetched {
        Err(e) => Err(e),
        Ok(payload) => {
            if !text::same(payload.status.as_str(), "success") {
                let mut e: String = "oauth/start status=".to_string();
                e.append(payload.status.as_str());
                e.append(" message=");
                append_option(&mut e, &payload.message);
                return Err(e);
            }
            match (payload.session_id, payload.auth_url) {
                (Some(session_id), Some(auth_url)) => Ok(OauthSession { session_id, auth_url }),
                (Some(_), None) => Err("oauth/start: missing auth_url".to_string()),
                (None, _) => Err("oauth/start: missing session_id".to_string()),
            }
        },
    }
}

/// Judges the attempt to show the authorization page in the user's browser.
pub fn check_browser(opened: Result<(), String>) -> (r: Result<(), String>)
    ensures
        api::report(r) == api::in_context("failed to open browser"@, opened),
{
    api::checked("failed to open browser", opened)
}

/// What to do next in a sign-in that waits for the user.
pub enum OauthStep {
    /// Ask how far it is.
    Poll(api::Request),
    /// Give it up for this reason, after the daemon was told to drop its session.
    Abandon { cleanup: api::Request, error: String },
}

/// The request that asks how far a sign-in is.
pub open spec fn oauth_look(session_id: Seq<char>) -> api::RequestView {
    api::RequestView {
        verb: api::Verb::Get,
        url: account_route("/oauth/status/"@ + session_id),
    }
}

/// The request that drops a sign-in.
pub open spec fn oauth_drop(session_id: Seq<char>) -> api::RequestView {
    api::RequestView {
        verb: api::Verb::Delete,
        url: account_route("/oauth/session/"@ + session_id),
    }
}

/// Why a sign-in that has waited for `elapsed` nanoseconds is given up, if it is.
pub open spec fn oauth_end(daemon: DaemonState, elapsed: u128) -> Option<Seq<char>> {
    if daemon != DaemonState::Running {
        Some("daemon stopped during OAuth flow"@)
    } else if elapsed > OAUTH_POLL_MAX_NS {
        Some("OAuth poll timed out (10 min)"@)
    } else {
        None
    }
}

/// Decides what to do next in a sign-in: it is given up when the daemon no longer runs, since the
/// callback could never land, and after ten minutes.
pub fn oauth_tick(session_id: &str, state: &AppState, elapsed: u128) -> (r: OauthStep)
    ensures
        match oauth_end(state@.state, elapsed) {
            Some(reason) => r matches OauthStep::Abandon { cleanup, error } && cleanup@
                == oauth_drop(session_id@) && error@ == reason,
            None => r matches OauthStep::Poll(request) && request@ == oauth_look(session_id@),
        },
{
    let error: &'static str = match state.state {
        DaemonState::Running => {
            if elapsed <= OAUTH_POLL_MAX_NS {
                let mut suffix: String = "/oauth/status/".to_string();
                suffix.append(session_id);
                return OauthStep::Poll(
                    api::Request { verb: api::Verb::Get, url: hf_url(suffix.as_str()) },
                );
            }
            "OAuth poll timed out (10 min)"
        },
        _ => "daemon stopped during OAuth flow",
    };
    let mut suffix: String = "/oauth/session/".to_string();
    suffix.append(session_id);
    OauthStep::Abandon {
        cleanup: api::Request { verb: api::Verb::Delete, url: hf_url(suffix.as_str()) },
        error: error.to_string(),
    }
}

/// How a sign-in has ended, by what the daemon says of it: the name of the user or an error, and
/// nothing while it goes on. A lost or unreadable reply says nothing.
pub open spec fn verdict_of(reply: Option<OauthStatusResponse>) -> Option<
    Result<Seq<char>, Seq<char>>,
> {
    match reply {
        None => None,
        Some(s) => if s.status@ == "authorized"@ {
            Some(
                Ok(
                    match s.username {
                        Some(name) => name@,
                        None => "?"@,
                    },
                ),
            )
        } else if s.status@ == "error"@ || s.status@ == "expired"@ {
            Some(
                Err(
                    "OAuth "@ + s.status@ + ": "@ + or_empty(text::option_text(s.message)),
                ),
            )
        } else {
            None
        },
    }
}

/// The mathematical content of the outcome of a sign-in.
pub open spec fn outcome_view(outcome: Result<String, String>) -> Result<Seq<char>, Seq<char>> {
    match outcome {
        Ok(name) => Ok(name@),
        Err(e) => Err(e@),
    }
}

/// Tells how a sign-in has ended, if it has.
pub fn oauth_verdict(reply: Option<OauthStatusResponse>) -> (r: Option<Result<String, String>>)
    ensures
        match r {
            Some(outcome) => verdict_of(reply) == Some(outcome_view(outcome)),
            None => verdict_of(reply) is None,
        },
{
    match reply {
        None => None,
        Some(s) => {
            if text::same(s.status.as_str(), "authorized") {
                match s.username {
                    Some(name) => Some(Ok(name)),
                    None => Some(Ok("?".to_string())),
                }
            } else if text::same(s.status.as_str(), "error") || text::same(
                s.status.as_str(),
                "expired",
            ) {
                let mut e: String = "OAuth ".to_string();
                e.append(s.status.as_str());
                e.append(": ");
                append_option(&mut e, &s.message);
                Some(Err(e))
            } else {
                None
            }
        },
    }
}

/// The store after a sign-in has ended: another one may start, and a successful one shows its
/// user at once.
pub open spec fn oauth_concluded(
    store: StoreView,
    outcome: Result<Seq<char>, Seq<char>>,
) -> StoreView {
    StoreView {
        oauth_running: false,
        auth: match outcome {
            Ok(name) => AuthView { is_logged_in: true, username: Some(name) },
            Err(_) => store.auth,
        },
        ..store
    }
}

/// The store after the look at the account that follows a sign-in. Only an answer that confirms
/// the login is taken over, since a negative one may come from a rate limit.
pub open spec fn oauth_confirmed(
    store: StoreView,
    answer: Option<AuthView>,
    relay: Option<RelayView>,
    now: u128,
) -> StoreView {
    StoreView {
        auth: match answer {
            Some(a) => if a.is_logged_in {
                a
            } else {
                store.auth
            },
            None => store.auth,
        },
        relay: match relay {
            Some(r) => Some(r),
            None => store.relay,
        },
        burst_from: Some(now),
        ..store
    }
}

/// Ends a sign-in.
pub fn conclude_oauth(store: &mut AuthStatusStore, outcome: &Result<String, String>)
    ensures
        final(store)@ == oauth_concluded(old(store)@, outcome_view(*outcome)),
{
    store.release_oauth();
    if let Ok(name) = outcome {
        store.set_auth(AuthStatus { is_logged_in: true, username: Some(name.clone()) });
    }
}

/// Takes over what a look at the account right after a sign-in has brought, and opens a window of
/// faster polling.
pub fn confirm_oauth(
    store: &mut AuthStatusStore,
    answer: Option<AuthStatus>,
    relay: Option<RelayStatus>,
    now: u128,
)
    ensures
        final(store)@ == oauth_confirmed(old(store)@, auth_view(answer), relay_view(relay), now),
{
    if let Some(a) = answer {
        if a.is_logged_in {
            store.set_auth(a);
        }
    }
    if let Some(r) = relay {
        store.set_relay(Some(r));
    }
    store.trigger_burst(now);
}

/// The request that makes the daemon forget its token.
pub fn sign_out_request() -> (r: api::Request)
    ensures
        r@ == (api::RequestView { verb: api::Verb::Delete, url: account_route("/token"@) }),
{
    api::Request { verb: api::Verb::Delete, url: hf_url("/token") }
}

/// The store after a sign-out.
pub open spec fn signed_out(store: StoreView, now: u128) -> StoreView {
    StoreView { auth: logged_out(), relay: None, burst_from: Some(now), ..store }
}

/// Shows the user as signed out, whatever the daemon has answered, and opens a window of faster
/// polling.
pub fn sign_out(store: &mut AuthStatusStore, now: u128)
    ensures
        final(store)@ == signed_out(old(store)@, now),
{
    store.set_auth(AuthStatus::default());
    store.set_relay(None);
    store.trigger_burst(now);
}

/// The request that makes the daemon register with the central server again.
pub fn refresh_relay_request() -> (r: api::Request)
    ensures
        r@ == (api::RequestView { verb: api::Verb::Post, url: account_route("/refresh-relay"@) }),
{
    api::Request { verb: api::Verb::Post, url: hf_url("/refresh-relay") }
}

/// Opens a window of faster polling, so that the menu follows the relay's reconnection.
pub fn refresh_relay(store: &mut AuthStatusStore, now: u128)
    ensures
        final(store)@ == (StoreView { burst_from: Some(now), ..old(store)@ }),
{
    store.trigger_burst(now);
}

/// The request that starts a sign-in.
pub fn oauth_start_request() -> (r: api::Request)
    ensures
        r@ == (api::RequestView {
            verb: api::Verb::Get,
            url: account_route("/oauth/start?use_localhost=true"@),
        }),
{
    api::Request { verb: api::Verb::Get, url: hf_url("/oauth/start?use_localhost=true") }
}

/// The request that asks whether a user is logged in.
pub fn auth_status_request() -> (r: api::Request)
    ensures
        r@ == (api::RequestView { verb: api::Verb::Get, url: account_route("/status"@) }),
{
    api::Request { verb: api::Verb::Get, url: hf_url("/status") }
}

/// The request that asks for the state of the relay.
pub fn relay_status_request() -> (r: api::Request)
    ensures
        r@ == (api::RequestView { verb: api::Verb::Get, url: account_route("/relay-status"@) }),
{
    api::Request { verb: api::Verb::Get, url: hf_url("/relay-status") }
}

/// The request that asks what the central server knows of the user's robots.
pub fn central_status_request() -> (r: api::Request)
    ensures
        r@ == (api::RequestView {
            verb: api::Verb::Get,
            url: account_route("/central-robot-status"@),
        }),
{
    api::Request { verb: api::Verb::Get, url: hf_url("/central-robot-status") }
}

/// Names the look at an account route in reports.
fn look_step(suffix: &str) -> (r: String)
    ensures
        r@ == "GET "@ + account_route(suffix@),
{
    let mut r: String = "GET ".to_string();
    r.append(hf_url(suffix).as_str());
    r
}

/// Reads the reply to `GET /hf-auth/status`.
pub fn fetch_auth_status(reply: api::Reply<AuthStatus>) -> (r: Result<AuthStatus, String>)
    ensures
        api::report(r) == api::fetch_result(
            "GET "@ + account_route("/status"@),
            "decode auth status"@,
            reply,
        ),
{
    api::fetched(look_step("/status").as_str(), "decode auth status", reply)
}

/// Reads the reply to `GET /hf-auth/relay-status`.
pub fn fetch_relay_status(reply: api::Reply<RelayStatus>) -> (r: Result<RelayStatus, String>)
    ensures
        api::report(r) == api::fetch_result(
            "GET "@ + account_route("/relay-status"@),
            "decode relay status"@,
            reply,
        ),
{
    api::fetched(look_step("/relay-status").as_str(), "decode relay status", reply)
}

/// Reads the reply to `GET /hf-auth/central-robot-status`.
pub fn fetch_central_robot_status(reply: api::Reply<CentralRobotStatus>) -> (r: Result<
    CentralRobotStatus,
    String,
>)
    ensures
        api::report(r) == api::fetch_result(
            "GET "@ + account_route("/central-robot-status"@),
            "decode central robot status"@,
            reply,
        ),
{
    api::fetched(
        look_step("/central-robot-status").as_str(),
        "decode central robot status",
        reply,
    )
}

/// One sign-in at a time: while one is in flight no other starts, and as soon as it has ended,
/// however it did, the next one may.
pub proof fn law_oauth_is_exclusive(
    daemon: DaemonState,
    store: StoreView,
    outcome: Result<Seq<char>, Seq<char>>,
)
    ensures
        oauth_start(daemon, StoreView { oauth_running: true, ..store }) != OauthStart::Started,
        daemon == DaemonState::Running ==> oauth_start(daemon, oauth_concluded(store, outcome))
            == OauthStart::Started,
{
}

/// After a successful sign-in the menu shows a login whatever the daemon then answers, and the
/// poller runs at the faster cadence.
pub proof fn law_sign_in_is_shown(
    store: StoreView,
    name: Seq<char>,
    answer: Option<AuthView>,
    relay: Option<RelayView>,
    now: u128,
)
    ensures
        ({
            let shown = oauth_confirmed(
                oauth_concluded(store, Ok::<_, Seq<char>>(name)),
                answer,
                relay,
                now,
            );
            &&& shown.auth.is_logged_in
            &&& (answer matches Some(a) ==> !a.is_logged_in) ==> shown.auth.username == Some(name)
            &&& in_burst(shown, now)
        }),
{
}

/// A failed sign-in takes nobody's login away.
pub proof fn law_failed_sign_in_keeps_login(
    store: StoreView,
    error: Seq<char>,
    answer: Option<AuthView>,
    relay: Option<RelayView>,
    now: u128,
)
    requires
        store.auth.is_logged_in,
    ensures
        oauth_confirmed(
            oauth_concluded(store, Err::<Seq<char>, _>(error)),
            answer,
            relay,
            now,
        ).auth.is_logged_in,
{
}

/// The faster cadence lasts twenty seconds from the latest account action, and no longer.
pub proof fn law_burst_window(store: StoreView, opened: u128, now: u128)
    requires
        opened <= now,
    ensures
        in_burst(StoreView { burst_from: Some(opened), ..store }, now) <==> now - opened
            < 20_000_000_000,
{
}

/// Every account route lies under one prefix of the daemon's address.
pub proof fn law_account_route(suffix: Seq<char>)
    ensures
        account_route(suffix) == "http://127.0.0.1:8000/api/hf-auth"@ + suffix,
{
    reveal_strlit("http://127.0.0.1:8000/api");
    reveal_strlit("/hf-auth");
    reveal_strlit("http://127.0.0.1:8000/api/hf-auth");
    assert("http://127.0.0.1:8000/api"@ + "/hf-auth"@ =~= "http://127.0.0.1:8000/api/hf-auth"@);
}

/// The relay that is stored and shown after a tick is the one the daemon reported, unless a
/// logged-in daemon calls it unavailable and the central server lists a robot; then it counts as
/// connected. So a connected relay is shown only where the daemon reported one or the central
/// server lists a robot.
pub proof fn law_relay_is_the_reported_one(
    poller: PollerView,
    answer: Option<AuthView>,
    relay: Option<RelayView>,
    central: Option<CentralRobotStatus>,
)
    ensures
        ({
            let stored = poll(poller, answer, relay, central).relay;
            let robots = central matches Some(c) && c.available && c.robots >= 1;
            let overruled = robots && (answer matches Some(a) && a.is_logged_in) && (
            relay matches Some(r) && r.state == "unavailable"@);
            &&& !overruled ==> stored == relay
            &&& overruled ==> (stored matches Some(s) && s.is_connected && s.state
                == "connected"@ && s.message == Some("inferred from central-robot-status"@))
            &&& (stored matches Some(s) && s.is_connected) ==> robots || (relay matches Some(r)
                && r.is_connected)
        }),
{
}

/// The central server is asked exactly when its word could overrule the relay: a tick never depends
/// on it otherwise.
pub proof fn law_central_server_matters_only_when_asked(
    poller: PollerView,
    answer: Option<AuthView>,
    relay: Option<RelayView>,
    central: Option<CentralRobotStatus>,
    other: Option<CentralRobotStatus>,
)
    ensures
        ({
            let asked = answer matches Some(a) && relay_doubtful(a, relay);
            &&& asked <==> (answer matches Some(a) && a.is_logged_in) && (relay matches Some(r)
                && r.state == "unavailable"@)
            &&& !asked ==> poll(poller, answer, relay, central) == poll(
                poller,
                answer,
                relay,
                other,
            )
        }),
{
}

/// After a tick a user is shown as logged in exactly when the daemon says so, or the relay is
/// connected, or a name is remembered and this is the first answer in a row that says otherwise.
/// The name shown is the answer's own, but the remembered one where the login is not the answer's.
pub proof fn law_login_is_believable(
    poller: PollerView,
    answer: Option<AuthView>,
    relay: Option<RelayView>,
    central: Option<CentralRobotStatus>,
)
    ensures
        ({
            let step = poll(poller, answer, relay, central);
            let said = answer matches Some(a) && a.is_logged_in;
            let up = step.relay matches Some(r) && r.is_connected;
            let name = poller.sticky_username;
            let kept = name is Some && poller.consecutive_logged_out == 0;
            &&& step.auth.is_logged_in <==> said || up || kept
            &&& !said && step.auth.is_logged_in && name is Some ==> step.auth.username == name
            &&& said || name is None || !step.auth.is_logged_in ==> step.auth.username == (
            match answer {
                Some(a) => a.username,
                None => None,
            })
        }),
{
}

/// What a tick remembers: the name of a login, until two answers in a row deny it without a
/// connected relay; how many in a row did; and what it made the menu show.
pub proof fn law_poller_memory(
    poller: PollerView,
    answer: Option<AuthView>,
    relay: Option<RelayView>,
    central: Option<CentralRobotStatus>,
)
    ensures
        ({
            let step = poll(poller, answer, relay, central);
            let said = answer matches Some(a) && a.is_logged_in;
            let up = step.relay matches Some(r) && r.is_connected;
            let count = poller.consecutive_logged_out;
            let named = match answer {
                Some(a) => a.is_logged_in && (a.username matches Some(n) && n.len() > 0),
                None => false,
            };
            let after = step.poller;
            &&& named ==> after.sticky_username == answer->0.username
            &&& said && !named ==> after.sticky_username == poller.sticky_username
            &&& !said && (up || count == 0) ==> after.sticky_username == poller.sticky_username
            &&& !said && !up && count > 0 ==> after.sticky_username is None
            &&& said ==> after.consecutive_logged_out == 0
            &&& !said && count < u32::MAX ==> after.consecutive_logged_out == count + 1
            &&& !said && count == u32::MAX ==> after.consecutive_logged_out == count
        }),
{
}

/// A tick renders the menu anew exactly when login, name, relay state or connection differ from
/// what the last tick made it show, and remembers them.
pub proof fn law_tick_remembers_what_is_shown(
    poller: PollerView,
    answer: Option<AuthView>,
    relay: Option<RelayView>,
    central: Option<CentralRobotStatus>,
)
    ensures
        ({
            let step = poll(poller, answer, relay, central);
            let last = step.poller.last_shown;
            &&& last is Some
            &&& last->0.is_logged_in == step.auth.is_logged_in
            &&& step.auth.username matches Some(n) ==> last->0.username == n
            &&& step.auth.username is None ==> last->0.username.len() == 0
            &&& step.relay matches Some(r) ==> last->0.relay_state == r.state
                && last->0.relay_connected == r.is_connected
            &&& step.relay is None ==> last->0.relay_state.len() == 0 && !last->0.relay_connected
            &&& step.refresh <==> poller.last_shown != last
        }),
{
}

/// A failed look at the account is like an answer that nobody is logged in.
pub proof fn law_no_answer_is_a_negative_one(
    poller: PollerView,
    relay: Option<RelayView>,
    central: Option<CentralRobotStatus>,
)
    ensures
        poll(poller, None, relay, central) == poll(
            poller,
            Some(AuthView { is_logged_in: false, username: None }),
            relay,
            central,
        ),
{
}

/// A tick without a running daemon forgets the relay that was shown, and touches nothing else.
pub proof fn law_idle_tick(poller: PollerView, store: StoreView)
    ensures
        ({
            let after = idle_store(poller, store);
            &&& poller.last_shown is Some ==> after.relay is None
            &&& poller.last_shown is None ==> after.relay == store.relay
            &&& after.auth == store.auth && after.oauth_running == store.oauth_running
            &&& after.burst_from == store.burst_from
            &&& fresh_poller().last_shown is None && fresh_poller().sticky_username is None
            &&& fresh_poller().consecutive_logged_out == 0
        }),
{
}

/// A store knows nothing at first, and the faster cadence lasts from an account action until twenty
/// seconds later; without one there is none.
pub proof fn law_store(store: StoreView, now: u128)
    ensures
        !empty_store().auth.is_logged_in && empty_store().auth.username is None,
        empty_store().relay is None && !empty_store().oauth_running,
        !in_burst(empty_store(), now),
        in_burst(store, now) <==> (store.burst_from matches Some(from) && now < from
            + 20_000_000_000),
        empty_snapshot().auth == empty_store().auth && empty_snapshot().relay is None,
        !empty_snapshot().oauth_in_flight,
{
}

/// A sign-in starts exactly while the daemon runs and no other is in flight, and the refusal tells
/// which of the two is missing.
pub proof fn law_oauth_start(daemon: DaemonState, store: StoreView)
    ensures
        oauth_start(daemon, store) is Started <==> daemon is Running && !store.oauth_running,
        oauth_start(daemon, store) is DaemonDown <==> !(daemon is Running),
        oauth_start(daemon, store) is AlreadyInFlight <==> daemon is Running
            && store.oauth_running,
{
}

/// A session is opened exactly by a reply with a success code whose body says `success` and names
/// both the session and its page; it is then the one named.
pub proof fn law_session_is_the_one_named(
    reply: api::Reply<OauthStartResponse>,
    id: Seq<char>,
    url: Seq<char>,
)
    ensures
        opened_session(reply) == Ok::<_, Seq<char>>((id, url)) <==> (
        reply matches api::Reply::Answered { code, body } && 200 <= code <= 299 && (
        body matches Ok(p) && p.status@ == "success"@ && (p.session_id matches Some(s) && s@ == id)
            && (p.auth_url matches Some(u) && u@ == url))),
{
}

/// Why no session was opened: the transport's failure, the daemon's own word, or the first of the
/// two names that is missing.
pub proof fn law_session_errors(reply: api::Reply<OauthStartResponse>)
    ensures
        ({
            let r = opened_session(reply);
            let lost = "oauth/start: "@;
            match reply {
                api::Reply::Lost(reason) => r == Err::<(Seq<char>, Seq<char>), _>(lost + reason@),
                api::Reply::Answered { code, body } => if code < 200 || 299 < code {
                    r == Err::<(Seq<char>, Seq<char>), _>(
                        "oauth/start -> "@ + api::status_display(code),
                    )
                } else {
                    match body {
                        Err(reason) => r == Err::<(Seq<char>, Seq<char>), _>(
                            "oauth/start decode: "@ + reason@,
                        ),
                        Ok(p) => {
                            &&& p.status@ != "success"@ ==> r == Err::<(Seq<char>, Seq<char>), _>(
                                "oauth/start status="@ + p.status@ + " message="@ + (
                                match p.message {
                                    Some(m) => m@,
                                    None => Seq::empty(),
                                }),
                            )
                            &&& p.status@ == "success"@ && p.session_id is None ==> r == Err::<
                                (Seq<char>, Seq<char>),
                                _,
                            >("oauth/start: missing session_id"@)
                            &&& p.status@ == "success"@ && p.session_id is Some
                                && p.auth_url is None ==> r == Err::<(Seq<char>, Seq<char>), _>(
                                "oauth/start: missing auth_url"@,
                            )
                        },
                    }
                },
            }
        }),
{
    reveal_strlit("oauth/start");
    reveal_strlit("oauth/start decode");
    reveal_strlit(": ");
    reveal_strlit(" -> ");
    reveal_strlit("oauth/start: ");
    reveal_strlit("oauth/start -> ");
    reveal_strlit("oauth/start decode: ");
    assert("oauth/start"@ + ": "@ =~= "oauth/start: "@);
    assert("oauth/start"@ + " -> "@ =~= "oauth/start -> "@);
    assert("oauth/start decode"@ + ": "@ =~= "oauth/start decode: "@);
}

/// While the daemon runs and no more than ten minutes have passed, a sign-in is asked after and
/// never given up; it has timed out exactly once more than that have passed, and is given up at any
/// time when the daemon no longer runs.
pub proof fn law_sign_in_is_patient(daemon: DaemonState, elapsed: u128)
    ensures
        oauth_end(daemon, elapsed) is None <==> daemon is Running && elapsed <= 600_000_000_000,
        daemon is Running && elapsed > 600_000_000_000 ==> oauth_end(daemon, elapsed) == Some(
            "OAuth poll timed out (10 min)"@,
        ),
        !(daemon is Running) ==> oauth_end(daemon, elapsed) == Some(
            "daemon stopped during OAuth flow"@,
        ),
{
}

/// A sign-in is looked at, and dropped, under its own session and no other.
pub proof fn law_oauth_requests(session_id: Seq<char>)
    ensures
        oauth_look(session_id).verb is Get,
        oauth_look(session_id).url == "http://127.0.0.1:8000/api/hf-auth/oauth/status/"@
            + session_id,
        oauth_drop(session_id).verb is Delete,
        oauth_drop(session_id).url == "http://127.0.0.1:8000/api/hf-auth/oauth/session/"@
            + session_id,
{
    law_account_route("/oauth/status/"@ + session_id);
    law_account_route("/oauth/session/"@ + session_id);
    reveal_strlit("http://127.0.0.1:8000/api/hf-auth");
    reveal_strlit("/oauth/status/");
    reveal_strlit("/oauth/session/");
    reveal_strlit("http://127.0.0.1:8000/api/hf-auth/oauth/status/");
    reveal_strlit("http://127.0.0.1:8000/api/hf-auth/oauth/session/");
    assert(oauth_look(session_id).url =~= "http://127.0.0.1:8000/api/hf-auth/oauth/status/"@
        + session_id);
    assert(oauth_drop(session_id).url =~= "http://127.0.0.1:8000/api/hf-auth/oauth/session/"@
        + session_id);
}

/// A sign-in succeeds exactly when the daemon calls it authorized, under the name it gives; it
/// fails exactly when the daemon calls it an error or expired; anything else, and no answer, lets
/// it go on.
pub proof fn law_oauth_verdict(reply: Option<OauthStatusResponse>)
    ensures
        ({
            let v = verdict_of(reply);
            &&& reply is None ==> v is None
            &&& reply matches Some(s) ==> {
                &&& s.status@ == "authorized"@ <==> (v matches Some(o) && o is Ok)
                &&& s.status@ == "authorized"@ ==> v == Some(
                    Ok::<Seq<char>, Seq<char>>(
                        if s.username is Some {
                            s.username->0@
                        } else {
                            "?"@
                        },
                    ),
                )
                &&& s.status@ != "authorized"@ ==> (v is Some <==> s.status@ == "error"@
                    || s.status@ == "expired"@)
                &&& s.status@ != "authorized"@ && v is Some ==> v == Some(
                    Err::<Seq<char>, Seq<char>>(
                        "OAuth "@ + s.status@ + ": "@ + (if s.message is Some {
                            s.message->0@
                        } else {
                            Seq::empty()
                        }),
                    ),
                )
            }
        }),
{
}

/// The end of a sign-in frees the way for the next one and shows the user of a successful one; it
/// touches neither the relay nor the cadence.
pub proof fn law_oauth_concluded(store: StoreView, outcome: Result<Seq<char>, Seq<char>>)
    ensures
        ({
            let after = oauth_concluded(store, outcome);
            &&& !after.oauth_running
            &&& after.relay == store.relay && after.burst_from == store.burst_from
            &&& outcome matches Ok(name) ==> after.auth.is_logged_in && after.auth.username
                == Some(name)
            &&& outcome is Err ==> after.auth == store.auth
        }),
{
}

/// The look at the account right after a sign-in only ever adds: a confirmed login and a known
/// relay are taken over, anything else leaves what was there.
pub proof fn law_oauth_confirmed(
    store: StoreView,
    answer: Option<AuthView>,
    relay: Option<RelayView>,
    now: u128,
)
    ensures
        ({
            let after = oauth_confirmed(store, answer, relay, now);
            let confirmed = answer matches Some(a) && a.is_logged_in;
            &&& confirmed ==> Some(after.auth) == answer
            &&& !confirmed ==> after.auth == store.auth
            &&& relay is Some ==> after.relay == relay
            &&& relay is None ==> after.relay == store.relay
            &&& after.oauth_running == store.oauth_running
            &&& after.burst_from == Some(now)
        }),
{
}

/// A sign-out shows nobody and no relay at once, polls faster, and leaves a sign-in in flight
/// alone.
pub proof fn law_signed_out(store: StoreView, now: u128)
    ensures
        ({
            let after = signed_out(store, now);
            &&& !after.auth.is_logged_in && after.auth.username is None && after.relay is None
            &&& after.burst_from == Some(now)
            &&& after.oauth_running == store.oauth_running
        }),
{
}

/// The contracts see an account as the daemon reported it, field by field.
pub proof fn law_account_is_seen_whole(auth: AuthStatus, relay: RelayStatus, name: String)
    ensures
        auth@.is_logged_in == auth.is_logged_in,
        auth@.username is Some <==> auth.username is Some,
        auth.username matches Some(n) ==> auth@.username == Some(n@),
        relay@.state == relay.state@ && relay@.is_connected == relay.is_connected,
        relay@.message is Some <==> relay.message is Some,
        relay.message matches Some(m) ==> relay@.message == Some(m@),
        auth_view(Some(auth)) == Some(auth@) && auth_view(None) is None,
        relay_view(Some(relay)) == Some(relay@) && relay_view(None) is None,
        outcome_view(Ok(name)) == Ok::<_, Seq<char>>(name@),
        outcome_view(Err(name)) == Err::<Seq<char>, _>(name@),
{
}

/// The contracts see a snapshot as it is, field by field.
pub proof fn law_snapshot_is_seen_whole(snap: AuthSnapshot)
    ensures
        snap@.auth == snap.auth@ && snap@.oauth_in_flight == snap.oauth_in_flight,
        snap@.relay is Some <==> snap.relay is Some,
        snap.relay matches Some(r) ==> snap@.relay == Some(r@),
{
}

/// The cadences of the account's workers, in milliseconds.
pub proof fn law_account_cadences()
    ensures
        HTTP_TIMEOUT_MS == 3_000 && OAUTH_POLL_INTERVAL_MS == 1_000,
        POLL_INTERVAL_RUNNING_MS == 15_000 && POLL_INTERVAL_BURST_MS == 2_000,
        POLL_INTERVAL_IDLE_MS == 5_000,
{
}

} // verus!
