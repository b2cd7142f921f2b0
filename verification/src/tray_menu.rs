//! The face of the tray: icon, tooltip and menu, derived from scratch from the launcher's state.

use vstd::prelude::*;
use vstd::string::*;

use crate::hf_auth;
use crate::hf_auth::AuthSnapshot;
use crate::hf_auth::AuthStatusStore;
use crate::hf_auth::AuthView;
use crate::hf_auth::CentralRobotStatus;
use crate::hf_auth::PollView;
use crate::hf_auth::RelayStatus;
use crate::hf_auth::RelayView;
use crate::hf_auth::SnapshotView;
use crate::state;
use crate::state::AppState;
use crate::state::DaemonState;
use crate::state::Mode;
use crate::text;

verus! {

pub const TRAY_ID: &'static str = "main";

pub const ID_TOGGLE: &'static str = "toggle";

pub const ID_MODE_SUBMENU: &'static str = "mode";

pub const ID_MODE_USB: &'static str = "mode_usb";

pub const ID_MODE_SIM: &'static str = "mode_sim";

/// Submenu shown when the user is logged in. Its label is the live account status; its children
/// are the secondary actions.
pub const ID_ACCOUNT_SUBMENU: &'static str = "account";

/// Flat item shown when the user is logged out, or while a sign-in is in flight.
pub const ID_ACCOUNT_SIGNIN: &'static str = "account_signin";

pub const ID_ACCOUNT_SIGNOUT: &'static str = "account_signout";

pub const ID_ACCOUNT_REFRESH_RELAY: &'static str = "account_refresh_relay";

pub const ID_SHOW_LOGS: &'static str = "show_logs";

pub const ID_RESET_SETUP: &'static str = "reset_setup";

pub const ID_QUIT: &'static str = "quit";

/// A row of the menu that the user can click.
pub struct MenuRow {
    pub id: String,
    pub text: String,
    pub enabled: bool,
    /// The state of the check mark, on a row that has one.
    pub checked: Option<bool>,
}

/// The mathematical content of a [`MenuRow`].
pub struct RowView {
    pub id: Seq<char>,
    pub text: Seq<char>,
    pub enabled: bool,
    pub checked: Option<bool>,
}

impl View for MenuRow {
    type V = RowView;

    open spec fn view(&self) -> RowView {
        RowView {
            id: self.id@,
            text: self.text@,
            enabled: self.enabled,
            checked: self.checked,
        }
    }
}

/// The mathematical content of a list of rows.
pub open spec fn rows_view(rows: Seq<MenuRow>) -> Seq<RowView> {
    rows.map_values(|r: MenuRow| r@)
}

/// A submenu and its rows.
pub struct Submenu {
    pub id: String,
    pub text: String,
    pub enabled: bool,
    pub rows: Vec<MenuRow>,
}

/// The mathematical content of a [`Submenu`].
pub struct SubmenuView {
    pub id: Seq<char>,
    pub text: Seq<char>,
    pub enabled: bool,
    pub rows: Seq<RowView>,
}

impl View for Submenu {
    type V = SubmenuView;

    open spec fn view(&self) -> SubmenuView {
        SubmenuView {
            id: self.id@,
            text: self.text@,
            enabled: self.enabled,
            rows: rows_view(self.rows@),
        }
    }
}

/// An entry of the menu.
pub enum MenuEntry {
    Separator,
    Row(MenuRow),
    Sub(Submenu),
}

/// The mathematical content of a [`MenuEntry`].
pub enum EntryView {
    Separator,
    Row(RowView),
    Sub(SubmenuView),
}

impl View for MenuEntry {
    type V = EntryView;

    open spec fn view(&self) -> EntryView {
        match self {
            MenuEntry::Separator => EntryView::Separator,
            MenuEntry::Row(row) => EntryView::Row(row@),
            MenuEntry::Sub(sub) => EntryView::Sub(sub@),
        }
    }
}

/// The mathematical content of a menu.
pub open spec fn entries_view(entries: Seq<MenuEntry>) -> Seq<EntryView> {
    entries.map_values(|e: MenuEntry| e@)
}

/// A plain row.
pub open spec fn plain(id: Seq<char>, text: Seq<char>, enabled: bool) -> RowView {
    RowView { id, text, enabled, checked: None }
}

/// A plain row.
fn item(id: &str, text: &str, enabled: bool) -> (r: MenuRow)
    ensures
        r@ == plain(id@, text@, enabled),
{
    MenuRow { id: id.to_string(), text: text.to_string(), enabled, checked: None }
}

/// A row with a check mark.
pub open spec fn ticked(id: Seq<char>, text: Seq<char>, checked: bool) -> RowView {
    RowView { id, text, enabled: true, checked: Some(checked) }
}

/// A row with a check mark.
fn check_item(id: &str, text: &str, checked: bool) -> (r: MenuRow)
    ensures
        r@ == ticked(id@, text@, checked),
{
    MenuRow { id: id.to_string(), text: text.to_string(), enabled: true, checked: Some(checked) }
}

/// A submenu of two rows.
fn submenu(id: &str, text: &str, enabled: bool, first: MenuRow, second: MenuRow) -> (r: Submenu)
    ensures
        r@ == (SubmenuView { id: id@, text: text@, enabled, rows: seq![first@, second@] }),
{
    let mut rows: Vec<MenuRow> = Vec::new();
    rows.push(first);
    rows.push(second);
    assert(rows_view(rows@) =~= seq![first@, second@]);
    Submenu { id: id.to_string(), text: text.to_string(), enabled, rows }
}

/// How the menu names the user.
pub open spec fn shown_user(username: Option<Seq<char>>) -> Seq<char> {
    match username {
        Some(name) => if name.len() > 0 {
            name
        } else {
            "?"@
        },
        None => "?"@,
    }
}

/// How the menu sums up the relay.
pub open spec fn relay_summary(relay: Option<RelayView>) -> Seq<char> {
    match relay {
        Some(r) => if r.is_connected {
            "remote on"@
        } else if r.state == "connecting"@ || r.state == "reconnecting"@ {
            "reconnecting\u{2026}"@
        } else if r.state == "unavailable"@ {
            "remote unavailable"@
        } else if r.state.len() == 0 {
            "remote unknown"@
        } else {
            "remote "@ + r.state
        },
        None => "remote unknown"@,
    }
}

/// The label of the account submenu.
pub open spec fn account_label(snap: SnapshotView) -> Seq<char> {
    "@"@ + shown_user(snap.auth.username) + " \u{00b7} "@ + relay_summary(snap.relay)
}

/// Sums up the relay in a few words, so that the label fits the width of a menu.
fn summarize_relay(relay: &Option<RelayStatus>) -> (r: String)
    ensures
        r@ == relay_summary(hf_auth::relay_view(*relay)),
{
    match relay {
        Some(status) => {
            let name: &str = status.state.as_str();
            if status.is_connected {
                "remote on".to_string()
            } else if text::same(name, "connecting") || text::same(name, "reconnecting") {
                "reconnecting\u{2026}".to_string()
            } else if text::same(name, "unavailable") {
                "remote unavailable".to_string()
            } else if name.is_empty() {
                "remote unknown".to_string()
            } else {
                let mut r: String = "remote ".to_string();
                r.append(name);
                r
            }
        },
        None => "remote unknown".to_string(),
    }
}

/// Builds the label of the account submenu: `@{user} · {relay summary}`.
pub fn logged_in_label(snap: &AuthSnapshot) -> (r: String)
    ensures
        r@ == account_label(snap@),
{
    let mut r: String = "@".to_string();
    match &snap.auth.username {
        Some(name) => {
            if name.as_str().is_empty() {
                r.append("?");
            } else {
                r.append(name.as_str());
            }
        },
        None => r.append("?"),
    }
    r.append(" \u{00b7} ");
    r.append(summarize_relay(&snap.relay).as_str());
    r
}

/// The possible shapes of the account slot of the menu.
pub enum AccountSlot {
    /// The daemon does not run: no row at all.
    Hidden,
    /// Logged out, or a sign-in is in flight.
    Flat(MenuRow),
    /// Logged in.
    Sub(Submenu),
}

/// The mathematical content of an [`AccountSlot`].
pub enum SlotView {
    Hidden,
    Flat(RowView),
    Sub(SubmenuView),
}

impl View for AccountSlot {
    type V = SlotView;

    open spec fn view(&self) -> SlotView {
        match self {
            AccountSlot::Hidden => SlotView::Hidden,
            AccountSlot::Flat(row) => SlotView::Flat(row@),
            AccountSlot::Sub(sub) => SlotView::Sub(sub@),
        }
    }
}

/// The account slot for a daemon state and an account snapshot.
pub open spec fn slot_of(daemon: DaemonState, snap: SnapshotView) -> SlotView {
    if daemon != DaemonState::Running {
        SlotView::Hidden
    } else if snap.oauth_in_flight {
        SlotView::Flat(
            plain("account_signin"@, "Signing in\u{2026} (check your browser)"@, false),
        )
    } else if !snap.auth.is_logged_in {
        SlotView::Flat(plain("account_signin"@, "Sign in with Hugging Face\u{2026}"@, true))
    } else {
        SlotView::Sub(
            SubmenuView {
                id: "account"@,
                text: account_label(snap),
                enabled: true,
                rows: seq![
                    plain("account_refresh_relay"@, "Reconnect remote access"@, true),
                    plain("account_signout"@, "Sign out"@, true),
                ],
            },
        )
    }
}

/// Picks the account slot.
pub fn account_slot(daemon: DaemonState, snap: &AuthSnapshot) -> (r: AccountSlot)
    ensures
        r@ == slot_of(daemon, snap@),
{
    match daemon {
        DaemonState::Running => {
            if snap.oauth_in_flight {
                AccountSlot::Flat(
                    item(ID_ACCOUNT_SIGNIN, "Signing in\u{2026} (check your browser)", false),
                )
            } else if !snap.auth.is_logged_in {
                AccountSlot::Flat(
                    item(ID_ACCOUNT_SIGNIN, "Sign in with Hugging Face\u{2026}", true),
                )
            } else {
                let refresh: MenuRow = item(
                    ID_ACCOUNT_REFRESH_RELAY,
                    "Reconnect remote access",
                    true,
                );
                let signout: MenuRow = item(ID_ACCOUNT_SIGNOUT, "Sign out", true);
                let label: String = logged_in_label(snap);
                AccountSlot::Sub(
                    submenu(ID_ACCOUNT_SUBMENU, label.as_str(), true, refresh, signout),
                )
            }
        },
        _ => AccountSlot::Hidden,
    }
}

/// The row that starts, stops or restarts the daemon.
pub open spec fn toggle_row(daemon: DaemonState) -> RowView {
    match daemon {
        DaemonState::Idle => plain("toggle"@, "Start daemon"@, true),
        DaemonState::Starting => plain("toggle"@, "Starting\u{2026}"@, false),
        DaemonState::Running => plain("toggle"@, "Stop daemon"@, true),
        DaemonState::Crashed => plain("toggle"@, "Restart daemon"@, true),
    }
}

/// The submenu of the connection modes.
pub open spec fn mode_submenu(daemon: DaemonState, mode: Mode) -> SubmenuView {
    SubmenuView {
        id: "mode"@,
        text: "Connection mode"@,
        enabled: !daemon.busy(),
        rows: seq![
            ticked("mode_usb"@, "USB (default)"@, mode == Mode::Usb),
            ticked("mode_sim"@, "Simulation"@, mode == Mode::Simulation),
        ],
    }
}

/// The entries of the account slot, after a separator of their own.
pub open spec fn slot_entries(slot: SlotView) -> Seq<EntryView> {
    match slot {
        SlotView::Hidden => Seq::empty(),
        SlotView::Flat(row) => seq![EntryView::Separator, EntryView::Row(row)],
        SlotView::Sub(sub) => seq![EntryView::Separator, EntryView::Sub(sub)],
    }
}

/// The whole menu.
pub open spec fn menu_of(daemon: DaemonState, mode: Mode, snap: SnapshotView) -> Seq<EntryView> {
    seq![
        EntryView::Row(toggle_row(daemon)),
        EntryView::Separator,
        EntryView::Sub(mode_submenu(daemon, mode)),
    ] + slot_entries(slot_of(daemon, snap)) + seq![
        EntryView::Separator,
        EntryView::Row(plain("show_logs"@, "Show logs\u{2026}"@, true)),
        EntryView::Row(plain("reset_setup"@, "Reset setup\u{2026}"@, !daemon.busy())),
        EntryView::Separator,
        EntryView::Row(plain("quit"@, "Quit"@, true)),
    ]
}

/// Builds a fresh menu.
///
/// The setup can only be reset while no daemon is coming up or is up: its files would still be in
/// use.
pub fn build_tray_menu(daemon: DaemonState, mode: Mode, snap: &AuthSnapshot) -> (r: Vec<MenuEntry>)
    ensures
        entries_view(r@) == menu_of(daemon, mode, snap@),
{
    let toggle: MenuRow = match daemon {
        DaemonState::Idle => item(ID_TOGGLE, "Start daemon", true),
        DaemonState::Starting => item(ID_TOGGLE, "Starting\u{2026}", false),
        DaemonState::Running => item(ID_TOGGLE, "Stop daemon", true),
        DaemonState::Crashed => item(ID_TOGGLE, "Restart daemon", true),
    };
    let busy: bool = daemon.is_busy();
    let mode_usb: MenuRow = check_item(ID_MODE_USB, "USB (default)", mode == Mode::Usb);
    let mode_sim: MenuRow = check_item(ID_MODE_SIM, "Simulation", mode == Mode::Simulation);
    let modes: Submenu = submenu(ID_MODE_SUBMENU, "Connection mode", !busy, mode_usb, mode_sim);
    let mut entries: Vec<MenuEntry> = Vec::new();
    entries.push(MenuEntry::Row(toggle));
    entries.push(MenuEntry::Separator);
    entries.push(MenuEntry::Sub(modes));
    match account_slot(daemon, snap) {
        AccountSlot::Flat(row) => {
            entries.push(MenuEntry::Separator);
            entries.push(MenuEntry::Row(row));
        },
        AccountSlot::Sub(sub) => {
            entries.push(MenuEntry::Separator);
            entries.push(MenuEntry::Sub(sub));
        },
        AccountSlot::Hidden => {},
    }
    entries.push(MenuEntry::Separator);
    entries.push(MenuEntry::Row(item(ID_SHOW_LOGS, "Show logs\u{2026}", true)));
    entries.push(MenuEntry::Row(item(ID_RESET_SETUP, "Reset setup\u{2026}", !busy)));
    entries.push(MenuEntry::Separator);
    entries.push(MenuEntry::Row(item(ID_QUIT, "Quit", true)));
    assert(entries_view(entries@) =~= menu_of(daemon, mode, snap@));
    entries
}

/// Which of the pre-rendered icons is shown.
#[derive(Copy, Clone, Debug, PartialEq, Eq, Structural)]
pub enum Icon {
    Idle,
    Starting,
    RunningUsb,
    RunningSim,
    Crashed,
}

/// The icon for a daemon state and a mode.
pub open spec fn icon_of(daemon: DaemonState, mode: Mode) -> Icon {
    match daemon {
        DaemonState::Idle => Icon::Idle,
        DaemonState::Starting => Icon::Starting,
        DaemonState::Running => match mode {
            Mode::Usb => Icon::RunningUsb,
            Mode::Simulation => Icon::RunningSim,
        },
        DaemonState::Crashed => Icon::Crashed,
    }
}

/// Picks the icon.
pub fn choose_icon(daemon: DaemonState, mode: Mode) -> (r: Icon)
    ensures
        r == icon_of(daemon, mode),
{
    match (daemon, mode) {
        (DaemonState::Idle, _) => Icon::Idle,
        (DaemonState::Starting, _) => Icon::Starting,
        (DaemonState::Running, Mode::Usb) => Icon::RunningUsb,
        (DaemonState::Running, Mode::Simulation) => Icon::RunningSim,
        (DaemonState::Crashed, _) => Icon::Crashed,
    }
}

/// The name of a daemon state in the tooltip.
pub open spec fn state_name(daemon: DaemonState) -> Seq<char> {
    match daemon {
        DaemonState::Idle => "Idle"@,
        DaemonState::Starting => "Starting"@,
        DaemonState::Running => "Running"@,
        DaemonState::Crashed => "Crashed"@,
    }
}

/// The tooltip for a daemon state and a mode.
pub open spec fn tooltip_of(daemon: DaemonState, mode: Mode) -> Seq<char> {
    "Reachy Mini - "@ + state_name(daemon) + " ("@ + mode.title() + (if daemon
        == DaemonState::Starting {
        ")..."@
    } else {
        ")"@
    })
}

/// Builds the tooltip.
pub fn tooltip(daemon: DaemonState, mode: Mode) -> (r: String)
    ensures
        r@ == tooltip_of(daemon, mode),
{
    let mut r: String = "Reachy Mini - ".to_string();
    match daemon {
        DaemonState::Idle => r.append("Idle"),
        DaemonState::Starting => r.append("Starting"),
        DaemonState::Running => r.append("Running"),
        DaemonState::Crashed => r.append("Crashed"),
    }
    r.append(" (");
    r.append(mode.label());
    match daemon {
        DaemonState::Starting => r.append(")..."),
        _ => r.append(")"),
    }
    r
}

/// Everything the tray shows.
pub struct TrayFace {
    pub icon: Icon,
    /// The system may recolour the icon to fit the menu bar.
    pub template: bool,
    pub tooltip: String,
    pub menu: Vec<MenuEntry>,
}

/// The face shows the given daemon state, mode and account.
pub open spec fn shows(
    face: TrayFace,
    daemon: DaemonState,
    mode: Mode,
    snap: SnapshotView,
) -> bool {
    &&& face.icon == icon_of(daemon, mode)
    &&& face.template == (daemon == DaemonState::Idle)
    &&& face.tooltip@ == tooltip_of(daemon, mode)
    &&& entries_view(face.menu@) == menu_of(daemon, mode, snap)
}

/// Renders icon, tooltip and menu anew from the live state and account. Only the bare icon of an
/// idle daemon may be recoloured; the others carry a coloured badge.
pub fn refresh_status(app: &AppState, account: &AuthStatusStore) -> (r: TrayFace)
    ensures
        shows(
            r,
            app@.state,
            app@.mode,
            (SnapshotView {
                auth: account@.auth,
                relay: account@.relay,
                oauth_in_flight: account@.oauth_running,
            }),
        ),
{
    let daemon: DaemonState = state::current_daemon_state(app);
    let mode: Mode = state::current_mode(app);
    let snap: AuthSnapshot = account.snapshot();
    TrayFace {
        icon: choose_icon(daemon, mode),
        template: daemon == DaemonState::Idle,
        tooltip: tooltip(daemon, mode),
        menu: build_tray_menu(daemon, mode, &snap),
    }
}

/// Renders the tray on demand, for the background workers of the account.
pub fn request_menu_refresh(app: &AppState, account: &AuthStatusStore) -> (r: TrayFace)
    ensures
        shows(
            r,
            app@.state,
            app@.mode,
            (SnapshotView {
                auth: account@.auth,
                relay: account@.relay,
                oauth_in_flight: account@.oauth_running,
            }),
        ),
{
    refresh_status(app, account)
}

/// The face the launcher boots with: the bare, recolourable icon, a tooltip that says so, and a
/// menu without an account.
pub proof fn law_initial_face(face: TrayFace)
    requires
        shows(
            face,
            state::initial_state().state,
            state::initial_state().mode,
            hf_auth::empty_snapshot(),
        ),
    ensures
        face.icon == Icon::Idle && face.template,
        face.tooltip@ == "Reachy Mini - Idle (USB)"@,
        entries_view(face.menu@).len() == 8,
{
    reveal_strlit("Reachy Mini - ");
    reveal_strlit("Idle");
    reveal_strlit(" (");
    reveal_strlit("USB");
    reveal_strlit(")");
    reveal_strlit("Reachy Mini - Idle (USB)");
    assert(face.tooltip@ =~= "Reachy Mini - Idle (USB)"@);
}

/// The account has a row of its own exactly while the daemon runs.
pub proof fn law_account_needs_daemon(daemon: DaemonState, mode: Mode, snap: SnapshotView)
    ensures
        slot_of(daemon, snap) == SlotView::Hidden <==> daemon != DaemonState::Running,
        menu_of(daemon, mode, snap).len() == (if daemon == DaemonState::Running {
            10int
        } else {
            8
        }),
{
}

/// The menu offers a sign-in exactly when there is something to sign in to, and the account's
/// actions exactly when there is an account.
pub proof fn law_account_slot(snap: SnapshotView)
    ensures
        ({
            let slot = slot_of(DaemonState::Running, snap);
            &&& slot is Sub <==> snap.auth.is_logged_in && !snap.oauth_in_flight
            &&& slot matches SlotView::Flat(row) ==> (row.enabled <==> !snap.oauth_in_flight)
        }),
{
}

/// The menu only depends on what the poller watches: two accounts of which the same is shown have
/// the same menu.
pub proof fn law_menu_shows_what_is_watched(
    daemon: DaemonState,
    mode: Mode,
    snap: SnapshotView,
    other: SnapshotView,
)
    requires
        hf_auth::shown(snap.auth, snap.relay) == hf_auth::shown(other.auth, other.relay),
        snap.oauth_in_flight == other.oauth_in_flight,
    ensures
        menu_of(daemon, mode, snap) == menu_of(daemon, mode, other),
{
    reveal_strlit("connecting");
    reveal_strlit("reconnecting");
    reveal_strlit("unavailable");
    assert("connecting"@.len() > 0 && "reconnecting"@.len() > 0 && "unavailable"@.len() > 0);
    assert(shown_user(snap.auth.username) == shown_user(other.auth.username));
    assert(relay_summary(snap.relay) == relay_summary(other.relay));
}

/// A tick of the poller that does not ask for a rendering leaves the menu as the tick before it
/// made it: no change goes unseen.
pub proof fn law_quiet_tick_keeps_menu(
    before: PollView,
    answer: Option<AuthView>,
    relay: Option<RelayView>,
    central: Option<CentralRobotStatus>,
    daemon: DaemonState,
    mode: Mode,
    oauth_in_flight: bool,
)
    requires
        before.poller.last_shown == Some(hf_auth::shown(before.auth, before.relay)),
    ensures
        ({
            let after = hf_auth::poll(before.poller, answer, relay, central);
            !after.refresh ==> menu_of(
                daemon,
                mode,
                SnapshotView { auth: before.auth, relay: before.relay, oauth_in_flight },
            ) == menu_of(
                daemon,
                mode,
                SnapshotView { auth: after.auth, relay: after.relay, oauth_in_flight },
            )
        }),
{
    let after = hf_auth::poll(before.poller, answer, relay, central);
    if !after.refresh {
        law_menu_shows_what_is_watched(
            daemon,
            mode,
            SnapshotView { auth: before.auth, relay: before.relay, oauth_in_flight },
            SnapshotView { auth: after.auth, relay: after.relay, oauth_in_flight },
        );
    }
}

/// Exactly one connection mode is ticked: the current one.
pub proof fn law_one_mode_ticked(daemon: DaemonState, mode: Mode)
    ensures
        ({
            let rows = mode_submenu(daemon, mode).rows;
            &&& rows.len() == 2
            &&& rows[0].checked == Some(mode == Mode::Usb)
            &&& rows[1].checked == Some(mode == Mode::Simulation)
            &&& rows[0].checked != rows[1].checked
        }),
{
}

/// The account's label: the user behind an at sign, a dot, and the relay in a few words. A user
/// without a name shows as a question mark; a connected relay is on whatever it calls its state.
pub proof fn law_account_label(snap: SnapshotView)
    ensures
        ({
            let user = if snap.auth.username is Some && snap.auth.username->0.len() > 0 {
                snap.auth.username->0
            } else {
                "?"@
            };
            let state = if snap.relay is Some {
                snap.relay->0.state
            } else {
                ""@
            };
            let on = snap.relay is Some && snap.relay->0.is_connected;
            let relay = if on {
                "remote on"@
            } else if state == "connecting"@ || state == "reconnecting"@ {
                "reconnecting\u{2026}"@
            } else if state == "unavailable"@ {
                "remote unavailable"@
            } else if state == ""@ {
                "remote unknown"@
            } else {
                "remote "@ + state
            };
            account_label(snap) == "@"@ + user + " \u{00b7} "@ + relay
        }),
{
    reveal_strlit("");
    reveal_strlit("connecting");
    reveal_strlit("reconnecting");
    reveal_strlit("unavailable");
    assert("connecting"@.len() > 0 && "reconnecting"@.len() > 0 && "unavailable"@.len() > 0);
    assert(forall|s: Seq<char>| s.len() == 0 ==> s =~= ""@);
}

/// The top of the menu: a toggle that names what a click does and is disabled only while the daemon
/// is starting, and the modes, of which the current one is ticked and which are open to a click
/// exactly while no daemon is starting or running.
pub proof fn law_menu_top(daemon: DaemonState, mode: Mode, snap: SnapshotView)
    ensures
        ({
            let menu = menu_of(daemon, mode, snap);
            let free = daemon is Idle || daemon is Crashed;
            let label = if daemon is Idle {
                "Start daemon"@
            } else if daemon is Starting {
                "Starting\u{2026}"@
            } else if daemon is Running {
                "Stop daemon"@
            } else {
                "Restart daemon"@
            };
            &&& menu[0] == EntryView::Row(
                RowView {
                    id: "toggle"@,
                    text: label,
                    enabled: !(daemon is Starting),
                    checked: None,
                },
            )
            &&& menu[1] is Separator
            &&& menu[2] matches EntryView::Sub(sub) && {
                &&& sub.id == "mode"@ && sub.text == "Connection mode"@ && sub.enabled == free
                &&& sub.rows.len() == 2
                &&& sub.rows[0] == RowView {
                    id: "mode_usb"@,
                    text: "USB (default)"@,
                    enabled: true,
                    checked: Some(mode is Usb),
                }
                &&& sub.rows[1] == RowView {
                    id: "mode_sim"@,
                    text: "Simulation"@,
                    enabled: true,
                    checked: Some(mode is Simulation),
                }
            }
        }),
{
}

/// The middle of the menu is the account's, and there only while the daemon runs: a disabled note
/// while a sign-in is in flight, an offer to sign in where nobody is logged in, and otherwise the
/// account with its two actions.
pub proof fn law_menu_account(daemon: DaemonState, mode: Mode, snap: SnapshotView)
    ensures
        ({
            let menu = menu_of(daemon, mode, snap);
            &&& !(daemon is Running) ==> menu.len() == 8
            &&& daemon is Running ==> {
                &&& menu.len() == 10
                &&& menu[3] is Separator
                &&& snap.oauth_in_flight ==> menu[4] == EntryView::Row(
                    RowView {
                        id: "account_signin"@,
                        text: "Signing in\u{2026} (check your browser)"@,
                        enabled: false,
                        checked: None,
                    },
                )
                &&& !snap.oauth_in_flight && !snap.auth.is_logged_in ==> menu[4] == EntryView::Row(
                    RowView {
                        id: "account_signin"@,
                        text: "Sign in with Hugging Face\u{2026}"@,
                        enabled: true,
                        checked: None,
                    },
                )
                &&& !snap.oauth_in_flight && snap.auth.is_logged_in ==> (
                menu[4] matches EntryView::Sub(sub) && sub.id == "account"@ && sub.text
                    == account_label(snap) && sub.enabled && sub.rows.len() == 2 && sub.rows[0]
                    == RowView {
                    id: "account_refresh_relay"@,
                    text: "Reconnect remote access"@,
                    enabled: true,
                    checked: None,
                } && sub.rows[1] == RowView {
                    id: "account_signout"@,
                    text: "Sign out"@,
                    enabled: true,
                    checked: None,
                })
            }
        }),
{
}

/// The bottom of the menu: the log, a reset that is enabled exactly while no daemon is starting or
/// running, and quit.
pub proof fn law_menu_bottom(daemon: DaemonState, mode: Mode, snap: SnapshotView)
    ensures
        ({
            let menu = menu_of(daemon, mode, snap);
            let n = menu.len() as int;
            &&& menu[n - 5] is Separator && menu[n - 2] is Separator
            &&& menu[n - 4] == EntryView::Row(
                RowView {
                    id: "show_logs"@,
                    text: "Show logs\u{2026}"@,
                    enabled: true,
                    checked: None,
                },
            )
            &&& menu[n - 3] == EntryView::Row(
                RowView {
                    id: "reset_setup"@,
                    text: "Reset setup\u{2026}"@,
                    enabled: daemon is Idle || daemon is Crashed,
                    checked: None,
                },
            )
            &&& menu[n - 1] == EntryView::Row(
                RowView { id: "quit"@, text: "Quit"@, enabled: true, checked: None },
            )
        }),
{
}

/// Each state has its icon, a running daemon one for each mode, and its tooltip, which names the
/// mode and, while starting, ends in dots.
pub proof fn law_icon_and_tooltip(daemon: DaemonState, mode: Mode)
    ensures
        daemon is Idle ==> icon_of(daemon, mode) is Idle,
        daemon is Starting ==> icon_of(daemon, mode) is Starting,
        daemon is Running && mode is Usb ==> icon_of(daemon, mode) is RunningUsb,
        daemon is Running && mode is Simulation ==> icon_of(daemon, mode) is RunningSim,
        daemon is Crashed ==> icon_of(daemon, mode) is Crashed,
        ({
            let name = if mode is Usb {
                "USB"@
            } else {
                "Simulation"@
            };
            let tip = tooltip_of(daemon, mode);
            &&& daemon is Idle ==> tip == "Reachy Mini - Idle ("@ + name + ")"@
            &&& daemon is Starting ==> tip == "Reachy Mini - Starting ("@ + name + ")..."@
            &&& daemon is Running ==> tip == "Reachy Mini - Running ("@ + name + ")"@
            &&& daemon is Crashed ==> tip == "Reachy Mini - Crashed ("@ + name + ")"@
        }),
{
    reveal_strlit("Reachy Mini - ");
    reveal_strlit(" (");
    reveal_strlit("Idle");
    reveal_strlit("Starting");
    reveal_strlit("Running");
    reveal_strlit("Crashed");
    reveal_strlit("Reachy Mini - Idle (");
    reveal_strlit("Reachy Mini - Starting (");
    reveal_strlit("Reachy Mini - Running (");
    reveal_strlit("Reachy Mini - Crashed (");
    assert("Reachy Mini - "@ + "Idle"@ + " ("@ =~= "Reachy Mini - Idle ("@);
    assert("Reachy Mini - "@ + "Starting"@ + " ("@ =~= "Reachy Mini - Starting ("@);
    assert("Reachy Mini - "@ + "Running"@ + " ("@ =~= "Reachy Mini - Running ("@);
    assert("Reachy Mini - "@ + "Crashed"@ + " ("@ =~= "Reachy Mini - Crashed ("@);
}

/// A face that shows a state shows all of it: the icon, recolourable only when idle, the tooltip,
/// and every entry of the menu.
pub proof fn law_face_shows_all(
    face: TrayFace,
    daemon: DaemonState,
    mode: Mode,
    snap: SnapshotView,
)
    requires
        shows(face, daemon, mode, snap),
    ensures
        face.icon == icon_of(daemon, mode),
        face.template <==> daemon is Idle,
        face.tooltip@ == tooltip_of(daemon, mode),
        face.menu@.len() == menu_of(daemon, mode, snap).len(),
        forall|i: int|
            0 <= i < face.menu@.len() ==> #[trigger] face.menu@[i]@ == menu_of(
                daemon,
                mode,
                snap,
            )[i],
{
    let seen = entries_view(face.menu@);
    assert forall|i: int| 0 <= i < face.menu@.len() implies #[trigger] face.menu@[i]@ == menu_of(
        daemon,
        mode,
        snap,
    )[i] by {
        assert(seen[i] == face.menu@[i]@);
    }
}

/// The contracts see a row and a submenu as they are, field by field.
pub proof fn law_rows_are_seen_whole(row: MenuRow, sub: Submenu)
    ensures
        row@.id == row.id@ && row@.text == row.text@,
        row@.enabled == row.enabled && row@.checked == row.checked,
        sub@.id == sub.id@ && sub@.text == sub.text@ && sub@.enabled == sub.enabled,
        sub@.rows.len() == sub.rows@.len(),
        forall|i: int| 0 <= i < sub.rows@.len() ==> #[trigger] sub@.rows[i] == sub.rows@[i]@,
        MenuEntry::Row(row)@ == EntryView::Row(row@),
        MenuEntry::Sub(sub)@ == EntryView::Sub(sub@),
        MenuEntry::Separator@ is Separator,
        AccountSlot::Flat(row)@ == SlotView::Flat(row@),
        AccountSlot::Sub(sub)@ == SlotView::Sub(sub@),
        AccountSlot::Hidden@ is Hidden,
{
}

} // verus!
