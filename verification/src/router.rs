//! What the launcher does about the events of its user interface.

use vstd::prelude::*;

use crate::daemon;
use crate::daemon::KillStep;
use crate::hf_auth::SnapshotView;
use crate::state;
use crate::state::AppState;
use crate::state::AppView;
use crate::state::DaemonState;
use crate::state::Mode;
use crate::state::Platform;
use crate::text;
use crate::tray_menu;
use crate::tray_menu::EntryView;
use crate::tray_menu::RowView;

verus! {

/// One thing to do; a list of them is carried out in order.
#[derive(Copy, Clone, Debug, PartialEq, Eq, Structural)]
pub enum Effect {
    /// Move the generation on, so that the current daemon's callbacks go stale.
    NextGeneration,
    /// End the daemon's process.
    KillDaemon,
    /// Count the daemon as idle.
    MarkIdle,
    /// Render the tray anew.
    Refresh,
    /// Start the daemon, unless it is coming up or is up.
    StartDaemon,
    /// Remove the virtual environments.
    WipeSetup,
    ShowFirstRun,
    ShowLogs,
    SignIn,
    SignOut,
    RefreshRelay,
    /// Leave the program.
    Exit,
}

/// The state after the part of an effect that concerns it. The start of the daemon decides for
/// itself.
pub open spec fn state_after(app: AppView, effect: Effect) -> AppView {
    match effect {
        Effect::NextGeneration => AppView {
            generation: state::generation_after(app.generation),
            ..app
        },
        Effect::KillDaemon => daemon::killed(app),
        Effect::MarkIdle => AppView { state: DaemonState::Idle, ..app },
        _ => app,
    }
}

/// The state after a list of effects.
pub open spec fn state_after_all(app: AppView, effects: Seq<Effect>) -> AppView
    decreases effects.len(),
{
    if effects.len() == 0 {
        app
    } else {
        state_after(state_after_all(app, effects.drop_last()), effects.last())
    }
}

/// Carries out the part of an effect that concerns the state, and returns the steps that end the
/// daemon's process where it must end.
pub fn apply_effect(app: &mut AppState, effect: Effect, platform: Platform) -> (r: Vec<KillStep>)
    ensures
        final(app)@ == state_after(old(app)@, effect),
        r@ == (if effect == Effect::KillDaemon {
            daemon::kill_plan(old(app)@.daemon, platform)
        } else {
            Seq::empty()
        }),
{
    match effect {
        Effect::NextGeneration => {
            let _ = state::next_generation(app);
            Vec::new()
        },
        Effect::KillDaemon => daemon::kill_daemon(app, platform),
        Effect::MarkIdle => {
            state::set_daemon_state(app, DaemonState::Idle);
            Vec::new()
        },
        _ => Vec::new(),
    }
}

/// What a stop of the daemon does.
pub open spec fn stop_effects() -> Seq<Effect> {
    seq![Effect::NextGeneration, Effect::KillDaemon, Effect::MarkIdle, Effect::Refresh]
}

/// Stops the daemon.
pub fn stop_daemon() -> (r: Vec<Effect>)
    ensures
        r@ == stop_effects(),
{
    let mut r: Vec<Effect> = Vec::new();
    r.push(Effect::NextGeneration);
    r.push(Effect::KillDaemon);
    r.push(Effect::MarkIdle);
    r.push(Effect::Refresh);
    assert(r@ =~= stop_effects());
    r
}

/// What a reset of the setup does. The daemon is stopped first, since it depends on what is
/// removed, and the bootstrap is started at once, as on the first launch.
pub open spec fn reset_effects() -> Seq<Effect> {
    seq![
        Effect::KillDaemon,
        Effect::MarkIdle,
        Effect::Refresh,
        Effect::WipeSetup,
        Effect::ShowFirstRun,
        Effect::StartDaemon,
    ]
}

/// Resets the setup.
fn reset_setup() -> (r: Vec<Effect>)
    ensures
        r@ == reset_effects(),
{
    let mut r: Vec<Effect> = Vec::new();
    r.push(Effect::KillDaemon);
    r.push(Effect::MarkIdle);
    r.push(Effect::Refresh);
    r.push(Effect::WipeSetup);
    r.push(Effect::ShowFirstRun);
    r.push(Effect::StartDaemon);
    assert(r@ =~= reset_effects());
    r
}

/// The mode that a row of the mode submenu stands for.
pub open spec fn mode_of(id: Seq<char>) -> Option<Mode> {
    if id == "mode_usb"@ {
        Some(Mode::Usb)
    } else if id == "mode_sim"@ {
        Some(Mode::Simulation)
    } else {
        None
    }
}

/// The state right after a click on the menu, before its effects: a mode is only changed while no
/// daemon is coming up or is up, and the wish to quit is remembered.
pub open spec fn menu_state(app: AppView, id: Seq<char>) -> AppView {
    if id == "quit"@ {
        AppView { quit_requested: true, ..app }
    } else {
        match mode_of(id) {
            Some(mode) => if app.state.busy() {
                app
            } else {
                AppView { mode, ..app }
            },
            None => app,
        }
    }
}

/// The effects of a click on the menu.
pub open spec fn menu_effects(app: AppView, id: Seq<char>) -> Seq<Effect> {
    if id == "toggle"@ {
        match app.state {
            DaemonState::Idle | DaemonState::Crashed => seq![Effect::StartDaemon],
            DaemonState::Running => stop_effects(),
            DaemonState::Starting => Seq::empty(),
        }
    } else if mode_of(id) is Some {
        if app.state.busy() {
            Seq::empty()
        } else {
            seq![Effect::Refresh]
        }
    } else if id == "account_signin"@ {
        seq![Effect::SignIn]
    } else if id == "account_signout"@ {
        seq![Effect::SignOut]
    } else if id == "account_refresh_relay"@ {
        seq![Effect::RefreshRelay]
    } else if id == "show_logs"@ {
        seq![Effect::ShowLogs]
    } else if id == "reset_setup"@ {
        reset_effects()
    } else if id == "quit"@ {
        seq![Effect::KillDaemon, Effect::Exit]
    } else {
        Seq::empty()
    }
}

/// The rows of the menu have different names.
proof fn lemma_rows_differ()
    ensures
        "toggle"@.len() == 6,
        "mode_usb"@.len() == 8,
        "mode_sim"@.len() == 8,
        "mode_usb"@ != "mode_sim"@,
        "account_signin"@.len() == 14,
        "account_signout"@.len() == 15,
        "account_refresh_relay"@.len() == 21,
        "show_logs"@.len() == 9,
        "reset_setup"@.len() == 11,
        "quit"@.len() == 4,
{
    reveal_strlit("toggle");
    reveal_strlit("mode_usb");
    reveal_strlit("mode_sim");
    reveal_strlit("account_signin");
    reveal_strlit("account_signout");
    reveal_strlit("account_refresh_relay");
    reveal_strlit("show_logs");
    reveal_strlit("reset_setup");
    reveal_strlit("quit");
    assert("mode_usb"@[5] != "mode_sim"@[5]);
}

/// A list of one effect.
fn only(effect: Effect) -> (r: Vec<Effect>)
    ensures
        r@ == seq![effect],
{
    let mut r: Vec<Effect> = Vec::new();
    r.push(effect);
    assert(r@ =~= seq![effect]);
    r
}

/// Changes the mode, unless a daemon is coming up or is up.
fn change_mode(app: &mut AppState, mode: Mode) -> (r: Vec<Effect>)
    ensures
        final(app)@ == (if old(app)@.state.busy() {
            old(app)@
        } else {
            AppView { mode, ..old(app)@ }
        }),
        r@ == (if old(app)@.state.busy() {
            Seq::empty()
        } else {
            seq![Effect::Refresh]
        }),
{
    if state::current_daemon_state(app).is_busy() {
        return Vec::new();
    }
    app.mode = mode;
    only(Effect::Refresh)
}

/// Reacts to a click on the menu row `id`; an unknown row does nothing, nor does the account
/// submenu itself.
pub fn on_menu_event(app: &mut AppState, id: &str) -> (r: Vec<Effect>)
    ensures
        final(app)@ == menu_state(old(app)@, id@),
        r@ == menu_effects(old(app)@, id@),
{
    proof {
        lemma_rows_differ();
    }
    if text::same(id, tray_menu::ID_TOGGLE) {
        match state::current_daemon_state(app) {
            DaemonState::Idle | DaemonState::Crashed => only(Effect::StartDaemon),
            DaemonState::Running => stop_daemon(),
            DaemonState::Starting => Vec::new(),
        }
    } else if text::same(id, tray_menu::ID_MODE_USB) {
        change_mode(app, Mode::Usb)
    } else if text::same(id, tray_menu::ID_MODE_SIM) {
        change_mode(app, Mode::Simulation)
    } else if text::same(id, tray_menu::ID_ACCOUNT_SIGNIN) {
        only(Effect::SignIn)
    } else if text::same(id, tray_menu::ID_ACCOUNT_SIGNOUT) {
        only(Effect::SignOut)
    } else if text::same(id, tray_menu::ID_ACCOUNT_REFRESH_RELAY) {
        only(Effect::RefreshRelay)
    } else if text::same(id, tray_menu::ID_SHOW_LOGS) {
        only(Effect::ShowLogs)
    } else if text::same(id, tray_menu::ID_RESET_SETUP) {
        reset_setup()
    } else if text::same(id, tray_menu::ID_QUIT) {
        app.quit_requested = true;
        let mut r: Vec<Effect> = only(Effect::KillDaemon);
        r.push(Effect::Exit);
        assert(r@ =~= seq![Effect::KillDaemon, Effect::Exit]);
        r
    } else {
        Vec::new()
    }
}

/// What becomes of a request to leave the program.
#[derive(Copy, Clone, Debug, PartialEq, Eq, Structural)]
pub enum ExitDecision {
    /// Leave, after the daemon's process was ended.
    Confirm,
    /// Stay in the tray.
    Prevent,
}

/// A request to leave is granted where the user chose to quit or the program set an exit code.
pub open spec fn exit_decision(app: AppView, code: Option<i32>) -> ExitDecision {
    if app.quit_requested || code is Some {
        ExitDecision::Confirm
    } else {
        ExitDecision::Prevent
    }
}

/// Decides on a request to leave the program. Any other than the user's own, such as the close of
/// the last window, is cancelled to keep the tray alive.
pub fn on_exit_requested(app: &AppState, code: Option<i32>) -> (r: ExitDecision)
    ensures
        r == exit_decision(app@, code),
{
    if app.quit_requested || code.is_some() {
        ExitDecision::Confirm
    } else {
        ExitDecision::Prevent
    }
}

/// What a decision on a request to leave does: the daemon's process is ended before the program
/// leaves, whoever asked for it.
pub open spec fn exit_steps(decision: ExitDecision) -> Seq<Effect> {
    if decision == ExitDecision::Confirm {
        seq![Effect::KillDaemon]
    } else {
        Seq::empty()
    }
}

/// Tells what a decision on a request to leave does.
pub fn exit_effects(decision: ExitDecision) -> (r: Vec<Effect>)
    ensures
        r@ == exit_steps(decision),
{
    match decision {
        ExitDecision::Confirm => only(Effect::KillDaemon),
        ExitDecision::Prevent => Vec::new(),
    }
}

/// What the start of the program does: the first one opens the setup window and starts the
/// daemon, which bootstraps itself; any later one waits in the tray.
pub open spec fn setup_effects(bootstrap_done: bool) -> Seq<Effect> {
    if bootstrap_done {
        Seq::empty()
    } else {
        seq![Effect::ShowFirstRun, Effect::StartDaemon]
    }
}

/// Decides what the start of the program does.
pub fn on_setup(bootstrap_done: bool) -> (r: Vec<Effect>)
    ensures
        r@ == setup_effects(bootstrap_done),
{
    if bootstrap_done {
        Vec::new()
    } else {
        let mut r: Vec<Effect> = only(Effect::ShowFirstRun);
        r.push(Effect::StartDaemon);
        assert(r@ =~= setup_effects(bootstrap_done));
        r
    }
}

/// Decides what a second launch of the program does: it shows the first one's log viewer.
pub fn on_second_launch() -> (r: Vec<Effect>)
    ensures
        r@ == seq![Effect::ShowLogs],
{
    only(Effect::ShowLogs)
}

/// A stop leaves no process and an idle daemon, moves the generation on, and renders the tray
/// last, when all of that is in place.
pub proof fn law_stop(app: AppView)
    ensures
        state_after_all(app, stop_effects()) == daemon::stopped(app),
        stop_effects().last() == Effect::Refresh,
{
    reveal_with_fuel(state_after_all, 5);
    let all = stop_effects();
    assert(all.drop_last() =~= seq![
        Effect::NextGeneration,
        Effect::KillDaemon,
        Effect::MarkIdle,
    ]);
    assert(all.drop_last().drop_last() =~= seq![Effect::NextGeneration, Effect::KillDaemon]);
    assert(all.drop_last().drop_last().drop_last() =~= seq![Effect::NextGeneration]);
    assert(all.drop_last().drop_last().drop_last().drop_last() =~= Seq::<Effect>::empty());
}

/// A reset stops the daemon before anything is removed, and the start at its end is never ignored.
pub proof fn law_reset(app: AppView)
    ensures
        ({
            let before_wipe = state_after_all(app, reset_effects().take(3));
            &&& reset_effects()[3] == Effect::WipeSetup
            &&& before_wipe.daemon is None
            &&& before_wipe.state == DaemonState::Idle
            &&& reset_effects().last() == Effect::StartDaemon
            &&& !state_after_all(app, reset_effects().drop_last()).state.busy()
        }),
{
    reveal_with_fuel(state_after_all, 6);
    let all = reset_effects();
    assert(all.take(3).drop_last() =~= seq![Effect::KillDaemon, Effect::MarkIdle]);
    assert(all.take(3).drop_last().drop_last() =~= seq![Effect::KillDaemon]);
    assert(all.take(3).drop_last().drop_last().drop_last() =~= Seq::<Effect>::empty());
    assert(all.drop_last().drop_last() =~= all.take(4));
    assert(all.take(4).drop_last() =~= all.take(3));
}

/// The toggle does what its label says: it starts an idle or crashed daemon, stops a running one,
/// and is disabled exactly when a click would do nothing.
pub proof fn law_toggle(app: AppView)
    ensures
        app.state == DaemonState::Idle || app.state == DaemonState::Crashed ==> menu_effects(
            app,
            "toggle"@,
        ) == seq![Effect::StartDaemon],
        app.state == DaemonState::Running ==> menu_effects(app, "toggle"@) == stop_effects(),
        tray_menu::toggle_row(app.state).enabled <==> menu_effects(app, "toggle"@).len() > 0,
{
}

/// A mode change is accepted exactly when the mode submenu is enabled; it then holds, and it
/// touches nothing else.
pub proof fn law_mode_change(app: AppView, id: Seq<char>)
    requires
        mode_of(id) is Some,
    ensures
        ({
            let open = tray_menu::mode_submenu(app.state, app.mode).enabled;
            &&& open ==> menu_state(app, id) == (AppView { mode: mode_of(id)->0, ..app })
            &&& open ==> menu_effects(app, id) == seq![Effect::Refresh]
            &&& !open ==> menu_state(app, id) == app
            &&& !open ==> menu_effects(app, id).len() == 0
        }),
{
    lemma_rows_differ();
}

/// A click on the row, in an enabled menu, does something.
pub open spec fn answers(app: AppView, row: RowView) -> bool {
    row.enabled ==> menu_effects(app, row.id).len() > 0
}

/// The rows of a menu entry answer, where the user can reach them.
pub open spec fn entry_answers(app: AppView, entry: EntryView) -> bool {
    match entry {
        EntryView::Separator => true,
        EntryView::Row(row) => answers(app, row),
        EntryView::Sub(sub) => sub.enabled ==> forall|i: int|
            0 <= i < sub.rows.len() ==> answers(app, #[trigger] sub.rows[i]),
    }
}

/// Whatever the state, no row that the user can click is without effect.
pub proof fn law_every_enabled_row_answers(app: AppView, snap: SnapshotView)
    ensures
        forall|i: int|
            0 <= i < tray_menu::menu_of(app.state, app.mode, snap).len() ==> entry_answers(
                app,
                #[trigger] tray_menu::menu_of(app.state, app.mode, snap)[i],
            ),
{
    lemma_rows_differ();
    let menu = tray_menu::menu_of(app.state, app.mode, snap);
    let slot = tray_menu::slot_entries(tray_menu::slot_of(app.state, snap));
    assert(entry_answers(app, menu[0]));
    assert(entry_answers(app, menu[1]));
    assert(entry_answers(app, menu[2]));
    assert forall|i: int| 0 <= i < slot.len() implies entry_answers(app, #[trigger] slot[i]) by {}
    assert forall|i: int| 0 <= i < menu.len() implies entry_answers(app, #[trigger] menu[i]) by {
        if i >= 3 && i < 3 + slot.len() {
            assert(menu[i] == slot[i - 3]);
        }
    }
}

/// The tray stays alive until the user quits: without that, a request to leave that carries no
/// exit code is cancelled, and after it every one is granted.
pub proof fn law_only_quit_leaves(app: AppView, code: Option<i32>)
    ensures
        exit_decision(menu_state(app, "quit"@), code) == ExitDecision::Confirm,
        !app.quit_requested ==> exit_decision(app, None) == ExitDecision::Prevent,
{
}

/// Whenever the program leaves, the daemon's process has been ended; a cancelled request to leave
/// changes nothing.
pub proof fn law_exit_holds_no_process(app: AppView, code: Option<i32>)
    ensures
        ({
            let decision = exit_decision(app, code);
            let after = state_after_all(app, exit_steps(decision));
            &&& decision == ExitDecision::Confirm ==> after == daemon::killed(app)
                && after.daemon is None
            &&& decision == ExitDecision::Prevent ==> after == app
        }),
{
    reveal_with_fuel(state_after_all, 2);
    assert(seq![Effect::KillDaemon].drop_last() =~= Seq::<Effect>::empty());
}

/// No click other than Quit asks to leave, and none but a mode change touches the mode.
pub proof fn law_clicks_keep_the_rest(app: AppView, id: Seq<char>)
    ensures
        id != "quit"@ ==> menu_state(app, id).quit_requested == app.quit_requested,
        mode_of(id) is None ==> menu_state(app, id).mode == app.mode,
        menu_state(app, id).state == app.state,
        menu_state(app, id).daemon == app.daemon,
        menu_state(app, id).generation == app.generation,
        menu_state(app, id).serialport == app.serialport,
        id != "quit"@ ==> !menu_effects(app, id).contains(Effect::Exit),
{
    lemma_rows_differ();
}

/// A launcher whose daemon is idle holds no process.
pub open spec fn settled(app: AppView) -> bool {
    app.state == DaemonState::Idle ==> app.daemon is None
}

/// No step of the lifecycle leaves a process behind an idle daemon: neither a launch, however it
/// ends, nor the end of a daemon, nor a readiness probe or its timeout, nor a stop, a reset or any
/// other click.
pub proof fn law_idle_holds_no_process(
    app: AppView,
    spawned: Option<u32>,
    generation: u64,
    code: Option<u16>,
    elapsed: u128,
    id: Seq<char>,
)
    requires
        settled(app),
    ensures
        settled(state::initial_state()),
        settled(daemon::launching(app)),
        settled(daemon::launched(daemon::launching(app), spawned)),
        settled(daemon::after_exit(app, generation)),
        settled(daemon::after_probe(app, generation, code, elapsed)),
        settled(AppView { state: DaemonState::Crashed, ..app }),
        settled(daemon::killed(app)),
        settled(state_after_all(app, stop_effects())),
        settled(state_after_all(app, reset_effects())),
        settled(menu_state(app, id)),
{
    law_stop(app);
    let all = reset_effects();
    reveal_with_fuel(state_after_all, 7);
    assert(all.take(1).drop_last() =~= Seq::<Effect>::empty());
    assert(all.take(2).drop_last() =~= all.take(1));
    assert(all.take(3).drop_last() =~= all.take(2));
    assert(all.take(4).drop_last() =~= all.take(3));
    assert(all.take(5).drop_last() =~= all.take(4));
    assert(all.drop_last() =~= all.take(5));
}

/// Quit ends the daemon's process before it leaves.
pub proof fn law_quit_ends_daemon(app: AppView)
    ensures
        menu_effects(app, "quit"@) == seq![Effect::KillDaemon, Effect::Exit],
        menu_state(app, "quit"@).quit_requested,
{
    lemma_rows_differ();
}

/// What each effect does to the state: three of them change one field each, the others none.
pub proof fn law_effects_on_state(app: AppView, effects: Seq<Effect>, effect: Effect)
    ensures
        ({
            let after = state_after(app, effect);
            &&& effect is NextGeneration ==> after == (AppView {
                generation: state::generation_after(app.generation),
                ..app
            })
            &&& effect is KillDaemon ==> after == (AppView { daemon: None, ..app })
            &&& effect is MarkIdle ==> after == (AppView { state: DaemonState::Idle, ..app })
            &&& !(effect is NextGeneration || effect is KillDaemon || effect is MarkIdle)
                ==> after == app
        }),
        state_after_all(app, Seq::empty()) == app,
        state_after_all(app, effects.push(effect)) == state_after(
            state_after_all(app, effects),
            effect,
        ),
{
    assert(effects.push(effect).drop_last() =~= effects);
}

/// A click on the toggle starts a daemon that is idle or has crashed, stops a running one (its
/// callbacks go stale before its process ends) and leaves a starting one alone.
pub proof fn law_toggle_click(app: AppView)
    ensures
        ({
            let effects = menu_effects(app, "toggle"@);
            &&& app.state is Idle || app.state is Crashed ==> effects == seq![Effect::StartDaemon]
            &&& app.state is Running ==> effects == seq![
                Effect::NextGeneration,
                Effect::KillDaemon,
                Effect::MarkIdle,
                Effect::Refresh,
            ]
            &&& app.state is Starting ==> effects.len() == 0
            &&& menu_state(app, "toggle"@) == app
        }),
{
    lemma_rows_differ();
}

/// A click on a mode takes that mode and renders the tray anew exactly while no daemon is starting
/// or running; otherwise it does nothing.
pub proof fn law_mode_click(app: AppView)
    ensures
        ({
            let free = app.state is Idle || app.state is Crashed;
            let usb = menu_state(app, "mode_usb"@);
            let sim = menu_state(app, "mode_sim"@);
            &&& free ==> usb == (AppView { mode: Mode::Usb, ..app })
            &&& free ==> sim == (AppView { mode: Mode::Simulation, ..app })
            &&& !free ==> usb == app && sim == app
            &&& free ==> menu_effects(app, "mode_usb"@) == seq![Effect::Refresh]
            &&& free ==> menu_effects(app, "mode_sim"@) == seq![Effect::Refresh]
            &&& !free ==> menu_effects(app, "mode_usb"@).len() == 0
            &&& !free ==> menu_effects(app, "mode_sim"@).len() == 0
        }),
{
    lemma_rows_differ();
}

/// A click on the reset wipes the setup in every state: the daemon's process is ended and counted
/// as idle before, the setup window is shown and the daemon started after.
pub proof fn law_reset_click(app: AppView)
    ensures
        ({
            let effects = menu_effects(app, "reset_setup"@);
            &&& effects.len() == 6
            &&& effects[0] == Effect::KillDaemon && effects[1] == Effect::MarkIdle
            &&& effects[2] == Effect::Refresh
            &&& effects[3] == Effect::WipeSetup
            &&& effects[4] == Effect::ShowFirstRun && effects[5] == Effect::StartDaemon
            &&& menu_state(app, "reset_setup"@) == app
        }),
{
    lemma_rows_differ();
}

/// The account's rows, the log row and the quit row each have their one effect in every state; quit
/// ends the daemon's process first and is remembered.
pub proof fn law_other_clicks(app: AppView)
    ensures
        menu_effects(app, "account_signin"@) == seq![Effect::SignIn],
        menu_effects(app, "account_signout"@) == seq![Effect::SignOut],
        menu_effects(app, "account_refresh_relay"@) == seq![Effect::RefreshRelay],
        menu_effects(app, "show_logs"@) == seq![Effect::ShowLogs],
        menu_effects(app, "quit"@) == seq![Effect::KillDaemon, Effect::Exit],
        menu_state(app, "account_signin"@) == app,
        menu_state(app, "account_signout"@) == app,
        menu_state(app, "account_refresh_relay"@) == app,
        menu_state(app, "show_logs"@) == app,
        menu_state(app, "quit"@) == (AppView { quit_requested: true, ..app }),
{
    lemma_rows_differ();
}

/// Any other row does nothing at all.
pub proof fn law_unknown_click(app: AppView, id: Seq<char>)
    requires
        id != "toggle"@ && id != "mode_usb"@ && id != "mode_sim"@,
        id != "account_signin"@ && id != "account_signout"@ && id != "account_refresh_relay"@,
        id != "show_logs"@ && id != "reset_setup"@ && id != "quit"@,
    ensures
        menu_effects(app, id).len() == 0,
        menu_state(app, id) == app,
{
}

/// A request to leave is granted exactly when the user chose to quit or the program set a code; a
/// granted one ends the daemon's process and nothing else, a cancelled one does nothing.
pub proof fn law_exit_request(app: AppView, code: Option<i32>)
    ensures
        exit_decision(app, code) is Confirm <==> app.quit_requested || code is Some,
        exit_steps(ExitDecision::Confirm) == seq![Effect::KillDaemon],
        exit_steps(ExitDecision::Prevent).len() == 0,
{
}

/// A first launch shows the setup window and then starts the daemon; a later one does neither.
pub proof fn law_setup()
    ensures
        setup_effects(true).len() == 0,
        setup_effects(false) == seq![Effect::ShowFirstRun, Effect::StartDaemon],
{
}

} // verus!
