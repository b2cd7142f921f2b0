//! The launcher's two windows, and what they ask for.

use vstd::prelude::*;

use crate::logs;
use crate::logs::LogEntry;
use crate::logs::LogEntryView;
use crate::logs::LogStore;

verus! {

pub const FIRST_RUN_WINDOW_LABEL: &'static str = "first-run";

pub const LOGS_WINDOW_LABEL: &'static str = "logs";

/// A window to be built: resizable, centred and visible. Sizes are in logical pixels.
pub struct WindowSpec {
    pub label: &'static str,
    /// The page of the bundled frontend.
    pub page: &'static str,
    pub title: &'static str,
    pub width: u32,
    pub height: u32,
    pub min_width: u32,
    pub min_height: u32,
}

/// The mathematical content of a [`WindowSpec`].
pub struct WindowView {
    pub label: Seq<char>,
    pub page: Seq<char>,
    pub title: Seq<char>,
    pub size: (u32, u32),
    pub min_size: (u32, u32),
}

impl View for WindowSpec {
    type V = WindowView;

    open spec fn view(&self) -> WindowView {
        WindowView {
            label: self.label@,
            page: self.page@,
            title: self.title@,
            size: (self.width, self.height),
            min_size: (self.min_width, self.min_height),
        }
    }
}

/// How a window is brought before the user.
pub enum WindowAction {
    /// It is there already: show and focus it.
    Focus,
    Build(WindowSpec),
}

/// The action focuses a window that is there, and builds the given one otherwise.
pub open spec fn brings(action: WindowAction, open: bool, window: WindowView) -> bool {
    match action {
        WindowAction::Focus => open,
        WindowAction::Build(w) => !open && w@ == window,
    }
}

/// Brings the first-run window before the user; it shows the progress of the setup.
pub fn show_first_run_window(open: bool) -> (r: WindowAction)
    ensures
        brings(
            r,
            open,
            (WindowView {
                label: "first-run"@,
                page: "index.html"@,
                title: "Reachy Mini - First-time setup"@,
                size: (520, 460),
                min_size: (440, 380),
            }),
        ),
{
    if open {
        return WindowAction::Focus;
    }
    WindowAction::Build(
        WindowSpec {
            label: FIRST_RUN_WINDOW_LABEL,
            page: "index.html",
            title: "Reachy Mini - First-time setup",
            width: 520,
            height: 460,
            min_width: 440,
            min_height: 380,
        },
    )
}

/// Brings the log viewer before the user.
pub fn show_logs_window(open: bool) -> (r: WindowAction)
    ensures
        brings(
            r,
            open,
            (WindowView {
                label: "logs"@,
                page: "logs.html"@,
                title: "Reachy Mini - Logs"@,
                size: (720, 480),
                min_size: (420, 240),
            }),
        ),
{
    if open {
        return WindowAction::Focus;
    }
    WindowAction::Build(
        WindowSpec {
            label: LOGS_WINDOW_LABEL,
            page: "logs.html",
            title: "Reachy Mini - Logs",
            width: 720,
            height: 480,
            min_width: 420,
            min_height: 240,
        },
    )
}

/// Hands the log viewer all entries, oldest first.
pub fn get_logs(store: &LogStore) -> (r: Vec<LogEntry>)
    ensures
        logs::entries_view(r@) == store@,
{
    store.snapshot()
}

/// Forgets all entries.
pub fn clear_logs(store: &mut LogStore)
    ensures
        final(store)@ == Seq::<LogEntryView>::empty(),
        final(store).wf(),
{
    store.clear();
}

/// A window is never built twice: one that is there is focused, and only one that is not is built,
/// as described.
pub proof fn law_window(action: WindowAction, open: bool, window: WindowView)
    requires
        brings(action, open, window),
    ensures
        open <==> action is Focus,
        !open ==> (action matches WindowAction::Build(w) && w.label@ == window.label && w.page@
            == window.page && w.title@ == window.title && (w.width, w.height) == window.size && (
        w.min_width, w.min_height) == window.min_size),
{
}

} // verus!
