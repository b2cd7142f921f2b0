//! The daemon's lifecycle: command line, launch, output, readiness and shutdown.

use vstd::prelude::*;

use crate::api;
use crate::logs;
use crate::logs::LogEntryView;
use crate::logs::LogStore;
use crate::logs::LoggedRecord;
use crate::state;
use crate::state::AppState;
use crate::state::AppView;
use crate::state::DaemonState;
use crate::state::Mode;
use crate::state::Platform;
use crate::text;

verus! {

/// `percent` value meaning "indeterminate progress, please show a pulse animation".
pub const PROGRESS_INDETERMINATE: u8 = 255;

/// Progress shown by the first-run window: every field is optional so that each daemon line can
/// carry partial information. With the raw line attached,
/// - a line that carries a milestone gives a percentage, a label and the line;
/// - a generic `[bootstrap]` line, like a hint of the daemon itself, gives a label and the line;
/// - any other line gives the line alone, so that the live console keeps streaming.
pub struct BootstrapProgress {
    pub percent: Option<u8>,
    pub label: Option<String>,
    pub line: Option<String>,
}

/// The mathematical content of a [`BootstrapProgress`].
pub struct ProgressView {
    pub percent: Option<u8>,
    pub label: Option<Seq<char>>,
    pub line: Option<Seq<char>>,
}

impl View for BootstrapProgress {
    type V = ProgressView;

    open spec fn view(&self) -> ProgressView {
        ProgressView {
            percent: self.percent,
            label: text::option_text(self.label),
            line: text::option_text(self.line),
        }
    }
}

/// Progress that says nothing.
pub open spec fn no_progress() -> ProgressView {
    ProgressView { percent: None, label: None, line: None }
}

impl Default for BootstrapProgress {
    fn default() -> (r: Self)
        ensures
            r@ == no_progress(),
    {
        BootstrapProgress { percent: None, label: None, line: None }
    }
}

/// What marks a line of daemon output.
pub enum Mark {
    /// The line holds this text.
    One(Seq<char>),
    /// The line holds both texts.
    Both(Seq<char>, Seq<char>),
    /// The line holds at least one of the texts.
    Either(Seq<char>, Seq<char>),
}

/// A mark and what it tells the user.
pub struct Milestone {
    pub mark: Mark,
    pub percent: Option<u8>,
    pub label: Option<Seq<char>>,
}

/// A mark that anchors the progress bar.
pub open spec fn anchor(mark: Seq<char>, percent: u8, label: Seq<char>) -> Milestone {
    Milestone { mark: Mark::One(mark), percent: Some(percent), label: Some(label) }
}

/// A mark that only renames the current step.
pub open spec fn hint(mark: Seq<char>, label: Seq<char>) -> Milestone {
    Milestone { mark: Mark::One(mark), percent: None, label: Some(label) }
}

/// The known marks, in lower case, the most specific first.
pub open spec fn milestones() -> Seq<Milestone> {
    seq![
        anchor("setup complete!"@, 98, "Setup complete - starting daemon\u{2026}"@),
        anchor("pre-warming complete"@, 95, "Pre-warm complete"@),
        anchor("reachy_mini imported"@, 94, "Reachy Mini SDK loaded"@),
        anchor("importing reachy_mini"@, 92, "Loading Reachy Mini SDK\u{2026}"@),
        anchor("gstreamer ready"@, 90, "GStreamer ready"@),
        Milestone {
            mark: Mark::Either("scanning plugin registry"@, "initializing gstreamer"@),
            percent: Some(PROGRESS_INDETERMINATE),
            label: Some("Scanning GStreamer plugins (first run, ~3 min)\u{2026}"@),
        },
        Milestone {
            mark: Mark::Both("[prewarm"@, "importing gi"@),
            percent: Some(82),
            label: Some("Pre-warming Python bindings\u{2026}"@),
        },
        Milestone {
            mark: Mark::One("pre-warming python imports (still working"@),
            percent: None,
            label: None,
        },
        anchor("pre-warming gstreamer"@, 80, "Pre-warming GStreamer\u{2026}"@),
        anchor("[bootstrap] pre-warming"@, 78, "Pre-warming runtime\u{2026}"@),
        anchor("[bootstrap] signing"@, 72, "Signing Python binaries\u{2026}"@),
        anchor("packages installed successfully"@, 65, "Packages installed"@),
        anchor("creating apps_venv"@, 55, "Creating apps environment\u{2026}"@),
        Milestone {
            mark: Mark::Either("installing reachy-mini"@, "installing reachy_mini"@),
            percent: Some(40),
            label: Some("Installing reachy-mini and dependencies\u{2026}"@),
        },
        anchor("creating .venv"@, 30, "Creating virtual environment\u{2026}"@),
        anchor("installing python"@, 20, "Installing Python 3.12\u{2026}"@),
        anchor("downloading uv"@, 12, "Downloading package manager (uv)\u{2026}"@),
        anchor("uv downloaded successfully"@, 15, "Package manager ready"@),
        anchor("first run detected"@, 8, "First run detected, preparing environment\u{2026}"@),
        hint("starting reachy mini daemon"@, "Starting daemon\u{2026}"@),
        hint("found reachy mini serial port"@, "Reachy Mini detected on USB"@),
        hint("creating robotbackend"@, "Initializing robot backend\u{2026}"@),
        Milestone {
            mark: Mark::Both("uvicorn"@, "started server process"@),
            percent: None,
            label: Some("HTTP server started"@),
        },
        hint("[bootstrap]"@, "Preparing environment\u{2026}"@),
    ]
}

/// The lower-case line carries the mark.
pub open spec fn marked(line: Seq<char>, mark: Mark) -> bool {
    match mark {
        Mark::One(a) => text::contains(line, a),
        Mark::Both(a, b) => text::contains(line, a) && text::contains(line, b),
        Mark::Either(a, b) => text::contains(line, a) || text::contains(line, b),
    }
}

/// `i` is the first of the known milestones that the lower-case line carries.
pub open spec fn first_marked(line: Seq<char>, i: int) -> bool {
    &&& 0 <= i < milestones().len()
    &&& marked(line, milestones()[i].mark)
    &&& forall|k: int| 0 <= k < i ==> !marked(line, (#[trigger] milestones()[k]).mark)
}

/// The progress a daemon line stands for: that of the first milestone it carries, whatever the
/// case of its letters, and none where it carries no milestone.
pub open spec fn progress_of(line: Seq<char>) -> ProgressView {
    let folded = text::lower(line);
    if exists|i: int| first_marked(folded, i) {
        let i = choose|i: int| first_marked(folded, i);
        ProgressView {
            percent: milestones()[i].percent,
            label: milestones()[i].label,
            line: None,
        }
    } else {
        no_progress()
    }
}

/// A mark as the scanner tests it.
enum Pattern {
    One(&'static str),
    Both(&'static str, &'static str),
    Either(&'static str, &'static str),
}

/// A milestone as the scanner tests it.
struct Step {
    pattern: Pattern,
    percent: Option<u8>,
    label: Option<&'static str>,
}

impl Step {
    spec fn milestone(self) -> Milestone {
        Milestone {
            mark: match self.pattern {
                Pattern::One(a) => Mark::One(a@),
                Pattern::Both(a, b) => Mark::Both(a@, b@),
                Pattern::Either(a, b) => Mark::Either(a@, b@),
            },
            percent: self.percent,
            label: match self.label {
                Some(label) => Some(label@),
                None => None,
            },
        }
    }
}

/// A step that anchors the progress bar.
fn anchored(mark: &'static str, percent: u8, label: &'static str) -> (r: Step)
    ensures
        r.milestone() == anchor(mark@, percent, label@),
{
    Step { pattern: Pattern::One(mark), percent: Some(percent), label: Some(label) }
}

/// A step that only renames the current one.
fn hinted(mark: &'static str, label: &'static str) -> (r: Step)
    ensures
        r.milestone() == hint(mark@, label@),
{
    Step { pattern: Pattern::One(mark), percent: None, label: Some(label) }
}

/// The milestone at position `i`.
fn step_at(i: usize) -> (r: Step)
    requires
        i < milestones().len(),
    ensures
        r.milestone() == milestones()[i as int],
{
    match i {
        0 => anchored("setup complete!", 98, "Setup complete - starting daemon\u{2026}"),
        1 => anchored("pre-warming complete", 95, "Pre-warm complete"),
        2 => anchored("reachy_mini imported", 94, "Reachy Mini SDK loaded"),
        3 => anchored("importing reachy_mini", 92, "Loading Reachy Mini SDK\u{2026}"),
        4 => anchored("gstreamer ready", 90, "GStreamer ready"),
        5 => Step {
            pattern: Pattern::Either("scanning plugin registry", "initializing gstreamer"),
            percent: Some(PROGRESS_INDETERMINATE),
            label: Some("Scanning GStreamer plugins (first run, ~3 min)\u{2026}"),
        },
        6 => Step {
            pattern: Pattern::Both("[prewarm", "importing gi"),
            percent: Some(82),
            label: Some("Pre-warming Python bindings\u{2026}"),
        },
        // The heartbeat of a long pre-warm: neither the bar nor the label moves.
        7 => Step {
            pattern: Pattern::One("pre-warming python imports (still working"),
            percent: None,
            label: None,
        },
        8 => anchored("pre-warming gstreamer", 80, "Pre-warming GStreamer\u{2026}"),
        9 => anchored("[bootstrap] pre-warming", 78, "Pre-warming runtime\u{2026}"),
        10 => anchored("[bootstrap] signing", 72, "Signing Python binaries\u{2026}"),
        11 => anchored("packages installed successfully", 65, "Packages installed"),
        12 => anchored("creating apps_venv", 55, "Creating apps environment\u{2026}"),
        13 => Step {
            pattern: Pattern::Either("installing reachy-mini", "installing reachy_mini"),
            percent: Some(40),
            label: Some("Installing reachy-mini and dependencies\u{2026}"),
        },
        14 => anchored("creating .venv", 30, "Creating virtual environment\u{2026}"),
        15 => anchored("installing python", 20, "Installing Python 3.12\u{2026}"),
        16 => anchored("downloading uv", 12, "Downloading package manager (uv)\u{2026}"),
        17 => anchored("uv downloaded successfully", 15, "Package manager ready"),
        18 => anchored(
            "first run detected",
            8,
            "First run detected, preparing environment\u{2026}",
        ),
        19 => hinted("starting reachy mini daemon", "Starting daemon\u{2026}"),
        20 => hinted("found reachy mini serial port", "Reachy Mini detected on USB"),
        21 => hinted("creating robotbackend", "Initializing robot backend\u{2026}"),
        22 => Step {
            pattern: Pattern::Both("uvicorn", "started server process"),
            percent: None,
            label: Some("HTTP server started"),
        },
        _ => hinted("[bootstrap]", "Preparing environment\u{2026}"),
    }
}

/// Tells whether the lower-case line carries the step's mark.
fn carries(line: &Vec<char>, step: &Step) -> (r: bool)
    ensures
        r == marked(line@, step.milestone().mark),
{
    match step.pattern {
        Pattern::One(a) => text::has(line, a),
        Pattern::Both(a, b) => text::has(line, a) && text::has(line, b),
        Pattern::Either(a, b) => text::has(line, a) || text::has(line, b),
    }
}

/// Maps a line of daemon output to a progress percentage and a humanized step label.
///
/// The percentages are anchors, not a linear progress bar. Lines with no recognized mark give
/// neither percent nor label. Order matters: the most specific marks are checked first, and the
/// bare tag of the bootstrap last.
pub fn derive_bootstrap_event(line: &str) -> (r: BootstrapProgress)
    ensures
        r@ == progress_of(line@),
{
    let folded: Vec<char> = text::lower_chars(line);
    let mut i: usize = 0;
    while i < 24
        invariant
            folded@ == text::lower(line@),
            i <= 24,
            milestones().len() == 24,
            forall|k: int| 0 <= k < i ==> !marked(folded@, (#[trigger] milestones()[k]).mark),
        decreases 24 - i,
    {
        let step: Step = step_at(i);
        if carries(&folded, &step) {
            proof {
                assert(first_marked(folded@, i as int));
                let j = choose|j: int| first_marked(folded@, j);
                assert(j == i);
            }
            return BootstrapProgress {
                percent: step.percent,
                label: match step.label {
                    Some(label) => Some(label.to_string()),
                    None => None,
                },
                line: None,
            };
        }
        i = i + 1;
    }
    BootstrapProgress::default()
}

/// A line whose first milestone is the one at position `i` stands for that milestone's progress.
pub proof fn law_progress_of_first_milestone(line: Seq<char>, i: int)
    requires
        first_marked(text::lower(line), i),
    ensures
        progress_of(line) == (ProgressView {
            percent: milestones()[i].percent,
            label: milestones()[i].label,
            line: None,
        }),
{
    let folded = text::lower(line);
    let j = choose|j: int| first_marked(folded, j);
    assert(j == i);
}

/// Progress never depends on the case of a line's letters.
pub proof fn law_progress_ignores_case(a: Seq<char>, b: Seq<char>)
    requires
        text::lower(a) == text::lower(b),
    ensures
        progress_of(a) == progress_of(b),
{
}

/// A percentage is an anchor from 8 to 98 or the indeterminate one, it never comes without a
/// label, and the raw line is left for the caller to attach.
pub proof fn law_progress_range(line: Seq<char>)
    ensures
        progress_of(line).percent matches Some(p) ==> 8 <= p <= 98 || p
            == PROGRESS_INDETERMINATE,
        progress_of(line).percent is Some ==> progress_of(line).label is Some,
        progress_of(line).line is None,
{
}

/// A line that carries the milestone at position `n` has a first milestone, no later than that.
proof fn lemma_has_first(line: Seq<char>, n: int) -> (i: int)
    requires
        0 <= n < milestones().len(),
        marked(line, milestones()[n].mark),
    ensures
        first_marked(line, i),
        i <= n,
    decreases n,
{
    if exists|k: int| 0 <= k < n && marked(line, (#[trigger] milestones()[k]).mark) {
        let k = choose|k: int| 0 <= k < n && marked(line, (#[trigger] milestones()[k]).mark);
        lemma_has_first(line, k)
    } else {
        n
    }
}

/// A line that carries the tag of the bootstrap, and is not the heartbeat of a long pre-warm, has a
/// label; one that carries no milestone besides has no percentage.
pub proof fn law_bootstrap_line_is_labelled(line: Seq<char>)
    requires
        text::contains(text::lower(line), "[bootstrap]"@),
        !text::contains(text::lower(line), "pre-warming python imports (still working"@),
    ensures
        progress_of(line).label is Some,
        (forall|k: int|
            0 <= k < milestones().len() - 1 ==> !marked(
                text::lower(line),
                (#[trigger] milestones()[k]).mark,
            )) ==> progress_of(line).percent is None,
{
    let folded = text::lower(line);
    assert(marked(folded, milestones()[23].mark));
    let i = lemma_has_first(folded, 23);
    law_progress_of_first_milestone(line, i);
}

/// The end of the setup beats every other mark on its line.
pub proof fn law_setup_complete_wins(line: Seq<char>)
    requires
        text::contains(text::lower(line), "setup complete!"@),
    ensures
        progress_of(line).percent == Some(98u8),
{
    assert(first_marked(text::lower(line), 0));
    law_progress_of_first_milestone(line, 0);
}

/// The interpreter inside the virtual environment, relative to the data directory.
pub open spec fn interpreter(platform: Platform) -> Seq<char> {
    if platform == Platform::Windows {
        ".venv\\Scripts\\python.exe"@
    } else {
        ".venv/bin/python3"@
    }
}

/// The arguments that follow from the connection mode.
pub open spec fn mode_args(mode: Mode, serialport: Option<Seq<char>>) -> Seq<Seq<char>> {
    match mode {
        Mode::Simulation => seq!["--mockup-sim"@],
        Mode::Usb => match serialport {
            Some(path) => if path.len() > 0 {
                seq!["--serialport"@, path]
            } else {
                Seq::empty()
            },
            None => Seq::empty(),
        },
    }
}

/// The whole command line of the daemon.
pub open spec fn daemon_args(
    mode: Mode,
    serialport: Option<Seq<char>>,
    platform: Platform,
) -> Seq<Seq<char>> {
    seq![
        interpreter(platform),
        "-m"@,
        "reachy_mini.daemon.app.main"@,
        "--desktop-app-daemon"@,
        "--no-wake-up-on-start"@,
    ] + mode_args(mode, serialport)
}

/// Builds the arguments passed to `uv-trampoline`, which takes the first one as the Python
/// interpreter path and runs it with the rest.
///
/// `serialport` only matters in `Mode::Usb`, where an empty path counts as none: the daemon then
/// picks a port by itself.
pub fn build_daemon_args(mode: Mode, serialport: Option<&str>, platform: Platform) -> (r: Vec<
    String,
>)
    ensures
        text::texts(r@) == daemon_args(mode, text::option_str(serialport), platform),
{
    let mut args: Vec<String> = Vec::new();
    match platform {
        Platform::Windows => args.push(".venv\\Scripts\\python.exe".to_string()),
        _ => args.push(".venv/bin/python3".to_string()),
    }
    args.push("-m".to_string());
    args.push("reachy_mini.daemon.app.main".to_string());
    args.push("--desktop-app-daemon".to_string());
    args.push("--no-wake-up-on-start".to_string());
    match mode {
        Mode::Simulation => args.push("--mockup-sim".to_string()),
        Mode::Usb => {
            if let Some(path) = serialport {
                if !path.is_empty() {
                    args.push("--serialport".to_string());
                    args.push(path.to_string());
                }
            }
        },
    }
    assert(text::texts(args@) =~= daemon_args(mode, text::option_str(serialport), platform));
    args
}

/// Daemon readiness route.
pub const HEALTHCHECK_PATH: &'static str = "/daemon/status";

/// Pause, in milliseconds, between two readiness probes.
pub const HEALTHCHECK_INTERVAL_MS: u64 = 500;

/// How long, in nanoseconds, the daemon may take to become ready. Covers a fresh bootstrap on a
/// slow machine.
pub const HEALTHCHECK_MAX_NS: u128 = 300_000_000_000;

/// How long, in milliseconds, one readiness probe may take.
pub const HEALTHCHECK_HTTP_TIMEOUT_MS: u64 = 2_000;

/// How long, in nanoseconds, after a launch a success is not believed: the new daemon cannot be
/// up yet, so the answer comes from a leftover one that is still bound to the port.
pub const HEALTHCHECK_GRACE_NS: u128 = 1_500_000_000;

/// Event that carries a [`BootstrapProgress`] to the first-run window.
pub const EVENT_SETUP_PROGRESS: &'static str = "setup:progress";

/// Event that tells the first-run window that the daemon is up.
pub const EVENT_SETUP_DONE: &'static str = "setup:done";

/// Grace, in milliseconds, between the polite and the hard end of the daemon.
pub const KILL_GRACE_MS: u64 = 250;

/// Pause, in milliseconds, in which the system releases the port of a killed process.
pub const REAP_SETTLE_MS: u64 = 200;

/// What a line of daemon output leads to.
pub struct LineReport {
    /// The entry for the log viewer and the terminal.
    pub record: LoggedRecord,
    /// The progress for the first-run window, if it is open.
    pub progress: Option<BootstrapProgress>,
}

/// The log entry that a line of daemon output becomes; a blank line becomes none.
pub open spec fn line_entry(raw: Seq<char>, default_level: Seq<char>, ts_ms: u64) -> Option<
    LogEntryView,
> {
    let line = text::trim_end(raw);
    if line.len() == 0 {
        None
    } else {
        Some(logs::external_entry("daemon"@, logs::line_level(line, default_level), line, ts_ms))
    }
}

/// The progress that a line of daemon output means for the first-run window: while it is open,
/// every line reaches it, whether or not the line carries a milestone.
pub open spec fn line_progress(raw: Seq<char>, first_run_open: bool) -> Option<ProgressView> {
    let line = text::trim_end(raw);
    if first_run_open {
        Some(ProgressView { line: Some(line), ..progress_of(line) })
    } else {
        None
    }
}

/// The mathematical content of an optional progress.
pub open spec fn progress_view(progress: Option<BootstrapProgress>) -> Option<ProgressView> {
    match progress {
        Some(p) => Some(p@),
        None => None,
    }
}

/// The report says what the line `raw` leads to.
pub open spec fn reports(
    report: LineReport,
    raw: Seq<char>,
    default_level: Seq<char>,
    ts_ms: u64,
    first_run_open: bool,
) -> bool {
    &&& line_entry(raw, default_level, ts_ms) == Some(report.record.entry@)
    &&& report.record.console@ == logs::console_text(report.record.entry@)
    &&& report.record.in_window
    &&& progress_view(report.progress) == line_progress(raw, first_run_open)
}

/// The log after the line `raw`.
pub open spec fn log_after_line(
    store: Seq<LogEntryView>,
    raw: Seq<char>,
    default_level: Seq<char>,
    ts_ms: u64,
) -> Seq<LogEntryView> {
    match line_entry(raw, default_level, ts_ms) {
        Some(entry) => logs::appended(store, entry),
        None => store,
    }
}

/// Takes in a line of the daemon: logs it and, while the first-run window is open, derives the
/// progress to show there. A blank line is ignored.
pub fn handle_daemon_line(
    store: &mut LogStore,
    raw_line: &str,
    default_level: &str,
    ts_ms: u64,
    first_run_open: bool,
) -> (r: Option<LineReport>)
    ensures
        r is Some <==> line_entry(raw_line@, default_level@, ts_ms) is Some,
        r matches Some(report) ==> reports(
            report,
            raw_line@,
            default_level@,
            ts_ms,
            first_run_open,
        ),
        final(store)@ == log_after_line(old(store)@, raw_line@, default_level@, ts_ms),
        old(store).wf() ==> final(store).wf(),
{
    let trimmed: &str = text::trimmed_end(raw_line);
    if trimmed.is_empty() {
        return None;
    }
    let level: String = logs::parse_line_level(trimmed, default_level);
    let record: LoggedRecord = logs::push_external(
        store,
        "daemon",
        level.as_str(),
        trimmed.to_string(),
        ts_ms,
    );
    if !first_run_open {
        return Some(LineReport { record, progress: None });
    }
    let mut progress: BootstrapProgress = derive_bootstrap_event(trimmed);
    progress.line = Some(trimmed.to_string());
    Some(LineReport { record, progress: Some(progress) })
}

/// What the daemon's process reports.
pub enum DaemonEvent {
    Stdout(Vec<u8>),
    Stderr(Vec<u8>),
    Terminated,
    /// Anything else.
    Other,
}

/// What an event of the daemon's process leads to.
pub enum Reaction {
    Nothing,
    Line(LineReport),
    /// The current daemon's process is gone, and its handle with it. Where it has crashed, the
    /// tray must be rendered anew.
    Ended { crashed: bool },
}

/// The state after the daemon of generation `generation` has terminated. The end of an earlier
/// daemon does not concern the current one, and one that was stopped has not crashed.
pub open spec fn after_exit(app: AppView, generation: u64) -> AppView {
    if app.generation != generation {
        app
    } else {
        AppView {
            daemon: None,
            state: if app.state.busy() {
                DaemonState::Crashed
            } else {
                app.state
            },
            ..app
        }
    }
}

/// What the end of the daemon of generation `generation` leads to.
pub open spec fn exit_reaction(app: AppView, generation: u64) -> Reaction {
    if app.generation != generation {
        Reaction::Nothing
    } else {
        Reaction::Ended { crashed: app.state.busy() }
    }
}

/// Reacts to the end of the daemon of generation `generation`.
pub fn handle_exit(state: &mut AppState, generation: u64) -> (r: Reaction)
    ensures
        final(state)@ == after_exit(old(state)@, generation),
        r == exit_reaction(old(state)@, generation),
{
    if state::current_generation(state) != generation {
        return Reaction::Nothing;
    }
    state.daemon = None;
    let crashed: bool = state::current_daemon_state(state).is_busy();
    if crashed {
        state::set_daemon_state(state, DaemonState::Crashed);
    }
    Reaction::Ended { crashed }
}

/// Reacts to one event of the daemon's process. Lines on the standard output count as
/// informational and those on the error output as warnings, unless they name a level themselves.
pub fn monitor_daemon_output(
    state: &mut AppState,
    store: &mut LogStore,
    event: &DaemonEvent,
    generation: u64,
    ts_ms: u64,
    first_run_open: bool,
) -> (r: Reaction)
    ensures
        old(store).wf() ==> final(store).wf(),
        match *event {
            DaemonEvent::Stdout(bytes) => {
                let raw = text::utf8_lossy(bytes@);
                &&& final(state)@ == old(state)@
                &&& final(store)@ == log_after_line(old(store)@, raw, "INFO"@, ts_ms)
                &&& match r {
                    Reaction::Line(report) => reports(report, raw, "INFO"@, ts_ms, first_run_open),
                    Reaction::Nothing => line_entry(raw, "INFO"@, ts_ms) is None,
                    Reaction::Ended { .. } => false,
                }
            },
            DaemonEvent::Stderr(bytes) => {
                let raw = text::utf8_lossy(bytes@);
                &&& final(state)@ == old(state)@
                &&& final(store)@ == log_after_line(old(store)@, raw, "WARN"@, ts_ms)
                &&& match r {
                    Reaction::Line(report) => reports(report, raw, "WARN"@, ts_ms, first_run_open),
                    Reaction::Nothing => line_entry(raw, "WARN"@, ts_ms) is None,
                    Reaction::Ended { .. } => false,
                }
            },
            DaemonEvent::Terminated => {
                &&& final(state)@ == after_exit(old(state)@, generation)
                &&& final(store)@ == old(store)@
                &&& r == exit_reaction(old(state)@, generation)
            },
            DaemonEvent::Other => {
                &&& final(state)@ == old(state)@
                &&& final(store)@ == old(store)@
                &&& r == Reaction::Nothing
            },
        },
{
    match event {
        DaemonEvent::Stdout(bytes) => {
            let line: String = text::lossy(bytes);
            match handle_daemon_line(store, line.as_str(), "INFO", ts_ms, first_run_open) {
                Some(report) => Reaction::Line(report),
                None => Reaction::Nothing,
            }
        },
        DaemonEvent::Stderr(bytes) => {
            let line: String = text::lossy(bytes);
            match handle_daemon_line(store, line.as_str(), "WARN", ts_ms, first_run_open) {
                Some(report) => Reaction::Line(report),
                None => Reaction::Nothing,
            }
        },
        DaemonEvent::Terminated => handle_exit(state, generation),
        DaemonEvent::Other => Reaction::Nothing,
    }
}

/// How to run the sidecar.
pub struct SpawnRequest {
    pub program: String,
    pub args: Vec<String>,
    pub env: Vec<(String, String)>,
}

/// The environment the sidecar gets on top of the launcher's own.
pub open spec fn daemon_env(central_url: Option<Seq<char>>) -> Seq<(Seq<char>, Seq<char>)> {
    let encoding = ("PYTHONIOENCODING"@, "utf-8"@);
    match central_url {
        Some(url) => seq![encoding, ("REACHY_CENTRAL_URL"@, url)],
        None => seq![encoding],
    }
}

/// The characters of each pair of texts.
pub open spec fn pairs(list: Seq<(String, String)>) -> Seq<(Seq<char>, Seq<char>)> {
    list.map_values(|p: (String, String)| (p.0@, p.1@))
}

/// Decides how to run the sidecar. Python's output is forced to UTF-8, and the address of the
/// central server is handed on where the launcher's environment sets one.
pub fn spawn_real_daemon(
    mode: Mode,
    serialport: Option<&str>,
    platform: Platform,
    central_url: Option<String>,
) -> (r: SpawnRequest)
    ensures
        r.program@ == "uv-trampoline"@,
        text::texts(r.args@) == daemon_args(mode, text::option_str(serialport), platform),
        pairs(r.env@) == daemon_env(text::option_text(central_url)),
{
    let args: Vec<String> = build_daemon_args(mode, serialport, platform);
    let mut env: Vec<(String, String)> = Vec::new();
    env.push(("PYTHONIOENCODING".to_string(), "utf-8".to_string()));
    let ghost wanted = daemon_env(text::option_text(central_url));
    if let Some(url) = central_url {
        env.push(("REACHY_CENTRAL_URL".to_string(), url));
    }
    assert(pairs(env@) =~= wanted);
    SpawnRequest { program: "uv-trampoline".to_string(), args, env }
}

/// What a start of the daemon sets out to do.
pub struct LaunchPlan {
    pub mode: Mode,
    pub serialport: Option<String>,
    /// Leftover daemons must be cleared off the port first.
    pub sweep_port: bool,
}

/// Decides on a start of the daemon: it is ignored while one is coming up or is up.
pub fn start_daemon(state: &AppState, platform: Platform) -> (r: Option<LaunchPlan>)
    ensures
        r is Some <==> !state@.state.busy(),
        r matches Some(plan) ==> {
            &&& plan.mode == state@.mode
            &&& text::option_text(plan.serialport) == state@.serialport
            &&& plan.sweep_port == platform.unix()
        },
{
    if state::current_daemon_state(state).is_busy() {
        return None;
    }
    Some(
        LaunchPlan {
            mode: state::current_mode(state),
            serialport: state::current_serialport(state),
            sweep_port: platform.is_unix(),
        },
    )
}

/// The state once a launch has begun.
pub open spec fn launching(app: AppView) -> AppView {
    AppView {
        state: DaemonState::Starting,
        generation: state::generation_after(app.generation),
        ..app
    }
}

/// Marks a launch as begun and returns its generation.
pub fn begin_launch(state: &mut AppState) -> (generation: u64)
    ensures
        final(state)@ == launching(old(state)@),
        generation == final(state)@.generation,
{
    state::set_daemon_state(state, DaemonState::Starting);
    state::next_generation(state)
}

/// The state once the sidecar was spawned with a process id, or could not be.
pub open spec fn launched(app: AppView, spawned: Option<u32>) -> AppView {
    match spawned {
        Some(pid) => AppView { daemon: Some(pid), ..app },
        None => AppView { state: DaemonState::Crashed, ..app },
    }
}

/// Records the outcome of a launch; tells whether the readiness probe must be started. Where it
/// must not, the tray must be rendered anew.
pub fn finish_launch(state: &mut AppState, spawned: Option<u32>) -> (probe: bool)
    ensures
        final(state)@ == launched(old(state)@, spawned),
        probe == spawned is Some,
{
    match spawned {
        Some(pid) => {
            state.daemon = Some(pid);
            true
        },
        None => {
            state::set_daemon_state(state, DaemonState::Crashed);
            false
        },
    }
}

/// The readiness probe.
pub fn healthcheck_request() -> (r: api::Request)
    ensures
        r@ == (api::RequestView { verb: api::Verb::Get, url: api::route("/daemon/status"@) }),
{
    api::Request { verb: api::Verb::Get, url: api::daemon_url(HEALTHCHECK_PATH) }
}

/// What the readiness probe of a launch does next.
#[derive(Copy, Clone, Debug, PartialEq, Eq, Structural)]
pub enum HealthStep {
    /// Ask the daemon.
    Probe,
    /// Stop: the launch is no longer the current one, or has ended one way or another.
    Exit,
    /// Stop: the daemon took too long and counts as crashed.
    TimedOut,
}

/// The launch `generation` still waits for its daemon.
pub open spec fn awaiting(app: AppView, generation: u64) -> bool {
    app.generation == generation && app.state == DaemonState::Starting
}

/// What the readiness probe does `elapsed` nanoseconds into the launch `generation`.
pub open spec fn health_step(app: AppView, generation: u64, elapsed: u128) -> HealthStep {
    if !awaiting(app, generation) {
        HealthStep::Exit
    } else if elapsed > HEALTHCHECK_MAX_NS {
        HealthStep::TimedOut
    } else {
        HealthStep::Probe
    }
}

/// Tells whether the launch `generation` still waits for its daemon.
fn still_awaiting(state: &AppState, generation: u64) -> (r: bool)
    ensures
        r == awaiting(state@, generation),
{
    match state::current_daemon_state(state) {
        DaemonState::Starting => state::current_generation(state) == generation,
        _ => false,
    }
}

/// Decides what the readiness probe does next; a launch that took too long has crashed.
pub fn healthcheck_tick(state: &mut AppState, generation: u64, elapsed: u128) -> (r: HealthStep)
    ensures
        r == health_step(old(state)@, generation, elapsed),
        final(state)@ == (if r == HealthStep::TimedOut {
            AppView { state: DaemonState::Crashed, ..old(state)@ }
        } else {
            old(state)@
        }),
{
    if !still_awaiting(state, generation) {
        return HealthStep::Exit;
    }
    if elapsed > HEALTHCHECK_MAX_NS {
        state::set_daemon_state(state, DaemonState::Crashed);
        return HealthStep::TimedOut;
    }
    HealthStep::Probe
}

/// What the answer to a readiness probe means.
#[derive(Copy, Clone, Debug, PartialEq, Eq, Structural)]
pub enum HealthVerdict {
    /// The daemon is up.
    Ready,
    /// A success that came too early to be believed; keep probing.
    TooEarly,
    /// No success; keep probing.
    NotYet,
    /// The answer came after the launch had ended one way or another.
    Late,
}

/// What the status code of a readiness probe means, `elapsed` nanoseconds into the launch
/// `generation`; there is none where the daemon could not be reached.
pub open spec fn health_verdict(
    app: AppView,
    generation: u64,
    code: Option<u16>,
    elapsed: u128,
) -> HealthVerdict {
    if !awaiting(app, generation) {
        HealthVerdict::Late
    } else if !(code matches Some(c) && api::success_code(c)) {
        HealthVerdict::NotYet
    } else if elapsed < HEALTHCHECK_GRACE_NS {
        HealthVerdict::TooEarly
    } else {
        HealthVerdict::Ready
    }
}

/// The state after the answer to a readiness probe.
pub open spec fn after_probe(
    app: AppView,
    generation: u64,
    code: Option<u16>,
    elapsed: u128,
) -> AppView {
    if health_verdict(app, generation, code, elapsed) == HealthVerdict::Ready {
        AppView { state: DaemonState::Running, ..app }
    } else {
        app
    }
}

/// Judges the answer to a readiness probe; the first believable success makes the daemon
/// `Running`.
pub fn healthcheck_reply(
    state: &mut AppState,
    generation: u64,
    code: Option<u16>,
    elapsed: u128,
) -> (r: HealthVerdict)
    ensures
        r == health_verdict(old(state)@, generation, code, elapsed),
        final(state)@ == after_probe(old(state)@, generation, code, elapsed),
{
    if !still_awaiting(state, generation) {
        return HealthVerdict::Late;
    }
    let success: bool = match code {
        Some(c) => api::is_success(c),
        None => false,
    };
    if !success {
        return HealthVerdict::NotYet;
    }
    if elapsed < HEALTHCHECK_GRACE_NS {
        return HealthVerdict::TooEarly;
    }
    state::set_daemon_state(state, DaemonState::Running);
    HealthVerdict::Ready
}

/// A signal that ends a process.
#[derive(Copy, Clone, Debug, PartialEq, Eq, Structural)]
pub enum Signal {
    /// A polite request.
    Term,
    /// The hard end.
    Kill,
}

/// One step in ending processes.
#[derive(Copy, Clone, Debug, PartialEq, Eq, Structural)]
pub enum KillStep {
    /// Signal a whole process group.
    Group { pgid: i32, signal: Signal },
    /// End the sidecar through its handle, which also reaps it.
    Child,
    /// Signal one process.
    Process { pid: i32, signal: Signal },
    Pause { ms: u64 },
}

/// The steps that signal a process group: none for a group of at most 1, since the group 0 would
/// be the launcher's own.
pub open spec fn group_steps(pgid: i32, signal: Signal) -> Seq<KillStep> {
    if pgid <= 1 {
        Seq::empty()
    } else {
        seq![KillStep::Group { pgid, signal }]
    }
}

/// Appends the step that signals a process group, if the group may be signalled.
pub fn kill_process_group(steps: &mut Vec<KillStep>, pgid: i32, signal: Signal)
    ensures
        final(steps)@ == old(steps)@ + group_steps(pgid, signal),
{
    if pgid > 1 {
        steps.push(KillStep::Group { pgid, signal });
    }
    assert(steps@ =~= old(steps)@ + group_steps(pgid, signal));
}

/// The steps that end the daemon `pid`. The trampoline leads its own process group, so on a Unix
/// the whole group goes down with it: politely, then through the handle, then hard.
pub open spec fn kill_steps(pid: u32, platform: Platform) -> Seq<KillStep> {
    if platform.unix() {
        group_steps(pid as i32, Signal::Term) + seq![
            KillStep::Pause { ms: KILL_GRACE_MS },
            KillStep::Child,
        ] + group_steps(pid as i32, Signal::Kill)
    } else {
        seq![KillStep::Child]
    }
}

/// The steps that end the daemon, if there is one.
pub open spec fn kill_plan(daemon: Option<u32>, platform: Platform) -> Seq<KillStep> {
    match daemon {
        Some(pid) => kill_steps(pid, platform),
        None => Seq::empty(),
    }
}

/// The state without a daemon process.
pub open spec fn killed(app: AppView) -> AppView {
    AppView { daemon: None, ..app }
}

/// Gives up the daemon process, if there is one, and returns the steps that end it.
pub fn kill_daemon(state: &mut AppState, platform: Platform) -> (r: Vec<KillStep>)
    ensures
        final(state)@ == killed(old(state)@),
        r@ == kill_plan(old(state)@.daemon, platform),
{
    let mut steps: Vec<KillStep> = Vec::new();
    if let Some(pid) = state.daemon {
        if platform.is_unix() {
            let pgid: i32 = #[verifier::truncate]
            (pid as i32);
            kill_process_group(&mut steps, pgid, Signal::Term);
            steps.push(KillStep::Pause { ms: KILL_GRACE_MS });
            steps.push(KillStep::Child);
            kill_process_group(&mut steps, pgid, Signal::Kill);
        } else {
            steps.push(KillStep::Child);
        }
    }
    state.daemon = None;
    assert(steps@ =~= kill_plan(old(state)@.daemon, platform));
    steps
}

/// The processes to clear off the daemon's port.
pub struct Sweep {
    pub pids: Vec<i32>,
    /// How long to wait once they are gone.
    pub settle_ms: u64,
}

/// The processes that the listing names, one number a line.
pub open spec fn listed_pids(listing: Seq<char>) -> Seq<i32> {
    text::numbers(text::split_lines(listing))
}

/// Reads the listing of the processes that are bound to the daemon's port.
pub fn read_listing(listing: &str) -> (r: Sweep)
    ensures
        r.pids@ == listed_pids(listing@),
        r.settle_ms == (if listed_pids(listing@).len() == 0 {
            0
        } else {
            REAP_SETTLE_MS
        }),
{
    let pids: Vec<i32> = text::parse_numbers(listing);
    let settle_ms: u64 = if pids.len() == 0 {
        0
    } else {
        REAP_SETTLE_MS
    };
    Sweep { pids, settle_ms }
}

/// Reads the raw output of `lsof -t` about the daemon's port.
pub fn reap_orphaned_daemons(output: &Vec<u8>) -> (r: Sweep)
    ensures
        r.pids@ == listed_pids(text::utf8_lossy(output@)),
        r.settle_ms == (if r.pids@.len() == 0 {
            0
        } else {
            REAP_SETTLE_MS
        }),
{
    let listing: String = text::lossy(output);
    read_listing(listing.as_str())
}

/// The steps that end a leftover process `pid` of the group `pgid`: first the group, with any
/// workers it has forked, then the process itself.
pub open spec fn reap_plan(pid: i32, pgid: i32) -> Seq<KillStep> {
    group_steps(pgid, Signal::Kill) + seq![KillStep::Process { pid, signal: Signal::Kill }]
}

/// Decides how to end a leftover process.
pub fn reap_steps(pid: i32, pgid: i32) -> (r: Vec<KillStep>)
    ensures
        r@ == reap_plan(pid, pgid),
{
    let mut steps: Vec<KillStep> = Vec::new();
    kill_process_group(&mut steps, pgid, Signal::Kill);
    steps.push(KillStep::Process { pid, signal: Signal::Kill });
    assert(steps@ =~= reap_plan(pid, pgid));
    steps
}

/// The state after a stop: the generation moves on, the process is given up and the daemon counts
/// as idle.
pub open spec fn stopped(app: AppView) -> AppView {
    AppView {
        daemon: None,
        state: DaemonState::Idle,
        generation: state::generation_after(app.generation),
        ..app
    }
}

/// After a stop, and after a restart, nothing that still comes from the earlier daemon has any
/// effect: neither its end, nor the answer to a probe of it, nor its probe's timeout.
pub proof fn law_earlier_daemon_is_ignored(app: AppView, code: Option<u16>, elapsed: u128)
    ensures
        ({
            let g = app.generation;
            let stop = stopped(app);
            let restart = launching(stop);
            &&& after_exit(stop, g) == stop
            &&& after_probe(stop, g, code, elapsed) == stop
            &&& health_step(stop, g, elapsed) == HealthStep::Exit
            &&& after_exit(restart, g) == restart
            &&& after_probe(restart, g, code, elapsed) == restart
            &&& health_step(restart, g, elapsed) == HealthStep::Exit
        }),
{
}

/// The end of the current daemon is a crash if it was coming up or up, and nothing more than the
/// loss of the process otherwise; the user's choices survive either way.
pub proof fn law_exit_of_current_daemon(app: AppView)
    ensures
        ({
            let after = after_exit(app, app.generation);
            &&& after.daemon is None
            &&& app.state.busy() ==> after.state == DaemonState::Crashed
            &&& !app.state.busy() ==> after.state == app.state
            &&& after.mode == app.mode && after.serialport == app.serialport
        }),
{
}

/// A daemon only ever becomes `Running` out of `Starting`, on a success code that came no earlier
/// than the grace period and no later than the launch lasted.
pub proof fn law_running_is_earned(
    app: AppView,
    generation: u64,
    code: Option<u16>,
    elapsed: u128,
)
    requires
        after_probe(app, generation, code, elapsed) != app,
    ensures
        after_probe(app, generation, code, elapsed) == (AppView {
            state: DaemonState::Running,
            ..app
        }),
        app.state == DaemonState::Starting,
        app.generation == generation,
        code matches Some(c) && api::success_code(c),
        elapsed >= HEALTHCHECK_GRACE_NS,
{
}

/// A launch is awaited from its beginning until its daemon answers, times out or ends, and its
/// probe starts at once.
pub proof fn law_launch_is_probed(app: AppView, pid: u32)
    ensures
        ({
            let up = launched(launching(app), Some(pid));
            &&& awaiting(up, up.generation)
            &&& health_step(up, up.generation, 0) == HealthStep::Probe
            &&& up.daemon == Some(pid)
        }),
{
}

/// No plan ever signals the launcher's own process group.
pub proof fn law_own_group_is_safe(daemon: Option<u32>, pid: i32, pgid: i32, platform: Platform)
    ensures
        forall|i: int|
            0 <= i < kill_plan(daemon, platform).len() ==> (#[trigger] kill_plan(
                daemon,
                platform,
            )[i] matches KillStep::Group { pgid: g, .. } ==> g > 1),
        forall|i: int|
            0 <= i < reap_plan(pid, pgid).len() ==> (#[trigger] reap_plan(
                pid,
                pgid,
            )[i] matches KillStep::Group { pgid: g, .. } ==> g > 1),
{
}

/// Killing is idempotent: with the process given up there is nothing left to end.
pub proof fn law_kill_is_idempotent(app: AppView, platform: Platform)
    ensures
        kill_plan(killed(app).daemon, platform) == Seq::<KillStep>::empty(),
        killed(killed(app)) == killed(app),
{
}

/// On a Unix the daemon is asked politely before it is ended hard, and its whole group with it.
pub proof fn law_unix_kill_takes_the_group(pid: u32, platform: Platform)
    requires
        platform.unix(),
        1 < pid <= i32::MAX,
    ensures
        kill_plan(Some(pid), platform) == seq![
            KillStep::Group { pgid: pid as i32, signal: Signal::Term },
            KillStep::Pause { ms: 250 },
            KillStep::Child,
            KillStep::Group { pgid: pid as i32, signal: Signal::Kill },
        ],
{
    assert(kill_plan(Some(pid), platform) =~= seq![
        KillStep::Group { pgid: pid as i32, signal: Signal::Term },
        KillStep::Pause { ms: 250 },
        KillStep::Child,
        KillStep::Group { pgid: pid as i32, signal: Signal::Kill },
    ]);
}

/// While the first-run window is open, every line that is logged reaches it too, as it is logged.
pub proof fn law_every_line_reaches_first_run(
    raw: Seq<char>,
    default_level: Seq<char>,
    ts_ms: u64,
)
    ensures
        line_entry(raw, default_level, ts_ms) matches Some(entry) ==> (line_progress(
            raw,
            true,
        ) matches Some(progress) && progress.line == Some(entry.message)),
{
}

/// The simulation never gets a serial port, whatever port is selected, and an empty port is none.
pub proof fn law_port_only_over_usb(
    a: Option<Seq<char>>,
    b: Option<Seq<char>>,
    platform: Platform,
)
    ensures
        daemon_args(Mode::Simulation, a, platform) == daemon_args(Mode::Simulation, b, platform),
        daemon_args(Mode::Usb, Some(Seq::empty()), platform) == daemon_args(
            Mode::Usb,
            None,
            platform,
        ),
{
}

/// `--mockup-sim` stands on the command line exactly in simulation, and `--serialport` exactly
/// over USB with a port.
pub proof fn law_flags(mode: Mode, serialport: Option<Seq<char>>, platform: Platform)
    requires
        serialport != Some("--mockup-sim"@),
    ensures
        daemon_args(mode, serialport, platform).contains("--mockup-sim"@) <==> mode
            == Mode::Simulation,
        daemon_args(mode, serialport, platform).contains("--serialport"@) <==> mode == Mode::Usb
            && (serialport matches Some(path) && path.len() > 0),
{
    reveal_strlit(".venv\\Scripts\\python.exe");
    reveal_strlit(".venv/bin/python3");
    reveal_strlit("-m");
    reveal_strlit("reachy_mini.daemon.app.main");
    reveal_strlit("--desktop-app-daemon");
    reveal_strlit("--no-wake-up-on-start");
    reveal_strlit("--mockup-sim");
    reveal_strlit("--serialport");
    let args = daemon_args(mode, serialport, platform);
    let extra = mode_args(mode, serialport);
    assert forall|i: int| 0 <= i < 5 implies (#[trigger] args[i]).len() != 12 by {
        assert(args[i] == seq![
            interpreter(platform),
            "-m"@,
            "reachy_mini.daemon.app.main"@,
            "--desktop-app-daemon"@,
            "--no-wake-up-on-start"@,
        ][i]);
    }
    assert forall|i: int| 5 <= i < args.len() implies #[trigger] args[i] == extra[i - 5] by {}
    assert("--mockup-sim"@[2] != "--serialport"@[2]);
    if mode == Mode::Simulation {
        assert(args[5] == "--mockup-sim"@);
    }
    if mode == Mode::Usb && (serialport matches Some(path) && path.len() > 0) {
        assert(args[5] == "--serialport"@);
    }
}

/// What a line says of the progress: the first of these texts that it holds, in any case, decides
/// on the percentage and the label, and a line that holds none of them gives neither.
pub proof fn law_progress_by_text(line: Seq<char>)
    ensures
        ({
            let l = text::lower(line);
            let p = progress_of(line);
            &&& p.line is None
            &&& if text::contains(l, "setup complete!"@) {
                p.percent == Some(98u8)
                    && p.label == Some("Setup complete - starting daemon\u{2026}"@)
            } else if text::contains(l, "pre-warming complete"@) {
                p.percent == Some(95u8) && p.label == Some("Pre-warm complete"@)
            } else if text::contains(l, "reachy_mini imported"@) {
                p.percent == Some(94u8) && p.label == Some("Reachy Mini SDK loaded"@)
            } else if text::contains(l, "importing reachy_mini"@) {
                p.percent == Some(92u8) && p.label == Some("Loading Reachy Mini SDK\u{2026}"@)
            } else if text::contains(l, "gstreamer ready"@) {
                p.percent == Some(90u8) && p.label == Some("GStreamer ready"@)
            } else if text::contains(l, "scanning plugin registry"@)
                || text::contains(l, "initializing gstreamer"@) {
                p.percent == Some(255u8)
                    && p.label == Some("Scanning GStreamer plugins (first run, ~3 min)\u{2026}"@)
            } else if text::contains(l, "[prewarm"@) && text::contains(l, "importing gi"@) {
                p.percent == Some(82u8) && p.label == Some("Pre-warming Python bindings\u{2026}"@)
            } else if text::contains(l, "pre-warming python imports (still working"@) {
                p.percent == None::<u8> && p.label == None::<Seq<char>>
            } else if text::contains(l, "pre-warming gstreamer"@) {
                p.percent == Some(80u8) && p.label == Some("Pre-warming GStreamer\u{2026}"@)
            } else if text::contains(l, "[bootstrap] pre-warming"@) {
                p.percent == Some(78u8) && p.label == Some("Pre-warming runtime\u{2026}"@)
            } else if text::contains(l, "[bootstrap] signing"@) {
                p.percent == Some(72u8) && p.label == Some("Signing Python binaries\u{2026}"@)
            } else if text::contains(l, "packages installed successfully"@) {
                p.percent == Some(65u8) && p.label == Some("Packages installed"@)
            } else if text::contains(l, "creating apps_venv"@) {
                p.percent == Some(55u8) && p.label == Some("Creating apps environment\u{2026}"@)
            } else if text::contains(l, "installing reachy-mini"@)
                || text::contains(l, "installing reachy_mini"@) {
                p.percent == Some(40u8)
                    && p.label == Some("Installing reachy-mini and dependencies\u{2026}"@)
            } else if text::contains(l, "creating .venv"@) {
                p.percent == Some(30u8) && p.label == Some("Creating virtual environment\u{2026}"@)
            } else if text::contains(l, "installing python"@) {
                p.percent == Some(20u8) && p.label == Some("Installing Python 3.12\u{2026}"@)
            } else if text::contains(l, "downloading uv"@) {
                p.percent == Some(12u8)
                    && p.label == Some("Downloading package manager (uv)\u{2026}"@)
            } else if text::contains(l, "uv downloaded successfully"@) {
                p.percent == Some(15u8) && p.label == Some("Package manager ready"@)
            } else if text::contains(l, "first run detected"@) {
                p.percent == Some(8u8)
                    && p.label == Some("First run detected, preparing environment\u{2026}"@)
            } else if text::contains(l, "starting reachy mini daemon"@) {
                p.percent == None::<u8> && p.label == Some("Starting daemon\u{2026}"@)
            } else if text::contains(l, "found reachy mini serial port"@) {
                p.percent == None::<u8> && p.label == Some("Reachy Mini detected on USB"@)
            } else if text::contains(l, "creating robotbackend"@) {
                p.percent == None::<u8> && p.label == Some("Initializing robot backend\u{2026}"@)
            } else if text::contains(l, "uvicorn"@)
                && text::contains(l, "started server process"@) {
                p.percent == None::<u8> && p.label == Some("HTTP server started"@)
            } else if text::contains(l, "[bootstrap]"@) {
                p.percent == None::<u8> && p.label == Some("Preparing environment\u{2026}"@)
            } else {
                p.percent is None && p.label is None
            }
        }),
{
    let l = text::lower(line);
    let all = milestones();
    assert(marked(l, all[0].mark) == (text::contains(l, "setup complete!"@)));
    assert(marked(l, all[1].mark) == (text::contains(l, "pre-warming complete"@)));
    assert(marked(l, all[2].mark) == (text::contains(l, "reachy_mini imported"@)));
    assert(marked(l, all[3].mark) == (text::contains(l, "importing reachy_mini"@)));
    assert(marked(l, all[4].mark) == (text::contains(l, "gstreamer ready"@)));
    assert(marked(l, all[5].mark) == (text::contains(l, "scanning plugin registry"@)
        || text::contains(l, "initializing gstreamer"@)));
    assert(marked(l, all[6].mark) == (text::contains(l, "[prewarm"@)
        && text::contains(l, "importing gi"@)));
    assert(marked(l, all[7].mark) == (text::contains(
        l,
        "pre-warming python imports (still working"@,
    )));
    assert(marked(l, all[8].mark) == (text::contains(l, "pre-warming gstreamer"@)));
    assert(marked(l, all[9].mark) == (text::contains(l, "[bootstrap] pre-warming"@)));
    assert(marked(l, all[10].mark) == (text::contains(l, "[bootstrap] signing"@)));
    assert(marked(l, all[11].mark) == (text::contains(l, "packages installed successfully"@)));
    assert(marked(l, all[12].mark) == (text::contains(l, "creating apps_venv"@)));
    assert(marked(l, all[13].mark) == (text::contains(l, "installing reachy-mini"@)
        || text::contains(l, "installing reachy_mini"@)));
    assert(marked(l, all[14].mark) == (text::contains(l, "creating .venv"@)));
    assert(marked(l, all[15].mark) == (text::contains(l, "installing python"@)));
    assert(marked(l, all[16].mark) == (text::contains(l, "downloading uv"@)));
    assert(marked(l, all[17].mark) == (text::contains(l, "uv downloaded successfully"@)));
    assert(marked(l, all[18].mark) == (text::contains(l, "first run detected"@)));
    assert(marked(l, all[19].mark) == (text::contains(l, "starting reachy mini daemon"@)));
    assert(marked(l, all[20].mark) == (text::contains(l, "found reachy mini serial port"@)));
    assert(marked(l, all[21].mark) == (text::contains(l, "creating robotbackend"@)));
    assert(marked(l, all[22].mark) == (text::contains(l, "uvicorn"@)
        && text::contains(l, "started server process"@)));
    assert(marked(l, all[23].mark) == (text::contains(l, "[bootstrap]"@)));
    if exists|i: int| first_marked(l, i) {
        let i = choose|i: int| first_marked(l, i);
        law_progress_of_first_milestone(line, i);
        assert(0 < i ==> !marked(l, all[0].mark));
        assert(1 < i ==> !marked(l, all[1].mark));
        assert(2 < i ==> !marked(l, all[2].mark));
        assert(3 < i ==> !marked(l, all[3].mark));
        assert(4 < i ==> !marked(l, all[4].mark));
        assert(5 < i ==> !marked(l, all[5].mark));
        assert(6 < i ==> !marked(l, all[6].mark));
        assert(7 < i ==> !marked(l, all[7].mark));
        assert(8 < i ==> !marked(l, all[8].mark));
        assert(9 < i ==> !marked(l, all[9].mark));
        assert(10 < i ==> !marked(l, all[10].mark));
        assert(11 < i ==> !marked(l, all[11].mark));
        assert(12 < i ==> !marked(l, all[12].mark));
        assert(13 < i ==> !marked(l, all[13].mark));
        assert(14 < i ==> !marked(l, all[14].mark));
        assert(15 < i ==> !marked(l, all[15].mark));
        assert(16 < i ==> !marked(l, all[16].mark));
        assert(17 < i ==> !marked(l, all[17].mark));
        assert(18 < i ==> !marked(l, all[18].mark));
        assert(19 < i ==> !marked(l, all[19].mark));
        assert(20 < i ==> !marked(l, all[20].mark));
        assert(21 < i ==> !marked(l, all[21].mark));
        assert(22 < i ==> !marked(l, all[22].mark));
        assert(23 < i ==> !marked(l, all[23].mark));
    } else {
        assert forall|n: int| 0 <= n < all.len() implies !marked(l, (#[trigger] all[n]).mark) by {
            if marked(l, all[n].mark) {
                let i = lemma_has_first(l, n);
            }
        }
        assert(!marked(l, all[0].mark));
        assert(!marked(l, all[1].mark));
        assert(!marked(l, all[2].mark));
        assert(!marked(l, all[3].mark));
        assert(!marked(l, all[4].mark));
        assert(!marked(l, all[5].mark));
        assert(!marked(l, all[6].mark));
        assert(!marked(l, all[7].mark));
        assert(!marked(l, all[8].mark));
        assert(!marked(l, all[9].mark));
        assert(!marked(l, all[10].mark));
        assert(!marked(l, all[11].mark));
        assert(!marked(l, all[12].mark));
        assert(!marked(l, all[13].mark));
        assert(!marked(l, all[14].mark));
        assert(!marked(l, all[15].mark));
        assert(!marked(l, all[16].mark));
        assert(!marked(l, all[17].mark));
        assert(!marked(l, all[18].mark));
        assert(!marked(l, all[19].mark));
        assert(!marked(l, all[20].mark));
        assert(!marked(l, all[21].mark));
        assert(!marked(l, all[22].mark));
        assert(!marked(l, all[23].mark));
    }
}

/// The whole command line: five words that never change but for the interpreter's place, then the
/// simulation flag, or the port flag and its port.
pub proof fn law_command_line(mode: Mode, serialport: Option<Seq<char>>, platform: Platform)
    ensures
        ({
            let args = daemon_args(mode, serialport, platform);
            let port = mode is Usb && (serialport matches Some(p) && p.len() > 0);
            &&& platform is Windows ==> args[0] == ".venv\\Scripts\\python.exe"@
            &&& !(platform is Windows) ==> args[0] == ".venv/bin/python3"@
            &&& args[1] == "-m"@ && args[2] == "reachy_mini.daemon.app.main"@
            &&& args[3] == "--desktop-app-daemon"@ && args[4] == "--no-wake-up-on-start"@
            &&& mode is Simulation ==> args.len() == 6 && args[5] == "--mockup-sim"@
            &&& port ==> args.len() == 7 && args[5] == "--serialport"@ && Some(args[6])
                == serialport
            &&& mode is Usb && !port ==> args.len() == 5
        }),
{
}

/// The sidecar's own environment: the encoding always, the central server where one is given.
pub proof fn law_environment(central_url: Option<Seq<char>>, list: Seq<(String, String)>, i: int)
    requires
        0 <= i < list.len(),
    ensures
        ({
            let env = daemon_env(central_url);
            &&& env[0] == ("PYTHONIOENCODING"@, "utf-8"@)
            &&& central_url matches Some(url) ==> env.len() == 2 && env[1] == (
                "REACHY_CENTRAL_URL"@,
                url,
            )
            &&& central_url is None ==> env.len() == 1
            &&& pairs(list).len() == list.len() && pairs(list)[i] == (list[i].0@, list[i].1@)
        }),
{
}

/// A line of the daemon is logged unless it is blank: under the daemon's name, without the white
/// space at its end, at its own time and level.
pub proof fn law_daemon_line(
    raw: Seq<char>,
    default_level: Seq<char>,
    ts_ms: u64,
    store: Seq<LogEntryView>,
)
    ensures
        ({
            let entry = line_entry(raw, default_level, ts_ms);
            let line = text::trim_end(raw);
            &&& entry is None <==> text::all_white(raw)
            &&& entry matches Some(e) ==> {
                &&& e.target == "daemon"@ && e.message == line && e.ts_ms == ts_ms
                &&& e.level == logs::line_level(line, default_level)
                &&& log_after_line(store, raw, default_level, ts_ms) == logs::appended(store, e)
            }
            &&& entry is None ==> log_after_line(store, raw, default_level, ts_ms) == store
        }),
{
    let line = text::trim_end(raw);
    text::law_trim_end(raw);
    if line.len() > 0 {
        assert(raw[line.len() - 1] == line.last());
        assert(!text::all_white(raw));
    }
    logs::law_line_level_known(line, default_level);
    logs::lemma_level_is_canonical(logs::line_level(line, default_level));
}

/// While the first-run window is open it gets every line, with the percentage and the label of the
/// line; while it is closed it gets nothing.
pub proof fn law_line_progress(raw: Seq<char>)
    ensures
        line_progress(raw, false) is None,
        line_progress(raw, true) matches Some(p) && {
            let line = text::trim_end(raw);
            &&& p.line == Some(line)
            &&& p.percent == progress_of(line).percent && p.label == progress_of(line).label
        },
{
}

/// A report carries the entry that was logged, its terminal line, and the progress of the line
/// exactly while the window is open.
pub proof fn law_report(
    report: LineReport,
    raw: Seq<char>,
    default_level: Seq<char>,
    ts_ms: u64,
    first_run_open: bool,
)
    requires
        reports(report, raw, default_level, ts_ms, first_run_open),
    ensures
        report.record.entry.message@ == text::trim_end(raw),
        report.record.entry.target@ == "daemon"@,
        report.record.entry.ts_ms == ts_ms,
        report.record.entry.level@ == logs::line_level(text::trim_end(raw), default_level),
        report.record.console@ == logs::console_text(report.record.entry@),
        report.record.in_window,
        report.progress is Some <==> first_run_open,
        report.progress matches Some(p) ==> {
            let line = text::trim_end(raw);
            &&& p.line matches Some(s) && s@ == line
            &&& p.percent == progress_of(line).percent
            &&& p.label is Some <==> progress_of(line).label is Some
            &&& p.label matches Some(label) ==> progress_of(line).label == Some(label@)
        },
{
    law_daemon_line(raw, default_level, ts_ms, Seq::empty());
}

/// The end of a daemon concerns the launcher exactly when it is the current one: it then loses its
/// process, and has crashed exactly if it was coming up or up. Nothing else ever changes.
pub proof fn law_daemon_end(app: AppView, generation: u64)
    ensures
        ({
            let after = after_exit(app, generation);
            let reaction = exit_reaction(app, generation);
            let mine = app.generation == generation;
            let was_busy = app.state is Starting || app.state is Running;
            &&& !mine ==> after == app && reaction is Nothing
            &&& mine ==> after.daemon is None
            &&& mine ==> reaction == (Reaction::Ended { crashed: was_busy })
            &&& mine && was_busy ==> after.state is Crashed
            &&& mine && !was_busy ==> after.state == app.state
            &&& after.mode == app.mode && after.generation == app.generation
            &&& after.serialport == app.serialport && after.usb_devices == app.usb_devices
            &&& after.quit_requested == app.quit_requested
        }),
{
}

/// A launch counts as starting under the next generation; once spawned it has its process, and one
/// that could not be spawned has crashed. Nothing else changes.
pub proof fn law_launch(app: AppView, spawned: Option<u32>)
    ensures
        ({
            let begun = launching(app);
            let done = launched(app, spawned);
            &&& begun.state is Starting && begun.generation != app.generation
            &&& begun.generation == state::generation_after(app.generation)
            &&& begun == (AppView { state: begun.state, generation: begun.generation, ..app })
            &&& spawned is Some ==> done == (AppView { daemon: spawned, ..app })
            &&& spawned is None ==> done == (AppView { state: DaemonState::Crashed, ..app })
        }),
{
}

/// A launch still awaited is ready as soon as a code from 200 to 299 comes, a second and a half
/// into it or later: the daemon then runs. Only an earlier success is too early; without one the
/// probing goes on; and an answer to a launch no longer awaited changes nothing.
pub proof fn law_readiness(app: AppView, generation: u64, code: Option<u16>, elapsed: u128)
    ensures
        ({
            let v = health_verdict(app, generation, code, elapsed);
            let after = after_probe(app, generation, code, elapsed);
            let awaited = app.generation == generation && app.state is Starting;
            let success = code matches Some(c) && 200 <= c <= 299;
            &&& v is Ready <==> awaited && success && elapsed >= 1_500_000_000
            &&& v is TooEarly <==> awaited && success && elapsed < 1_500_000_000
            &&& v is NotYet <==> awaited && !success
            &&& v is Late <==> !awaited
            &&& v is Ready ==> after == (AppView { state: DaemonState::Running, ..app })
            &&& !(v is Ready) ==> after == app
        }),
{
}

/// A launch still awaited is probed for five minutes and then counts as crashed; one no longer
/// awaited is left alone.
pub proof fn law_patience(app: AppView, generation: u64, elapsed: u128)
    ensures
        ({
            let step = health_step(app, generation, elapsed);
            let awaited = app.generation == generation && app.state is Starting;
            &&& step is Probe <==> awaited && elapsed <= 300_000_000_000
            &&& step is TimedOut <==> awaited && elapsed > 300_000_000_000
            &&& step is Exit <==> !awaited
        }),
{
}

/// How a process is ended, whatever its number: off a Unix through its handle alone; on a Unix
/// politely with a pause first, then through its handle, then hard, and with its group wherever the
/// number is that of a group other than the launcher's.
pub proof fn law_kill_plan(pid: u32, platform: Platform)
    ensures
        ({
            let plan = kill_plan(Some(pid), platform);
            let unix = platform is MacOs || platform is Linux || platform is OtherUnix;
            let group = 1 < pid <= 0x7fff_ffff;
            &&& kill_plan(None, platform).len() == 0
            &&& !unix ==> plan == seq![KillStep::Child]
            &&& unix && group ==> plan == seq![
                KillStep::Group { pgid: pid as i32, signal: Signal::Term },
                KillStep::Pause { ms: 250 },
                KillStep::Child,
                KillStep::Group { pgid: pid as i32, signal: Signal::Kill },
            ]
            &&& unix && !group ==> plan == seq![KillStep::Pause { ms: 250 }, KillStep::Child]
        }),
{
    let plan = kill_plan(Some(pid), platform);
    assert(pid > 0x7fff_ffff ==> (pid as i32) < 0) by (bit_vector);
    if platform.unix() {
        if 1 < pid <= 0x7fff_ffff {
            law_unix_kill_takes_the_group(pid, platform);
        } else {
            assert(plan =~= seq![KillStep::Pause { ms: 250 }, KillStep::Child]);
        }
    }
}

/// A leftover process is ended hard, after its group wherever that is not the launcher's own.
pub proof fn law_reap_plan(pid: i32, pgid: i32)
    ensures
        pgid > 1 ==> reap_plan(pid, pgid) == seq![
            KillStep::Group { pgid, signal: Signal::Kill },
            KillStep::Process { pid, signal: Signal::Kill },
        ],
        pgid <= 1 ==> reap_plan(pid, pgid) == seq![
            KillStep::Process { pid, signal: Signal::Kill },
        ],
{
    assert(group_steps(pgid, Signal::Kill) + seq![KillStep::Process { pid, signal: Signal::Kill }]
        =~= reap_plan(pid, pgid));
    if pgid <= 1 {
        assert(reap_plan(pid, pgid) =~= seq![KillStep::Process { pid, signal: Signal::Kill }]);
    } else {
        assert(reap_plan(pid, pgid) =~= seq![
            KillStep::Group { pgid, signal: Signal::Kill },
            KillStep::Process { pid, signal: Signal::Kill },
        ]);
    }
}

/// A listing names a process on each line that is a number, and no others: a line alone names its
/// own, and what follows a line feed names its own after that.
pub proof fn law_listing(line: Seq<char>, rest: Seq<char>)
    requires
        !line.contains('\n'),
    ensures
        listed_pids(line) == match text::number(text::trim(line)) {
            Some(pid) => seq![pid],
            None => Seq::empty(),
        },
        listed_pids(line + seq!['\n'] + rest) == listed_pids(line) + listed_pids(rest),
{
    text::law_split_lines(line, rest);
    text::law_numbers(seq![line], text::split_lines(rest), line);
}

/// Giving up the process changes nothing else; a stop also makes the daemon idle under the next
/// generation.
pub proof fn law_stopped(app: AppView)
    ensures
        killed(app) == (AppView { daemon: None, ..app }),
        stopped(app).daemon is None && stopped(app).state is Idle,
        stopped(app).generation == state::generation_after(app.generation),
        stopped(app) == (AppView {
            daemon: None,
            state: DaemonState::Idle,
            generation: stopped(app).generation,
            ..app
        }),
{
}

/// The cadences of the daemon's workers, in milliseconds.
pub proof fn law_daemon_cadences()
    ensures
        HEALTHCHECK_INTERVAL_MS == 500 && HEALTHCHECK_HTTP_TIMEOUT_MS == 2_000,
        KILL_GRACE_MS == 250 && REAP_SETTLE_MS == 200,
{
}

/// The first-run window hears of progress and of the end of the setup by different events.
pub proof fn law_setup_events()
    ensures
        EVENT_SETUP_PROGRESS@ == "setup:progress"@,
        EVENT_SETUP_DONE@ == "setup:done"@,
{
}

/// The contracts see a progress as it is, field by field.
pub proof fn law_progress_is_seen_whole(p: BootstrapProgress)
    ensures
        p@.percent == p.percent,
        p@.label is Some <==> p.label is Some,
        p.label matches Some(s) ==> p@.label == Some(s@),
        p@.line is Some <==> p.line is Some,
        p.line matches Some(s) ==> p@.line == Some(s@),
        progress_view(Some(p)) == Some(p@) && progress_view(None) is None,
        no_progress().percent is None && no_progress().label is None && no_progress().line is None,
{
}

} // verus!
