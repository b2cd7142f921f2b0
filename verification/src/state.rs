//! The shared application state and the lifecycle types it is made of.

use vstd::prelude::*;

use crate::text;
use crate::usb;
use crate::usb::UsbDevice;
use crate::usb::UsbDeviceView;

verus! {

/// The operating system the launcher runs on.
#[derive(Copy, Clone, Debug, PartialEq, Eq, Structural)]
pub enum Platform {
    MacOs,
    Windows,
    Linux,
    /// A Unix that is neither macOS nor Linux.
    OtherUnix,
    /// Neither Windows nor a Unix.
    Other,
}

impl Platform {
    /// A Unix system: it has process groups, signals and device nodes under `/dev`.
    pub open spec fn unix(self) -> bool {
        self == Platform::MacOs || self == Platform::Linux || self == Platform::OtherUnix
    }

    /// Tells whether this is a Unix system.
    pub fn is_unix(self) -> (r: bool)
        ensures
            r == self.unix(),
    {
        match self {
            Platform::MacOs | Platform::Linux | Platform::OtherUnix => true,
            Platform::Windows | Platform::Other => false,
        }
    }
}

/// User-selected connection mode. Drives `--mockup-sim` on the daemon command line and the colour
/// of the tray status badge.
#[derive(Copy, Clone, Debug, PartialEq, Eq, Structural)]
pub enum Mode {
    Usb,
    Simulation,
}

impl Mode {
    /// The name of the mode in log lines.
    pub open spec fn name(self) -> Seq<char> {
        match self {
            Mode::Usb => "usb"@,
            Mode::Simulation => "simulation"@,
        }
    }

    /// The name of the mode in the tooltip.
    pub open spec fn title(self) -> Seq<char> {
        match self {
            Mode::Usb => "USB"@,
            Mode::Simulation => "Simulation"@,
        }
    }

    pub fn as_str(&self) -> (r: &'static str)
        ensures
            r@ == self.name(),
    {
        match self {
            Mode::Usb => "usb",
            Mode::Simulation => "simulation",
        }
    }

    pub fn label(&self) -> (r: &'static str)
        ensures
            r@ == self.title(),
    {
        match self {
            Mode::Usb => "USB",
            Mode::Simulation => "Simulation",
        }
    }
}

/// Daemon lifecycle as projected to the user. Stopping is fast enough to be shown as `Idle`.
#[derive(Copy, Clone, Debug, PartialEq, Eq, Structural)]
pub enum DaemonState {
    Idle,
    Starting,
    Running,
    Crashed,
}

impl DaemonState {
    /// A daemon is coming up or is up.
    pub open spec fn busy(self) -> bool {
        self == DaemonState::Starting || self == DaemonState::Running
    }

    /// Tells whether a daemon is coming up or is up.
    pub fn is_busy(self) -> (r: bool)
        ensures
            r == self.busy(),
    {
        match self {
            DaemonState::Starting | DaemonState::Running => true,
            DaemonState::Idle | DaemonState::Crashed => false,
        }
    }
}

/// Everything mutable that outlives a single event.
pub struct AppState {
    /// Process id of the sidecar; `None` when the daemon is idle, not yet started, or has ended by
    /// itself. A launch that timed out counts as crashed but keeps its process until it is stopped,
    /// replaced or quit.
    pub daemon: Option<u32>,
    pub mode: Mode,
    pub state: DaemonState,
    /// Moves on each time a daemon is started or stopped. Used to discard late healthcheck and
    /// monitor callbacks from a previous run.
    pub generation: u64,
    /// The serial port the user or the scanner selected.
    pub serialport: Option<String>,
    /// The robots seen by the latest scan of the USB bus.
    pub usb_devices: Vec<UsbDevice>,
    /// Set only when the user chooses Quit; every other exit request is cancelled.
    pub quit_requested: bool,
}

/// The mathematical content of an [`AppState`].
pub struct AppView {
    pub daemon: Option<u32>,
    pub mode: Mode,
    pub state: DaemonState,
    pub generation: u64,
    pub serialport: Option<Seq<char>>,
    pub usb_devices: Seq<UsbDeviceView>,
    pub quit_requested: bool,
}

impl View for AppState {
    type V = AppView;

    open spec fn view(&self) -> AppView {
        AppView {
            daemon: self.daemon,
            mode: self.mode,
            state: self.state,
            generation: self.generation,
            serialport: text::option_text(self.serialport),
            usb_devices: usb::devices_view(self.usb_devices@),
            quit_requested: self.quit_requested,
        }
    }
}

/// The state the launcher boots with.
pub open spec fn initial_state() -> AppView {
    AppView {
        daemon: None,
        mode: Mode::Usb,
        state: DaemonState::Idle,
        generation: 0,
        serialport: None,
        usb_devices: Seq::empty(),
        quit_requested: false,
    }
}

/// The generation that follows `g`; the counter wraps around.
pub open spec fn generation_after(g: u64) -> u64 {
    if g == u64::MAX {
        0
    } else {
        (g + 1) as u64
    }
}

impl AppState {
    pub fn new() -> (r: Self)
        ensures
            r@ == initial_state(),
    {
        let r = AppState {
            daemon: None,
            mode: Mode::Usb,
            state: DaemonState::Idle,
            generation: 0,
            serialport: None,
            usb_devices: Vec::new(),
            quit_requested: false,
        };
        assert(r@.usb_devices =~= Seq::empty());
        r
    }
}

pub fn current_mode(state: &AppState) -> (r: Mode)
    ensures
        r == state@.mode,
{
    state.mode
}

pub fn current_daemon_state(state: &AppState) -> (r: DaemonState)
    ensures
        r == state@.state,
{
    state.state
}

pub fn set_daemon_state(state: &mut AppState, new_state: DaemonState)
    ensures
        final(state)@ == (AppView { state: new_state, ..old(state)@ }),
{
    state.state = new_state;
}

/// Moves the generation on and returns the new one.
pub fn next_generation(state: &mut AppState) -> (r: u64)
    ensures
        r == generation_after(old(state)@.generation),
        final(state)@ == (AppView { generation: r, ..old(state)@ }),
{
    state.generation = state.generation.wrapping_add(1);
    state.generation
}

pub fn current_generation(state: &AppState) -> (r: u64)
    ensures
        r == state@.generation,
{
    state.generation
}

/// The selected serial port, if any.
pub fn current_serialport(state: &AppState) -> (r: Option<String>)
    ensures
        text::option_text(r) == state@.serialport,
{
    text::copy_option(&state.serialport)
}

/// Replaces the selected serial port.
pub fn set_serialport(state: &mut AppState, serialport: Option<String>)
    ensures
        final(state)@ == (AppView { serialport: text::option_text(serialport), ..old(state)@ }),
{
    state.serialport = serialport;
}

/// Replaces the cached device list and tells whether it differs from the previous one.
pub fn set_usb_devices(state: &mut AppState, devices: Vec<UsbDevice>) -> (changed: bool)
    ensures
        final(state)@ == (AppView { usb_devices: usb::devices_view(devices@), ..old(state)@ }),
        changed == (old(state)@.usb_devices != usb::devices_view(devices@)),
{
    let changed: bool = !usb::same_devices(&state.usb_devices, &devices);
    state.usb_devices = devices;
    changed
}

/// The launcher boots without a daemon, over USB, with nothing selected, found or asked for.
pub proof fn law_initial_state()
    ensures
        ({
            let app = initial_state();
            &&& app.daemon is None && app.state == DaemonState::Idle && app.generation == 0
            &&& app.mode == Mode::Usb && app.serialport is None && app.usb_devices.len() == 0
            &&& !app.quit_requested
        }),
{
}

/// The next generation is always another one, and the counter only ever steps by one, or from its
/// end to its start.
pub proof fn law_next_generation(g: u64)
    ensures
        generation_after(g) != g,
        g < u64::MAX ==> generation_after(g) == g + 1,
        g == u64::MAX ==> generation_after(g) == 0,
{
}

/// A daemon that is coming up or is up is busy; one that is idle or has crashed is not. macOS and
/// Linux are Unix systems, Windows is not.
pub proof fn law_kinds(state: DaemonState, platform: Platform)
    ensures
        state.busy() <==> state is Starting || state is Running,
        platform.unix() <==> platform is MacOs || platform is Linux || platform is OtherUnix,
{
}

/// Each mode has a name of its own for the log and for the tooltip.
pub proof fn law_mode_names(mode: Mode)
    ensures
        mode.name() == (if mode is Usb {
            "usb"@
        } else {
            "simulation"@
        }),
        mode.title() == (if mode is Usb {
            "USB"@
        } else {
            "Simulation"@
        }),
{
}

/// The contracts see the state as it is, field by field.
pub proof fn law_state_is_seen_whole(app: AppState)
    ensures
        app@.daemon == app.daemon && app@.mode == app.mode && app@.state == app.state,
        app@.generation == app.generation && app@.quit_requested == app.quit_requested,
        app@.serialport is Some <==> app.serialport is Some,
        app.serialport matches Some(path) ==> app@.serialport == Some(path@),
        app@.usb_devices.len() == app.usb_devices@.len(),
        forall|i: int|
            0 <= i < app.usb_devices@.len() ==> #[trigger] app@.usb_devices[i]
                == app.usb_devices@[i]@,
{
}

} // verus!
