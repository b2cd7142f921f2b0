//! USB detection of Reachy Mini robots.

use vstd::prelude::*;
use vstd::string::*;

use crate::state;
use crate::state::AppState;
use crate::state::AppView;
use crate::state::Platform;
use crate::text;

verus! {

/// USB vendor id of the serial bridge of a Reachy Mini.
pub const REACHY_VID: u16 = 0x1a86;

/// USB product id of the serial bridge of a Reachy Mini.
pub const REACHY_PID: u16 = 0x55d3;

/// How long, in milliseconds, a freshly plugged device takes to appear in the list of ports.
pub const HOTPLUG_SETTLE_DELAY_MS: u64 = 300;

/// Pause, in milliseconds, between two scans while no daemon is coming up or is up.
pub const SCAN_INTERVAL_IDLE_MS: u64 = 2_000;

/// Pause, in milliseconds, between two scans otherwise.
pub const SCAN_INTERVAL_BUSY_MS: u64 = 15_000;

/// One detected Reachy Mini accessible over USB.
#[derive(Debug, PartialEq, Eq)]
pub struct UsbDevice {
    /// Full device path the daemon expects on its `--serialport` flag.
    pub serialport: String,
    /// Human label for the menu.
    pub label: String,
    /// USB serial number, if the system exposed one.
    pub serial_number: Option<String>,
}

/// The mathematical content of a [`UsbDevice`].
pub struct UsbDeviceView {
    pub serialport: Seq<char>,
    pub label: Seq<char>,
    pub serial_number: Option<Seq<char>>,
}

impl View for UsbDevice {
    type V = UsbDeviceView;

    open spec fn view(&self) -> UsbDeviceView {
        UsbDeviceView {
            serialport: self.serialport@,
            label: self.label@,
            serial_number: text::option_text(self.serial_number),
        }
    }
}

impl Clone for UsbDevice {
    fn clone(&self) -> (r: Self)
        ensures
            r == *self,
    {
        UsbDevice {
            serialport: self.serialport.clone(),
            label: self.label.clone(),
            serial_number: text::copy_option(&self.serial_number),
        }
    }
}

/// The mathematical content of a device list.
pub open spec fn devices_view(devices: Seq<UsbDevice>) -> Seq<UsbDeviceView> {
    devices.map_values(|d: UsbDevice| d@)
}

/// Tells whether two devices are described alike.
fn same_device(a: &UsbDevice, b: &UsbDevice) -> (r: bool)
    ensures
        r == (a@ == b@),
{
    text::same(a.serialport.as_str(), b.serialport.as_str()) && text::same(
        a.label.as_str(),
        b.label.as_str(),
    ) && text::same_option(&a.serial_number, &b.serial_number)
}

/// Tells whether two device lists hold the same devices in the same order.
pub fn same_devices(a: &Vec<UsbDevice>, b: &Vec<UsbDevice>) -> (r: bool)
    ensures
        r == (devices_view(a@) == devices_view(b@)),
{
    if a.len() != b.len() {
        assert(devices_view(a@).len() != devices_view(b@).len());
        return false;
    }
    let mut i: usize = 0;
    while i < a.len()
        invariant
            a.len() == b.len(),
            i <= a.len(),
            forall|j: int| 0 <= j < i ==> a@[j]@ == b@[j]@,
        decreases a.len() - i,
    {
        if !same_device(&a[i], &b[i]) {
            assert(devices_view(a@)[i as int] != devices_view(b@)[i as int]);
            return false;
        }
        i = i + 1;
    }
    assert(devices_view(a@) =~= devices_view(b@));
    true
}

/// What a USB port says of the device behind it.
pub struct UsbPortInfo {
    pub vid: u16,
    pub pid: u16,
    pub serial_number: Option<String>,
}

/// A serial port of the system.
pub struct PortInfo {
    pub port_name: String,
    /// The device, where the port is a USB port.
    pub usb: Option<UsbPortInfo>,
}

/// The port name begins like that of a call-in port of macOS.
pub open spec fn tty_twin(platform: Platform, name: Seq<char>) -> bool {
    platform == Platform::MacOs && ("/dev/tty."@.is_prefix_of(name) || "tty."@.is_prefix_of(name))
}

/// Tells whether a port is the call-in twin of another one. macOS lists each device twice; the
/// call-in port waits for a signal that a Reachy Mini never gives.
pub fn is_macos_tty_twin(platform: Platform, port_name: &str) -> (r: bool)
    ensures
        r == tty_twin(platform, port_name@),
{
    match platform {
        Platform::MacOs => text::begins_with(port_name, "/dev/tty.") || text::begins_with(
            port_name,
            "tty.",
        ),
        _ => false,
    }
}

/// The port name as the daemon expects it: an absolute path on a Unix, unchanged elsewhere.
pub open spec fn canonical_port(platform: Platform, name: Seq<char>) -> Seq<char> {
    if platform.unix() && !"/dev/"@.is_prefix_of(name) {
        "/dev/"@ + name
    } else {
        name
    }
}

/// Makes a port name as the daemon expects it.
pub fn canonicalize_port_name(platform: Platform, name: &str) -> (r: String)
    ensures
        r@ == canonical_port(platform, name@),
{
    if platform.is_unix() && !text::begins_with(name, "/dev/") {
        let mut r: String = "/dev/".to_string();
        r.append(name);
        r
    } else {
        name.to_string()
    }
}

/// A port name without the directory of the device nodes.
pub open spec fn short_port(serialport: Seq<char>) -> Seq<char> {
    if "/dev/"@.is_prefix_of(serialport) {
        serialport.skip(5)
    } else {
        serialport
    }
}

/// The last four characters of a serial number, or all of a shorter one.
pub open spec fn serial_tail(serial: Seq<char>) -> Seq<char> {
    if serial.len() > 4 {
        serial.skip(serial.len() - 4)
    } else {
        serial
    }
}

/// The label of a device: the short port name, and the end of its serial number if it has one.
pub open spec fn device_label(serialport: Seq<char>, serial: Option<Seq<char>>) -> Seq<char> {
    match serial {
        Some(sn) => if sn.len() > 0 {
            "Reachy Mini ("@ + short_port(serialport) + " \u{00b7} "@ + serial_tail(sn) + ")"@
        } else {
            "Reachy Mini ("@ + short_port(serialport) + ")"@
        },
        None => "Reachy Mini ("@ + short_port(serialport) + ")"@,
    }
}

/// Builds a short label for the menu.
pub fn build_label(serialport: &str, info: &UsbPortInfo) -> (r: String)
    ensures
        r@ == device_label(serialport@, text::option_text(info.serial_number)),
{
    let mut r: String = "Reachy Mini (".to_string();
    if text::begins_with(serialport, "/dev/") {
        proof {
            reveal_strlit("/dev/");
        }
        let end: usize = serialport.unicode_len();
        r.append(serialport.substring_char(5, end));
        assert(serialport@.skip(5) =~= serialport@.subrange(5, end as int));
    } else {
        r.append(serialport);
    }
    if let Some(sn) = &info.serial_number {
        if !sn.as_str().is_empty() {
            r.append(" \u{00b7} ");
            let end: usize = sn.as_str().unicode_len();
            if end > 4 {
                r.append(sn.as_str().substring_char(end - 4, end));
                assert(sn@.skip(end - 4) =~= sn@.subrange(end - 4, end as int));
            } else {
                r.append(sn.as_str());
            }
        }
    }
    r.append(")");
    r
}

/// The port is that of a Reachy Mini, and not a twin.
pub open spec fn is_reachy(port: PortInfo, platform: Platform) -> bool {
    &&& port.usb matches Some(info) && info.vid == REACHY_VID && info.pid == REACHY_PID
    &&& !tty_twin(platform, port.port_name@)
}

/// The device behind the port of a Reachy Mini.
pub open spec fn device_at(port: PortInfo, platform: Platform) -> UsbDeviceView {
    let serial = text::option_text(port.usb->0.serial_number);
    let serialport = canonical_port(platform, port.port_name@);
    UsbDeviceView {
        serialport,
        label: device_label(serialport, serial),
        serial_number: serial,
    }
}

/// The devices among the ports, in the order of the ports.
pub open spec fn devices_at(ports: Seq<PortInfo>, platform: Platform) -> Seq<UsbDeviceView>
    decreases ports.len(),
{
    if ports.len() == 0 {
        Seq::empty()
    } else {
        let before = devices_at(ports.drop_last(), platform);
        if is_reachy(ports.last(), platform) {
            before.push(device_at(ports.last(), platform))
        } else {
            before
        }
    }
}

/// The devices on one serial port, in order.
pub open spec fn on_port(devices: Seq<UsbDeviceView>, port: Seq<char>) -> Seq<UsbDeviceView>
    decreases devices.len(),
{
    if devices.len() == 0 {
        Seq::empty()
    } else {
        let before = on_port(devices.drop_last(), port);
        if devices.last().serialport == port {
            before.push(devices.last())
        } else {
            before
        }
    }
}

/// The devices are ordered by their serial ports.
pub open spec fn ordered(devices: Seq<UsbDeviceView>) -> bool {
    forall|i: int, j: int|
        0 <= i < j < devices.len() ==> text::not_after(
            (#[trigger] devices[i]).serialport,
            (#[trigger] devices[j]).serialport,
        )
}

/// `sorted` holds the devices of `found` ordered by their serial ports; devices on one port keep
/// their order.
pub open spec fn sorted_from(sorted: Seq<UsbDeviceView>, found: Seq<UsbDeviceView>) -> bool {
    &&& ordered(sorted)
    &&& forall|port: Seq<char>| #[trigger] on_port(sorted, port) == on_port(found, port)
}

/// Picking by port goes through a concatenation.
proof fn lemma_on_port_concat(a: Seq<UsbDeviceView>, b: Seq<UsbDeviceView>, port: Seq<char>)
    ensures
        on_port(a + b, port) == on_port(a, port) + on_port(b, port),
    decreases b.len(),
{
    if b.len() == 0 {
        assert(a + b =~= a);
        assert(on_port(a, port) + on_port(b, port) =~= on_port(a, port));
    } else {
        lemma_on_port_concat(a, b.drop_last(), port);
        assert((a + b).drop_last() =~= a + b.drop_last());
        assert(on_port(a + b, port) =~= on_port(a, port) + on_port(b, port));
    }
}

/// Nothing is picked where no device is on the port.
proof fn lemma_on_port_none(a: Seq<UsbDeviceView>, port: Seq<char>)
    requires
        forall|i: int| 0 <= i < a.len() ==> (#[trigger] a[i]).serialport != port,
    ensures
        on_port(a, port) == Seq::<UsbDeviceView>::empty(),
    decreases a.len(),
{
    if a.len() > 0 {
        let x = a.drop_last();
        assert forall|i: int| 0 <= i < x.len() implies (#[trigger] x[i]).serialport != port by {
            assert(x[i] == a[i]);
        }
        lemma_on_port_none(x, port);
    }
}

/// What is picked stands in the list, on that port.
proof fn lemma_on_port_member(a: Seq<UsbDeviceView>, port: Seq<char>, k: int)
    requires
        0 <= k < on_port(a, port).len(),
    ensures
        exists|i: int| 0 <= i < a.len() && #[trigger] a[i] == on_port(a, port)[k],
        on_port(a, port)[k].serialport == port,
    decreases a.len(),
{
    let before = on_port(a.drop_last(), port);
    if k < before.len() {
        lemma_on_port_member(a.drop_last(), port, k);
        let i = choose|i: int|
            0 <= i < a.drop_last().len() && #[trigger] a.drop_last()[i] == before[k];
        assert(a[i] == on_port(a, port)[k]);
    } else {
        assert(a[a.len() - 1] == on_port(a, port)[k]);
    }
}

/// Every device of the list is picked by its own port.
proof fn lemma_on_port_has(a: Seq<UsbDeviceView>, i: int)
    requires
        0 <= i < a.len(),
    ensures
        on_port(a, a[i].serialport).contains(a[i]),
    decreases a.len(),
{
    let port = a[i].serialport;
    let before = on_port(a.drop_last(), port);
    if i < a.len() - 1 {
        lemma_on_port_has(a.drop_last(), i);
        let k = choose|k: int| 0 <= k < before.len() && before[k] == a[i];
        assert(on_port(a, port)[k] == a[i]);
    } else {
        assert(on_port(a, port)[before.len() as int] == a[i]);
    }
}

/// Inserting a device before all that come after it, and behind all others, keeps the list
/// ordered and puts the device last on its port.
proof fn lemma_insert(
    sorted: Seq<UsbDeviceView>,
    found: Seq<UsbDeviceView>,
    device: UsbDeviceView,
    at: int,
)
    requires
        sorted_from(sorted, found),
        0 <= at <= sorted.len(),
        forall|i: int|
            0 <= i < at ==> text::not_after((#[trigger] sorted[i]).serialport, device.serialport),
        forall|i: int|
            at <= i < sorted.len() ==> !text::not_after(
                (#[trigger] sorted[i]).serialport,
                device.serialport,
            ),
    ensures
        sorted_from(sorted.insert(at, device), found.push(device)),
{
    let longer = sorted.insert(at, device);
    let head = sorted.take(at);
    let tail = sorted.skip(at);
    assert forall|i: int, j: int| 0 <= i < j < longer.len() implies text::not_after(
        (#[trigger] longer[i]).serialport,
        (#[trigger] longer[j]).serialport,
    ) by {
        if i < at && j > at {
            assert(text::not_after(sorted[i].serialport, sorted[j - 1].serialport));
        } else if i < at && j < at {
            assert(text::not_after(sorted[i].serialport, sorted[j].serialport));
        } else if i == at {
            text::lemma_order_is_total(sorted[j - 1].serialport, device.serialport);
        } else if i > at {
            assert(text::not_after(sorted[i - 1].serialport, sorted[j - 1].serialport));
        }
    }
    assert forall|port: Seq<char>| #[trigger]
        on_port(longer, port) == on_port(found.push(device), port) by {
        assert(longer =~= head.push(device) + tail);
        assert(sorted =~= head + tail);
        lemma_on_port_concat(head.push(device), tail, port);
        lemma_on_port_concat(head, tail, port);
        assert(head.push(device).drop_last() =~= head);
        assert(found.push(device).drop_last() =~= found);
        assert(on_port(sorted, port) == on_port(found, port));
        if device.serialport == port {
            assert forall|i: int| 0 <= i < tail.len() implies (#[trigger] tail[i]).serialport
                != port by {
                assert(tail[i] == sorted[at + i]);
                text::lemma_order_is_total(port, port);
            }
            lemma_on_port_none(tail, port);
            assert(on_port(head, port) + Seq::<UsbDeviceView>::empty() =~= on_port(head, port));
            assert(on_port(longer, port) =~= on_port(found, port).push(device));
        }
    }
}

/// Lists the devices among the ports of the system, ordered by their serial ports so that the
/// menu does not reshuffle between scans. Ports that could not be listed count as none.
pub fn list_reachy_devices(ports: &Result<Vec<PortInfo>, String>, platform: Platform) -> (r: Vec<
    UsbDevice,
>)
    ensures
        match *ports {
            Ok(list) => sorted_from(devices_view(r@), devices_at(list@, platform)),
            Err(_) => r@.len() == 0,
        },
{
    let mut devices: Vec<UsbDevice> = Vec::new();
    let list: &Vec<PortInfo> = match ports {
        Ok(list) => list,
        Err(_) => return devices,
    };
    let mut n: usize = 0;
    proof {
        assert(list@.take(0) =~= Seq::empty());
        assert(devices_view(devices@) =~= Seq::empty());
    }
    while n < list.len()
        invariant
            n <= list.len(),
            sorted_from(devices_view(devices@), devices_at(list@.take(n as int), platform)),
        decreases list.len() - n,
    {
        let port: &PortInfo = &list[n];
        proof {
            assert(list@.take(n + 1).drop_last() =~= list@.take(n as int));
            assert(list@.take(n + 1).last() == *port);
        }
        if let Some(info) = &port.usb {
            if info.vid == REACHY_VID && info.pid == REACHY_PID && !is_macos_tty_twin(
                platform,
                port.port_name.as_str(),
            ) {
                let serialport: String = canonicalize_port_name(platform, port.port_name.as_str());
                let label: String = build_label(serialport.as_str(), info);
                let device = UsbDevice {
                    serialport,
                    label,
                    serial_number: text::copy_option(&info.serial_number),
                };
                let ghost before = devices_view(devices@);
                let ghost found = devices_at(list@.take(n as int), platform);
                let mut at: usize = devices.len();
                while at > 0 && !text::in_order(
                    devices[at - 1].serialport.as_str(),
                    device.serialport.as_str(),
                )
                    invariant
                        at <= devices.len(),
                        before == devices_view(devices@),
                        forall|i: int|
                            at <= i < before.len() ==> !text::not_after(
                                (#[trigger] before[i]).serialport,
                                device.serialport@,
                            ),
                    decreases at,
                {
                    at = at - 1;
                }
                proof {
                    assert forall|i: int| 0 <= i < at implies text::not_after(
                        (#[trigger] before[i]).serialport,
                        device.serialport@,
                    ) by {
                        if i < at - 1 {
                            assert(text::not_after(
                                before[i].serialport,
                                before[at - 1].serialport,
                            ));
                            text::lemma_order_is_transitive(
                                before[i].serialport,
                                before[at - 1].serialport,
                                device.serialport@,
                            );
                        }
                    }
                    lemma_insert(before, found, device@, at as int);
                }
                devices.insert(at, device);
                assert(devices_view(devices@) =~= before.insert(at as int, device@));
            }
        }
        n = n + 1;
    }
    assert(list@.take(n as int) =~= list@);
    devices
}

/// A selected port is among the devices.
pub open spec fn plugged(devices: Seq<UsbDeviceView>, path: Seq<char>) -> bool {
    exists|i: int| 0 <= i < devices.len() && (#[trigger] devices[i]).serialport == path
}

/// The selection after a scan: a single device is selected where nothing was, and a selected one
/// that is gone is dropped. Under a daemon that is coming up or is up nothing changes.
pub open spec fn reconciled(
    selected: Option<Seq<char>>,
    devices: Seq<UsbDeviceView>,
    busy: bool,
) -> Option<Seq<char>> {
    if busy {
        selected
    } else {
        match selected {
            None => if devices.len() == 1 {
                Some(devices[0].serialport)
            } else {
                None
            },
            Some(path) => if plugged(devices, path) {
                Some(path)
            } else {
                None
            },
        }
    }
}

/// Applies the outcome of a scan to the selected port.
pub fn reconcile_after_scan(app: &mut AppState, devices: &Vec<UsbDevice>, busy: bool)
    ensures
        final(app)@ == (AppView {
            serialport: reconciled(old(app)@.serialport, devices_view(devices@), busy),
            ..old(app)@
        }),
{
    if busy {
        return;
    }
    let ghost view = devices_view(devices@);
    match state::current_serialport(app) {
        None => {
            if devices.len() == 1 {
                state::set_serialport(app, Some(devices[0].serialport.clone()));
            }
        },
        Some(path) => {
            let mut i: usize = 0;
            while i < devices.len()
                invariant
                    i <= devices.len(),
                    view == devices_view(devices@),
                    old(app)@.serialport == Some(path@),
                    app@ == old(app)@,
                    !busy,
                    forall|j: int| 0 <= j < i ==> (#[trigger] view[j]).serialport != path@,
                decreases devices.len() - i,
            {
                if text::same(devices[i].serialport.as_str(), path.as_str()) {
                    assert(view[i as int].serialport == path@);
                    assert(plugged(view, path@));
                    return;
                }
                i = i + 1;
            }
            state::set_serialport(app, None);
        },
    }
}

/// Takes in a scan of the ports: updates the selected port and the list of devices, and tells
/// whether the list has changed, so that the menu must be rendered anew.
pub fn scan_and_apply(
    app: &mut AppState,
    ports: &Result<Vec<PortInfo>, String>,
    platform: Platform,
) -> (changed: bool)
    ensures
        ({
            let devices = final(app)@.usb_devices;
            &&& match *ports {
                Ok(list) => sorted_from(devices, devices_at(list@, platform)),
                Err(_) => devices.len() == 0,
            }
            &&& final(app)@ == (AppView {
                usb_devices: devices,
                serialport: reconciled(
                    old(app)@.serialport,
                    devices,
                    old(app)@.state.busy(),
                ),
                ..old(app)@
            })
            &&& changed == (devices != old(app)@.usb_devices)
        }),
{
    let busy: bool = state::current_daemon_state(app).is_busy();
    let devices: Vec<UsbDevice> = list_reachy_devices(ports, platform);
    reconcile_after_scan(app, &devices, busy);
    state::set_usb_devices(app, devices)
}

/// The pause before the next scan, in milliseconds.
pub fn scan_interval_ms(app: &AppState) -> (r: u64)
    ensures
        r == (if app@.state.busy() {
            SCAN_INTERVAL_BUSY_MS
        } else {
            SCAN_INTERVAL_IDLE_MS
        }),
{
    if state::current_daemon_state(app).is_busy() {
        SCAN_INTERVAL_BUSY_MS
    } else {
        SCAN_INTERVAL_IDLE_MS
    }
}

/// Two ordered lists with the same devices on every port are the same.
proof fn lemma_sorted_unique(a: Seq<UsbDeviceView>, b: Seq<UsbDeviceView>)
    requires
        ordered(a),
        ordered(b),
        forall|port: Seq<char>| #[trigger] on_port(a, port) == on_port(b, port),
    ensures
        a == b,
    decreases a.len(),
{
    if a.len() == 0 {
        if b.len() > 0 {
            lemma_on_port_has(b, 0);
            assert(on_port(a, b[0].serialport).len() == 0);
        }
        assert(a =~= b);
    } else {
        lemma_on_port_has(a, a.len() - 1);
        let p = a.last().serialport;
        assert(on_port(a, p) == on_port(b, p));
        let k = choose|k: int| 0 <= k < on_port(a, p).len() && on_port(a, p)[k] == a.last();
        lemma_on_port_member(b, p, k);
        lemma_on_port_has(b, b.len() - 1);
        let q = b.last().serialport;
        assert(on_port(a, q) == on_port(b, q));
        let m = choose|m: int| 0 <= m < on_port(b, q).len() && on_port(b, q)[m] == b.last();
        lemma_on_port_member(a, q, m);
        let i = choose|i: int| 0 <= i < a.len() && #[trigger] a[i] == on_port(a, q)[m];
        let j = choose|j: int| 0 <= j < b.len() && #[trigger] b[j] == on_port(b, p)[k];
        text::lemma_order_is_total(p, q);
        assert(text::not_after(q, p)) by {
            if i < a.len() - 1 {
                assert(text::not_after(a[i].serialport, a[a.len() - 1].serialport));
            } else {
                text::lemma_order_is_total(q, q);
            }
        }
        assert(text::not_after(p, q)) by {
            if j < b.len() - 1 {
                assert(text::not_after(b[j].serialport, b[b.len() - 1].serialport));
            } else {
                text::lemma_order_is_total(p, p);
            }
        }
        assert(p == q);
        assert(on_port(a, p).last() == a.last());
        assert(on_port(b, p).last() == b.last());
        let x = a.drop_last();
        let y = b.drop_last();
        assert forall|port: Seq<char>| #[trigger] on_port(x, port) == on_port(y, port) by {
            assert(on_port(a, port) == on_port(b, port));
            if port == p {
                assert(on_port(a, port).drop_last() =~= on_port(x, port));
                assert(on_port(b, port).drop_last() =~= on_port(y, port));
            }
        }
        assert forall|s: int, t: int| 0 <= s < t < x.len() implies text::not_after(
            (#[trigger] x[s]).serialport,
            (#[trigger] x[t]).serialport,
        ) by {
            assert(text::not_after(a[s].serialport, a[t].serialport));
        }
        assert forall|s: int, t: int| 0 <= s < t < y.len() implies text::not_after(
            (#[trigger] y[s]).serialport,
            (#[trigger] y[t]).serialport,
        ) by {
            assert(text::not_after(b[s].serialport, b[t].serialport));
        }
        lemma_sorted_unique(x, y);
        assert(a =~= x.push(a.last()));
        assert(b =~= y.push(b.last()));
    }
}

/// No two devices share a serial port.
pub open spec fn ports_differ(devices: Seq<UsbDeviceView>) -> bool {
    forall|i: int, j: int|
        0 <= i < j < devices.len() ==> (#[trigger] devices[i]).serialport != (
        #[trigger] devices[j]).serialport
}

/// A device on a port of its own is all that is picked by that port.
proof fn lemma_on_port_single(a: Seq<UsbDeviceView>, i: int)
    requires
        0 <= i < a.len(),
        ports_differ(a),
    ensures
        on_port(a, a[i].serialport) == seq![a[i]],
    decreases a.len(),
{
    let port = a[i].serialport;
    let x = a.drop_last();
    assert(ports_differ(x)) by {
        assert forall|s: int, t: int| 0 <= s < t < x.len() implies (#[trigger] x[s]).serialport != (
        #[trigger] x[t]).serialport by {
            assert(a[s].serialport != a[t].serialport);
        }
    }
    if i < a.len() - 1 {
        assert(a[i].serialport != a[a.len() - 1].serialport);
        lemma_on_port_single(x, i);
    } else {
        assert forall|s: int| 0 <= s < x.len() implies (#[trigger] x[s]).serialport != port by {
            assert(a[s].serialport != a[i].serialport);
        }
        lemma_on_port_none(x, port);
        assert(on_port(a, port) =~= seq![a[i]]);
    }
}

/// The menu does not reshuffle between scans: the same devices, each on a port of its own, give
/// the same list in whatever order the system names their ports.
pub proof fn law_list_ignores_scan_order(
    found: Seq<UsbDeviceView>,
    again: Seq<UsbDeviceView>,
    first: Seq<UsbDeviceView>,
    second: Seq<UsbDeviceView>,
)
    requires
        ports_differ(found),
        ports_differ(again),
        forall|d: UsbDeviceView| found.contains(d) <==> again.contains(d),
        sorted_from(first, found),
        sorted_from(second, again),
    ensures
        first == second,
{
    assert forall|port: Seq<char>| #[trigger] on_port(first, port) == on_port(second, port) by {
        assert(on_port(first, port) == on_port(found, port));
        assert(on_port(second, port) == on_port(again, port));
        if plugged(found, port) {
            let i = choose|i: int|
                0 <= i < found.len() && (#[trigger] found[i]).serialport == port;
            assert(found.contains(found[i]));
            assert(again.contains(found[i]));
            let j = choose|j: int| 0 <= j < again.len() && again[j] == found[i];
            lemma_on_port_single(found, i);
            lemma_on_port_single(again, j);
        } else {
            lemma_on_port_none(found, port);
            assert forall|j: int| 0 <= j < again.len() implies (#[trigger] again[j]).serialport
                != port by {
                assert(again.contains(again[j]));
                assert(found.contains(again[j]));
                let i = choose|i: int| 0 <= i < found.len() && found[i] == again[j];
                assert(found[i].serialport != port);
            }
            lemma_on_port_none(again, port);
        }
    }
    lemma_sorted_unique(first, second);
}

/// The order of the list is stable: a list of devices has only one ordering.
pub proof fn law_list_is_determined(
    found: Seq<UsbDeviceView>,
    first: Seq<UsbDeviceView>,
    second: Seq<UsbDeviceView>,
)
    requires
        sorted_from(first, found),
        sorted_from(second, found),
    ensures
        first == second,
{
    assert forall|port: Seq<char>| #[trigger] on_port(first, port) == on_port(second, port) by {
        assert(on_port(first, port) == on_port(found, port));
        assert(on_port(second, port) == on_port(found, port));
    }
    lemma_sorted_unique(first, second);
}

/// A device is listed exactly when it was found.
pub proof fn law_list_is_complete(
    found: Seq<UsbDeviceView>,
    sorted: Seq<UsbDeviceView>,
    device: UsbDeviceView,
)
    requires
        sorted_from(sorted, found),
    ensures
        sorted.contains(device) <==> found.contains(device),
{
    let port = device.serialport;
    assert(on_port(sorted, port) == on_port(found, port));
    if sorted.contains(device) {
        let i = choose|i: int| 0 <= i < sorted.len() && sorted[i] == device;
        lemma_on_port_has(sorted, i);
        let k = choose|k: int|
            0 <= k < on_port(sorted, port).len() && on_port(sorted, port)[k] == device;
        lemma_on_port_member(found, port, k);
    }
    if found.contains(device) {
        let i = choose|i: int| 0 <= i < found.len() && found[i] == device;
        lemma_on_port_has(found, i);
        let k = choose|k: int|
            0 <= k < on_port(found, port).len() && on_port(found, port)[k] == device;
        lemma_on_port_member(sorted, port, k);
    }
}

/// A canonical port name is its own canonical form, and absolute on a Unix; canonicalizing makes
/// no port a twin.
pub proof fn law_canonical_port(platform: Platform, name: Seq<char>)
    ensures
        canonical_port(platform, canonical_port(platform, name)) == canonical_port(platform, name),
        platform.unix() ==> "/dev/"@.is_prefix_of(canonical_port(platform, name)),
        !tty_twin(platform, name) ==> !tty_twin(platform, canonical_port(platform, name)),
{
    reveal_strlit("/dev/");
    reveal_strlit("/dev/tty.");
    reveal_strlit("tty.");
    let full = canonical_port(platform, name);
    if platform.unix() && !"/dev/"@.is_prefix_of(name) {
        assert(full.subrange(0, 5) =~= "/dev/"@);
        if "/dev/tty."@.is_prefix_of(full) {
            assert(name.subrange(0, 4) =~= "tty."@) by {
                assert forall|i: int| 0 <= i < 4 implies name.subrange(0, 4)[i] == "tty."@[i] by {
                    assert(full[i + 5] == name[i]);
                    assert(full.subrange(0, 9)[i + 5] == "/dev/tty."@[i + 5]);
                }
            }
        }
        if "tty."@.is_prefix_of(full) {
            assert(full.subrange(0, 4)[0] == "tty."@[0]);
        }
    }
}

/// Every listed device has a canonical port that is no twin, and the label that goes with it.
pub proof fn law_listed_devices_are_sound(ports: Seq<PortInfo>, platform: Platform, i: int)
    requires
        0 <= i < devices_at(ports, platform).len(),
    ensures
        ({
            let device = devices_at(ports, platform)[i];
            &&& device.serialport == canonical_port(platform, device.serialport)
            &&& !tty_twin(platform, device.serialport)
            &&& device.label == device_label(device.serialport, device.serial_number)
        }),
    decreases ports.len(),
{
    let before = devices_at(ports.drop_last(), platform);
    if i < before.len() {
        law_listed_devices_are_sound(ports.drop_last(), platform, i);
    } else {
        law_canonical_port(platform, ports.last().port_name@);
    }
}

/// Applying the same scan again changes nothing more, except that a single device takes the place
/// of a selection just dropped, and then no more; an explicit choice that is still plugged in is
/// never overridden; outside of a run the selection is always a listed device.
pub proof fn law_reconcile(
    selected: Option<Seq<char>>,
    devices: Seq<UsbDeviceView>,
    busy: bool,
)
    ensures
        ({
            let once = reconciled(selected, devices, busy);
            let twice = reconciled(once, devices, busy);
            &&& selected is None || once is Some || devices.len() != 1 ==> twice == once
            &&& reconciled(twice, devices, busy) == twice
            &&& busy ==> once == selected
            &&& selected matches Some(path) ==> plugged(devices, path) ==> once == selected
            &&& !busy ==> (once matches Some(path) ==> plugged(devices, path))
        }),
{
    if devices.len() == 1 {
        assert(plugged(devices, devices[0].serialport));
    }
}

/// The port name as the daemon expects it: on a Unix an absolute path, made so where it is not; on
/// another system as it is.
pub proof fn law_port_name(platform: Platform, name: Seq<char>)
    ensures
        ({
            let unix = platform is MacOs || platform is Linux || platform is OtherUnix;
            let absolute = name.len() >= 5 && name.take(5) == "/dev/"@;
            let full = canonical_port(platform, name);
            &&& unix && !absolute ==> full == "/dev/"@ + name
            &&& !unix || absolute ==> full == name
            &&& absolute ==> short_port(name) == name.skip(5)
            &&& !absolute ==> short_port(name) == name
            &&& short_port("/dev/"@ + name) == name
        }),
{
    reveal_strlit("/dev/");
    if name.len() >= 5 {
        assert(name.take(5) =~= name.subrange(0, 5));
    }
    let full = "/dev/"@ + name;
    assert(full.subrange(0, 5) =~= "/dev/"@);
    assert(full.skip(5) =~= name);
}

/// A device is labelled with its short port and, where it has a serial number, with the last four
/// characters of it.
pub proof fn law_device_label(serialport: Seq<char>, serial: Option<Seq<char>>)
    ensures
        ({
            let port = short_port(serialport);
            let label = device_label(serialport, serial);
            &&& (serial matches Some(sn) ==> sn.len() == 0) ==> label == "Reachy Mini ("@ + port
                + ")"@
            &&& serial matches Some(sn) ==> sn.len() > 0 ==> {
                let tail = serial_tail(sn);
                &&& label == "Reachy Mini ("@ + port + " \u{00b7} "@ + tail + ")"@
                &&& sn.len() >= 4 ==> tail.len() == 4
                &&& sn.len() < 4 ==> tail == sn
                &&& tail == sn.skip(sn.len() - tail.len())
            }
        }),
{
    if let Some(sn) = serial {
        assert(sn.skip(0) =~= sn);
    }
}

/// The port is one the robots are found on: a USB port with the robot's vendor and product number,
/// and on macOS not the call-in one of the two it is listed under.
spec fn robot_port(port: PortInfo, platform: Platform) -> bool {
    let name = port.port_name@;
    &&& port.usb matches Some(info) && info.vid == 0x1a86 && info.pid == 0x55d3
    &&& !(platform is MacOs && ("/dev/tty."@.is_prefix_of(name) || "tty."@.is_prefix_of(name)))
}

/// Where a listed device comes from.
proof fn lemma_device_source(ports: Seq<PortInfo>, platform: Platform, j: int) -> (i: int)
    requires
        0 <= j < devices_at(ports, platform).len(),
    ensures
        0 <= i < ports.len(),
        is_reachy(ports[i], platform),
        devices_at(ports, platform)[j] == device_at(ports[i], platform),
    decreases ports.len(),
{
    let before = devices_at(ports.drop_last(), platform);
    if j < before.len() {
        lemma_device_source(ports.drop_last(), platform, j)
    } else {
        ports.len() - 1
    }
}

/// Where the device of a port is listed.
proof fn lemma_device_place(ports: Seq<PortInfo>, platform: Platform, i: int) -> (j: int)
    requires
        0 <= i < ports.len(),
        is_reachy(ports[i], platform),
    ensures
        0 <= j < devices_at(ports, platform).len(),
        devices_at(ports, platform)[j] == device_at(ports[i], platform),
    decreases ports.len(),
{
    let before = devices_at(ports.drop_last(), platform);
    if i < ports.len() - 1 {
        lemma_device_place(ports.drop_last(), platform, i)
    } else {
        before.len() as int
    }
}

/// On every platform the list holds a device for each USB port with the vendor number 0x1a86 and
/// the product number 0x55d3, under its canonical name and with its serial number, but on macOS
/// none for a port named `/dev/tty.*` or `tty.*`.
pub proof fn law_every_robot_is_listed(
    ports: Seq<PortInfo>,
    platform: Platform,
    listed: Seq<UsbDeviceView>,
    i: int,
)
    requires
        sorted_from(listed, devices_at(ports, platform)),
        0 <= i < ports.len(),
        ports[i].usb matches Some(info) && info.vid == 0x1a86 && info.pid == 0x55d3,
        !(platform is MacOs && ("/dev/tty."@.is_prefix_of(ports[i].port_name@)
            || "tty."@.is_prefix_of(ports[i].port_name@))),
    ensures
        exists|j: int|
            0 <= j < listed.len() && (#[trigger] listed[j]).serialport == canonical_port(
                platform,
                ports[i].port_name@,
            ) && listed[j].serial_number == text::option_text(ports[i].usb->0.serial_number)
                && listed[j].label == device_label(listed[j].serialport, listed[j].serial_number),
{
    let found = devices_at(ports, platform);
    let k = lemma_device_place(ports, platform, i);
    law_list_is_complete(found, listed, found[k]);
    assert(found.contains(found[k]));
    let j = choose|j: int| 0 <= j < listed.len() && listed[j] == found[k];
    assert(listed[j].serialport == canonical_port(platform, ports[i].port_name@));
}

/// Every listed device stands for such a port, and for no other.
pub proof fn law_only_robots_are_listed(
    ports: Seq<PortInfo>,
    platform: Platform,
    listed: Seq<UsbDeviceView>,
    j: int,
)
    requires
        sorted_from(listed, devices_at(ports, platform)),
        0 <= j < listed.len(),
    ensures
        exists|i: int|
            {
                &&& 0 <= i < ports.len()
                &&& (#[trigger] ports[i]).usb matches Some(info) && info.vid == 0x1a86 && info.pid
                    == 0x55d3
                &&& !(platform is MacOs && ("/dev/tty."@.is_prefix_of(ports[i].port_name@)
                    || "tty."@.is_prefix_of(ports[i].port_name@)))
                &&& listed[j].serialport == canonical_port(platform, ports[i].port_name@)
                &&& listed[j].serial_number == text::option_text(ports[i].usb->0.serial_number)
                &&& listed[j].label == device_label(listed[j].serialport, listed[j].serial_number)
            },
{
    let found = devices_at(ports, platform);
    law_list_is_complete(found, listed, listed[j]);
    assert(listed.contains(listed[j]));
    let k = choose|k: int| 0 <= k < found.len() && found[k] == listed[j];
    let i = lemma_device_source(ports, platform, k);
    assert(robot_port(ports[i], platform));
}

/// The position at which a device joins an ordered list.
proof fn lemma_joining_place(sorted: Seq<UsbDeviceView>, port: Seq<char>) -> (at: int)
    requires
        ordered(sorted),
    ensures
        0 <= at <= sorted.len(),
        forall|i: int| 0 <= i < at ==> text::not_after((#[trigger] sorted[i]).serialport, port),
        forall|i: int|
            at <= i < sorted.len() ==> !text::not_after((#[trigger] sorted[i]).serialport, port),
    decreases sorted.len(),
{
    if sorted.len() == 0 {
        0
    } else if text::not_after(sorted.last().serialport, port) {
        assert forall|i: int| 0 <= i < sorted.len() implies text::not_after(
            (#[trigger] sorted[i]).serialport,
            port,
        ) by {
            if i < sorted.len() - 1 {
                assert(text::not_after(sorted[i].serialport, sorted[sorted.len() - 1].serialport));
                text::lemma_order_is_transitive(
                    sorted[i].serialport,
                    sorted[sorted.len() - 1].serialport,
                    port,
                );
            }
        }
        sorted.len() as int
    } else {
        let x = sorted.drop_last();
        assert forall|s: int, t: int| 0 <= s < t < x.len() implies text::not_after(
            (#[trigger] x[s]).serialport,
            (#[trigger] x[t]).serialport,
        ) by {
            assert(text::not_after(sorted[s].serialport, sorted[t].serialport));
        }
        let at = lemma_joining_place(x, port);
        assert forall|i: int| 0 <= i < at implies text::not_after(
            (#[trigger] sorted[i]).serialport,
            port,
        ) by {
            assert(sorted[i] == x[i]);
        }
        assert forall|i: int| at <= i < sorted.len() implies !text::not_after(
            (#[trigger] sorted[i]).serialport,
            port,
        ) by {
            if i < x.len() {
                assert(sorted[i] == x[i]);
            }
        }
        at
    }
}

/// Any devices can be ordered, without one lost or added.
proof fn lemma_ordering(found: Seq<UsbDeviceView>) -> (sorted: Seq<UsbDeviceView>)
    ensures
        sorted_from(sorted, found),
        sorted.to_multiset() == found.to_multiset(),
    decreases found.len(),
{
    if found.len() == 0 {
        found
    } else {
        let d = found.last();
        let rest = found.drop_last();
        let before = lemma_ordering(rest);
        let at = lemma_joining_place(before, d.serialport);
        lemma_insert(before, rest, d, at);
        vstd::seq_lib::to_multiset_insert(before, at, d);
        vstd::seq_lib::to_multiset_build(rest, d);
        assert(rest.push(d) =~= found);
        before.insert(at, d)
    }
}

/// The list is the devices that were found, as many times as they were, ordered by port: each port
/// is a prefix of any later one, or smaller where they first differ.
pub proof fn law_list_is_an_ordering(found: Seq<UsbDeviceView>, listed: Seq<UsbDeviceView>)
    requires
        sorted_from(listed, found),
    ensures
        listed.to_multiset() == found.to_multiset(),
        forall|i: int, j: int|
            0 <= i < j < listed.len() ==> {
                let a = (#[trigger] listed[i]).serialport;
                let b = (#[trigger] listed[j]).serialport;
                a.is_prefix_of(b) || exists|k: int|
                    0 <= k < a.len() && k < b.len() && a.take(k) == b.take(k) && #[trigger] a[k]
                        < b[k]
            },
{
    let other = lemma_ordering(found);
    law_list_is_determined(found, listed, other);
    assert forall|i: int, j: int| 0 <= i < j < listed.len() implies {
        let a = (#[trigger] listed[i]).serialport;
        let b = (#[trigger] listed[j]).serialport;
        a.is_prefix_of(b) || exists|k: int|
            0 <= k < a.len() && k < b.len() && a.take(k) == b.take(k) && #[trigger] a[k] < b[k]
    } by {
        text::law_text_order(listed[i].serialport, listed[j].serialport);
    }
}

/// Ports are listed one by one: the devices of two scans put together are those of the first and
/// then those of the second, before they are ordered.
pub proof fn law_ports_are_listed_one_by_one(
    a: Seq<PortInfo>,
    b: Seq<PortInfo>,
    platform: Platform,
)
    ensures
        devices_at(a + b, platform) == devices_at(a, platform) + devices_at(b, platform),
    decreases b.len(),
{
    if b.len() == 0 {
        assert(a + b =~= a);
    } else {
        law_ports_are_listed_one_by_one(a, b.drop_last(), platform);
        assert((a + b).drop_last() =~= a + b.drop_last());
    }
    assert(devices_at(a + b, platform) =~= devices_at(a, platform) + devices_at(b, platform));
}

/// A scan while no daemon is starting or running keeps a selection exactly while it is plugged in,
/// and makes one only of a single device and only where there was none; any other scan leaves the
/// selection alone.
pub proof fn law_selection(
    selected: Option<Seq<char>>,
    devices: Seq<UsbDeviceView>,
    busy: bool,
)
    ensures
        ({
            let after = reconciled(selected, devices, busy);
            &&& busy ==> after == selected
            &&& !busy && selected is Some ==> {
                let there = exists|i: int|
                    0 <= i < devices.len() && (#[trigger] devices[i]).serialport == selected->0;
                &&& there ==> after == selected
                &&& !there ==> after is None
            }
            &&& !busy && selected is None && devices.len() == 1 ==> after == Some(
                devices[0].serialport,
            )
            &&& !busy && selected is None && devices.len() != 1 ==> after is None
        }),
{
}

/// The contracts see a device as it is, field by field, and a list device by device.
pub proof fn law_devices_are_seen_whole(devices: Seq<UsbDevice>, i: int)
    requires
        0 <= i < devices.len(),
    ensures
        devices_view(devices).len() == devices.len(),
        devices_view(devices)[i].serialport == devices[i].serialport@,
        devices_view(devices)[i].label == devices[i].label@,
        devices_view(devices)[i].serial_number is Some <==> devices[i].serial_number is Some,
        devices[i].serial_number matches Some(sn) ==> devices_view(devices)[i].serial_number
            == Some(sn@),
{
}

/// The cadences of the scanner, in milliseconds.
pub proof fn law_scan_cadences()
    ensures
        SCAN_INTERVAL_IDLE_MS == 2_000 && SCAN_INTERVAL_BUSY_MS == 15_000,
        HOTPLUG_SETTLE_DELAY_MS == 300,
{
}

/// A port is a twin exactly on macOS and under a name that begins like that of a call-in port.
pub proof fn law_twins(platform: Platform, name: Seq<char>)
    ensures
        tty_twin(platform, name) <==> platform is MacOs && ("/dev/tty."@.is_prefix_of(name)
            || "tty."@.is_prefix_of(name)),
{
}

} // verus!
