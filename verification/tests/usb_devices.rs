//! Detection and selection of robots on the USB bus.

use reachy_mini_tray::state::{
    current_serialport, set_serialport, AppState, DaemonState, Platform,
};
use reachy_mini_tray::usb::{
    build_label, canonicalize_port_name, is_macos_tty_twin, list_reachy_devices,
    reconcile_after_scan, scan_and_apply, scan_interval_ms, PortInfo, UsbDevice, UsbPortInfo,
    REACHY_PID, REACHY_VID,
};
use serialport::SerialPortType;

fn platform(os: &str) -> Platform {
    match os {
        "windows" => Platform::Windows,
        "macos" => Platform::MacOs,
        _ => Platform::Linux,
    }
}

fn fake_info(sn: Option<&str>) -> UsbPortInfo {
    UsbPortInfo {
        vid: REACHY_VID,
        pid: REACHY_PID,
        serial_number: sn.map(|s| s.to_string()),
    }
}

fn port(name: &str, sn: Option<&str>) -> PortInfo {
    PortInfo { port_name: name.to_string(), usb: Some(fake_info(sn)) }
}

fn names(devices: &[UsbDevice]) -> Vec<String> {
    devices.iter().map(|d| d.serialport.clone()).collect()
}

#[test]
fn label_without_serial_number_is_compact() {
    let info = fake_info(None);
    let label = build_label("/dev/cu.usbserial-2120", &info);
    assert_eq!(label, "Reachy Mini (cu.usbserial-2120)");
}

#[test]
fn label_with_serial_number_shows_last_four_chars() {
    let info = fake_info(Some("ABCDEFGH"));
    let label = build_label("/dev/cu.usbserial-2120", &info);
    // Last 4 of "ABCDEFGH" is "EFGH".
    assert_eq!(label, "Reachy Mini (cu.usbserial-2120 \u{00b7} EFGH)");
}

#[test]
fn label_with_short_serial_number_uses_full_value() {
    let info = fake_info(Some("AB"));
    let label = build_label("/dev/cu.usbserial-2120", &info);
    assert_eq!(label, "Reachy Mini (cu.usbserial-2120 \u{00b7} AB)");
}

#[test]
fn label_with_empty_serial_number_or_bare_port() {
    assert_eq!(build_label("COM3", &fake_info(Some(""))), "Reachy Mini (COM3)");
    assert_eq!(
        build_label("COM3", &fake_info(Some("\u{e9}\u{e8}\u{ea}\u{eb}\u{ee}"))),
        "Reachy Mini (COM3 \u{00b7} \u{e8}\u{ea}\u{eb}\u{ee})"
    );
}

#[test]
fn canonicalize_port_name_prepends_dev_on_unix() {
    for os in ["linux", "macos", "windows"] {
        let canonical = canonicalize_port_name(platform(os), "cu.usbserial-2120");
        if os != "windows" {
            assert_eq!(canonical, "/dev/cu.usbserial-2120");
        } else {
            assert_eq!(canonical, "cu.usbserial-2120");
        }
    }
}

#[test]
fn canonicalize_port_name_keeps_absolute_paths() {
    for os in ["linux", "macos"] {
        let canonical = canonicalize_port_name(platform(os), "/dev/ttyUSB0");
        assert_eq!(canonical, "/dev/ttyUSB0");
    }
}

#[test]
fn canonicalize_port_name_keeps_windows_com_unchanged() {
    let canonical = canonicalize_port_name(platform("windows"), "COM3");
    assert_eq!(canonical, "COM3");
}

#[test]
fn macos_tty_twin_is_filtered_out() {
    assert!(is_macos_tty_twin(platform("macos"), "/dev/tty.usbserial-2120"));
    assert!(is_macos_tty_twin(platform("macos"), "tty.usbserial-2120"));
    assert!(!is_macos_tty_twin(platform("macos"), "/dev/cu.usbserial-2120"));
    assert!(!is_macos_tty_twin(platform("macos"), "cu.usbserial-2120"));
}

#[test]
fn tty_ports_stay_elsewhere() {
    assert!(!is_macos_tty_twin(platform("linux"), "/dev/tty.usbserial-2120"));
}

#[test]
fn list_reachy_devices_does_not_panic_in_test_env() {
    let ports = match serialport::available_ports() {
        Ok(found) => Ok(found
            .into_iter()
            .map(|p| PortInfo {
                port_name: p.port_name,
                usb: match p.port_type {
                    SerialPortType::UsbPort(info) => Some(UsbPortInfo {
                        vid: info.vid,
                        pid: info.pid,
                        serial_number: info.serial_number,
                    }),
                    _ => None,
                },
            })
            .collect()),
        Err(e) => Err(e.to_string()),
    };
    let _ = list_reachy_devices(&ports, platform("linux"));
}

#[test]
fn list_keeps_only_robots_in_the_order_of_their_ports() {
    let ports = vec![
        port("/dev/cu.usbserial-2120", Some("ABCDEFGH")),
        PortInfo { port_name: "/dev/cu.Bluetooth".to_string(), usb: None },
        port("/dev/tty.usbserial-2120", Some("ABCDEFGH")),
        PortInfo {
            port_name: "/dev/cu.other".to_string(),
            usb: Some(UsbPortInfo { vid: REACHY_VID, pid: 1, serial_number: None }),
        },
        port("cu.usbserial-1110", None),
    ];
    let devices = list_reachy_devices(&Ok(ports), platform("macos"));
    assert_eq!(names(&devices), vec!["/dev/cu.usbserial-1110", "/dev/cu.usbserial-2120"]);
    assert_eq!(devices[0].label, "Reachy Mini (cu.usbserial-1110)");
    assert_eq!(devices[1].label, "Reachy Mini (cu.usbserial-2120 \u{00b7} EFGH)");
    assert_eq!(devices[1].serial_number.as_deref(), Some("ABCDEFGH"));
    assert!(list_reachy_devices(&Err("no bus".to_string()), platform("macos")).is_empty());
}

#[test]
fn list_does_not_depend_on_the_order_of_the_scan() {
    let one = list_reachy_devices(
        &Ok(vec![port("/dev/a", None), port("/dev/ab", None), port("/dev/B", None)]),
        platform("linux"),
    );
    let two = list_reachy_devices(
        &Ok(vec![port("/dev/B", None), port("/dev/ab", None), port("/dev/a", None)]),
        platform("linux"),
    );
    assert_eq!(one, two);
    assert_eq!(names(&one), vec!["/dev/B", "/dev/a", "/dev/ab"]);
}

#[test]
fn list_keeps_scan_order_on_one_port() {
    let devices = list_reachy_devices(
        &Ok(vec![
            port("/dev/a", Some("second")),
            port("/dev/a", Some("first")),
        ]),
        platform("linux"),
    );
    assert_eq!(devices[0].serial_number.as_deref(), Some("second"));
    assert_eq!(devices[1].serial_number.as_deref(), Some("first"));
}

fn dev(path: &str) -> UsbDevice {
    UsbDevice {
        serialport: path.to_string(),
        label: format!("Reachy Mini ({})", path),
        serial_number: None,
    }
}

#[test]
fn reconcile_auto_selects_single_device_when_unset() {
    let mut state = AppState::new();
    assert_eq!(current_serialport(&state), None);
    let only = dev("/dev/cu.usbserial-2120");
    reconcile_after_scan(&mut state, &vec![only], false);
    assert_eq!(
        current_serialport(&state).as_deref(),
        Some("/dev/cu.usbserial-2120")
    );
}

#[test]
fn reconcile_does_not_auto_select_when_multiple_devices() {
    let mut state = AppState::new();
    let devs = vec![dev("/dev/cu.usbserial-2120"), dev("/dev/cu.usbserial-1110")];
    reconcile_after_scan(&mut state, &devs, false);
    // Ambiguous: leave the choice to the user.
    assert_eq!(current_serialport(&state), None);
}

#[test]
fn reconcile_clears_selection_when_device_unplugged() {
    let mut state = AppState::new();
    set_serialport(&mut state, Some("/dev/cu.usbserial-2120".to_string()));
    reconcile_after_scan(&mut state, &vec![], false);
    assert_eq!(current_serialport(&state), None);
}

#[test]
fn reconcile_keeps_selection_when_still_present() {
    let mut state = AppState::new();
    set_serialport(&mut state, Some("/dev/cu.usbserial-2120".to_string()));
    let devs = vec![dev("/dev/cu.usbserial-2120"), dev("/dev/cu.usbserial-1110")];
    reconcile_after_scan(&mut state, &devs, false);
    assert_eq!(
        current_serialport(&state).as_deref(),
        Some("/dev/cu.usbserial-2120")
    );
}

#[test]
fn reconcile_is_no_op_while_daemon_busy() {
    let mut state = AppState::new();
    set_serialport(&mut state, Some("/dev/cu.usbserial-2120".to_string()));
    reconcile_after_scan(&mut state, &vec![], true);
    assert_eq!(
        current_serialport(&state).as_deref(),
        Some("/dev/cu.usbserial-2120")
    );
}

#[test]
fn scan_selects_lists_and_tells_changes() {
    let mut app = AppState::new();
    let ports = Ok(vec![port("ttyUSB0", None)]);
    assert!(scan_and_apply(&mut app, &ports, platform("linux")));
    assert_eq!(current_serialport(&app).as_deref(), Some("/dev/ttyUSB0"));
    assert!(!scan_and_apply(&mut app, &ports, platform("linux")));

    // Under a running daemon the list follows the bus, the selection does not.
    app.state = DaemonState::Running;
    assert!(scan_and_apply(&mut app, &Ok(vec![]), platform("linux")));
    assert!(app.usb_devices.is_empty());
    assert_eq!(current_serialport(&app).as_deref(), Some("/dev/ttyUSB0"));

    app.state = DaemonState::Idle;
    assert!(!scan_and_apply(&mut app, &Err("no bus".to_string()), platform("linux")));
    assert_eq!(current_serialport(&app), None);
}

#[test]
fn a_replacement_is_selected_one_scan_after_the_loss() {
    let mut state = AppState::new();
    set_serialport(&mut state, Some("/dev/gone".to_string()));
    let devs = vec![dev("/dev/here")];
    reconcile_after_scan(&mut state, &devs, false);
    assert_eq!(current_serialport(&state), None);
    reconcile_after_scan(&mut state, &devs, false);
    assert_eq!(current_serialport(&state).as_deref(), Some("/dev/here"));
}

#[test]
fn scan_slows_down_while_busy() {
    let mut app = AppState::new();
    assert_eq!(scan_interval_ms(&app), 2_000);
    app.state = DaemonState::Crashed;
    assert_eq!(scan_interval_ms(&app), 2_000);
    app.state = DaemonState::Starting;
    assert_eq!(scan_interval_ms(&app), 15_000);
    app.state = DaemonState::Running;
    assert_eq!(scan_interval_ms(&app), 15_000);
}

#[test]
fn canonical_names_stay_as_they_are() {
    for os in ["linux", "macos", "windows"] {
        for name in ["cu.usbserial-2120", "/dev/ttyUSB0", "COM3", ""] {
            let once = canonicalize_port_name(platform(os), name);
            assert_eq!(canonicalize_port_name(platform(os), &once), once);
            assert!(!is_macos_tty_twin(platform(os), &once));
        }
    }
}
