//! Where the daemon's data lives.

use reachy_mini_tray::daemon::build_daemon_args;
use reachy_mini_tray::paths::{
    data_dir, is_bootstrap_done, reset_bootstrap, venv_python_path, DataVars,
};
use reachy_mini_tray::state::{Mode, Platform};

fn vars(home: Option<&str>, local: Option<&str>, xdg: Option<&str>) -> DataVars {
    DataVars {
        home: home.map(|s| s.to_string()),
        local_app_data: local.map(|s| s.to_string()),
        xdg_data_home: xdg.map(|s| s.to_string()),
    }
}

#[test]
fn data_dir_by_platform() {
    let all = vars(Some("/h"), Some("C:\\l"), Some("/x"));
    assert_eq!(
        data_dir(Platform::MacOs, &all).unwrap(),
        vec!["/h", "Library", "Application Support", "com.pollen-robotics.reachy-mini"]
    );
    assert_eq!(
        data_dir(Platform::Windows, &all).unwrap(),
        vec!["C:\\l", "Reachy Mini Control"]
    );
    assert_eq!(
        data_dir(Platform::Linux, &all).unwrap(),
        vec!["/x", "reachy-mini-control"]
    );
    assert_eq!(
        data_dir(Platform::Linux, &vars(Some("/h"), None, None)).unwrap(),
        vec!["/h", ".local/share", "reachy-mini-control"]
    );
    assert!(data_dir(Platform::OtherUnix, &all).is_none());
    assert!(data_dir(Platform::Other, &all).is_none());
    let none = vars(None, None, None);
    for platform in [Platform::MacOs, Platform::Windows, Platform::Linux] {
        assert!(data_dir(platform, &none).is_none());
    }
}

#[test]
fn interpreter_marks_the_setup_as_done() {
    let home = vars(Some("/h"), None, None);
    let python = venv_python_path(Platform::Linux, &home);
    assert_eq!(
        python.as_ref().unwrap().join("/"),
        "/h/.local/share/reachy-mini-control/.venv/bin/python3"
    );
    assert!(is_bootstrap_done(&python, true));
    assert!(!is_bootstrap_done(&python, false));
    assert!(!is_bootstrap_done(&None, true));
    let windows = venv_python_path(Platform::Windows, &vars(None, Some("L"), None)).unwrap();
    assert_eq!(windows, vec!["L", "Reachy Mini Control", ".venv", "Scripts", "python.exe"]);
    let run = build_daemon_args(Mode::Usb, None, Platform::Windows);
    assert_eq!(run[0], windows[2..].join("\\"));
}

#[test]
fn reset_removes_both_environments() {
    let targets = reset_bootstrap(Platform::Linux, &vars(None, None, Some("/x"))).unwrap();
    assert_eq!(
        targets,
        vec![
            vec!["/x", "reachy-mini-control", ".venv"],
            vec!["/x", "reachy-mini-control", "apps_venv"],
        ]
    );
    assert_eq!(
        reset_bootstrap(Platform::Other, &vars(None, None, None)).unwrap_err(),
        "data dir unavailable"
    );
}
