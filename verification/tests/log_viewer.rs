//! The ring buffer and the reading of log lines.

use reachy_mini_tray::commands::{clear_logs, get_logs};
use reachy_mini_tray::logs::{
    enabled, iso_short, log_record, normalize_level, now_ms, parse_line_level, push_external,
    LogEntry, LogStore, RecordLevel, MAX_LOG_LINES,
};

fn entry(n: u64) -> LogEntry {
    LogEntry {
        ts_ms: n,
        level: "INFO".to_string(),
        message: format!("line {}", n),
        target: "tray".to_string(),
    }
}

#[test]
fn store_keeps_the_last_lines() {
    let mut store = LogStore::new();
    for n in 0..2005u64 {
        store.push(entry(n));
    }
    let kept = get_logs(&store);
    assert_eq!(kept.len(), MAX_LOG_LINES);
    assert_eq!(kept[0].message, "line 5");
    assert_eq!(kept[1999].message, "line 2004");
    clear_logs(&mut store);
    assert!(get_logs(&store).is_empty());
}

#[test]
fn levels_are_normalized() {
    for (raw, level) in [
        ("critical", "ERROR"),
        (" err ", "ERROR"),
        ("Error", "ERROR"),
        ("warning", "WARN"),
        ("WARN", "WARN"),
        ("debug", "DEBUG"),
        ("trace\n", "TRACE"),
        ("", "INFO"),
        ("notice", "INFO"),
    ] {
        assert_eq!(normalize_level(raw), level, "{:?}", raw);
    }
}

#[test]
fn line_level_takes_the_most_severe_marker() {
    assert_eq!(parse_line_level("[info] then error: boom", "DEBUG"), "ERROR");
    assert_eq!(parse_line_level("CRITICAL: down", "INFO"), "ERROR");
    assert_eq!(parse_line_level("x [Warning] y", "INFO"), "WARN");
    assert_eq!(parse_line_level("warn: y", "INFO"), "WARN");
    assert_eq!(parse_line_level("INFO:     Started", "WARN"), "INFO");
    assert_eq!(parse_line_level("[debug] x", "WARN"), "DEBUG");
    assert_eq!(parse_line_level("error without marker", "warning"), "WARN");
    assert_eq!(parse_line_level("plain", "bogus"), "INFO");
}

#[test]
fn clock_is_short() {
    assert_eq!(iso_short(0), "00:00:00");
    assert_eq!(iso_short(86_399_999), "23:59:59");
    assert_eq!(iso_short(86_400_000 + 3_661_000), "01:01:01");
}

#[test]
fn timestamp_of_a_clock_before_the_epoch_is_zero() {
    assert_eq!(now_ms(None), 0);
    assert_eq!(now_ms(Some(1_700_000_000_123)), 1_700_000_000_123);
    assert_eq!(now_ms(Some(1u128 << 64)), 0);
}

#[test]
fn records_below_info_are_dropped_and_foreign_ones_stay_out_of_the_window() {
    for (level, name) in [
        (RecordLevel::Error, "ERROR"),
        (RecordLevel::Warn, "WARN"),
        (RecordLevel::Info, "INFO"),
    ] {
        assert!(enabled(level));
        let record = log_record(level, "reachy_mini_tray::daemon", "hi".to_string(), 1000)
            .expect("kept");
        assert_eq!(record.entry.level, name);
        assert_eq!(
            record.console,
            format!("[00:00:01][{}][reachy_mini_tray::daemon] hi", name)
        );
        assert!(record.in_window);
    }
    assert!(log_record(RecordLevel::Debug, "reachy_mini_tray", String::new(), 0).is_none());
    assert!(log_record(RecordLevel::Trace, "reachy_mini_tray", String::new(), 0).is_none());
    let foreign = log_record(RecordLevel::Info, "hyper::client", "x".to_string(), 0).expect("kept");
    assert!(!foreign.in_window);
}

#[test]
fn external_lines_reach_the_store_whatever_their_level() {
    let mut store = LogStore::new();
    let record = push_external(&mut store, "daemon", "debug", "tick".to_string(), 2000);
    assert!(record.in_window);
    assert_eq!(record.console, "[00:00:02][DEBUG][daemon] tick");
    assert_eq!(store.snapshot()[0].level, "DEBUG");
}

#[test]
fn level_names_ignore_case_and_space() {
    for raw in ["err", "Err", " ERR", "\teRR \n"] {
        assert_eq!(normalize_level(raw), "ERROR");
    }
}

#[test]
fn normalized_levels_stay_as_they_are() {
    for raw in ["critical", "warning", "debug", "trace", "info", "?"] {
        let once = normalize_level(raw);
        assert_eq!(normalize_level(&once), once);
    }
}
