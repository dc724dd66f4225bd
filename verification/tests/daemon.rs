use murmur::daemon::{
    daemon_pid_in, daemon_status, generate_plist, is_alive, parse_pid_content, pid_file_content, plist_path_in,
    removes_pid_file,
    status_after_probe, stop_daemon, stop_error_message, stop_outcome, StopOutcome,
};

#[test]
fn test_generate_plist_contains_required_keys() {
    let plist = generate_plist("/usr/local/bin/murmur", "/tmp/murmur");
    assert!(plist.contains("<key>Label</key>"));
    assert!(plist.contains("com.murmur.app"));
    assert!(plist.contains("/usr/local/bin/murmur"));
    assert!(plist.contains("<key>RunAtLoad</key>"));
    assert!(plist.contains("<key>KeepAlive</key>"));
}

#[test]
fn plist_points_logs_into_log_dir() {
    let plist = generate_plist("/bin/m", "/var/log/m");
    assert!(plist.starts_with("<?xml version=\"1.0\" encoding=\"UTF-8\"?>\n"));
    assert!(plist.contains("<string>/bin/m</string>\n        <string>start</string>\n        <string>--foreground</string>"));
    assert!(plist.contains("<string>/var/log/m/launchd.out.log</string>"));
    assert!(plist.contains("<string>/var/log/m/launchd.err.log</string>"));
    assert!(plist.ends_with("</dict>\n</plist>\n"));
}

#[test]
fn test_is_alive_for_invalid_pid() {
    assert!(!is_alive(999999));
}

#[test]
fn pid_file_roundtrip() {
    assert_eq!(pid_file_content(4242), "4242");
    assert_eq!(pid_file_content(0), "0");
    assert_eq!(parse_pid_content(&pid_file_content(2147483647)), Some(2147483647));
    assert_eq!(parse_pid_content(&pid_file_content(123)), Some(123));
}

#[test]
fn pid_content_parsing() {
    assert_eq!(parse_pid_content("  77\n"), Some(77));
    assert_eq!(parse_pid_content("+5"), Some(5));
    assert_eq!(parse_pid_content("-2147483648"), Some(-2147483648));
    assert_eq!(parse_pid_content("2147483648"), None);
    assert_eq!(parse_pid_content(""), None);
    assert_eq!(parse_pid_content("-"), None);
    assert_eq!(parse_pid_content("12a"), None);
    assert_eq!(parse_pid_content("1 2"), None);
    assert_eq!(parse_pid_content("99999999999999999999"), None);
}

#[test]
fn status_decisions() {
    assert_eq!(status_after_probe(Some(10), true, Some(5)), Some((10, 5)));
    assert_eq!(status_after_probe(Some(10), true, None), Some((10, 0)));
    assert_eq!(status_after_probe(Some(10), false, Some(5)), None);
    assert_eq!(status_after_probe(None, true, Some(5)), None);
    assert_eq!(daemon_status(None, Some(1)), None);
    assert_eq!(daemon_status(Some("not a pid"), Some(1)), None);
    assert_eq!(daemon_status(Some("999999"), Some(1)), None);
}

#[test]
fn stop_outcomes_and_messages() {
    assert!(matches!(stop_daemon(None), StopOutcome::NoPidFile));
    assert!(matches!(stop_daemon(Some("junk")), StopOutcome::NoPidFile));
    assert!(matches!(stop_daemon(Some("999999")), StopOutcome::StalePidFile { pid: 999999 }));
    assert_eq!(
        stop_error_message(&StopOutcome::NoPidFile).unwrap(),
        "Daemon is not running (no PID file)"
    );
    assert_eq!(
        stop_error_message(&StopOutcome::StalePidFile { pid: 3 }).unwrap(),
        "Daemon is not running (stale PID file removed)"
    );
    assert_eq!(
        stop_error_message(&StopOutcome::SignalFailed { pid: -7, reason: "EPERM".to_string() })
            .unwrap(),
        "Failed to send SIGTERM to PID -7: EPERM"
    );
    assert!(stop_error_message(&StopOutcome::Signalled { pid: 3 }).is_none());
    assert!(matches!(stop_outcome(Some(4), true, Ok(())), StopOutcome::Signalled { pid: 4 }));
    assert!(matches!(
        stop_outcome(Some(4), true, Err("x".to_string())),
        StopOutcome::SignalFailed { pid: 4, .. }
    ));
    assert!(matches!(stop_outcome(Some(4), false, Ok(())), StopOutcome::StalePidFile { pid: 4 }));
}

#[test]
fn pid_file_removed_only_after_stale_or_signalled() {
    assert!(removes_pid_file(&StopOutcome::StalePidFile { pid: 1 }));
    assert!(removes_pid_file(&StopOutcome::Signalled { pid: 1 }));
    assert!(!removes_pid_file(&StopOutcome::NoPidFile));
    assert!(!removes_pid_file(&StopOutcome::SignalFailed { pid: 1, reason: String::new() }));
}

#[test]
fn plist_path_under_home() {
    assert_eq!(
        plist_path_in(Some("/Users/ann")),
        Some("/Users/ann/Library/LaunchAgents/com.murmur.app.plist".to_string())
    );
    assert_eq!(plist_path_in(None), None);
}

#[test]
fn non_positive_pids_are_never_signalled() {
    assert_eq!(daemon_pid_in("0"), None);
    assert_eq!(daemon_pid_in(" -1\n"), None);
    assert_eq!(daemon_pid_in("42\n"), Some(42));
    assert!(matches!(stop_daemon(Some("0")), StopOutcome::NoPidFile));
    assert!(matches!(stop_daemon(Some("-1")), StopOutcome::NoPidFile));
}

#[test]
fn status_reports_any_written_number_that_answers() {
    // `kill(0, None)` probes the caller's own process group, which exists.
    assert_eq!(daemon_status(Some("0\n"), Some(7)), Some((0, 7)));
    assert_eq!(daemon_status(Some("999999"), None), None);
}
