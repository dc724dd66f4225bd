use murmur::cleanup::{build_cleanup_request, pick_cleaned_text};
use murmur::cli::{dispatch, format_uptime, start_plan, status_report, stop_plan, Command, ConfigAction, HistoryAction, Plan};
use murmur::daemon::StopOutcome;
use murmur::context::context_tail;
use murmur::history::{entry_date_time, search_pattern};
use murmur::config::HotkeyMode;
use murmur::hotkey::{fn_key_transition, hotkey_transition, toggle_key_transition, HotkeyEvent};
use murmur::insertion::{editing_script, SELECT_ALL_SCRIPT, UNDO_SCRIPT};
use murmur::text::{contains, replace_all, tidy, trim};
use murmur::transcription::{missing_model_message, model_download_url, model_path, transcript_from_segments};

#[test]
fn test_model_download_url() {
    let url = model_download_url("medium.en");
    assert_eq!(url, "https://huggingface.co/ggerganov/whisper.cpp/resolve/main/ggml-medium.en.bin");
}

#[test]
fn model_files_and_errors() {
    assert_eq!(model_path("/m", "tiny.en"), "/m/ggml-tiny.en.bin");
    assert_eq!(
        missing_model_message("/nonexistent/model.bin"),
        "Model not found: /nonexistent/model.bin. Download it from settings."
    );
    let segs = vec![Some(" Hello".to_string()), None, Some(" world. ".to_string())];
    assert_eq!(transcript_from_segments(&segs), "Hello world.");
    assert_eq!(transcript_from_segments(&vec![]), "");
}

#[test]
fn dispatch_decides_each_command() {
    assert!(matches!(
        dispatch(Command::Start { foreground: true }, None, None),
        Plan::Start { foreground: true, remove_stale: false }
    ));
    assert!(matches!(
        dispatch(Command::Start { foreground: false }, Some("999999\n"), Some(3)),
        Plan::Start { foreground: false, remove_stale: true }
    ));
    match dispatch(Command::Stop, None, None) {
        Plan::Fail { message, remove_pid_file } => {
            assert_eq!(message, "Daemon is not running (no PID file)");
            assert!(!remove_pid_file);
        }
        _ => panic!("expected a failure"),
    }
    match dispatch(Command::Stop, Some("999999"), Some(1)) {
        Plan::Fail { message, remove_pid_file } => {
            assert_eq!(message, "Daemon is not running (stale PID file removed)");
            assert!(remove_pid_file);
        }
        _ => panic!("expected a failure"),
    }
    match dispatch(Command::Stop, Some("-1"), None) {
        Plan::Fail { message, remove_pid_file } => {
            assert_eq!(message, "Daemon is not running (no PID file)");
            assert!(!remove_pid_file);
        }
        _ => panic!("expected a failure"),
    }
    match dispatch(Command::Status, None, None) {
        Plan::Report { message, remove_pid_file } => {
            assert_eq!(message, "○ Murmur is not running");
            assert!(!remove_pid_file);
        }
        _ => panic!("expected a report"),
    }
    assert!(matches!(dispatch(Command::Config { action: None }, None, None), Plan::Wizard));
    assert!(matches!(
        dispatch(Command::Config { action: Some(ConfigAction::List) }, None, None),
        Plan::ConfigList
    ));
    match dispatch(
        Command::Config {
            action: Some(ConfigAction::SetValue { key: "general.auto_start".into(), value: "false".into() }),
        },
        None,
        None,
    ) {
        Plan::ConfigSet { key, value } => {
            assert_eq!(key, "general.auto_start");
            assert_eq!(value, "false");
        }
        _ => panic!("expected a config change"),
    }
    assert!(matches!(
        dispatch(Command::History { action: Some(HistoryAction::Clear) }, None, None),
        Plan::History { action: Some(HistoryAction::Clear) }
    ));
    assert!(matches!(dispatch(Command::Install, None, None), Plan::Install));
    assert!(matches!(dispatch(Command::Uninstall, None, None), Plan::Uninstall));
    match dispatch(Command::Download { model: "tiny.en".to_string() }, None, None) {
        Plan::Download { model } => assert_eq!(model, "tiny.en"),
        _ => panic!("expected a download"),
    }
}

#[test]
fn status_and_start_texts() {
    assert_eq!(format_uptime(0), "0s");
    assert_eq!(format_uptime(59), "59s");
    assert_eq!(format_uptime(61), "1m 1s");
    assert_eq!(format_uptime(3600), "1h 0m 0s");
    assert_eq!(format_uptime(3725), "1h 2m 5s");
    assert_eq!(status_report(None), "○ Murmur is not running");
    assert_eq!(
        status_report(Some((4242, 125))),
        "● Murmur is running\n  PID:    4242\n  Uptime: 2m 5s"
    );
    match start_plan(true, Some(77), true) {
        Plan::Fail { message, remove_pid_file } => {
            assert_eq!(message, "Murmur is already running (PID 77)");
            assert!(!remove_pid_file);
        }
        _ => panic!("expected a refusal"),
    }
    assert!(matches!(start_plan(false, Some(77), false), Plan::Start { foreground: false, remove_stale: true }));
    match stop_plan(StopOutcome::Signalled { pid: 77 }) {
        Plan::Report { message, remove_pid_file } => {
            assert_eq!(message, "✓ Murmur stopped");
            assert!(remove_pid_file);
        }
        _ => panic!("expected a report"),
    }
    match stop_plan(StopOutcome::SignalFailed { pid: 77, reason: "EPERM".to_string() }) {
        Plan::Fail { message, remove_pid_file } => {
            assert_eq!(message, "Failed to send SIGTERM to PID 77: EPERM");
            assert!(!remove_pid_file);
        }
        _ => panic!("expected a failure"),
    }
}

#[test]
fn history_timestamps_split_into_date_and_time() {
    assert_eq!(
        entry_date_time("2026-04-16T09:30:12.123456+02:00"),
        ("2026-04-16".to_string(), "09:30:12".to_string())
    );
    assert_eq!(entry_date_time("2026-04-16T09:30:12+02:00"), ("2026-04-16".to_string(), "09:30:12".to_string()));
    assert_eq!(entry_date_time("2026-04-16"), ("2026-04-16".to_string(), "".to_string()));
}

#[test]
fn fn_key_press_and_release() {
    assert_eq!(fn_key_transition(true, false), (true, Some(HotkeyEvent::RecordStart)));
    assert_eq!(fn_key_transition(false, true), (false, Some(HotkeyEvent::RecordStop)));
    assert_eq!(fn_key_transition(true, true), (true, None));
    assert_eq!(fn_key_transition(false, false), (false, None));
}

#[test]
fn fn_key_events_alternate() {
    let flags = [true, true, false, false, true, false, true];
    let mut down = false;
    let mut events = Vec::new();
    for f in flags {
        let (d, e) = fn_key_transition(f, down);
        down = d;
        if let Some(e) = e {
            events.push(e);
        }
    }
    assert_eq!(
        events,
        vec![
            HotkeyEvent::RecordStart,
            HotkeyEvent::RecordStop,
            HotkeyEvent::RecordStart,
            HotkeyEvent::RecordStop,
            HotkeyEvent::RecordStart
        ]
    );
    assert!(down);
}

#[test]
fn cleanup_request_prompts() {
    let r = build_cleanup_request("um hello", Some("Dear Bob,"), Some("be formal"), "sk-abc");
    assert_eq!(r.url, "https://api.openai.com/v1/chat/completions");
    assert_eq!(r.authorization, "Bearer sk-abc");
    assert_eq!(r.model, "gpt-4o-mini");
    assert_eq!(r.max_tokens, 2048);
    assert!(r.system.starts_with("You are a dictation cleanup assistant. Clean up the transcribed speech while preserving the speaker's intent."));
    assert!(r.system.ends_with("\n\nAdditional instructions: be formal"));
    assert_eq!(
        r.user,
        "Context (text before cursor): Dear Bob,\nRaw transcription: um hello\n\nReturn only the cleaned text, nothing else."
    );
    let plain = build_cleanup_request("x", Some(""), Some(""), "");
    assert_eq!(plain.authorization, "Bearer ");
    assert!(!plain.system.contains("Additional instructions"));
    assert_eq!(plain.user, "Raw transcription: x\n\nReturn only the cleaned text, nothing else.");
}

#[test]
fn cleanup_answers() {
    assert_eq!(pick_cleaned_text(&vec!["  Hi.  ".to_string(), "other".to_string()]), Ok("Hi.".to_string()));
    assert_eq!(pick_cleaned_text(&vec![]), Err("No response from cleanup API".to_string()));
}

#[test]
fn context_is_trimmed_and_cut_to_its_last_chars() {
    assert_eq!(context_tail("  hello world \n", 5), "world");
    assert_eq!(context_tail("short", 200), "short");
    assert_eq!(context_tail("aé", 2), "aé");
    assert_eq!(context_tail("héllo", 4), "éllo");
    assert_eq!(context_tail("héllo", 3), "llo");
    assert_eq!(context_tail("日本語テキスト", 3), "キスト");
    assert_eq!(context_tail(" \t ", 3), "");
    assert_eq!(context_tail("abc", 0), "");
}

#[test]
fn editing_scripts() {
    assert_eq!(editing_script("delete that"), Ok(UNDO_SCRIPT));
    assert_eq!(editing_script("undo that"), Ok(UNDO_SCRIPT));
    assert_eq!(editing_script("select all"), Ok(SELECT_ALL_SCRIPT));
    assert_eq!(editing_script("jump"), Err("Unknown editing command: jump".to_string()));
    assert!(UNDO_SCRIPT.contains("keystroke \"z\" using command down"));
}

#[test]
fn history_search_pattern() {
    assert_eq!(search_pattern("hello"), "%hello%");
    assert_eq!(search_pattern(""), "%%");
}

#[test]
fn text_utilities() {
    assert_eq!(trim(" \t a b \u{3000}"), "a b");
    assert_eq!(replace_all("a .b . c", " .", "."), "a.b. c");
    assert_eq!(replace_all("aaa", "aa", "b"), "ba");
    assert!(contains("stop listening now", "stop listening"));
    assert!(!contains("stop", "stop listening"));
    assert_eq!(tidy("a\r\nb  c\n\n"), "a\nb c");
}

#[test]
fn toggle_mode_presses_start_and_stop() {
    assert_eq!(toggle_key_transition(true, false, false), (true, true, Some(HotkeyEvent::RecordStart)));
    assert_eq!(toggle_key_transition(false, true, true), (false, true, None));
    assert_eq!(toggle_key_transition(true, false, true), (true, false, Some(HotkeyEvent::RecordStop)));
    let mut state = (false, false);
    let mut events = Vec::new();
    for f in [true, false, true, true, false, true] {
        let (s, e) = hotkey_transition(HotkeyMode::Toggle, f, state);
        state = s;
        events.extend(e);
    }
    assert_eq!(events, vec![HotkeyEvent::RecordStart, HotkeyEvent::RecordStop, HotkeyEvent::RecordStart]);
    assert_eq!(hotkey_transition(HotkeyMode::Hold, true, (false, false)), ((true, true), Some(HotkeyEvent::RecordStart)));
    assert_eq!(hotkey_transition(HotkeyMode::Hold, false, (true, true)), ((false, false), Some(HotkeyEvent::RecordStop)));
}
