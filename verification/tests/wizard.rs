use murmur::config::{AppConfig, HotkeyMode, TranscriptionMode};
use murmur::tray::{tray_action, tray_checks, window_title, TrayAction, TrayToggle, TrayWindow};
use murmur::wizard::{
    apply_wizard_answers, default_model_index, hotkey_default_index, mode_default_index,
    model_label, model_name, needs_service_install, WizardAnswers,
};

#[test]
fn model_menu() {
    assert_eq!(model_name(0), "tiny.en");
    assert_eq!(model_name(3), "medium.en");
    assert_eq!(model_label(3), "Medium (1.5GB, recommended)");
    assert_eq!(default_model_index("small.en"), 2);
    assert_eq!(default_model_index("large-v3"), 3);
    assert_eq!(mode_default_index(TranscriptionMode::Api), 1);
    assert_eq!(hotkey_default_index(HotkeyMode::Hold), 0);
}

#[test]
fn wizard_answers_update_settings() {
    let mut old = AppConfig::default();
    old.transcription.api_key = "old-key".to_string();
    let answers = WizardAnswers {
        mode_index: 0,
        model_index: Some(1),
        api_key: String::new(),
        ai_cleanup: true,
        custom_instructions: Some("short".to_string()),
        context_aware: false,
        voice_commands: false,
        hotkey_index: 1,
        auto_start: false,
    };
    let c = apply_wizard_answers(old, answers);
    assert_eq!(c.transcription.mode, TranscriptionMode::Local);
    assert_eq!(c.transcription.model, "base.en");
    assert_eq!(c.transcription.api_key, "old-key");
    assert_eq!(c.ai_cleanup.custom_instructions, "short");
    assert!(!c.general.context_aware);
    assert!(!c.voice_commands.enabled);
    assert_eq!(c.hotkey.mode, HotkeyMode::Toggle);
    assert!(!c.general.auto_start);
    assert!(!c.general.first_run);
}

#[test]
fn wizard_api_mode_keeps_model_and_sets_key() {
    let answers = WizardAnswers {
        mode_index: 1,
        model_index: None,
        api_key: "sk-new".to_string(),
        ai_cleanup: false,
        custom_instructions: None,
        context_aware: true,
        voice_commands: true,
        hotkey_index: 0,
        auto_start: true,
    };
    let c = apply_wizard_answers(AppConfig::default(), answers);
    assert_eq!(c.transcription.mode, TranscriptionMode::Api);
    assert_eq!(c.transcription.model, "medium.en");
    assert_eq!(c.transcription.api_key, "sk-new");
    assert!(!c.ai_cleanup.enabled);
    assert!(needs_service_install(true, false));
    assert!(!needs_service_install(true, true));
    assert!(!needs_service_install(false, false));
}

#[test]
fn tray_menu() {
    assert_eq!(tray_action("settings"), TrayAction::Open(TrayWindow::Settings));
    assert_eq!(tray_action("history"), TrayAction::Open(TrayWindow::History));
    assert_eq!(tray_action("quit"), TrayAction::Quit);
    assert_eq!(tray_action("auto_start"), TrayAction::Toggle(TrayToggle::AutoStart));
    assert_eq!(tray_action("other"), TrayAction::Ignore);
    assert_eq!(window_title("settings"), "Wipr - Settings");
    assert_eq!(window_title("history"), "Wipr - History");
    assert_eq!(window_title("overlay"), "Wipr");
    assert_eq!(tray_checks(&AppConfig::default()), (true, true, true));
}
