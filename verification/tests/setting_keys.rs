use murmur::config::{AppConfig, HotkeyMode, TranscriptionMode};
use murmur::setting_keys::{apply_setting, config_value, setting_error_message, SettingError};

#[test]
fn settings_read_by_dotted_key() {
    let cfg = AppConfig::default();
    assert_eq!(config_value(&cfg, "transcription.mode"), Some("local".to_string()));
    assert_eq!(config_value(&cfg, "transcription.model"), Some("medium.en".to_string()));
    assert_eq!(config_value(&cfg, "voice_commands.enabled"), Some("true".to_string()));
    assert_eq!(config_value(&cfg, "hotkey.mode"), Some("hold".to_string()));
    assert_eq!(config_value(&cfg, "transcription"), None);
    assert_eq!(config_value(&cfg, "nope.key"), None);
}

#[test]
fn settings_changed_by_dotted_key() {
    let mut cfg = AppConfig::default();
    assert_eq!(apply_setting(&mut cfg, "transcription.mode", "api"), Ok(()));
    assert_eq!(cfg.transcription.mode, TranscriptionMode::Api);
    assert_eq!(apply_setting(&mut cfg, "hotkey.mode", "toggle"), Ok(()));
    assert_eq!(cfg.hotkey.mode, HotkeyMode::Toggle);
    assert_eq!(apply_setting(&mut cfg, "general.auto_start", "false"), Ok(()));
    assert!(!cfg.general.auto_start);
    assert_eq!(apply_setting(&mut cfg, "transcription.model", "tiny.en"), Ok(()));
    assert_eq!(config_value(&cfg, "transcription.model"), Some("tiny.en".to_string()));
    assert_eq!(apply_setting(&mut cfg, "general.auto_start", "maybe"), Err(SettingError::InvalidValue));
    assert!(!cfg.general.auto_start);
    assert_eq!(apply_setting(&mut cfg, "transcription.mode", "cloud"), Err(SettingError::InvalidValue));
    assert_eq!(cfg.transcription.mode, TranscriptionMode::Api);
    assert_eq!(apply_setting(&mut cfg, "general.colour", "red"), Err(SettingError::UnknownKey));
    assert_eq!(setting_error_message(SettingError::UnknownKey, "general.colour"), "Unknown key: general.colour");
    assert_eq!(setting_error_message(SettingError::InvalidValue, "general.auto_start"), "Invalid value for general.auto_start");
}
