use murmur::config::{app_dir_in, app_file_in, join_path, AppConfig, HotkeyMode, TranscriptionMode};

#[test]
fn test_default_config() {
    let config = AppConfig::default();
    assert_eq!(config.transcription.mode, TranscriptionMode::Local);
    assert_eq!(config.transcription.model, "medium.en");
    assert!(config.ai_cleanup.enabled);
    assert_eq!(config.hotkey.key, "fn");
    assert_eq!(config.hotkey.mode, HotkeyMode::Hold);
    assert!(config.voice_commands.enabled);
    assert!(config.general.auto_start);
    assert!(config.general.context_aware);
}

#[test]
fn default_config_has_empty_key_and_first_run() {
    let config = AppConfig::default();
    assert_eq!(config.transcription.api_key, "");
    assert_eq!(config.ai_cleanup.custom_instructions, "");
    assert!(config.general.first_run);
}

#[test]
fn join_path_adds_one_separator() {
    assert_eq!(join_path("/Users/a/Library", "wipr"), "/Users/a/Library/wipr");
    assert_eq!(join_path("/tmp/", "models"), "/tmp/models");
    assert_eq!(join_path("", "config.json"), "config.json");
    assert_eq!(join_path("/tmp", "/etc/x"), "/etc/x");
}

#[test]
fn config_paths_end_with_their_names() {
    if let Some(dir) = murmur::config::config_dir() {
        assert!(dir.ends_with("/wipr"));
        assert_eq!(murmur::config::config_path().unwrap(), format!("{}/config.json", dir));
        assert_eq!(murmur::config::models_dir().unwrap(), format!("{}/models", dir));
    }
}

#[test]
fn app_paths_under_home_directory() {
    assert_eq!(app_dir_in(Some("/Users/ann")), Some("/Users/ann/.config/wipr".to_string()));
    assert_eq!(app_dir_in(Some("/home/u/")), Some("/home/u/.config/wipr".to_string()));
    assert_eq!(app_dir_in(None), None);
    assert_eq!(
        app_file_in(Some("/Users/ann"), "config.json"),
        Some("/Users/ann/.config/wipr/config.json".to_string())
    );
    assert_eq!(app_file_in(Some("/h"), "models"), Some("/h/.config/wipr/models".to_string()));
    assert_eq!(app_file_in(None, "models"), None);
}
