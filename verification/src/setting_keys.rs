//! Reading and changing one setting by its dotted key, as `config get` and
//! `config set` do.
use crate::config::{
    AiCleanupConfig, AppConfig, GeneralConfig, HotkeyConfig, HotkeyMode, TranscriptionConfig,
    TranscriptionMode, VoiceCommandsConfig,
};
use crate::text::{push_str, same_text, string_from_chars};
use vstd::prelude::*;

verus! {

/// Why a setting could not be changed.
#[derive(Clone, Copy, Debug, PartialEq, Eq, Structural)]
pub enum SettingError {
    /// No setting has that key.
    UnknownKey,
    /// The value does not fit the setting's type.
    InvalidValue,
}

/// How a flag is written: `true` or `false`.
pub open spec fn flag_text(b: bool) -> Seq<char> {
    if b {
        "true"@
    } else {
        "false"@
    }
}

/// How a transcription mode is written in the settings.
pub open spec fn mode_text(m: TranscriptionMode) -> Seq<char> {
    match m {
        TranscriptionMode::Local => "local"@,
        TranscriptionMode::Api => "api"@,
    }
}

/// How a hotkey mode is written in the settings.
pub open spec fn hotkey_mode_text(m: HotkeyMode) -> Seq<char> {
    match m {
        HotkeyMode::Hold => "hold"@,
        HotkeyMode::Toggle => "toggle"@,
    }
}

/// The flag a value stands for, if it is `true` or `false`.
pub open spec fn flag_of(v: Seq<char>) -> Option<bool> {
    if v == "true"@ {
        Some(true)
    } else if v == "false"@ {
        Some(false)
    } else {
        None
    }
}

/// The transcription mode a value names, if any.
pub open spec fn mode_of(v: Seq<char>) -> Option<TranscriptionMode> {
    if v == "local"@ {
        Some(TranscriptionMode::Local)
    } else if v == "api"@ {
        Some(TranscriptionMode::Api)
    } else {
        None
    }
}

/// The hotkey mode a value names, if any.
pub open spec fn hotkey_mode_of(v: Seq<char>) -> Option<HotkeyMode> {
    if v == "hold"@ {
        Some(HotkeyMode::Hold)
    } else if v == "toggle"@ {
        Some(HotkeyMode::Toggle)
    } else {
        None
    }
}

/// The value of the setting at the dotted key `key`, written as text;
/// `None` when no setting has that key.
pub open spec fn setting_text(cfg: AppConfig, key: Seq<char>) -> Option<Seq<char>> {
    if key == "transcription.mode"@ {
        Some(mode_text(cfg.transcription.mode))
    } else if key == "transcription.model"@ {
        Some(cfg.transcription.model@)
    } else if key == "transcription.api_key"@ {
        Some(cfg.transcription.api_key@)
    } else if key == "ai_cleanup.enabled"@ {
        Some(flag_text(cfg.ai_cleanup.enabled))
    } else if key == "ai_cleanup.custom_instructions"@ {
        Some(cfg.ai_cleanup.custom_instructions@)
    } else if key == "hotkey.key"@ {
        Some(cfg.hotkey.key@)
    } else if key == "hotkey.mode"@ {
        Some(hotkey_mode_text(cfg.hotkey.mode))
    } else if key == "voice_commands.enabled"@ {
        Some(flag_text(cfg.voice_commands.enabled))
    } else if key == "general.auto_start"@ {
        Some(flag_text(cfg.general.auto_start))
    } else if key == "general.context_aware"@ {
        Some(flag_text(cfg.general.context_aware))
    } else if key == "general.first_run"@ {
        Some(flag_text(cfg.general.first_run))
    } else {
        None
    }
}

/// Whether some setting has the dotted key `key`.
pub open spec fn is_setting_key(key: Seq<char>) -> bool {
    ||| key == "transcription.mode"@
    ||| key == "transcription.model"@
    ||| key == "transcription.api_key"@
    ||| key == "ai_cleanup.enabled"@
    ||| key == "ai_cleanup.custom_instructions"@
    ||| key == "hotkey.key"@
    ||| key == "hotkey.mode"@
    ||| key == "voice_commands.enabled"@
    ||| key == "general.auto_start"@
    ||| key == "general.context_aware"@
    ||| key == "general.first_run"@
}

/// Whether `value` fits the type of the setting at `key`: a flag is `true`
/// or `false`, a mode one of its names, and any text fits a text setting.
pub open spec fn accepts(key: Seq<char>, value: Seq<char>) -> bool {
    if key == "transcription.mode"@ {
        mode_of(value) is Some
    } else if key == "hotkey.mode"@ {
        hotkey_mode_of(value) is Some
    } else if key == "ai_cleanup.enabled"@ || key == "voice_commands.enabled"@ || key
        == "general.auto_start"@ || key == "general.context_aware"@ || key
        == "general.first_run"@ {
        flag_of(value) is Some
    } else {
        is_setting_key(key)
    }
}

/// `new` is `old` with only the setting at `key` changed, to what `value`
/// stands for.
pub open spec fn updated(old: AppConfig, new: AppConfig, key: Seq<char>, value: Seq<char>) -> bool {
    if key == "transcription.mode"@ {
        new == (AppConfig {
            transcription: TranscriptionConfig {
                mode: mode_of(value)->0,
                ..old.transcription
            },
            ..old
        })
    } else if key == "transcription.model"@ {
        new.transcription.model@ == value && new == (AppConfig {
            transcription: TranscriptionConfig {
                model: new.transcription.model,
                ..old.transcription
            },
            ..old
        })
    } else if key == "transcription.api_key"@ {
        new.transcription.api_key@ == value && new == (AppConfig {
            transcription: TranscriptionConfig {
                api_key: new.transcription.api_key,
                ..old.transcription
            },
            ..old
        })
    } else if key == "ai_cleanup.enabled"@ {
        new == (AppConfig {
            ai_cleanup: AiCleanupConfig { enabled: flag_of(value)->0, ..old.ai_cleanup },
            ..old
        })
    } else if key == "ai_cleanup.custom_instructions"@ {
        new.ai_cleanup.custom_instructions@ == value && new == (AppConfig {
            ai_cleanup: AiCleanupConfig {
                custom_instructions: new.ai_cleanup.custom_instructions,
                ..old.ai_cleanup
            },
            ..old
        })
    } else if key == "hotkey.key"@ {
        new.hotkey.key@ == value && new == (AppConfig {
            hotkey: HotkeyConfig { key: new.hotkey.key, ..old.hotkey },
            ..old
        })
    } else if key == "hotkey.mode"@ {
        new == (AppConfig {
            hotkey: HotkeyConfig { mode: hotkey_mode_of(value)->0, ..old.hotkey },
            ..old
        })
    } else if key == "voice_commands.enabled"@ {
        new == (AppConfig { voice_commands: VoiceCommandsConfig { enabled: flag_of(value)->0 }, ..old })
    } else if key == "general.auto_start"@ {
        new == (AppConfig {
            general: GeneralConfig { auto_start: flag_of(value)->0, ..old.general },
            ..old
        })
    } else if key == "general.context_aware"@ {
        new == (AppConfig {
            general: GeneralConfig { context_aware: flag_of(value)->0, ..old.general },
            ..old
        })
    } else if key == "general.first_run"@ {
        new == (AppConfig {
            general: GeneralConfig { first_run: flag_of(value)->0, ..old.general },
            ..old
        })
    } else {
        false
    }
}

fn flag_string(b: bool) -> (r: String)
    ensures
        r@ == flag_text(b),
{
    if b {
        "true".to_owned()
    } else {
        "false".to_owned()
    }
}

fn copy_text(s: &String) -> (r: String)
    ensures
        r@ == s@,
{
    s.as_str().to_owned()
}

/// The value of the setting at the dotted key `key`, as `config get`
/// prints it; `None` when no setting has that key.
pub fn config_value(cfg: &AppConfig, key: &str) -> (r: Option<String>)
    ensures
        match r {
            Some(v) => setting_text(*cfg, key@) == Some(v@),
            None => setting_text(*cfg, key@) is None,
        },
{
    if same_text(key, "transcription.mode") {
        Some(
            match cfg.transcription.mode {
                TranscriptionMode::Local => "local".to_owned(),
                TranscriptionMode::Api => "api".to_owned(),
            },
        )
    } else if same_text(key, "transcription.model") {
        Some(copy_text(&cfg.transcription.model))
    } else if same_text(key, "transcription.api_key") {
        Some(copy_text(&cfg.transcription.api_key))
    } else if same_text(key, "ai_cleanup.enabled") {
        Some(flag_string(cfg.ai_cleanup.enabled))
    } else if same_text(key, "ai_cleanup.custom_instructions") {
        Some(copy_text(&cfg.ai_cleanup.custom_instructions))
    } else if same_text(key, "hotkey.key") {
        Some(copy_text(&cfg.hotkey.key))
    } else if same_text(key, "hotkey.mode") {
        Some(
            match cfg.hotkey.mode {
                HotkeyMode::Hold => "hold".to_owned(),
                HotkeyMode::Toggle => "toggle".to_owned(),
            },
        )
    } else if same_text(key, "voice_commands.enabled") {
        Some(flag_string(cfg.voice_commands.enabled))
    } else if same_text(key, "general.auto_start") {
        Some(flag_string(cfg.general.auto_start))
    } else if same_text(key, "general.context_aware") {
        Some(flag_string(cfg.general.context_aware))
    } else if same_text(key, "general.first_run") {
        Some(flag_string(cfg.general.first_run))
    } else {
        None
    }
}

fn parse_flag(v: &str) -> (r: Option<bool>)
    ensures
        r == flag_of(v@),
{
    if same_text(v, "true") {
        Some(true)
    } else if same_text(v, "false") {
        Some(false)
    } else {
        None
    }
}

/// The settings' keys and the values they take, spelled out: keys of the
/// same length differ in their first character.
proof fn lemma_key_literals()
    ensures
        "transcription.mode"@[0] != "ai_cleanup.enabled"@[0],
        "transcription.mode"@[0] != "general.auto_start"@[0],
        "ai_cleanup.enabled"@[0] != "general.auto_start"@[0],
        "transcription.api_key"@[0] != "general.context_aware"@[0],
        "transcription.mode"@.len() == 18,
        "transcription.model"@.len() == 19,
        "transcription.api_key"@.len() == 21,
        "ai_cleanup.enabled"@.len() == 18,
        "ai_cleanup.custom_instructions"@.len() == 30,
        "hotkey.key"@.len() == 10,
        "hotkey.mode"@.len() == 11,
        "voice_commands.enabled"@.len() == 22,
        "general.auto_start"@.len() == 18,
        "general.context_aware"@.len() == 21,
        "general.first_run"@.len() == 17,
        "true"@ == seq!['t', 'r', 'u', 'e'],
        "false"@ == seq!['f', 'a', 'l', 's', 'e'],
        "local"@ == seq!['l', 'o', 'c', 'a', 'l'],
        "api"@ == seq!['a', 'p', 'i'],
        "hold"@ == seq!['h', 'o', 'l', 'd'],
        "toggle"@ == seq!['t', 'o', 'g', 'g', 'l', 'e'],
{
    reveal_strlit("transcription.mode");
    reveal_strlit("transcription.model");
    reveal_strlit("transcription.api_key");
    reveal_strlit("ai_cleanup.enabled");
    reveal_strlit("ai_cleanup.custom_instructions");
    reveal_strlit("hotkey.key");
    reveal_strlit("hotkey.mode");
    reveal_strlit("voice_commands.enabled");
    reveal_strlit("general.auto_start");
    reveal_strlit("general.context_aware");
    reveal_strlit("general.first_run");
    reveal_strlit("true");
    reveal_strlit("false");
    reveal_strlit("local");
    reveal_strlit("api");
    reveal_strlit("hold");
    reveal_strlit("toggle");
}

/// Changes the setting at the dotted key `key` to what `value` stands for,
/// as `config set` does: an unknown key and a value that does not fit the
/// setting's type are refused, and leave the settings as they were.
pub fn apply_setting(cfg: &mut AppConfig, key: &str, value: &str) -> (r: Result<(), SettingError>)
    ensures
        !is_setting_key(key@) ==> r == Err::<(), SettingError>(SettingError::UnknownKey)
            && *final(cfg) == *old(cfg),
        is_setting_key(key@) && !accepts(key@, value@) ==> r == Err::<(), SettingError>(
            SettingError::InvalidValue,
        ) && *final(cfg) == *old(cfg),
        accepts(key@, value@) ==> r is Ok && updated(*old(cfg), *final(cfg), key@, value@),
{
    proof {
        lemma_key_literals();
    }
    if same_text(key, "transcription.mode") {
        if same_text(value, "local") {
            cfg.transcription.mode = TranscriptionMode::Local;
        } else if same_text(value, "api") {
            cfg.transcription.mode = TranscriptionMode::Api;
        } else {
            return Err(SettingError::InvalidValue);
        }
    } else if same_text(key, "transcription.model") {
        cfg.transcription.model = value.to_owned();
    } else if same_text(key, "transcription.api_key") {
        cfg.transcription.api_key = value.to_owned();
    } else if same_text(key, "ai_cleanup.enabled") {
        match parse_flag(value) {
            Some(b) => cfg.ai_cleanup.enabled = b,
            None => return Err(SettingError::InvalidValue),
        }
    } else if same_text(key, "ai_cleanup.custom_instructions") {
        cfg.ai_cleanup.custom_instructions = value.to_owned();
    } else if same_text(key, "hotkey.key") {
        cfg.hotkey.key = value.to_owned();
    } else if same_text(key, "hotkey.mode") {
        if same_text(value, "hold") {
            cfg.hotkey.mode = HotkeyMode::Hold;
        } else if same_text(value, "toggle") {
            cfg.hotkey.mode = HotkeyMode::Toggle;
        } else {
            return Err(SettingError::InvalidValue);
        }
    } else if same_text(key, "voice_commands.enabled") {
        match parse_flag(value) {
            Some(b) => cfg.voice_commands.enabled = b,
            None => return Err(SettingError::InvalidValue),
        }
    } else if same_text(key, "general.auto_start") {
        match parse_flag(value) {
            Some(b) => cfg.general.auto_start = b,
            None => return Err(SettingError::InvalidValue),
        }
    } else if same_text(key, "general.context_aware") {
        match parse_flag(value) {
            Some(b) => cfg.general.context_aware = b,
            None => return Err(SettingError::InvalidValue),
        }
    } else if same_text(key, "general.first_run") {
        match parse_flag(value) {
            Some(b) => cfg.general.first_run = b,
            None => return Err(SettingError::InvalidValue),
        }
    } else {
        return Err(SettingError::UnknownKey);
    }
    Ok(())
}

/// The error `config set` reports.
pub fn setting_error_message(e: SettingError, key: &str) -> (r: String)
    ensures
        e is UnknownKey ==> r@ == "Unknown key: "@ + key@,
        e is InvalidValue ==> r@ == "Invalid value for "@ + key@,
{
    let mut out: Vec<char> = Vec::new();
    match e {
        SettingError::UnknownKey => push_str(&mut out, "Unknown key: "),
        SettingError::InvalidValue => push_str(&mut out, "Invalid value for "),
    }
    push_str(&mut out, key);
    string_from_chars(&out)
}

/// Reading a setting back after `config set` accepted it gives the value
/// that was set, and every other setting reads as before.
pub proof fn lemma_get_after_set(old: AppConfig, new: AppConfig, key: Seq<char>, value: Seq<char>)
    requires
        accepts(key, value),
        updated(old, new, key, value),
    ensures
        setting_text(new, key) == Some(value),
        forall|other: Seq<char>| other != key ==> #[trigger] setting_text(new, other) == setting_text(old, other),
{
    lemma_key_literals();
}

/// Every on/off setting takes exactly `true` and `false`: both are accepted,
/// and `config set` then stores that flag, which `config get` reads back.
pub proof fn lemma_flags_take_true_and_false(old: AppConfig, new: AppConfig, key: Seq<char>, value: Seq<char>)
    requires
        key == "ai_cleanup.enabled"@ || key == "voice_commands.enabled"@ || key
            == "general.auto_start"@ || key == "general.context_aware"@ || key
            == "general.first_run"@,
    ensures
        accepts(key, "true"@),
        accepts(key, "false"@),
        accepts(key, value) <==> (value == "true"@ || value == "false"@),
        (value == "true"@ || value == "false"@) && updated(old, new, key, value) ==> setting_text(
            new,
            key,
        ) == Some(value),
{
    lemma_key_literals();
}

/// Whatever `config get` prints for a setting, `config set` accepts back,
/// and setting it leaves every setting as it was.
pub proof fn lemma_current_value_round_trips(cfg: AppConfig, key: Seq<char>)
    requires
        is_setting_key(key),
    ensures
        setting_text(cfg, key) is Some,
        accepts(key, setting_text(cfg, key)->0),
        forall|new: AppConfig|
            updated(cfg, new, key, setting_text(cfg, key)->0) ==> forall|other: Seq<char>|
                #[trigger] setting_text(new, other) == setting_text(cfg, other),
{
    lemma_key_literals();
    assert forall|new: AppConfig|
        updated(cfg, new, key, setting_text(cfg, key)->0) implies forall|other: Seq<char>|
        #[trigger] setting_text(new, other) == setting_text(cfg, other) by {
        lemma_get_after_set(cfg, new, key, setting_text(cfg, key)->0);
    }
}

} // verus!
