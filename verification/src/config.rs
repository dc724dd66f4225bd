//! Application settings: their shape, their defaults, and where they live
//! on disk.
use crate::text::{chars_of, string_from_chars};
use vstd::prelude::*;

verus! {

/// Which engine turns speech into text.
#[derive(Clone, Copy, Debug, PartialEq, Eq, Structural)]
pub enum TranscriptionMode {
    /// whisper.cpp on this machine.
    Local,
    /// The OpenAI transcription API.
    Api,
}

/// How the hotkey drives recording.
#[derive(Clone, Copy, Debug, PartialEq, Eq, Structural)]
pub enum HotkeyMode {
    /// Record while the key is held.
    Hold,
    /// Press once to start, once more to stop.
    Toggle,
}

/// Transcription settings.
#[derive(Clone, Debug)]
pub struct TranscriptionConfig {
    pub mode: TranscriptionMode,
    pub model: String,
    pub api_key: String,
}

/// Settings of the AI cleanup pass.
#[derive(Clone, Debug)]
pub struct AiCleanupConfig {
    pub enabled: bool,
    pub custom_instructions: String,
}

/// Hotkey settings.
#[derive(Clone, Debug)]
pub struct HotkeyConfig {
    pub key: String,
    pub mode: HotkeyMode,
}

/// Voice command settings.
#[derive(Clone, Debug)]
pub struct VoiceCommandsConfig {
    pub enabled: bool,
}

/// General settings.
#[derive(Clone, Debug)]
pub struct GeneralConfig {
    pub auto_start: bool,
    pub context_aware: bool,
    pub first_run: bool,
}

/// All settings.
#[derive(Clone, Debug)]
pub struct AppConfig {
    pub transcription: TranscriptionConfig,
    pub ai_cleanup: AiCleanupConfig,
    pub hotkey: HotkeyConfig,
    pub voice_commands: VoiceCommandsConfig,
    pub general: GeneralConfig,
}

/// The settings a fresh installation starts with.
pub open spec fn is_default_config(c: AppConfig) -> bool {
    &&& c.transcription.mode == TranscriptionMode::Local
    &&& c.transcription.model@ == "medium.en"@
    &&& c.transcription.api_key@.len() == 0
    &&& c.ai_cleanup.enabled
    &&& c.ai_cleanup.custom_instructions@.len() == 0
    &&& c.hotkey.key@ == "fn"@
    &&& c.hotkey.mode == HotkeyMode::Hold
    &&& c.voice_commands.enabled
    &&& c.general.auto_start
    &&& c.general.context_aware
    &&& c.general.first_run
}

impl Default for AppConfig {
    fn default() -> (c: Self)
        ensures
            is_default_config(c),
    {
        AppConfig {
            transcription: TranscriptionConfig {
                mode: TranscriptionMode::Local,
                model: "medium.en".to_owned(),
                api_key: String::new(),
            },
            ai_cleanup: AiCleanupConfig { enabled: true, custom_instructions: String::new() },
            hotkey: HotkeyConfig { key: "fn".to_owned(), mode: HotkeyMode::Hold },
            voice_commands: VoiceCommandsConfig { enabled: true },
            general: GeneralConfig { auto_start: true, context_aware: true, first_run: true },
        }
    }
}

/// `Path::join` of a relative part onto `base` (Unix separators): a `/` is
/// put between them unless `base` is empty or already ends with one; an
/// absolute part replaces `base`.
pub open spec fn path_join(base: Seq<char>, part: Seq<char>) -> Seq<char> {
    if part.len() > 0 && part[0] == '/' {
        part
    } else if base.len() == 0 || base.last() == '/' {
        base + part
    } else {
        base + seq!['/'] + part
    }
}

/// `Path::join`, on paths held as text.
pub fn join_path(base: &str, part: &str) -> (r: String)
    ensures
        r@ == path_join(base@, part@),
{
    let b = chars_of(base);
    let p = chars_of(part);
    if p.len() > 0 && p[0] == '/' {
        return string_from_chars(&p);
    }
    let mut out = b;
    if out.len() > 0 && out[out.len() - 1] != '/' {
        out.push('/');
    }
    let ghost head = out@;
    let mut k: usize = 0;
    while k < p.len()
        invariant
            k <= p.len(),
            out@ == head + p@.take(k as int),
        decreases p.len() - k,
    {
        out.push(p[k]);
        k += 1;
    }
    string_from_chars(&out)
}

/// The user's home directory (`dirs::home_dir`); it depends on the user and
/// the environment, so nothing is claimed of it.
#[verifier::external_body]
pub(crate) fn system_home_dir() -> (r: Option<String>) {
    match dirs::home_dir() {
        Some(p) => Some(p.to_string_lossy().into_owned()),
        None => None,
    }
}

/// The application's directory under the home directory `home`:
/// `.config/wipr`.
pub open spec fn app_dir_of(home: Seq<char>) -> Seq<char> {
    path_join(home, ".config/wipr"@)
}

/// The file or directory `name` in the application's directory under the
/// home directory `home`.
pub open spec fn app_file_of(home: Seq<char>, name: Seq<char>) -> Seq<char> {
    path_join(app_dir_of(home), name)
}

/// The application's directory of some home directory.
pub open spec fn is_app_dir(d: Seq<char>) -> bool {
    exists|home: Seq<char>| d == app_dir_of(home)
}

/// The application's directory, `~/.config/wipr`, for the home directory
/// `home`; `None` where there is no home directory.
pub fn app_dir_in(home: Option<&str>) -> (r: Option<String>)
    ensures
        home is None ==> r is None,
        home matches Some(h) ==> (r matches Some(d) && d@ == app_dir_of(h@)),
{
    match home {
        Some(h) => Some(join_path(h, ".config/wipr")),
        None => None,
    }
}

/// The file or directory `name` in the application's directory for the
/// home directory `home`; `None` where there is no home directory.
pub fn app_file_in(home: Option<&str>, name: &str) -> (r: Option<String>)
    ensures
        home is None ==> r is None,
        home matches Some(h) ==> (r matches Some(p) && p@ == app_file_of(h@, name@)),
{
    match app_dir_in(home) {
        Some(d) => Some(join_path(d.as_str(), name)),
        None => None,
    }
}

/// The application's directory, `~/.config/wipr`; `None` where there is no
/// home directory. Which directory that is depends on the user;
/// `app_dir_in` gives the result for each answer of the system.
pub fn config_dir() -> (r: Option<String>)
    ensures
        r matches Some(d) ==> is_app_dir(d@),
{
    match system_home_dir() {
        Some(home) => app_dir_in(Some(home.as_str())),
        None => app_dir_in(None),
    }
}

/// The settings file, `~/.config/wipr/config.json` (`app_file_in` for each
/// answer of the system).
pub fn config_path() -> (r: Option<String>)
    ensures
        r matches Some(p) ==> exists|home: Seq<char>| p@ == app_file_of(home, "config.json"@),
{
    match system_home_dir() {
        Some(home) => app_file_in(Some(home.as_str()), "config.json"),
        None => app_file_in(None, "config.json"),
    }
}

/// The directory holding Whisper models, `~/.config/wipr/models`
/// (`app_file_in` for each answer of the system).
pub fn models_dir() -> (r: Option<String>)
    ensures
        r matches Some(p) ==> exists|home: Seq<char>| p@ == app_file_of(home, "models"@),
{
    match system_home_dir() {
        Some(home) => app_file_in(Some(home.as_str()), "models"),
        None => app_file_in(None, "models"),
    }
}

/// For every home directory, the models directory and the settings file
/// sit side by side in the application's directory: both are entries of
/// `~/.config/wipr`, and neither replaces it (their names are relative).
pub proof fn lemma_models_beside_config(home: Seq<char>)
    ensures
        app_file_of(home, "models"@) == app_dir_of(home) + "/models"@,
        app_file_of(home, "config.json"@) == app_dir_of(home) + "/config.json"@,
{
    reveal_strlit("models");
    reveal_strlit("config.json");
    reveal_strlit(".config/wipr");
    reveal_strlit("/models");
    reveal_strlit("/config.json");
    assert(app_dir_of(home).last() == 'r');
}

} // verus!
