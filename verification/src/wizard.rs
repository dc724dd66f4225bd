//! The choices of the interactive configuration wizard and how the answers
//! change the settings.
use crate::config::{AppConfig, HotkeyMode, TranscriptionMode};
use crate::text::same_text;
use vstd::prelude::*;

verus! {

/// How many Whisper models the wizard offers.
pub const MODEL_COUNT: usize = 4;

/// The model names offered, in menu order.
pub open spec fn model_names() -> Seq<Seq<char>> {
    seq!["tiny.en"@, "base.en"@, "small.en"@, "medium.en"@]
}

/// The menu label of each model, in menu order.
pub open spec fn model_labels() -> Seq<Seq<char>> {
    seq![
        "Tiny (40MB, fastest, lower quality)"@,
        "Base (140MB, fast)"@,
        "Small (460MB, balanced)"@,
        "Medium (1.5GB, recommended)"@,
    ]
}

/// The name of the model at menu position `index`.
pub fn model_name(index: usize) -> (r: &'static str)
    requires
        index < MODEL_COUNT,
    ensures
        r@ == model_names()[index as int],
{
    match index {
        0 => "tiny.en",
        1 => "base.en",
        2 => "small.en",
        _ => "medium.en",
    }
}

/// The label of the model at menu position `index`.
pub fn model_label(index: usize) -> (r: &'static str)
    requires
        index < MODEL_COUNT,
    ensures
        r@ == model_labels()[index as int],
{
    match index {
        0 => "Tiny (40MB, fastest, lower quality)",
        1 => "Base (140MB, fast)",
        2 => "Small (460MB, balanced)",
        _ => "Medium (1.5GB, recommended)",
    }
}

/// The menu position preselected for the configured model: its own
/// position when it is offered, otherwise that of `medium.en`.
pub open spec fn default_model_position(model: Seq<char>) -> int {
    if model == model_names()[0] {
        0
    } else if model == model_names()[1] {
        1
    } else if model == model_names()[2] {
        2
    } else {
        3
    }
}

/// The preselected model position for the configured model.
pub fn default_model_index(model: &str) -> (r: usize)
    ensures
        r == default_model_position(model@),
        r < MODEL_COUNT,
{
    let mut i: usize = 0;
    while i < MODEL_COUNT
        invariant
            i <= MODEL_COUNT,
            forall|j: int| 0 <= j < i ==> model@ != #[trigger] model_names()[j],
        decreases MODEL_COUNT - i,
    {
        if same_text(model, model_name(i)) {
            return i;
        }
        i += 1;
    }
    3
}

/// The transcription mode preselected: position 0 for local, 1 for the API.
pub fn mode_default_index(mode: TranscriptionMode) -> (r: usize)
    ensures
        r == (if mode == TranscriptionMode::Local {
            0usize
        } else {
            1usize
        }),
{
    match mode {
        TranscriptionMode::Local => 0,
        TranscriptionMode::Api => 1,
    }
}

/// The hotkey mode preselected: position 0 for hold, 1 for toggle.
pub fn hotkey_default_index(mode: HotkeyMode) -> (r: usize)
    ensures
        r == (if mode == HotkeyMode::Hold {
            0usize
        } else {
            1usize
        }),
{
    match mode {
        HotkeyMode::Hold => 0,
        HotkeyMode::Toggle => 1,
    }
}

/// What was answered in the wizard. Questions that were not asked have no
/// answer.
pub struct WizardAnswers {
    /// Position chosen in the transcription-mode menu (0: local).
    pub mode_index: usize,
    /// Position chosen in the model menu, asked only for local mode.
    pub model_index: Option<usize>,
    /// The API key typed, possibly empty.
    pub api_key: String,
    /// Whether AI cleanup is wanted.
    pub ai_cleanup: bool,
    /// Custom cleanup instructions, asked only when cleanup is wanted.
    pub custom_instructions: Option<String>,
    /// Whether context-aware mode is wanted.
    pub context_aware: bool,
    /// Whether voice commands are wanted.
    pub voice_commands: bool,
    /// Position chosen in the hotkey-mode menu (0: hold).
    pub hotkey_index: usize,
    /// Whether the daemon should start at login.
    pub auto_start: bool,
}

/// The settings after the wizard: every answer applied, an empty API key
/// leaving the old one, the model changed only when one was chosen, and
/// the first run marked done.
pub open spec fn wizard_result(old: AppConfig, a: WizardAnswers, new: AppConfig) -> bool {
    &&& new.transcription.mode == (if a.mode_index == 0 {
        TranscriptionMode::Local
    } else {
        TranscriptionMode::Api
    })
    &&& new.transcription.model@ == (match a.model_index {
        Some(i) if i < MODEL_COUNT => model_names()[i as int],
        _ => old.transcription.model@,
    })
    &&& new.transcription.api_key@ == (if a.api_key@.len() > 0 {
        a.api_key@
    } else {
        old.transcription.api_key@
    })
    &&& new.ai_cleanup.enabled == a.ai_cleanup
    &&& new.ai_cleanup.custom_instructions@ == (match a.custom_instructions {
        Some(c) if a.ai_cleanup => c@,
        _ => old.ai_cleanup.custom_instructions@,
    })
    &&& new.general.context_aware == a.context_aware
    &&& new.voice_commands.enabled == a.voice_commands
    &&& new.hotkey.mode == (if a.hotkey_index == 0 {
        HotkeyMode::Hold
    } else {
        HotkeyMode::Toggle
    })
    &&& new.hotkey.key@ == old.hotkey.key@
    &&& new.general.auto_start == a.auto_start
    &&& !new.general.first_run
}

/// The settings after applying the wizard's answers to `config`.
pub fn apply_wizard_answers(config: AppConfig, answers: WizardAnswers) -> (r: AppConfig)
    ensures
        wizard_result(config, answers, r),
{
    let mut c = config;
    c.transcription.mode = if answers.mode_index == 0 {
        TranscriptionMode::Local
    } else {
        TranscriptionMode::Api
    };
    match answers.model_index {
        Some(i) => {
            if i < MODEL_COUNT {
                c.transcription.model = model_name(i).to_owned();
            }
        },
        None => {},
    }
    if !answers.api_key.as_str().is_empty() {
        c.transcription.api_key = answers.api_key;
    }
    c.ai_cleanup.enabled = answers.ai_cleanup;
    if answers.ai_cleanup {
        match answers.custom_instructions {
            Some(custom) => {
                c.ai_cleanup.custom_instructions = custom;
            },
            None => {},
        }
    }
    c.general.context_aware = answers.context_aware;
    c.voice_commands.enabled = answers.voice_commands;
    c.hotkey.mode = if answers.hotkey_index == 0 {
        HotkeyMode::Hold
    } else {
        HotkeyMode::Toggle
    };
    c.general.auto_start = answers.auto_start;
    c.general.first_run = false;
    c
}

/// Whether the wizard installs the launchd service: auto-start wanted and
/// not installed yet.
pub fn needs_service_install(auto_start: bool, installed: bool) -> (r: bool)
    ensures
        r == (auto_start && !installed),
{
    auto_start && !installed
}

} // verus!
