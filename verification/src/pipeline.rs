//! The decisions of the dictation pipeline: after each step of work done
//! outside (preprocessing, transcription, reading context, AI cleanup,
//! pasting, saving to history), what happens next.
use crate::commands::{asks_to_stop, command_text, process_commands};
use crate::config::{AppConfig, TranscriptionMode, path_join};
use crate::text::{prefixed, trim, trimmed};
use crate::transcription::{model_file, model_path};
use vstd::prelude::*;

verus! {

/// How many characters before the cursor are read as context.
pub const CONTEXT_CHARS: usize = 200;

/// Where a recording is in the pipeline.
pub enum Stage {
    /// Waiting for the cleaned-up audio.
    Preprocessing,
    /// Waiting for the transcript.
    Transcribing,
    /// Waiting for the text before the cursor.
    ReadingContext { raw: String, text: String },
    /// Waiting for the AI cleanup.
    CleaningUp { raw: String, text: String },
    /// Waiting for the text to be pasted.
    Inserting { raw: String, final_text: String },
    /// Waiting for the history entry to be written.
    Saving,
    /// Nothing left to do.
    Done,
}

/// What the outside work reported.
pub enum PipelineEvent {
    /// Preprocessing finished; whether any audio is left.
    Preprocessed { has_audio: bool },
    /// Transcription finished, with the transcript or the error's message.
    Transcribed { result: Result<String, String> },
    /// The text before the cursor was read (empty when unavailable).
    ContextRead { context: String },
    /// AI cleanup finished, with the cleaned text or the error's message.
    CleanedUp { result: Result<String, String> },
    /// Pasting finished, with the error's message if it failed.
    Inserted { result: Result<(), String> },
    /// The history entry was written (or failed, which is only logged).
    Saved,
}

/// Work the pipeline asks for.
pub enum PipelineAction {
    /// Transcribe with the OpenAI API.
    TranscribeWithApi { api_key: String },
    /// Transcribe with the local model stored at `model_path`.
    TranscribeLocally { model_path: String },
    /// Tell the user that something failed.
    NotifyError { message: String },
    /// Read up to `max_chars` characters before the cursor.
    ReadContext { max_chars: usize },
    /// Ask the cleanup model to tidy `text`.
    CleanUp {
        text: String,
        context: Option<String>,
        instructions: Option<String>,
        api_key: String,
    },
    /// Paste `text` at the cursor.
    Insert { text: String },
    /// Record the transcript and what was pasted.
    SaveHistory { raw: String, final_text: String },
}

/// A stage, with texts as character sequences.
pub enum StageModel {
    Preprocessing,
    Transcribing,
    ReadingContext { raw: Seq<char>, text: Seq<char> },
    CleaningUp { raw: Seq<char>, text: Seq<char> },
    Inserting { raw: Seq<char>, final_text: Seq<char> },
    Saving,
    Done,
}

/// An event, with texts as character sequences.
pub enum EventModel {
    Preprocessed { has_audio: bool },
    Transcribed { result: Result<Seq<char>, Seq<char>> },
    ContextRead { context: Seq<char> },
    CleanedUp { result: Result<Seq<char>, Seq<char>> },
    Inserted { result: Result<(), Seq<char>> },
    Saved,
}

/// An action, with texts as character sequences.
pub enum ActionModel {
    TranscribeWithApi { api_key: Seq<char> },
    TranscribeLocally { model_path: Seq<char> },
    NotifyError { message: Seq<char> },
    ReadContext { max_chars: usize },
    CleanUp {
        text: Seq<char>,
        context: Option<Seq<char>>,
        instructions: Option<Seq<char>>,
        api_key: Seq<char>,
    },
    Insert { text: Seq<char> },
    SaveHistory { raw: Seq<char>, final_text: Seq<char> },
}

pub open spec fn opt_string_view(o: Option<String>) -> Option<Seq<char>> {
    match o {
        Some(s) => Some(s@),
        None => None,
    }
}

impl View for Stage {
    type V = StageModel;

    open spec fn view(&self) -> StageModel {
        match self {
            Stage::Preprocessing => StageModel::Preprocessing,
            Stage::Transcribing => StageModel::Transcribing,
            Stage::ReadingContext { raw, text } => StageModel::ReadingContext {
                raw: raw@,
                text: text@,
            },
            Stage::CleaningUp { raw, text } => StageModel::CleaningUp { raw: raw@, text: text@ },
            Stage::Inserting { raw, final_text } => StageModel::Inserting {
                raw: raw@,
                final_text: final_text@,
            },
            Stage::Saving => StageModel::Saving,
            Stage::Done => StageModel::Done,
        }
    }
}

impl View for PipelineEvent {
    type V = EventModel;

    open spec fn view(&self) -> EventModel {
        match self {
            PipelineEvent::Preprocessed { has_audio } => EventModel::Preprocessed {
                has_audio: *has_audio,
            },
            PipelineEvent::Transcribed { result } => EventModel::Transcribed {
                result: match result {
                    Ok(t) => Ok(t@),
                    Err(e) => Err(e@),
                },
            },
            PipelineEvent::ContextRead { context } => EventModel::ContextRead {
                context: context@,
            },
            PipelineEvent::CleanedUp { result } => EventModel::CleanedUp {
                result: match result {
                    Ok(t) => Ok(t@),
                    Err(e) => Err(e@),
                },
            },
            PipelineEvent::Inserted { result } => EventModel::Inserted {
                result: match result {
                    Ok(()) => Ok(()),
                    Err(e) => Err(e@),
                },
            },
            PipelineEvent::Saved => EventModel::Saved,
        }
    }
}

impl View for PipelineAction {
    type V = ActionModel;

    open spec fn view(&self) -> ActionModel {
        match self {
            PipelineAction::TranscribeWithApi { api_key } => ActionModel::TranscribeWithApi {
                api_key: api_key@,
            },
            PipelineAction::TranscribeLocally { model_path } => ActionModel::TranscribeLocally {
                model_path: model_path@,
            },
            PipelineAction::NotifyError { message } => ActionModel::NotifyError {
                message: message@,
            },
            PipelineAction::ReadContext { max_chars } => ActionModel::ReadContext {
                max_chars: *max_chars,
            },
            PipelineAction::CleanUp { text, context, instructions, api_key } => ActionModel::CleanUp {
                text: text@,
                context: opt_string_view(*context),
                instructions: opt_string_view(*instructions),
                api_key: api_key@,
            },
            PipelineAction::Insert { text } => ActionModel::Insert { text: text@ },
            PipelineAction::SaveHistory { raw, final_text } => ActionModel::SaveHistory {
                raw: raw@,
                final_text: final_text@,
            },
        }
    }
}

/// The views of a list of actions.
pub open spec fn action_views(v: Seq<PipelineAction>) -> Seq<ActionModel> {
    v.map_values(|a: PipelineAction| a@)
}

/// Whether the settings ask for AI cleanup: enabled, with an API key.
pub open spec fn wants_cleanup(cfg: AppConfig) -> bool {
    cfg.ai_cleanup.enabled && cfg.transcription.api_key@.len() > 0
}

/// The user's cleanup instructions, when there are any.
pub open spec fn cleanup_instructions(cfg: AppConfig) -> Option<Seq<char>> {
    if cfg.ai_cleanup.custom_instructions@.len() == 0 {
        None
    } else {
        Some(cfg.ai_cleanup.custom_instructions@)
    }
}

/// The cleanup request for `text` with the given context.
pub open spec fn cleanup_action(cfg: AppConfig, text: Seq<char>, context: Option<Seq<char>>) -> ActionModel {
    ActionModel::CleanUp {
        text,
        context,
        instructions: cleanup_instructions(cfg),
        api_key: cfg.transcription.api_key@,
    }
}

/// Whether the transcript ends the recording by asking to stop listening:
/// only while voice commands are on.
pub open spec fn stops_listening(cfg: AppConfig, raw: Seq<char>) -> bool {
    cfg.voice_commands.enabled && asks_to_stop(raw)
}

/// The text a transcript stands for: with voice commands on, what is left
/// after them; with them off, the transcript itself, trimmed.
pub open spec fn spoken_text(cfg: AppConfig, raw: Seq<char>) -> Seq<char> {
    if cfg.voice_commands.enabled {
        command_text(raw)
    } else {
        trimmed(raw)
    }
}

/// What follows a transcript `raw`: nothing when it is blank, asks to stop
/// listening (voice commands on) or leaves no text; otherwise reading
/// context or cleaning up when cleanup is wanted, or pasting the text
/// directly.
pub open spec fn after_transcript(cfg: AppConfig, raw: Seq<char>) -> (StageModel, Seq<ActionModel>) {
    let text = spoken_text(cfg, raw);
    if trimmed(raw).len() == 0 || stops_listening(cfg, raw) || text.len() == 0 {
        (StageModel::Done, seq![])
    } else if wants_cleanup(cfg) {
        if cfg.general.context_aware {
            (
                StageModel::ReadingContext { raw, text },
                seq![ActionModel::ReadContext { max_chars: CONTEXT_CHARS }],
            )
        } else {
            (StageModel::CleaningUp { raw, text }, seq![cleanup_action(cfg, text, None)])
        }
    } else {
        (
            StageModel::Inserting { raw, final_text: text },
            seq![ActionModel::Insert { text }],
        )
    }
}

/// The next stage and the work to do, given the settings, the models
/// directory, the current stage and what the outside work reported. An
/// event that does not belong to the stage changes nothing.
pub open spec fn next_step(cfg: AppConfig, models_dir: Seq<char>, stage: StageModel, event: EventModel) -> (StageModel, Seq<ActionModel>) {
    match (stage, event) {
        (StageModel::Preprocessing, EventModel::Preprocessed { has_audio }) => if !has_audio {
            (StageModel::Done, seq![])
        } else if cfg.transcription.mode == TranscriptionMode::Api {
            (
                StageModel::Transcribing,
                seq![ActionModel::TranscribeWithApi { api_key: cfg.transcription.api_key@ }],
            )
        } else {
            (
                StageModel::Transcribing,
                seq![
                    ActionModel::TranscribeLocally {
                        model_path: path_join(models_dir, model_file(cfg.transcription.model@)),
                    },
                ],
            )
        },
        (StageModel::Transcribing, EventModel::Transcribed { result }) => match result {
            Err(e) => (
                StageModel::Done,
                seq![ActionModel::NotifyError { message: "Transcription failed: "@ + e }],
            ),
            Ok(raw) => after_transcript(cfg, raw),
        },
        (StageModel::ReadingContext { raw, text }, EventModel::ContextRead { context }) => (
            StageModel::CleaningUp { raw, text },
            seq![
                cleanup_action(
                    cfg,
                    text,
                    if context.len() == 0 {
                        None
                    } else {
                        Some(context)
                    },
                ),
            ],
        ),
        (StageModel::CleaningUp { raw, text }, EventModel::CleanedUp { result }) => {
            let final_text = match result {
                Ok(c) => c,
                Err(_) => text,
            };
            (StageModel::Inserting { raw, final_text }, seq![ActionModel::Insert { text: final_text }])
        },
        (StageModel::Inserting { raw, final_text }, EventModel::Inserted { result }) => match result {
            Ok(()) => (StageModel::Saving, seq![ActionModel::SaveHistory { raw, final_text }]),
            Err(e) => (
                StageModel::Saving,
                seq![
                    ActionModel::NotifyError { message: "Insert failed: "@ + e },
                    ActionModel::SaveHistory { raw, final_text },
                ],
            ),
        },
        (StageModel::Saving, EventModel::Saved) => (StageModel::Done, seq![]),
        (s, _) => (s, seq![]),
    }
}

fn cleanup_request(cfg: &AppConfig, text: String, context: Option<String>) -> (r: PipelineAction)
    ensures
        r@ == cleanup_action(*cfg, text@, opt_string_view(context)),
{
    let instructions = if cfg.ai_cleanup.custom_instructions.as_str().is_empty() {
        None
    } else {
        Some(copy_string(&cfg.ai_cleanup.custom_instructions))
    };
    PipelineAction::CleanUp {
        text,
        context,
        instructions,
        api_key: copy_string(&cfg.transcription.api_key),
    }
}

fn copy_string(s: &String) -> (r: String)
    ensures
        r@ == s@,
{
    s.as_str().to_owned()
}

fn handle_transcript(cfg: &AppConfig, raw: String) -> (r: (Stage, Vec<PipelineAction>))
    ensures
        r.0@ == after_transcript(*cfg, raw@).0,
        action_views(r.1@) == after_transcript(*cfg, raw@).1,
{
    let trimmed_raw = trim(raw.as_str());
    if trimmed_raw.as_str().is_empty() {
        return (Stage::Done, Vec::new());
    }
    let text = if cfg.voice_commands.enabled {
        let cmd = process_commands(raw.as_str());
        if cmd.should_stop || cmd.text.as_str().is_empty() {
            return (Stage::Done, Vec::new());
        }
        cmd.text
    } else {
        trimmed_raw
    };
    let wants = cfg.ai_cleanup.enabled && !cfg.transcription.api_key.as_str().is_empty();
    if wants {
        if cfg.general.context_aware {
            let actions = vec![PipelineAction::ReadContext { max_chars: CONTEXT_CHARS }];
            (Stage::ReadingContext { raw, text }, actions)
        } else {
            let a = cleanup_request(cfg, copy_string(&text), None);
            let actions = vec![a];
            (Stage::CleaningUp { raw, text }, actions)
        }
    } else {
        let actions = vec![PipelineAction::Insert { text: copy_string(&text) }];
        (Stage::Inserting { raw, final_text: text }, actions)
    }
}

/// Advances the pipeline: the next stage and the work to do.
pub fn pipeline_step(cfg: &AppConfig, models_dir: &str, stage: Stage, event: PipelineEvent) -> (r: (
    Stage,
    Vec<PipelineAction>,
))
    ensures
        r.0@ == next_step(*cfg, models_dir@, stage@, event@).0,
        action_views(r.1@) == next_step(*cfg, models_dir@, stage@, event@).1,
{
    match (stage, event) {
        (Stage::Preprocessing, PipelineEvent::Preprocessed { has_audio }) => {
            if !has_audio {
                (Stage::Done, Vec::new())
            } else {
                let action = match cfg.transcription.mode {
                    TranscriptionMode::Api => PipelineAction::TranscribeWithApi {
                        api_key: copy_string(&cfg.transcription.api_key),
                    },
                    TranscriptionMode::Local => PipelineAction::TranscribeLocally {
                        model_path: model_path(models_dir, cfg.transcription.model.as_str()),
                    },
                };
                let actions = vec![action];
                (Stage::Transcribing, actions)
            }
        },
        (Stage::Transcribing, PipelineEvent::Transcribed { result }) => match result {
            Err(e) => {
                let actions = vec![
                    PipelineAction::NotifyError {
                        message: prefixed("Transcription failed: ", e.as_str()),
                    },
                ];
                (Stage::Done, actions)
            },
            Ok(raw) => handle_transcript(cfg, raw),
        },
        (Stage::ReadingContext { raw, text }, PipelineEvent::ContextRead { context }) => {
            let ctx = if context.as_str().is_empty() {
                None
            } else {
                Some(context)
            };
            let a = cleanup_request(cfg, copy_string(&text), ctx);
            let actions = vec![a];
            (Stage::CleaningUp { raw, text }, actions)
        },
        (Stage::CleaningUp { raw, text }, PipelineEvent::CleanedUp { result }) => {
            let final_text = match result {
                Ok(c) => c,
                Err(_) => text,
            };
            let actions = vec![PipelineAction::Insert { text: copy_string(&final_text) }];
            (Stage::Inserting { raw, final_text }, actions)
        },
        (Stage::Inserting { raw, final_text }, PipelineEvent::Inserted { result }) => match result {
            Ok(()) => {
                let actions = vec![PipelineAction::SaveHistory { raw, final_text }];
                (Stage::Saving, actions)
            },
            Err(e) => {
                let actions = vec![
                    PipelineAction::NotifyError { message: prefixed("Insert failed: ", e.as_str()) },
                    PipelineAction::SaveHistory { raw, final_text },
                ];
                (Stage::Saving, actions)
            },
        },
        (Stage::Saving, PipelineEvent::Saved) => (Stage::Done, Vec::new()),
        (s, _) => {
            (s, Vec::new())
        },
    }
}


/// The stage reached and all work asked for after the events `events`,
/// starting from the beginning of the pipeline.
pub open spec fn run(cfg: AppConfig, models_dir: Seq<char>, events: Seq<EventModel>) -> (StageModel, Seq<ActionModel>)
    decreases events.len(),
{
    if events.len() == 0 {
        (StageModel::Preprocessing, seq![])
    } else {
        let before = run(cfg, models_dir, events.drop_last());
        let step = next_step(cfg, models_dir, before.0, events.last());
        (step.0, before.1 + step.1)
    }
}

/// A transcript whose text gets pasted: it does not stop listening and
/// stands for some text.
pub open spec fn pastes_something(cfg: AppConfig, raw: Seq<char>) -> bool {
    !stops_listening(cfg, raw) && spoken_text(cfg, raw).len() > 0
}

/// No action of `acts` pastes text.
pub open spec fn no_insert(acts: Seq<ActionModel>) -> bool {
    forall|i: int| 0 <= i < acts.len() ==> !(#[trigger] acts[i] is Insert)
}

/// At most one action of `acts` pastes text.
pub open spec fn at_most_one_insert(acts: Seq<ActionModel>) -> bool {
    forall|i: int, j: int|
        0 <= i < acts.len() && 0 <= j < acts.len() && #[trigger] acts[i] is Insert
            && #[trigger] acts[j] is Insert ==> i == j
}

/// Every history entry in `acts` records a transcript that pastes
/// something.
pub open spec fn saves_only_pasted(cfg: AppConfig, acts: Seq<ActionModel>) -> bool {
    forall|i: int|
        0 <= i < acts.len() && (#[trigger] acts[i] is SaveHistory) ==> pastes_something(
            cfg,
            acts[i]->SaveHistory_raw,
        )
}

/// Every cleanup request in `acts` sends the text that a transcript which
/// pastes something stands for (what is left after its voice commands, or
/// the trimmed transcript when they are off), never the raw transcript.
pub open spec fn cleans_only_spoken_text(cfg: AppConfig, acts: Seq<ActionModel>) -> bool {
    forall|i: int|
        0 <= i < acts.len() && (#[trigger] acts[i] is CleanUp) ==> exists|raw: Seq<char>|
            pastes_something(cfg, raw) && acts[i]->CleanUp_text == spoken_text(cfg, raw)
}

/// No action of `acts` involves the cleanup model.
pub open spec fn no_cleanup(acts: Seq<ActionModel>) -> bool {
    forall|i: int|
        0 <= i < acts.len() ==> !(#[trigger] acts[i] is CleanUp) && !(acts[i] is ReadContext)
}

spec fn run_invariant(cfg: AppConfig, st: StageModel, acts: Seq<ActionModel>) -> bool {
    &&& match st {
        StageModel::Preprocessing | StageModel::Transcribing => no_insert(acts),
        StageModel::ReadingContext { raw, text } => no_insert(acts) && pastes_something(cfg, raw)
            && text == spoken_text(cfg, raw) && wants_cleanup(cfg),
        StageModel::CleaningUp { raw, text } => no_insert(acts) && pastes_something(cfg, raw)
            && text == spoken_text(cfg, raw) && wants_cleanup(cfg),
        StageModel::Inserting { raw, .. } => at_most_one_insert(acts) && pastes_something(cfg, raw),
        StageModel::Saving | StageModel::Done => at_most_one_insert(acts),
    }
    &&& saves_only_pasted(cfg, acts)
    &&& cleans_only_spoken_text(cfg, acts)
    &&& !wants_cleanup(cfg) ==> no_cleanup(acts)
}

proof fn lemma_run_invariant(cfg: AppConfig, models_dir: Seq<char>, events: Seq<EventModel>)
    ensures
        run_invariant(cfg, run(cfg, models_dir, events).0, run(cfg, models_dir, events).1),
    decreases events.len(),
{
    if events.len() > 0 {
        lemma_run_invariant(cfg, models_dir, events.drop_last());
        let before = run(cfg, models_dir, events.drop_last());
        let step = next_step(cfg, models_dir, before.0, events.last());
        let acts = before.1 + step.1;
        assert forall|i: int| 0 <= i < before.1.len() implies acts[i] == before.1[i] by {}
        assert forall|i: int| before.1.len() <= i < acts.len() implies acts[i] == step.1[i
            - before.1.len()] by {}
        assert forall|i: int|
            0 <= i < acts.len() && (#[trigger] acts[i] is CleanUp) implies exists|raw: Seq<char>|
            pastes_something(cfg, raw) && acts[i]->CleanUp_text == spoken_text(cfg, raw) by {
            if i < before.1.len() {
            } else {
                match (before.0, events.last()) {
                    (StageModel::ReadingContext { raw, text }, EventModel::ContextRead { .. }) => {
                    },
                    (StageModel::Transcribing, EventModel::Transcribed { result: Ok(raw) }) => {
                    },
                    _ => {},
                }
            }
        }
        if no_insert(step.1) {
            assert forall|i: int, j: int|
                0 <= i < acts.len() && 0 <= j < acts.len() && #[trigger] acts[i] is Insert
                    && #[trigger] acts[j] is Insert implies i == j by {
            }
        }
    }
}

/// Once finished, a recording stays finished: no event asks for more work.
pub proof fn lemma_done_is_final(cfg: AppConfig, models_dir: Seq<char>, event: EventModel)
    ensures
        next_step(cfg, models_dir, StageModel::Done, event) == (StageModel::Done, Seq::<
            ActionModel,
        >::empty()),
{
}

/// Whatever the outside work reports, a recording pastes text at most
/// once, every history entry records a transcript that neither stopped
/// listening nor was blank or all commands, the cleanup model only ever
/// sees the text such a transcript stands for (after its voice commands,
/// or trimmed when they are off), and it is never involved unless AI
/// cleanup is enabled with an API key.
pub proof fn lemma_run_guarantees(cfg: AppConfig, models_dir: Seq<char>, events: Seq<EventModel>)
    ensures
        at_most_one_insert(run(cfg, models_dir, events).1),
        saves_only_pasted(cfg, run(cfg, models_dir, events).1),
        cleans_only_spoken_text(cfg, run(cfg, models_dir, events).1),
        !wants_cleanup(cfg) ==> no_cleanup(run(cfg, models_dir, events).1),
{
    lemma_run_invariant(cfg, models_dir, events);
    let acts = run(cfg, models_dir, events).1;
    if no_insert(acts) {
        assert forall|i: int, j: int|
            0 <= i < acts.len() && 0 <= j < acts.len() && #[trigger] acts[i] is Insert
                && #[trigger] acts[j] is Insert implies i == j by {}
    }
}

/// With voice commands off a transcript is taken as said: when AI cleanup
/// is not wanted, exactly the trimmed transcript is pasted, and the history
/// entry records the transcript and that text.
pub proof fn lemma_commands_off_pastes_as_said(cfg: AppConfig, models_dir: Seq<char>, raw: Seq<char>)
    requires
        !cfg.voice_commands.enabled,
        !wants_cleanup(cfg),
        trimmed(raw).len() > 0,
    ensures
        next_step(
            cfg,
            models_dir,
            StageModel::Transcribing,
            EventModel::Transcribed { result: Ok(raw) },
        ) == (
            StageModel::Inserting { raw, final_text: trimmed(raw) },
            seq![ActionModel::Insert { text: trimmed(raw) }],
        ),
        next_step(
            cfg,
            models_dir,
            StageModel::Inserting { raw, final_text: trimmed(raw) },
            EventModel::Inserted { result: Ok(()) },
        ) == (
            StageModel::Saving,
            seq![ActionModel::SaveHistory { raw, final_text: trimmed(raw) }],
        ),
{
}

/// The text read before the cursor reaches the cleanup model: after it is
/// read, the one request sent carries the transcript's text, that context
/// whenever it is non-empty (and none only when it is empty), the user's
/// instructions when there are any, and the API key.
pub proof fn lemma_context_reaches_cleanup(
    cfg: AppConfig,
    models_dir: Seq<char>,
    raw: Seq<char>,
    text: Seq<char>,
    context: Seq<char>,
)
    ensures
        ({
            let step = next_step(
                cfg,
                models_dir,
                StageModel::ReadingContext { raw, text },
                EventModel::ContextRead { context },
            );
            &&& step.0 == (StageModel::CleaningUp { raw, text })
            &&& step.1.len() == 1
            &&& step.1[0] matches ActionModel::CleanUp { text: t, context: c, instructions: i, api_key: k }
            &&& t == text
            &&& (context.len() > 0 ==> c == Some(context))
            &&& (context.len() == 0 ==> c is None)
            &&& (cfg.ai_cleanup.custom_instructions@.len() > 0 ==> i == Some(
                cfg.ai_cleanup.custom_instructions@,
            ))
            &&& (cfg.ai_cleanup.custom_instructions@.len() == 0 ==> i is None)
            &&& k == cfg.transcription.api_key@
        }),
{
}

} // verus!
