use murmur::config::{AppConfig, TranscriptionMode};
use murmur::pipeline::{pipeline_step, PipelineAction, PipelineEvent, Stage};

fn step(cfg: &AppConfig, stage: Stage, event: PipelineEvent) -> (Stage, Vec<PipelineAction>) {
    pipeline_step(cfg, "/models", stage, event)
}

fn transcribed(text: &str) -> PipelineEvent {
    PipelineEvent::Transcribed { result: Ok(text.to_string()) }
}

#[test]
fn no_audio_ends_the_recording() {
    let cfg = AppConfig::default();
    let (s, a) = step(&cfg, Stage::Preprocessing, PipelineEvent::Preprocessed { has_audio: false });
    assert!(matches!(s, Stage::Done));
    assert!(a.is_empty());
}

#[test]
fn local_mode_uses_the_configured_model() {
    let cfg = AppConfig::default();
    let (s, a) = step(&cfg, Stage::Preprocessing, PipelineEvent::Preprocessed { has_audio: true });
    assert!(matches!(s, Stage::Transcribing));
    match &a[..] {
        [PipelineAction::TranscribeLocally { model_path }] => {
            assert_eq!(model_path, "/models/ggml-medium.en.bin")
        }
        _ => panic!("expected a local transcription"),
    }
}

#[test]
fn api_mode_uses_the_key() {
    let mut cfg = AppConfig::default();
    cfg.transcription.mode = TranscriptionMode::Api;
    cfg.transcription.api_key = "sk-test".to_string();
    let (_, a) = step(&cfg, Stage::Preprocessing, PipelineEvent::Preprocessed { has_audio: true });
    match &a[..] {
        [PipelineAction::TranscribeWithApi { api_key }] => assert_eq!(api_key, "sk-test"),
        _ => panic!("expected an API transcription"),
    }
}

#[test]
fn transcription_failure_is_reported() {
    let cfg = AppConfig::default();
    let (s, a) = step(
        &cfg,
        Stage::Transcribing,
        PipelineEvent::Transcribed { result: Err("Model error: boom".to_string()) },
    );
    assert!(matches!(s, Stage::Done));
    match &a[..] {
        [PipelineAction::NotifyError { message }] => {
            assert_eq!(message, "Transcription failed: Model error: boom")
        }
        _ => panic!("expected a notification"),
    }
}

#[test]
fn blank_stop_and_command_only_transcripts_end_quietly() {
    let cfg = AppConfig::default();
    for text in ["   ", "okay stop listening", "delete that"] {
        let (s, a) = step(&cfg, Stage::Transcribing, transcribed(text));
        assert!(matches!(s, Stage::Done));
        assert!(a.is_empty());
    }
}

#[test]
fn without_cleanup_the_command_text_is_pasted_and_saved() {
    let cfg = AppConfig::default();
    let (s, a) = step(&cfg, Stage::Transcribing, transcribed("hello comma world period"));
    match &a[..] {
        [PipelineAction::Insert { text }] => assert_eq!(text, "hello, world."),
        _ => panic!("expected an insert"),
    }
    let (s, a) = step(&cfg, s, PipelineEvent::Inserted { result: Ok(()) });
    match &a[..] {
        [PipelineAction::SaveHistory { raw, final_text }] => {
            assert_eq!(raw, "hello comma world period");
            assert_eq!(final_text, "hello, world.");
        }
        _ => panic!("expected a history entry"),
    }
    let (s, a) = step(&cfg, s, PipelineEvent::Saved);
    assert!(matches!(s, Stage::Done));
    assert!(a.is_empty());
}

#[test]
fn cleanup_with_context_and_fallback() {
    let mut cfg = AppConfig::default();
    cfg.transcription.api_key = "k".to_string();
    cfg.ai_cleanup.custom_instructions = "formal".to_string();
    let (s, a) = step(&cfg, Stage::Transcribing, transcribed("um hi"));
    assert!(matches!(&a[..], [PipelineAction::ReadContext { max_chars: 200 }]));
    let (s, a) = step(&cfg, s, PipelineEvent::ContextRead { context: String::new() });
    match &a[..] {
        [PipelineAction::CleanUp { text, context, instructions, api_key }] => {
            assert_eq!(text, "um hi");
            assert!(context.is_none());
            assert_eq!(instructions.as_deref(), Some("formal"));
            assert_eq!(api_key, "k");
        }
        _ => panic!("expected a cleanup request"),
    }
    let (s, a) = step(&cfg, s, PipelineEvent::CleanedUp { result: Err("down".to_string()) });
    match &a[..] {
        [PipelineAction::Insert { text }] => assert_eq!(text, "um hi"),
        _ => panic!("expected the uncleaned text"),
    }
    let (_, a) = step(&cfg, s, PipelineEvent::Inserted { result: Err("no paste".to_string()) });
    match &a[..] {
        [PipelineAction::NotifyError { message }, PipelineAction::SaveHistory { final_text, .. }] => {
            assert_eq!(message, "Insert failed: no paste");
            assert_eq!(final_text, "um hi");
        }
        _ => panic!("expected a notification and a history entry"),
    }
}

#[test]
fn cleanup_without_context_uses_the_answer() {
    let mut cfg = AppConfig::default();
    cfg.transcription.api_key = "k".to_string();
    cfg.general.context_aware = false;
    let (s, a) = step(&cfg, Stage::Transcribing, transcribed("hi there"));
    match &a[..] {
        [PipelineAction::CleanUp { instructions, .. }] => assert!(instructions.is_none()),
        _ => panic!("expected a cleanup request"),
    }
    let (_, a) = step(&cfg, s, PipelineEvent::CleanedUp { result: Ok("Hi there.".to_string()) });
    match &a[..] {
        [PipelineAction::Insert { text }] => assert_eq!(text, "Hi there."),
        _ => panic!("expected the cleaned text"),
    }
}

#[test]
fn finished_and_mismatched_events_change_nothing() {
    let cfg = AppConfig::default();
    let (s, a) = step(&cfg, Stage::Done, transcribed("hello"));
    assert!(matches!(s, Stage::Done));
    assert!(a.is_empty());
    let (s, a) = step(&cfg, Stage::Preprocessing, PipelineEvent::Saved);
    assert!(matches!(s, Stage::Preprocessing));
    assert!(a.is_empty());
}

#[test]
fn with_voice_commands_off_the_transcript_is_pasted_as_said() {
    let mut cfg = AppConfig::default();
    cfg.voice_commands.enabled = false;
    let (s, a) = step(&cfg, Stage::Transcribing, transcribed(" hello comma world stop listening "));
    match &a[..] {
        [PipelineAction::Insert { text }] => assert_eq!(text, "hello comma world stop listening"),
        _ => panic!("expected an insert"),
    }
    let (_, a) = step(&cfg, s, PipelineEvent::Inserted { result: Ok(()) });
    match &a[..] {
        [PipelineAction::SaveHistory { raw, final_text }] => {
            assert_eq!(raw, " hello comma world stop listening ");
            assert_eq!(final_text, "hello comma world stop listening");
        }
        _ => panic!("expected a history entry"),
    }
    let (s, a) = step(&cfg, Stage::Transcribing, transcribed(" \n "));
    assert!(matches!(s, Stage::Done));
    assert!(a.is_empty());
}
