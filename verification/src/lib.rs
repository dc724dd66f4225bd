//! Verified core of the murmur dictation tool: voice-command rewriting,
//! configuration defaults, daemon bookkeeping and the decisions of the
//! dictation pipeline.
pub mod text;
pub mod word_regex;
pub mod commands;
pub mod config;
pub mod setting_keys;
pub mod hotkey;
pub mod digits;
pub mod daemon;
pub mod transcription;
pub mod cleanup;
pub mod context;
pub mod insertion;
pub mod cli;
pub mod wizard;
pub mod pipeline;
pub mod tray;
pub mod history;
