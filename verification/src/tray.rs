//! The menu-bar menu: which entries are checked and what choosing one
//! does.
use crate::config::{AppConfig, TranscriptionMode};
use crate::text::same_text;
use vstd::prelude::*;

verus! {

/// The windows the menu can open.
#[derive(Clone, Copy, Debug, PartialEq, Eq, Structural)]
pub enum TrayWindow {
    Settings,
    History,
}

/// The settings the menu can toggle.
#[derive(Clone, Copy, Debug, PartialEq, Eq, Structural)]
pub enum TrayToggle {
    LocalMode,
    AiCleanup,
    AutoStart,
}

/// What choosing a menu entry does.
#[derive(Clone, Copy, Debug, PartialEq, Eq, Structural)]
pub enum TrayAction {
    /// Show the window, creating it if needed.
    Open(TrayWindow),
    /// Leave the application.
    Quit,
    /// Report the new state of a toggle.
    Toggle(TrayToggle),
    /// Not a menu entry of ours.
    Ignore,
}

/// The action of the menu entry with identifier `id`.
pub open spec fn tray_action_spec(id: Seq<char>) -> TrayAction {
    if id == "settings"@ {
        TrayAction::Open(TrayWindow::Settings)
    } else if id == "history"@ {
        TrayAction::Open(TrayWindow::History)
    } else if id == "quit"@ {
        TrayAction::Quit
    } else if id == "local_mode"@ {
        TrayAction::Toggle(TrayToggle::LocalMode)
    } else if id == "ai_cleanup"@ {
        TrayAction::Toggle(TrayToggle::AiCleanup)
    } else if id == "auto_start"@ {
        TrayAction::Toggle(TrayToggle::AutoStart)
    } else {
        TrayAction::Ignore
    }
}

/// What the menu entry with identifier `id` does.
pub fn tray_action(id: &str) -> (r: TrayAction)
    ensures
        r == tray_action_spec(id@),
{
    if same_text(id, "settings") {
        TrayAction::Open(TrayWindow::Settings)
    } else if same_text(id, "history") {
        TrayAction::Open(TrayWindow::History)
    } else if same_text(id, "quit") {
        TrayAction::Quit
    } else if same_text(id, "local_mode") {
        TrayAction::Toggle(TrayToggle::LocalMode)
    } else if same_text(id, "ai_cleanup") {
        TrayAction::Toggle(TrayToggle::AiCleanup)
    } else if same_text(id, "auto_start") {
        TrayAction::Toggle(TrayToggle::AutoStart)
    } else {
        TrayAction::Ignore
    }
}

/// The window label and the page it shows.
pub fn window_route(w: TrayWindow) -> (r: (&'static str, &'static str))
    ensures
        w == TrayWindow::Settings ==> r.0@ == "settings"@ && r.1@ == "/#/settings"@,
        w == TrayWindow::History ==> r.0@ == "history"@ && r.1@ == "/#/history"@,
{
    match w {
        TrayWindow::Settings => ("settings", "/#/settings"),
        TrayWindow::History => ("history", "/#/history"),
    }
}

/// The identifier a toggle reports itself with.
pub fn toggle_id(t: TrayToggle) -> (r: &'static str)
    ensures
        t == TrayToggle::LocalMode ==> r@ == "local_mode"@,
        t == TrayToggle::AiCleanup ==> r@ == "ai_cleanup"@,
        t == TrayToggle::AutoStart ==> r@ == "auto_start"@,
{
    match t {
        TrayToggle::LocalMode => "local_mode",
        TrayToggle::AiCleanup => "ai_cleanup",
        TrayToggle::AutoStart => "auto_start",
    }
}

/// The title of a newly created window with label `label`.
pub fn window_title(label: &str) -> (r: &'static str)
    ensures
        label@ == "settings"@ ==> r@ == "Wipr - Settings"@,
        label@ == "history"@ ==> r@ == "Wipr - History"@,
        label@ != "settings"@ && label@ != "history"@ ==> r@ == "Wipr"@,
{
    proof {
        reveal_strlit("settings");
        reveal_strlit("history");
        assert("settings"@.len() == 8);
    }
    if same_text(label, "settings") {
        "Wipr - Settings"
    } else if same_text(label, "history") {
        "Wipr - History"
    } else {
        "Wipr"
    }
}

/// Whether the local-mode, AI-cleanup and auto-start entries start checked.
pub fn tray_checks(cfg: &AppConfig) -> (r: (bool, bool, bool))
    ensures
        r == (cfg.transcription.mode == TranscriptionMode::Local, cfg.ai_cleanup.enabled,
        cfg.general.auto_start),
{
    (
        cfg.transcription.mode == TranscriptionMode::Local,
        cfg.ai_cleanup.enabled,
        cfg.general.auto_start,
    )
}

} // verus!
