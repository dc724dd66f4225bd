//! The command line: its subcommands and what each one answers.
use crate::daemon::{
    daemon_pid_in, daemon_status, file_pid, is_alive, removes_pid_file, status_fits, stop_daemon,
    stop_error_message, stop_error_text, stop_fits, StopOutcome,
};
use crate::digits::{decimal, decimal_i32, decimal_string, signed_decimal_string};
use crate::text::{push_str, string_from_chars};
use vstd::prelude::*;

verus! {

/// The parsed command line.
pub struct Cli {
    pub command: Option<Command>,
}

/// The subcommands.
pub enum Command {
    /// Start the dictation daemon.
    Start { foreground: bool },
    /// Stop the running daemon.
    Stop,
    /// Show daemon status.
    Status,
    /// Configure (interactive wizard when no action is given).
    Config { action: Option<ConfigAction> },
    /// Manage transcription history.
    History { action: Option<HistoryAction> },
    /// Install the launchd service.
    Install,
    /// Remove the launchd service.
    Uninstall,
    /// Download a Whisper model.
    Download { model: String },
}

/// What `config` does.
pub enum ConfigAction {
    List,
    Get { key: String },
    SetValue { key: String, value: String },
}

/// What `history` does.
pub enum HistoryAction {
    Search { query: String },
    Clear,
    Export,
}

/// What the program does to carry out a command once the library has
/// decided on it.
pub enum Plan {
    /// Print `message` and succeed; remove the PID file first when
    /// `remove_pid_file`.
    Report { message: String, remove_pid_file: bool },
    /// Fail with the error `message`; remove the PID file first when
    /// `remove_pid_file`.
    Fail { message: String, remove_pid_file: bool },
    /// Start the daemon, in the foreground (write the PID file and run the
    /// dictation pipeline) or as a background process; remove a stale PID
    /// file first when `remove_stale`.
    Start { foreground: bool, remove_stale: bool },
    /// Run the interactive configuration wizard.
    Wizard,
    /// Print all settings.
    ConfigList,
    /// Print the setting at the dotted path `key`.
    ConfigGet { key: String },
    /// Set the setting at the dotted path `key` to `value`.
    ConfigSet { key: String, value: String },
    /// Show, search, clear or export the transcription history.
    History { action: Option<HistoryAction> },
    /// Install the launchd service (its job description is
    /// `generate_plist`), then print `INSTALLED_MESSAGE`.
    Install,
    /// Remove the launchd service, then print `UNINSTALLED_MESSAGE`.
    Uninstall,
    /// Download the Whisper model `model` into the models directory.
    Download { model: String },
}

/// Printed once the daemon has been sent SIGTERM.
pub const STOPPED_MESSAGE: &'static str = "✓ Murmur stopped";

/// Printed once the launchd service is installed.
pub const INSTALLED_MESSAGE: &'static str = "✓ Murmur installed - will start on login";

/// Printed once the launchd service is removed.
pub const UNINSTALLED_MESSAGE: &'static str = "✓ Murmur launchd service removed";

/// Printed by `status` when no daemon runs.
pub const NOT_RUNNING_MESSAGE: &'static str = "○ Murmur is not running";

/// `p` reports `message`, removing the PID file exactly when `remove`.
pub open spec fn is_report(p: Plan, message: Seq<char>, remove: bool) -> bool {
    p matches Plan::Report { message: m, remove_pid_file } && m@ == message && remove_pid_file
        == remove
}

/// `p` fails with `message`, removing the PID file exactly when `remove`.
pub open spec fn is_failure(p: Plan, message: Seq<char>, remove: bool) -> bool {
    p matches Plan::Fail { message: m, remove_pid_file } && m@ == message && remove_pid_file
        == remove
}

/// The refusal of `start` while the daemon `pid` runs.
pub open spec fn already_running_text(pid: i32) -> Seq<char> {
    "Murmur is already running (PID "@ + decimal_i32(pid) + ")"@
}

/// An uptime as hours, minutes and seconds, leaving out leading zero
/// units: `1h 2m 3s`, `2m 3s`, `3s`.
pub open spec fn uptime_text(secs: nat) -> Seq<char> {
    let h = secs / 3600;
    let m = (secs % 3600) / 60;
    let s = secs % 60;
    if h > 0 {
        decimal(h) + "h "@ + decimal(m) + "m "@ + decimal(s) + "s"@
    } else if m > 0 {
        decimal(m) + "m "@ + decimal(s) + "s"@
    } else {
        decimal(s) + "s"@
    }
}

/// What `status` prints for a daemon status (process number and uptime).
pub open spec fn status_text(status: Option<(i32, u64)>) -> Seq<char> {
    match status {
        Some((pid, up)) => "● Murmur is running\n  PID:    "@ + decimal_i32(pid)
            + "\n  Uptime: "@ + uptime_text(up as nat),
        None => NOT_RUNNING_MESSAGE@,
    }
}

/// The plan of `start` given the process number the PID file names and
/// whether that process is alive: refuse while it runs; otherwise start,
/// clearing a stale PID file.
pub open spec fn start_plan_fits(r: Plan, foreground: bool, pid: Option<i32>, alive: bool) -> bool {
    match pid {
        None => r == Plan::Start { foreground, remove_stale: false },
        Some(p) => if alive {
            is_failure(r, already_running_text(p), false)
        } else {
            r == Plan::Start { foreground, remove_stale: true }
        },
    }
}

/// The plan of `stop` for a stop outcome: success once SIGTERM was sent,
/// the outcome's error otherwise; the PID file goes when it was stale or
/// the daemon was signalled.
pub open spec fn stop_plan_fits(r: Plan, outcome: StopOutcome) -> bool {
    if outcome is Signalled {
        is_report(r, STOPPED_MESSAGE@, true)
    } else {
        is_failure(r, stop_error_text(outcome)->0, outcome is StalePidFile)
    }
}

/// The plan of `config`: the wizard without an action, otherwise the
/// action with its arguments.
pub open spec fn config_plan_fits(r: Plan, action: Option<ConfigAction>) -> bool {
    match action {
        None => r is Wizard,
        Some(ConfigAction::List) => r is ConfigList,
        Some(ConfigAction::Get { key }) => r == (Plan::ConfigGet { key }),
        Some(ConfigAction::SetValue { key, value }) => r == (Plan::ConfigSet { key, value }),
    }
}

/// An uptime as `status` prints it.
pub fn format_uptime(secs: u64) -> (r: String)
    ensures
        r@ == uptime_text(secs as nat),
{
    let h = secs / 3600;
    let m = (secs % 3600) / 60;
    let s = secs % 60;
    let mut out: Vec<char> = Vec::new();
    if h > 0 {
        push_str(&mut out, decimal_string(h).as_str());
        push_str(&mut out, "h ");
        push_str(&mut out, decimal_string(m).as_str());
        push_str(&mut out, "m ");
    } else if m > 0 {
        push_str(&mut out, decimal_string(m).as_str());
        push_str(&mut out, "m ");
    }
    push_str(&mut out, decimal_string(s).as_str());
    push_str(&mut out, "s");
    string_from_chars(&out)
}

/// What `status` prints for a daemon status.
pub fn status_report(status: Option<(i32, u64)>) -> (r: String)
    ensures
        r@ == status_text(status),
{
    match status {
        Some((pid, up)) => {
            let mut out: Vec<char> = Vec::new();
            push_str(&mut out, "● Murmur is running\n  PID:    ");
            push_str(&mut out, signed_decimal_string(pid).as_str());
            push_str(&mut out, "\n  Uptime: ");
            push_str(&mut out, format_uptime(up).as_str());
            string_from_chars(&out)
        },
        None => NOT_RUNNING_MESSAGE.to_owned(),
    }
}

/// The plan of `start`, from the process number the PID file names and
/// whether it is alive.
pub fn start_plan(foreground: bool, pid: Option<i32>, alive: bool) -> (r: Plan)
    ensures
        start_plan_fits(r, foreground, pid, alive),
{
    match pid {
        None => Plan::Start { foreground, remove_stale: false },
        Some(p) => if alive {
            let mut out: Vec<char> = Vec::new();
            push_str(&mut out, "Murmur is already running (PID ");
            push_str(&mut out, signed_decimal_string(p).as_str());
            push_str(&mut out, ")");
            Plan::Fail { message: string_from_chars(&out), remove_pid_file: false }
        } else {
            Plan::Start { foreground, remove_stale: true }
        },
    }
}

/// The plan of `stop` for a stop outcome.
pub fn stop_plan(outcome: StopOutcome) -> (r: Plan)
    ensures
        stop_plan_fits(r, outcome),
{
    let remove = removes_pid_file(&outcome);
    match stop_error_message(&outcome) {
        Some(message) => Plan::Fail { message, remove_pid_file: remove },
        None => Plan::Report { message: STOPPED_MESSAGE.to_owned(), remove_pid_file: remove },
    }
}

/// Decides how to carry out a command, given the PID file's text (`None`
/// when there is no readable file) and its age in seconds. `start` refuses
/// while the daemon runs; `stop` signals the daemon and reports how that
/// went; `status` reports the daemon's process number and uptime; the
/// other commands are handed on with their arguments.
pub fn dispatch(command: Command, pid_file: Option<&str>, pid_file_age: Option<u64>) -> (r: Plan)
    ensures
        command matches Command::Start { foreground } ==> exists|alive: bool|
            start_plan_fits(r, foreground, file_pid(pid_file), alive),
        command is Stop ==> exists|o: StopOutcome| stop_fits(pid_file, o) && stop_plan_fits(r, o),
        command is Status ==> exists|s: Option<(i32, u64)>|
            status_fits(pid_file, pid_file_age, s) && is_report(r, status_text(s), false),
        command matches Command::Config { action } ==> config_plan_fits(r, action),
        command matches Command::History { action } ==> (r == (Plan::History { action })),
        command is Install ==> (r is Install),
        command is Uninstall ==> (r is Uninstall),
        command matches Command::Download { model } ==> (r == (Plan::Download { model })),
{
    match command {
        Command::Start { foreground } => {
            let pid = match pid_file {
                Some(text) => daemon_pid_in(text),
                None => None,
            };
            match pid {
                Some(p) => {
                    let alive = is_alive(p);
                    start_plan(foreground, pid, alive)
                },
                None => start_plan(foreground, None, false),
            }
        },
        Command::Stop => stop_plan(stop_daemon(pid_file)),
        Command::Status => {
            let status = daemon_status(pid_file, pid_file_age);
            Plan::Report { message: status_report(status), remove_pid_file: false }
        },
        Command::Config { action } => match action {
            None => Plan::Wizard,
            Some(ConfigAction::List) => Plan::ConfigList,
            Some(ConfigAction::Get { key }) => Plan::ConfigGet { key },
            Some(ConfigAction::SetValue { key, value }) => Plan::ConfigSet { key, value },
        },
        Command::History { action } => Plan::History { action },
        Command::Install => Plan::Install,
        Command::Uninstall => Plan::Uninstall,
        Command::Download { model } => Plan::Download { model },
    }
}

/// `start` follows the liveness probe of the process its PID file names:
/// while that process answers, the plan is the refusal "Murmur is already
/// running (PID p)", which keeps the PID file and starts nothing; when it
/// does not, the stale file is cleared and the daemon starts; without a
/// process number the daemon starts and no file is removed.
pub proof fn lemma_start_follows_probe(r: Plan, foreground: bool, pid: Option<i32>, alive: bool)
    requires
        start_plan_fits(r, foreground, pid, alive),
    ensures
        pid is Some && alive ==> (r matches Plan::Fail { message, remove_pid_file }
            && message@ == "Murmur is already running (PID "@ + decimal_i32(pid->0) + ")"@
            && !remove_pid_file),
        pid is Some && !alive ==> (r matches Plan::Start { foreground: f, remove_stale }
            && f == foreground && remove_stale),
        pid is None ==> (r matches Plan::Start { foreground: f, remove_stale } && f == foreground
            && !remove_stale),
        r is Start ==> !(pid is Some && alive),
{
}

/// `status` reports a running daemon with its process number and uptime,
/// and "not running" only when there is no live daemon: the two reports
/// never coincide.
pub proof fn lemma_status_reports_differ(p: i32, up: u64)
    ensures
        status_text(Some((p, up))) != status_text(None),
        status_text(Some((p, up))) == "● Murmur is running\n  PID:    "@ + decimal_i32(p)
            + "\n  Uptime: "@ + uptime_text(up as nat),
{
    reveal_strlit("○ Murmur is not running");
    reveal_strlit("● Murmur is running\n  PID:    ");
    assert(status_text(Some((p, up)))[0] != status_text(None)[0]);
}

} // verus!