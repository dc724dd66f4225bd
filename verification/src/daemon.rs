//! Bookkeeping of the background daemon: its PID file, whether it runs,
//! how it is stopped, and the launchd job that starts it at login.
use crate::config::{app_file_in, app_file_of, join_path, path_join, system_home_dir};
use crate::digits::{
    decimal, decimal_i32, decimal_string, lemma_parse_decimal_roundtrip, parse_i32, parsed_i32,
    signed_decimal_string,
};
use crate::text::{lemma_trimmed_unchanged, push_str, string_from_chars, trim, trimmed};
use vstd::prelude::*;

verus! {

/// The launchd label of the daemon.
pub const PLIST_LABEL: &'static str = "com.murmur.app";

pub const PLIST_HEAD: &'static str = "<?xml version=\"1.0\" encoding=\"UTF-8\"?>\n<!DOCTYPE plist PUBLIC \"-//Apple//DTD PLIST 1.0//EN\" \"http://www.apple.com/DTDs/PropertyList-1.0.dtd\">\n<plist version=\"1.0\">\n<dict>\n    <key>Label</key>\n    <string>";

pub const PLIST_AFTER_LABEL: &'static str = "</string>\n    <key>ProgramArguments</key>\n    <array>\n        <string>";

pub const PLIST_AFTER_EXE: &'static str = "</string>\n        <string>start</string>\n        <string>--foreground</string>\n    </array>\n    <key>RunAtLoad</key>\n    <true/>\n    <key>KeepAlive</key>\n    <true/>\n    <key>StandardOutPath</key>\n    <string>";

pub const PLIST_AFTER_OUT_DIR: &'static str = "/launchd.out.log</string>\n    <key>StandardErrorPath</key>\n    <string>";

pub const PLIST_TAIL: &'static str = "/launchd.err.log</string>\n</dict>\n</plist>\n";

/// The launchd job description: label `com.murmur.app`, the executable run
/// as `<exe> start --foreground`, started at load and kept alive, its
/// standard output and error written to `launchd.out.log` and
/// `launchd.err.log` in `log_dir`.
pub open spec fn plist_text(exe: Seq<char>, log_dir: Seq<char>) -> Seq<char> {
    PLIST_HEAD@ + PLIST_LABEL@ + PLIST_AFTER_LABEL@ + exe + PLIST_AFTER_EXE@ + log_dir
        + PLIST_AFTER_OUT_DIR@ + log_dir + PLIST_TAIL@
}

/// The launchd job description for the executable `exe_path`, logging to
/// `log_dir`.
pub fn generate_plist(exe_path: &str, log_dir: &str) -> (r: String)
    ensures
        r@ == plist_text(exe_path@, log_dir@),
{
    let mut out: Vec<char> = Vec::new();
    push_str(&mut out, PLIST_HEAD);
    push_str(&mut out, PLIST_LABEL);
    push_str(&mut out, PLIST_AFTER_LABEL);
    push_str(&mut out, exe_path);
    push_str(&mut out, PLIST_AFTER_EXE);
    push_str(&mut out, log_dir);
    push_str(&mut out, PLIST_AFTER_OUT_DIR);
    push_str(&mut out, log_dir);
    push_str(&mut out, PLIST_TAIL);
    string_from_chars(&out)
}

/// Where the launchd job is installed for the home directory `home`:
/// `Library/LaunchAgents/com.murmur.app.plist` under it; `None` where there
/// is no home directory.
pub fn plist_path_in(home: Option<&str>) -> (r: Option<String>)
    ensures
        home is None ==> r is None,
        home matches Some(h) ==> (r matches Some(p) && p@ == path_join(
            path_join(h@, "Library/LaunchAgents"@),
            "com.murmur.app.plist"@,
        )),
{
    match home {
        Some(h) => {
            let agents = join_path(h, "Library/LaunchAgents");
            Some(join_path(agents.as_str(), "com.murmur.app.plist"))
        },
        None => None,
    }
}

/// Where the launchd job is installed,
/// `Library/LaunchAgents/com.murmur.app.plist` under the user's home
/// directory; `None` where there is no home directory. Which directory that
/// is depends on the user; `plist_path_in` gives the result for each answer
/// of the system.
pub fn plist_path() -> (r: Option<String>)
    ensures
        r matches Some(p) ==> exists|home: Seq<char>|
            p@ == path_join(
                path_join(home, "Library/LaunchAgents"@),
                "com.murmur.app.plist"@,
            ),
{
    match system_home_dir() {
        Some(home) => plist_path_in(Some(home.as_str())),
        None => plist_path_in(None),
    }
}

/// The PID file, `~/.config/wipr/murmur.pid` (`app_file_in` for each
/// answer of the system).
pub fn pid_file_path() -> (r: Option<String>)
    ensures
        r matches Some(p) ==> exists|home: Seq<char>| p@ == app_file_of(home, "murmur.pid"@),
{
    match system_home_dir() {
        Some(home) => app_file_in(Some(home.as_str()), "murmur.pid"),
        None => app_file_in(None, "murmur.pid"),
    }
}

/// Whether something exists at `path` (`std::path::Path::exists`). The
/// answer depends on what is on disk, so nothing is claimed of it.
#[verifier::external_body]
fn path_exists(path: &str) -> (r: bool) {
    std::path::Path::new(path).exists()
}

/// Whether the launchd job is installed: its plist file exists. Where there
/// is no home directory there is no such file, and the answer is `false`.
/// Beyond that the answer depends on what is on disk.
pub fn is_installed() -> (r: bool) {
    match plist_path() {
        Some(p) => path_exists(p.as_str()),
        None => false,
    }
}

/// What the PID file holds for process `pid`: its decimal number.
pub fn pid_file_content(pid: u32) -> (r: String)
    ensures
        r@ == decimal(pid as nat),
{
    decimal_string(pid as u64)
}

/// The process number a PID file's text stands for: the trimmed text
/// parsed as an `i32`.
pub open spec fn pid_of(content: Seq<char>) -> Option<i32> {
    parsed_i32(trimmed(content))
}

/// The process number written in a PID file, if its text is one.
pub fn parse_pid_content(content: &str) -> (r: Option<i32>)
    ensures
        r == pid_of(content@),
{
    let t = trim(content);
    parse_i32(t.as_str())
}

/// The daemon's process number named by a PID file, as `stop` and `start`
/// take it: its number when that is positive. To `kill`, zero and negative
/// numbers name process groups (or every process), never the daemon, so
/// these commands count them as no number.
pub open spec fn daemon_pid(content: Seq<char>) -> Option<i32> {
    match pid_of(content) {
        Some(p) => if p > 0 {
            Some(p)
        } else {
            None
        },
        None => None,
    }
}

/// The daemon's process number named by a PID file's text, if any.
pub fn daemon_pid_in(content: &str) -> (r: Option<i32>)
    ensures
        r == daemon_pid(content@),
        r matches Some(p) ==> p > 0,
{
    match parse_pid_content(content) {
        Some(p) => if p > 0 {
            Some(p)
        } else {
            None
        },
        None => None,
    }
}

/// Reading back what was written for a process gives its number, for every
/// process number that fits an `i32`; a positive one is taken as the
/// daemon's.
pub proof fn lemma_pid_file_roundtrip(pid: u32)
    requires
        pid <= 2147483647,
    ensures
        pid_of(decimal(pid as nat)) == Some(pid as i32),
        pid > 0 ==> daemon_pid(decimal(pid as nat)) == Some(pid as i32),
{
    lemma_parse_decimal_roundtrip(pid as nat);
    let d = decimal(pid as nat);
    crate::digits::lemma_decimal_digits(pid as nat);
    lemma_trimmed_unchanged(d);
}

/// Whether process `pid` exists and may be signalled
/// (`nix::sys::signal::kill` with no signal succeeds). The answer depends
/// on the running system, so nothing is claimed of it.
#[verifier::external_body]
pub fn is_alive(pid: i32) -> (r: bool) {
    nix::sys::signal::kill(nix::unistd::Pid::from_raw(pid), None).is_ok()
}

/// Sends SIGTERM to process `pid` (`nix::sys::signal::kill`); the error is
/// the system's message. Whether it succeeds depends on the running
/// system, so nothing is claimed of the result.
#[verifier::external_body]
fn send_sigterm(pid: i32) -> (r: Result<(), String>) {
    match nix::sys::signal::kill(
        nix::unistd::Pid::from_raw(pid),
        nix::sys::signal::Signal::SIGTERM,
    ) {
        Ok(()) => Ok(()),
        Err(e) => Err(e.to_string()),
    }
}

/// The daemon's status from what the PID file says, whether that process
/// is alive, and how long ago the PID file was written.
pub open spec fn status_spec(pid: Option<i32>, alive: bool, age_secs: Option<u64>) -> Option<
    (i32, u64),
> {
    match pid {
        None => None,
        Some(p) => if alive {
            Some((p, if age_secs is Some { age_secs->0 } else { 0 }))
        } else {
            None
        },
    }
}

/// The status of a daemon whose PID-file process number is `pid` and whose
/// liveness probe answered `alive`: the process number and the age of the
/// PID file (0 when unknown), or `None` when there is no live daemon.
pub fn status_after_probe(pid: Option<i32>, alive: bool, age_secs: Option<u64>) -> (r: Option<
    (i32, u64),
>)
    ensures
        r == status_spec(pid, alive, age_secs),
{
    match pid {
        None => None,
        Some(p) => if alive {
            let age = match age_secs {
                Some(a) => a,
                None => 0,
            };
            Some((p, age))
        } else {
            None
        },
    }
}

/// The process number named by the PID file's text, when there is a file
/// and it names a daemon process.
pub open spec fn file_pid(pid_file: Option<&str>) -> Option<i32> {
    match pid_file {
        Some(t) => daemon_pid(t@),
        None => None,
    }
}

/// The number written in the PID file, when there is a file and its
/// trimmed text is an `i32`.
pub open spec fn written_pid(pid_file: Option<&str>) -> Option<i32> {
    match pid_file {
        Some(t) => pid_of(t@),
        None => None,
    }
}

/// What `daemon_status` may answer for the PID file's text and age: the
/// status for the number written in the file, alive or not.
pub open spec fn status_fits(pid_file: Option<&str>, age_secs: Option<u64>, r: Option<(i32, u64)>) -> bool {
    exists|alive: bool| r == status_spec(written_pid(pid_file), alive, age_secs)
}

/// The daemon's status given the PID file's text (`None` when there is no
/// readable file) and the file's age: `None` unless the file holds a
/// number, and then that number and the age when the liveness probe
/// (`kill` with no signal) succeeds for it.
pub fn daemon_status(pid_file: Option<&str>, age_secs: Option<u64>) -> (r: Option<(i32, u64)>)
    ensures
        r matches Some((p, age)) ==> pid_file is Some && pid_of(pid_file->0@) == Some(p) && age
            == (if age_secs is Some {
            age_secs->0
        } else {
            0
        }),
        (pid_file is None || pid_of(pid_file->0@) is None) ==> r is None,
        status_fits(pid_file, age_secs, r),
{
    let pid = match pid_file {
        Some(text) => parse_pid_content(text),
        None => None,
    };
    match pid {
        Some(p) => {
            let alive = is_alive(p);
            let r = status_after_probe(pid, alive, age_secs);
            assert(r == status_spec(written_pid(pid_file), alive, age_secs));
            r
        },
        None => {
            assert(status_spec(written_pid(pid_file), false, age_secs) is None);
            None
        },
    }
}

/// How an attempt to stop the daemon ended.
#[derive(Debug)]
pub enum StopOutcome {
    /// The PID file is missing or does not name a daemon process (a
    /// positive number).
    NoPidFile,
    /// The PID file names a process that is gone; the file is to be removed.
    StalePidFile { pid: i32 },
    /// SIGTERM could not be sent.
    SignalFailed { pid: i32, reason: String },
    /// SIGTERM was sent; the PID file is to be removed.
    Signalled { pid: i32 },
}

/// How stopping ends, given the process number of the PID file, whether
/// that process is alive, and what sending SIGTERM gave (consulted only
/// for a live process).
pub open spec fn stop_outcome_spec(pid: Option<i32>, alive: bool, signal: Result<(), String>) -> StopOutcome {
    match pid {
        None => StopOutcome::NoPidFile,
        Some(p) => if !alive {
            StopOutcome::StalePidFile { pid: p }
        } else {
            match signal {
                Ok(()) => StopOutcome::Signalled { pid: p },
                Err(reason) => StopOutcome::SignalFailed { pid: p, reason },
            }
        },
    }
}

/// The outcome of stopping, from the PID file's process number, the
/// liveness probe and the result of signalling.
pub fn stop_outcome(pid: Option<i32>, alive: bool, signal: Result<(), String>) -> (r: StopOutcome)
    ensures
        r == stop_outcome_spec(pid, alive, signal),
{
    match pid {
        None => StopOutcome::NoPidFile,
        Some(p) => if !alive {
            StopOutcome::StalePidFile { pid: p }
        } else {
            match signal {
                Ok(()) => StopOutcome::Signalled { pid: p },
                Err(reason) => StopOutcome::SignalFailed { pid: p, reason },
            }
        },
    }
}

/// What `stop_daemon` may end with for the PID file's text: the outcome for
/// the file's process number, whatever the liveness probe and the signal
/// gave.
pub open spec fn stop_fits(pid_file: Option<&str>, r: StopOutcome) -> bool {
    exists|alive: bool, signal: Result<(), String>|
        r == stop_outcome_spec(file_pid(pid_file), alive, signal)
}

/// Stops the daemon named by the PID file's text (`None` when there is no
/// readable file): a missing file, or one that names no positive process
/// number, is reported; a dead process means a stale file; a live one is
/// sent SIGTERM. Only a positive process number is ever signalled.
pub fn stop_daemon(pid_file: Option<&str>) -> (r: StopOutcome)
    ensures
        (pid_file is None || daemon_pid(pid_file->0@) is None) <==> r is NoPidFile,
        r matches StopOutcome::StalePidFile { pid } ==> daemon_pid(pid_file->0@) == Some(pid),
        r matches StopOutcome::SignalFailed { pid, .. } ==> daemon_pid(pid_file->0@) == Some(pid),
        r matches StopOutcome::Signalled { pid } ==> daemon_pid(pid_file->0@) == Some(pid),
        stop_fits(pid_file, r),
{
    let pid = match pid_file {
        Some(text) => daemon_pid_in(text),
        None => None,
    };
    match pid {
        None => stop_outcome(None, false, Ok(())),
        Some(p) => {
            if is_alive(p) {
                let signal = send_sigterm(p);
                stop_outcome(pid, true, signal)
            } else {
                stop_outcome(pid, false, Ok(()))
            }
        },
    }
}

/// Whether the PID file is removed after stopping: when it was stale, and
/// when the process was signalled.
pub fn removes_pid_file(outcome: &StopOutcome) -> (r: bool)
    ensures
        r == (outcome is StalePidFile || outcome is Signalled),
{
    match outcome {
        StopOutcome::StalePidFile { .. } | StopOutcome::Signalled { .. } => true,
        _ => false,
    }
}

/// The error text of the `stop` command for an outcome, if any.
pub open spec fn stop_error_text(outcome: StopOutcome) -> Option<Seq<char>> {
    match outcome {
        StopOutcome::NoPidFile => Some("Daemon is not running (no PID file)"@),
        StopOutcome::StalePidFile { .. } => Some("Daemon is not running (stale PID file removed)"@),
        StopOutcome::SignalFailed { pid, reason } => Some(
            "Failed to send SIGTERM to PID "@ + decimal_i32(pid) + ": "@ + reason@,
        ),
        StopOutcome::Signalled { .. } => None,
    }
}

/// The error the `stop` command reports for an outcome, if any: a missing
/// PID file, a stale one (removed), or a failed SIGTERM.
pub fn stop_error_message(outcome: &StopOutcome) -> (r: Option<String>)
    ensures
        outcome is NoPidFile ==> (r matches Some(m) && m@ == "Daemon is not running (no PID file)"@),
        outcome is StalePidFile ==> (r matches Some(m) && m@
            == "Daemon is not running (stale PID file removed)"@),
        outcome matches StopOutcome::SignalFailed { pid, reason } ==> (r matches Some(m) && m@
            == "Failed to send SIGTERM to PID "@ + decimal_i32(*pid) + ": "@ + reason@),
        outcome is Signalled ==> r is None,
        match r {
            Some(m) => stop_error_text(*outcome) == Some(m@),
            None => stop_error_text(*outcome) is None,
        },
{
    match outcome {
        StopOutcome::NoPidFile => Some("Daemon is not running (no PID file)".to_owned()),
        StopOutcome::StalePidFile { .. } => Some(
            "Daemon is not running (stale PID file removed)".to_owned(),
        ),
        StopOutcome::SignalFailed { pid, reason } => {
            let mut out: Vec<char> = Vec::new();
            push_str(&mut out, "Failed to send SIGTERM to PID ");
            let n = signed_decimal_string(*pid);
            push_str(&mut out, n.as_str());
            push_str(&mut out, ": ");
            push_str(&mut out, reason.as_str());
            Some(string_from_chars(&out))
        },
        StopOutcome::Signalled { .. } => None,
    }
}

/// Stopping follows the liveness probe: for a daemon process `p` that the
/// probe finds alive, SIGTERM is what decides the outcome (`Signalled`
/// when it was sent, `SignalFailed` with its error otherwise), never a
/// stale file; only a process the probe finds gone makes the file stale.
pub proof fn lemma_stop_follows_probe(p: i32, alive: bool, signal: Result<(), String>)
    requires
        p > 0,
    ensures
        alive && signal is Ok ==> stop_outcome_spec(Some(p), alive, signal) == (StopOutcome::Signalled { pid: p }),
        alive ==> !(stop_outcome_spec(Some(p), alive, signal) is StalePidFile),
        alive && signal is Err ==> stop_outcome_spec(Some(p), alive, signal) == (StopOutcome::SignalFailed {
            pid: p,
            reason: signal->Err_0,
        }),
        !alive ==> stop_outcome_spec(Some(p), alive, signal) == (StopOutcome::StalePidFile { pid: p }),
        stop_outcome_spec(None, alive, signal) is NoPidFile,
{
}

/// Status follows the liveness probe: a written number whose probe succeeds
/// is reported with the file's age (0 when unknown); one whose probe fails,
/// and a file without a number, report no daemon.
pub proof fn lemma_status_follows_probe(p: i32, alive: bool, age_secs: Option<u64>)
    ensures
        alive && age_secs is Some ==> status_spec(Some(p), alive, age_secs) == Some((p, age_secs->0)),
        alive && age_secs is None ==> status_spec(Some(p), alive, age_secs) == Some((p, 0u64)),
        !alive ==> status_spec(Some(p), alive, age_secs) is None,
        status_spec(None, alive, age_secs) is None,
{
}

} // verus!