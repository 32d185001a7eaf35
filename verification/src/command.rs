//! How a shell command is started, waited for and collected, and how the
//! search path of the user's login shell is found.

use crate::shell::ExecutionOutput;
use crate::text::{last_line, last_line_trimmed, pieces, views, with_cause};
use vstd::prelude::*;
use vstd::utf8::{decode_utf8, valid_utf8};

verus! {

/// How long the output of a command is drained after the process exited.
pub const OUTPUT_DRAIN_TIMEOUT_MILLIS: u64 = 500;

/// How long a login shell may take to tell its search path.
pub const LOGIN_SHELL_TIMEOUT_SECS: u64 = 5;

// ---------------------------------------------------------------------------
// Starting
// ---------------------------------------------------------------------------

/// What of the host decides which shell runs a command.
#[derive(Debug, PartialEq)]
pub enum HostShell {
    Windows,
    Unix {
        /// Whether `/bin/bash` is a file.
        has_bash: bool,
        /// The variable `SHELL`, where it is set.
        shell_var: Option<String>,
    },
}

/// A shell with the command line that it runs.
#[derive(Debug, PartialEq)]
pub struct ShellCommand {
    pub program: String,
    pub flag: String,
    pub command_line: String,
    /// Whether the command line goes to the shell without quoting.
    pub raw: bool,
}

/// The shell of a host that is not Windows.
pub open spec fn unix_shell(has_bash: bool, shell_var: Option<String>) -> Seq<char> {
    if has_bash {
        "/bin/bash"@
    } else {
        match shell_var {
            Some(shell) => shell@,
            None => "sh"@,
        }
    }
}

/// The shell of a host that is not Windows.
pub fn choose_shell(has_bash: bool, shell_var: &Option<String>) -> (r: String)
    ensures
        r@ == unix_shell(has_bash, *shell_var),
{
    if has_bash {
        "/bin/bash".to_owned()
    } else {
        match shell_var {
            Some(shell) => shell.clone(),
            None => "sh".to_owned(),
        }
    }
}

/// Whether a shell runs a command line on a host.
pub open spec fn runs_line(shell: ShellCommand, command_line: Seq<char>, host: HostShell) -> bool {
    &&& shell.command_line@ == command_line
    &&& match host {
        HostShell::Windows => shell.program@ == "cmd"@ && shell.flag@ == "/C"@ && shell.raw,
        HostShell::Unix { has_bash, shell_var } => shell.program@ == unix_shell(has_bash, shell_var)
            && shell.flag@ == "-c"@ && !shell.raw,
    }
}

/// The shell that runs a command line.
pub fn build_shell_command(command_line: &str, host: &HostShell) -> (r: ShellCommand)
    ensures
        runs_line(r, command_line@, *host),
        r.command_line@ == command_line@,
        match *host {
            HostShell::Windows => r.program@ == "cmd"@ && r.flag@ == "/C"@ && r.raw,
            HostShell::Unix { has_bash, shell_var } => r.program@ == unix_shell(has_bash, shell_var)
                && r.flag@ == "-c"@ && !r.raw,
        },
{
    match host {
        HostShell::Windows => ShellCommand {
            program: "cmd".to_owned(),
            flag: "/C".to_owned(),
            command_line: command_line.to_owned(),
            raw: true,
        },
        HostShell::Unix { has_bash, shell_var } => ShellCommand {
            program: choose_shell(*has_bash, shell_var),
            flag: "-c".to_owned(),
            command_line: command_line.to_owned(),
            raw: false,
        },
    }
}

/// A login shell that prints its search path.
#[derive(Debug, PartialEq)]
pub struct LoginShell {
    pub program: String,
    pub args: Vec<String>,
}

/// The login shell that prints its search path: one that reads the user's
/// profile as for a terminal.
pub fn login_shell(has_bash: bool, shell_var: &Option<String>) -> (r: LoginShell)
    ensures
        r.program@ == unix_shell(has_bash, *shell_var),
        views(r.args@) == seq!["-l"@, "-i"@, "-c"@, "echo $PATH"@],
{
    let mut args: Vec<String> = Vec::new();
    args.push("-l".to_owned());
    args.push("-i".to_owned());
    args.push("-c".to_owned());
    args.push("echo $PATH".to_owned());
    assert(views(args@) == seq!["-l"@, "-i"@, "-c"@, "echo $PATH"@]);
    LoginShell { program: choose_shell(has_bash, shell_var), args }
}

// ---------------------------------------------------------------------------
// Decoding
// ---------------------------------------------------------------------------

/// The text that `String::from_utf8_lossy` makes of bytes.
pub uninterp spec fn lossy_text(bytes: Seq<u8>) -> Seq<char>;

/// `String::from_utf8_lossy`, as an owned string. Bytes that are UTF-8 are
/// decoded; what is put in place of those that are not is left to the name.
#[verifier::external_body]
fn decode_lossy(bytes: &[u8]) -> (r: String)
    ensures
        r@ == lossy_text(bytes@),
        valid_utf8(bytes@) ==> r@ == decode_utf8(bytes@),
{
    String::from_utf8_lossy(bytes).into_owned()
}

/// A line of output as text, tagged by its stream.
pub fn tagged_line(is_stderr: bool, line: &[u8]) -> (r: (bool, String))
    ensures
        r.0 == is_stderr,
        r.1@ == lossy_text(line@),
        valid_utf8(line@) ==> r.1@ == decode_utf8(line@),
{
    (is_stderr, decode_lossy(line))
}

/// The search path in the text that a login shell printed, if it printed one
/// and exited with success.
pub open spec fn printed_path(printed: Option<Seq<char>>, succeeded: bool) -> Option<Seq<char>> {
    match printed {
        Some(text) => if succeeded {
            last_line_trimmed(pieces(text, '\n'))
        } else {
            None
        },
        None => None,
    }
}

/// The search path in what a login shell printed: the last line that holds
/// more than white space, trimmed. Interactive shells may print more before it.
/// There is none unless the shell answered in time and exited with success.
pub fn login_path(printed: Option<&[u8]>, succeeded: bool) -> (r: Option<String>)
    ensures
        (match r {
            Some(path) => Some(path@),
            None => None,
        }) == printed_path(
            match printed {
                Some(bytes) => Some(lossy_text(bytes@)),
                None => None,
            },
            succeeded,
        ),
        match printed {
            Some(bytes) if succeeded => {
                let found = last_line_trimmed(pieces(lossy_text(bytes@), '\n'));
                &&& r is Some <==> found is Some
                &&& r matches Some(path) ==> found == Some(path@)
                &&& valid_utf8(bytes@) ==> lossy_text(bytes@) == decode_utf8(bytes@)
            },
            _ => r is None,
        },
{
    match printed {
        Some(bytes) => {
            if !succeeded {
                return None;
            }
            let text = decode_lossy(bytes);
            last_line(text.as_str())
        },
        None => None,
    }
}

// ---------------------------------------------------------------------------
// Running
// ---------------------------------------------------------------------------

/// How far the run of a command has come.
#[derive(Debug, PartialEq)]
pub enum RunState {
    /// The process is being started.
    Starting { timeout_secs: Option<u64> },
    /// The process is being waited for.
    Waiting { timeout_secs: Option<u64> },
    /// The process ran too long and is being killed.
    Killing,
    /// The process is gone and its output is being drained.
    Draining { exit_code: Option<i32>, timed_out: bool },
    /// The lines collected so far are being read.
    Reading {
        exit_code: Option<i32>,
        timed_out: bool,
        output_truncated: bool,
        output_collection_error: Option<String>,
    },
    /// The run is over.
    Done,
}

/// What happened to a command.
#[derive(Debug, PartialEq)]
pub enum RunEvent {
    SpawnFailed(String),
    /// The process runs; whether its two streams could be captured.
    Spawned { stdout: bool, stderr: bool },
    Exited(Option<i32>),
    WaitFailed(String),
    WaitTimedOut,
    Killed,
    Drained,
    /// Reading the output failed.
    ReadFailed(String),
    /// The task that reads the output failed.
    CollectorFailed(String),
    DrainTimedOut,
    Lines(Vec<(bool, String)>),
}

/// What is to be done next for a command.
#[derive(Debug, PartialEq)]
pub enum RunAction {
    /// Wait for the process, no longer than the limit where there is one.
    Wait { limit_secs: Option<u64> },
    /// Kill the process and wait until it is gone.
    Kill,
    /// Wait for the rest of the output, no longer than the limit.
    Drain { limit_millis: u64 },
    /// Read the lines collected so far, after stopping the collector where
    /// asked.
    ReadLines { abort_collector: bool },
    Finish(Result<ExecutionOutput, String>),
}

/// The limit by which a command is waited for: zero stands for none.
pub open spec fn wait_limit(timeout_secs: Option<u64>) -> Option<u64> {
    match timeout_secs {
        Some(secs) => if secs > 0 {
            Some(secs)
        } else {
            None
        },
        None => None,
    }
}

/// Whether an event can happen in a state.
pub open spec fn expects(state: RunState, event: RunEvent) -> bool {
    match state {
        RunState::Starting { .. } => event is SpawnFailed || event is Spawned,
        RunState::Waiting { timeout_secs } => event is Exited || event is WaitFailed || (
        event is WaitTimedOut && wait_limit(timeout_secs) is Some),
        RunState::Killing => event is Killed,
        RunState::Draining { .. } => event is Drained || event is ReadFailed
            || event is CollectorFailed || event is DrainTimedOut,
        RunState::Reading { .. } => event is Lines,
        RunState::Done => false,
    }
}

/// Whether a run ends here with the given error.
pub open spec fn ends_with(next: RunState, action: RunAction, message: Seq<char>) -> bool {
    &&& next == RunState::Done
    &&& action matches RunAction::Finish(Err(error)) && error@ == message
}

/// Whether a run goes on to read the lines, with the given findings.
pub open spec fn goes_to_reading(
    state: RunState,
    next: RunState,
    action: RunAction,
    truncated: bool,
    message: Option<Seq<char>>,
) -> bool {
    &&& action == RunAction::ReadLines { abort_collector: truncated }
    &&& next matches RunState::Reading {
        exit_code,
        timed_out,
        output_truncated,
        output_collection_error,
    } && state == (RunState::Draining { exit_code, timed_out }) && output_truncated == truncated && (
    match output_collection_error {
        Some(error) => message == Some(error@),
        None => message is None,
    })
}

/// Whether an event takes a state to the next one and asks for the action.
pub open spec fn run_step(
    state: RunState,
    event: RunEvent,
    next: RunState,
    action: RunAction,
) -> bool {
    match (state, event) {
        (RunState::Starting { .. }, RunEvent::SpawnFailed(error)) => ends_with(
            next,
            action,
            "Failed to spawn shell command: "@ + error@,
        ),
        (RunState::Starting { timeout_secs }, RunEvent::Spawned { stdout, stderr }) => {
            if !stdout {
                ends_with(next, action, "Failed to capture stdout"@)
            } else if !stderr {
                ends_with(next, action, "Failed to capture stderr"@)
            } else {
                &&& next == (RunState::Waiting { timeout_secs })
                &&& action == (RunAction::Wait { limit_secs: wait_limit(timeout_secs) })
            }
        },
        (RunState::Waiting { .. }, RunEvent::Exited(exit_code)) => {
            &&& next == (RunState::Draining { exit_code, timed_out: false })
            &&& action == (RunAction::Drain { limit_millis: OUTPUT_DRAIN_TIMEOUT_MILLIS })
        },
        (RunState::Waiting { .. }, RunEvent::WaitFailed(error)) => ends_with(
            next,
            action,
            "Failed waiting on shell command: "@ + error@,
        ),
        (RunState::Waiting { .. }, RunEvent::WaitTimedOut) => next == RunState::Killing && action
            == RunAction::Kill,
        (RunState::Killing, RunEvent::Killed) => {
            &&& next == (RunState::Draining { exit_code: None, timed_out: true })
            &&& action == (RunAction::Drain { limit_millis: OUTPUT_DRAIN_TIMEOUT_MILLIS })
        },
        (RunState::Draining { .. }, RunEvent::Drained) => goes_to_reading(
            state,
            next,
            action,
            false,
            None,
        ),
        (RunState::Draining { .. }, RunEvent::ReadFailed(error)) => goes_to_reading(
            state,
            next,
            action,
            false,
            Some("Failed to collect shell output: "@ + error@),
        ),
        (RunState::Draining { .. }, RunEvent::CollectorFailed(error)) => goes_to_reading(
            state,
            next,
            action,
            false,
            Some("Failed to collect shell output: "@ + error@),
        ),
        (RunState::Draining { .. }, RunEvent::DrainTimedOut) => goes_to_reading(
            state,
            next,
            action,
            true,
            None,
        ),
        (
            RunState::Reading { exit_code, timed_out, output_truncated, output_collection_error },
            RunEvent::Lines(lines),
        ) => {
            &&& next == RunState::Done
            &&& action == RunAction::Finish(
                Ok(
                    ExecutionOutput {
                        lines,
                        exit_code,
                        timed_out,
                        output_truncated,
                        output_collection_error,
                    },
                ),
            )
        },
        _ => false,
    }
}

/// What holds of every state of a run: a process that was killed has no exit
/// code, and output that was cut short is no collection error.
pub open spec fn run_invariant(state: RunState) -> bool {
    match state {
        RunState::Draining { exit_code, timed_out } => timed_out ==> exit_code is None,
        RunState::Reading { exit_code, timed_out, output_truncated, output_collection_error } => {
            &&& timed_out ==> exit_code is None
            &&& output_truncated ==> output_collection_error is None
        },
        _ => true,
    }
}

/// Every step keeps the invariant, and what a run reports in the end has it:
/// a process that was killed has no exit code, and output that was cut short
/// is no collection error.
pub proof fn run_keeps_invariant(
    state: RunState,
    event: RunEvent,
    next: RunState,
    action: RunAction,
)
    requires
        run_invariant(state),
        run_step(state, event, next, action),
    ensures
        run_invariant(next),
        action matches RunAction::Finish(Ok(output)) ==> {
            &&& output.timed_out ==> output.exit_code is None
            &&& output.output_truncated ==> output.output_collection_error is None
        },
{
}

/// How many more steps a run may take.
pub open spec fn steps_left(state: RunState) -> nat {
    match state {
        RunState::Starting { .. } => 5,
        RunState::Waiting { .. } => 4,
        RunState::Killing => 3,
        RunState::Draining { .. } => 2,
        RunState::Reading { .. } => 1,
        RunState::Done => 0,
    }
}

/// Every step brings a run closer to its end, and the run ends exactly where it
/// is finished.
pub proof fn run_ends(state: RunState, event: RunEvent, next: RunState, action: RunAction)
    requires
        run_step(state, event, next, action),
    ensures
        steps_left(next) < steps_left(state),
        next == RunState::Done <==> action is Finish,
{
}

/// The start of a run.
pub fn start_run(timeout_secs: Option<u64>) -> (r: RunState)
    ensures
        r == (RunState::Starting { timeout_secs }),
        run_invariant(r),
{
    RunState::Starting { timeout_secs }
}

/// Takes a run one step on.
pub fn run_command(state: RunState, event: RunEvent) -> (r: (RunState, RunAction))
    requires
        expects(state, event),
    ensures
        run_step(state, event, r.0, r.1),
        run_invariant(state) ==> run_invariant(r.0),
{
    match state {
        RunState::Starting { timeout_secs } => match event {
            RunEvent::Spawned { stdout, stderr } => {
                if !stdout {
                    (RunState::Done, RunAction::Finish(Err("Failed to capture stdout".to_owned())))
                } else if !stderr {
                    (RunState::Done, RunAction::Finish(Err("Failed to capture stderr".to_owned())))
                } else {
                    let limit_secs = match timeout_secs {
                        Some(secs) => if secs > 0 {
                            Some(secs)
                        } else {
                            None
                        },
                        None => None,
                    };
                    (RunState::Waiting { timeout_secs }, RunAction::Wait { limit_secs })
                }
            },
            RunEvent::SpawnFailed(error) => {
                let message = with_cause("Failed to spawn shell command: ", error.as_str());
                (RunState::Done, RunAction::Finish(Err(message)))
            },
            _ => vstd::pervasive::unreached(),
        },
        RunState::Waiting { timeout_secs } => match event {
            RunEvent::Exited(exit_code) => (
                RunState::Draining { exit_code, timed_out: false },
                RunAction::Drain { limit_millis: OUTPUT_DRAIN_TIMEOUT_MILLIS },
            ),
            RunEvent::WaitFailed(error) => {
                let message = with_cause("Failed waiting on shell command: ", error.as_str());
                (RunState::Done, RunAction::Finish(Err(message)))
            },
            _ => (RunState::Killing, RunAction::Kill),
        },
        RunState::Killing => (
            RunState::Draining { exit_code: None, timed_out: true },
            RunAction::Drain { limit_millis: OUTPUT_DRAIN_TIMEOUT_MILLIS },
        ),
        RunState::Draining { exit_code, timed_out } => {
            let mut output_truncated = false;
            let output_collection_error = match event {
                RunEvent::ReadFailed(error) => Some(
                    with_cause("Failed to collect shell output: ", error.as_str()),
                ),
                RunEvent::CollectorFailed(error) => Some(
                    with_cause("Failed to collect shell output: ", error.as_str()),
                ),
                RunEvent::DrainTimedOut => {
                    output_truncated = true;
                    None
                },
                _ => None,
            };
            (
                RunState::Reading { exit_code, timed_out, output_truncated, output_collection_error },
                RunAction::ReadLines { abort_collector: output_truncated },
            )
        },
        RunState::Reading { exit_code, timed_out, output_truncated, output_collection_error } => {
            let lines = match event {
                RunEvent::Lines(lines) => lines,
                _ => vstd::pervasive::unreached(),
            };
            (
                RunState::Done,
                RunAction::Finish(
                    Ok(
                        ExecutionOutput {
                            lines,
                            exit_code,
                            timed_out,
                            output_truncated,
                            output_collection_error,
                        },
                    ),
                ),
            )
        },
        RunState::Done => vstd::pervasive::unreached(),
    }
}

} // verus!
