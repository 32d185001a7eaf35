//! Laws of running commands.

use crate::command::{
    expects, printed_path, run_step, runs_line, unix_shell, HostShell, RunAction, RunEvent,
    RunState, ShellCommand,
};
use crate::laws::text::{blank, last_line_that_is_not_blank};
use crate::shell::ExecutionOutput;
use crate::text::{pieces, trimmed};
use vstd::prelude::*;

verus! {

/// Bash is taken where it is there; else the shell that the variable names,
/// whatever it names; else `sh`.
pub proof fn shells_chosen(shell: String, shell_var: Option<String>)
    ensures
        unix_shell(true, shell_var) == "/bin/bash"@,
        unix_shell(false, Some(shell)) == shell@,
        unix_shell(false, None) == "sh"@,
{
}

/// A shell is handed the command line as it is: without quoting on Windows, and
/// as an argument elsewhere.
pub proof fn lines_are_handed_over(shell: ShellCommand, command_line: Seq<char>, host: HostShell)
    requires
        runs_line(shell, command_line, host),
    ensures
        shell.command_line@ == command_line,
        shell.raw <==> host is Windows,
        host is Windows ==> shell.program@ == "cmd"@ && shell.flag@ == "/C"@,
        host matches HostShell::Unix { has_bash, shell_var } ==> shell.flag@ == "-c"@
            && shell.program@ == (if has_bash {
            "/bin/bash"@
        } else {
            match shell_var {
                Some(named) => named@,
                None => "sh"@,
            }
        }),
{
}

/// The search path is the last line printed that is not blank, trimmed; there is
/// none where all lines are blank, where the shell failed and where it printed
/// nothing in time.
pub proof fn search_paths_found(text: Seq<char>)
    ensures
        match printed_path(Some(text), true) {
            Some(path) => exists|i: int|
                0 <= i < pieces(text, '\n').len() && !blank(#[trigger] pieces(text, '\n')[i]) && path
                    == trimmed(pieces(text, '\n')[i]) && forall|j: int|
                    i < j < pieces(text, '\n').len() ==> blank(#[trigger] pieces(text, '\n')[j]),
            None => forall|j: int|
                0 <= j < pieces(text, '\n').len() ==> blank(#[trigger] pieces(text, '\n')[j]),
        },
        printed_path(Some(text), false) is None,
        printed_path(None, true) is None && printed_path(None, false) is None,
{
    last_line_that_is_not_blank(pieces(text, '\n'));
}

/// Whether the events happen to a command one after the other.
pub open spec fn command_run(
    timeout_secs: Option<u64>,
    events: Seq<RunEvent>,
    states: Seq<RunState>,
    actions: Seq<RunAction>,
) -> bool {
    &&& events.len() == actions.len()
    &&& states.len() == events.len() + 1
    &&& states[0] == (RunState::Starting { timeout_secs })
    &&& forall|i: int|
        0 <= i < events.len() ==> run_step(
            #[trigger] states[i],
            events[i],
            states[i + 1],
            actions[i],
        )
}

/// What a command that ran is reported to have done is what happened to it: the
/// lines are those read; the exit code is the one that the process exited with,
/// and there is none where it was killed on timeout, which is told; whether the
/// output was cut short or could not be collected is told.
pub proof fn runs_report_what_happened(
    timeout_secs: Option<u64>,
    events: Seq<RunEvent>,
    states: Seq<RunState>,
    actions: Seq<RunAction>,
    output: ExecutionOutput,
)
    requires
        command_run(timeout_secs, events, states, actions),
        events.len() > 0,
        actions.last() == RunAction::Finish(Ok(output)),
    ensures
        events.len() == 4 || events.len() == 5,
        events[0] == (RunEvent::Spawned { stdout: true, stderr: true }),
        events.last() == RunEvent::Lines(output.lines),
        events.len() == 4 ==> events[1] == RunEvent::Exited(output.exit_code) && !output.timed_out,
        events.len() == 5 ==> events[1] is WaitTimedOut && events[2] is Killed && output.timed_out
            && output.exit_code is None,
        output.output_truncated <==> events[events.len() - 2] is DrainTimedOut,
        match events[events.len() - 2] {
            RunEvent::ReadFailed(error) => output.output_collection_error matches Some(told)
                && told@ == "Failed to collect shell output: "@ + error@,
            RunEvent::CollectorFailed(error) => output.output_collection_error matches Some(told)
                && told@ == "Failed to collect shell output: "@ + error@,
            _ => output.output_collection_error is None,
        },
{
    let n = events.len() as int;
    assert(run_step(states[0], events[0], states[1], actions[0]));
    if n > 1 {
        assert(run_step(states[1], events[1], states[2], actions[1]));
    }
    if n > 2 {
        assert(run_step(states[2], events[2], states[3], actions[2]));
    }
    if n > 3 {
        assert(run_step(states[3], events[3], states[4], actions[3]));
    }
    if n > 4 {
        assert(run_step(states[4], events[4], states[5], actions[4]));
    }
    if n > 5 {
        assert(run_step(states[5], events[5], states[6], actions[5]));
    }
    assert(run_step(states[n - 1], events[n - 1], states[n], actions[n - 1]));
}

/// What is done for a command in each step: it is waited for no longer than its
/// limit, where it has one above zero; killed where that passed; its output is
/// drained for half a second and read then, and the collector is stopped where
/// draining took longer.
pub proof fn commands_are_attended_to(
    timeout_secs: Option<u64>,
    state: RunState,
    event: RunEvent,
    next: RunState,
    action: RunAction,
)
    requires
        run_step(state, event, next, action),
    ensures
        state == (RunState::Starting { timeout_secs }) && event == (RunEvent::Spawned {
            stdout: true,
            stderr: true,
        }) ==> match timeout_secs {
            Some(secs) => action == (RunAction::Wait {
                limit_secs: if secs > 0 {
                    Some(secs)
                } else {
                    None
                },
            }),
            None => action == (RunAction::Wait { limit_secs: None }),
        },
        event is WaitTimedOut ==> action == RunAction::Kill,
        event is Exited || event is Killed ==> action == (RunAction::Drain { limit_millis: 500 }),
        event is Drained || event is ReadFailed || event is CollectorFailed ==> action == (
        RunAction::ReadLines { abort_collector: false }),
        event is DrainTimedOut ==> action == (RunAction::ReadLines { abort_collector: true }),
{
}

/// A command that could not be started, whose streams could not be captured or
/// that could not be waited for is an error that tells why.
pub proof fn failed_runs_tell_why(
    state: RunState,
    event: RunEvent,
    next: RunState,
    action: RunAction,
)
    requires
        run_step(state, event, next, action),
    ensures
        action matches RunAction::Finish(Err(told)) ==> match event {
            RunEvent::SpawnFailed(error) => told@ == "Failed to spawn shell command: "@ + error@,
            RunEvent::WaitFailed(error) => told@ == "Failed waiting on shell command: "@ + error@,
            RunEvent::Spawned { stdout, stderr } => if !stdout {
                told@ == "Failed to capture stdout"@
            } else {
                !stderr && told@ == "Failed to capture stderr"@
            },
            _ => false,
        },
        event is SpawnFailed || event is WaitFailed ==> action matches RunAction::Finish(Err(_)),
        event matches RunEvent::Spawned { stdout, stderr } ==> (!stdout || !stderr) ==> (
        action matches RunAction::Finish(Err(_))),
{
}

/// A command that is waited for can exit, cannot be waited for, or takes too
/// long where it has a limit; one whose output is drained can end in four ways.
pub proof fn commands_expect(state: RunState, code: Option<i32>, text: String)
    ensures
        state is Starting ==> expects(state, RunEvent::SpawnFailed(text)) && forall|a: bool, b: bool|
            expects(state, RunEvent::Spawned { stdout: a, stderr: b }),
        state is Waiting ==> expects(state, RunEvent::Exited(code)) && expects(
            state,
            RunEvent::WaitFailed(text),
        ),
        state matches RunState::Waiting { timeout_secs: Some(secs) } ==> secs > 0 ==> expects(
            state,
            RunEvent::WaitTimedOut,
        ),
        state is Killing ==> expects(state, RunEvent::Killed),
        state is Draining ==> expects(state, RunEvent::Drained) && expects(
            state,
            RunEvent::ReadFailed(text),
        ) && expects(state, RunEvent::CollectorFailed(text)) && expects(
            state,
            RunEvent::DrainTimedOut,
        ),
        state is Reading ==> forall|lines: Vec<(bool, String)>|
            expects(state, RunEvent::Lines(lines)),
{
}

} // verus!
