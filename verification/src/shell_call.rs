//! A call of the shell tool from the request to the answer.

use crate::shell::{
    answers, index_after, is_error_result, line_texts, save_view, slot_of, stream_texts,
    ExecutionOutput, SaveRequest, ShellParams, ShellPlan, ShellResult, ShellTool,
};
use crate::text::{joined, trimmed};
use vstd::prelude::*;

verus! {

/// A command to run. `P` are the paths of the host.
#[derive(Debug, PartialEq)]
pub struct RunRequest<P> {
    pub command: String,
    pub timeout_secs: Option<u64>,
    pub working_dir: Option<P>,
    /// The search path to run the command with, where it is not the one that
    /// the tool itself was started with.
    pub login_path: Option<String>,
}

/// How far a call has come.
#[derive(Debug, PartialEq)]
pub enum ShellPhase {
    /// The command is running.
    Running { timeout_secs: Option<u64> },
    /// The outputs that are too long are being saved; so many replies came in,
    /// each with the path under which an output was saved.
    Saving {
        execution: ExecutionOutput,
        timeout_secs: Option<u64>,
        plan: ShellPlan,
        replies: Vec<Result<String, String>>,
    },
    Done,
}

/// What happened to a call.
#[derive(Debug, PartialEq)]
pub enum ShellEvent {
    RunFailed(String),
    Ran(ExecutionOutput),
    /// An output was saved under this path.
    Saved(String),
    SaveFailed(String),
}

/// What is to be done next for a call.
#[derive(Debug, PartialEq)]
pub enum ShellAction<P> {
    Run(RunRequest<P>),
    Save(SaveRequest),
    Answer(ShellResult),
}

/// Whether the outputs of a plan are those of the lines.
pub open spec fn plans_lines(plan: ShellPlan, lines: Seq<(bool, String)>) -> bool {
    &&& plan.stdout@ == joined(stream_texts(lines, false), "\n"@)
    &&& plan.stderr@ == joined(stream_texts(lines, true), "\n"@)
    &&& plan.combined@ == joined(line_texts(lines), "\n"@)
}

/// What holds of every phase of a call: the plan is that of the lines of the
/// command, some save is still to be made, and those made so far succeeded.
pub open spec fn call_invariant(phase: ShellPhase) -> bool {
    match phase {
        ShellPhase::Saving { execution, timeout_secs, plan, replies } => {
            &&& plans_lines(plan, execution.lines@)
            &&& replies@.len() < plan.saves_view().len()
            &&& forall|i: int| 0 <= i < replies@.len() ==> (#[trigger] replies@[i]) is Ok
        },
        _ => true,
    }
}

/// Whether an event can happen in a phase.
pub open spec fn expects(phase: ShellPhase, event: ShellEvent) -> bool {
    match phase {
        ShellPhase::Running { .. } => event is RunFailed || event is Ran,
        ShellPhase::Saving { .. } => event is Saved || event is SaveFailed,
        ShellPhase::Done => false,
    }
}

/// Whether a call goes on after the given replies: with the next save, where
/// one is left, or with the answer.
pub open spec fn goes_on<P>(
    next: ShellPhase,
    action: ShellAction<P>,
    execution: ExecutionOutput,
    timeout: Option<u64>,
    plan: ShellPlan,
    replies: Seq<Result<String, String>>,
) -> bool {
    let failed = replies.len() > 0 && replies.last() is Err;
    if !failed && replies.len() < plan.saves_view().len() {
        &&& next matches ShellPhase::Saving {
            execution: kept,
            timeout_secs,
            plan: same,
            replies: held,
        } && kept == execution && timeout_secs == timeout && same == plan && held@ == replies
        &&& action matches ShellAction::Save(request) && save_view(request)
            == plan.saves_view()[replies.len() as int]
    } else {
        &&& next == ShellPhase::Done
        &&& action matches ShellAction::Answer(result) && answers(
            result,
            execution,
            timeout,
            plan,
            replies,
        )
    }
}

/// Whether an event takes a call of a tool one step on.
pub open spec fn call_step<P>(
    before: ShellTool,
    phase: ShellPhase,
    event: ShellEvent,
    after: ShellTool,
    next: ShellPhase,
    action: ShellAction<P>,
) -> bool {
    match (phase, event) {
        (ShellPhase::Running { .. }, ShellEvent::RunFailed(error)) => {
            &&& after == before
            &&& next == ShellPhase::Done
            &&& action matches ShellAction::Answer(result) && is_error_result(result, error@, None)
        },
        (ShellPhase::Running { timeout_secs }, ShellEvent::Ran(execution)) => {
            &&& after.call_index == index_after(before.call_index, 1)
            &&& after.login_path == before.login_path
            &&& exists|plan: ShellPlan| #[trigger]
                plans_lines(plan, execution.lines@) && plan.slot == slot_of(before.call_index)
                    && goes_on(next, action, execution, timeout_secs, plan, Seq::empty())
        },
        (
            ShellPhase::Saving { execution, timeout_secs, plan, replies },
            ShellEvent::Saved(path),
        ) => after == before && goes_on(
            next,
            action,
            execution,
            timeout_secs,
            plan,
            replies@.push(Ok(path)),
        ),
        (
            ShellPhase::Saving { execution, timeout_secs, plan, replies },
            ShellEvent::SaveFailed(error),
        ) => after == before && goes_on(
            next,
            action,
            execution,
            timeout_secs,
            plan,
            replies@.push(Err(error)),
        ),
        _ => false,
    }
}

/// How many more steps a call may take.
pub open spec fn steps_left(phase: ShellPhase) -> int {
    match phase {
        ShellPhase::Running { .. } => 4,
        ShellPhase::Saving { plan, replies, .. } => plan.saves_view().len() - replies@.len(),
        ShellPhase::Done => 0,
    }
}

/// Every step keeps the invariant and brings a call closer to its end, and the
/// call ends exactly where it is answered.
pub proof fn call_keeps_invariant<P>(
    before: ShellTool,
    phase: ShellPhase,
    event: ShellEvent,
    after: ShellTool,
    next: ShellPhase,
    action: ShellAction<P>,
)
    requires
        call_invariant(phase),
        call_step(before, phase, event, after, next, action),
    ensures
        call_invariant(next),
        0 <= steps_left(next) < steps_left(phase),
        next == ShellPhase::Done <==> action is Answer,
{
}

fn go_on<P>(
    execution: ExecutionOutput,
    timeout_secs: Option<u64>,
    plan: ShellPlan,
    replies: Vec<Result<String, String>>,
    failed: bool,
) -> (r: (ShellPhase, ShellAction<P>))
    requires
        plan.saves_view().len() >= replies@.len(),
        failed == (replies@.len() > 0 && replies@.last() is Err),
        forall|i: int| 0 <= i < replies@.len() - 1 ==> (#[trigger] replies@[i]) is Ok,
    ensures
        goes_on(r.0, r.1, execution, timeout_secs, plan, replies@),
{
    let mut saves = plan.saves();
    assert(saves@.len() == plan.saves_view().len());
    if !failed && replies.len() < saves.len() {
        let ghost wanted = saves@[replies@.len() as int];
        assert(save_view(wanted) == plan.saves_view()[replies@.len() as int]);
        let request = saves.swap_remove(replies.len());
        (
            ShellPhase::Saving { execution, timeout_secs, plan, replies },
            ShellAction::Save(request),
        )
    } else {
        let result = plan.finish(&execution, timeout_secs, &replies);
        (ShellPhase::Done, ShellAction::Answer(result))
    }
}

impl ShellTool {
    /// Starts a call in the current directory.
    pub fn shell<P>(&self, params: ShellParams) -> (r: (ShellPhase, ShellAction<P>))
        ensures
            call_started(*self, params, None, r.0, r.1),
    {
        self.shell_with_cwd(params, None)
    }

    /// Starts a call: the command is run, in the given directory where there is
    /// one, unless it holds nothing but white space.
    pub fn shell_with_cwd<P>(&self, params: ShellParams, working_dir: Option<P>) -> (r: (
        ShellPhase,
        ShellAction<P>,
    ))
        ensures
            call_started(*self, params, working_dir, r.0, r.1),
    {
        if let Some(result) = ShellTool::refuse_empty(&params) {
            return (ShellPhase::Done, ShellAction::Answer(result));
        }
        let ShellParams { command, timeout_secs } = params;
        let login_path = match &self.login_path {
            Some(path) => Some(path.clone()),
            None => None,
        };
        let request = RunRequest { command, timeout_secs, working_dir, login_path };
        (ShellPhase::Running { timeout_secs }, ShellAction::Run(request))
    }

    /// Takes a call one step on.
    pub fn advance_call<P>(&mut self, phase: ShellPhase, event: ShellEvent) -> (r: (
        ShellPhase,
        ShellAction<P>,
    ))
        requires
            expects(phase, event),
            call_invariant(phase),
        ensures
            call_step(*old(self), phase, event, *final(self), r.0, r.1),
            call_invariant(r.0),
    {
        match phase {
            ShellPhase::Running { timeout_secs } => match event {
                ShellEvent::RunFailed(error) => (
                    ShellPhase::Done,
                    ShellAction::Answer(ShellTool::error_result(error.as_str(), None)),
                ),
                ShellEvent::Ran(execution) => {
                    let plan = self.plan_output(execution.lines.as_slice());
                    assert(plans_lines(plan, execution.lines@));
                    let replies: Vec<Result<String, String>> = Vec::new();
                    go_on(execution, timeout_secs, plan, replies, false)
                },
                _ => vstd::pervasive::unreached(),
            },
            ShellPhase::Saving { execution, timeout_secs, plan, replies } => {
                let mut replies = replies;
                match event {
                    ShellEvent::Saved(path) => {
                        replies.push(Ok(path));
                        go_on(execution, timeout_secs, plan, replies, false)
                    },
                    ShellEvent::SaveFailed(error) => {
                        replies.push(Err(error));
                        go_on(execution, timeout_secs, plan, replies, true)
                    },
                    _ => vstd::pervasive::unreached(),
                }
            },
            ShellPhase::Done => vstd::pervasive::unreached(),
        }
    }
}

/// Whether a call of a tool starts in the given phase with the given action.
pub open spec fn call_started<P>(
    tool: ShellTool,
    params: ShellParams,
    dir: Option<P>,
    phase: ShellPhase,
    action: ShellAction<P>,
) -> bool {
    if trimmed(params.command@).len() == 0 {
        &&& phase == ShellPhase::Done
        &&& action matches ShellAction::Answer(result) && is_error_result(
            result,
            "Command cannot be empty."@,
            None,
        )
    } else {
        &&& phase == (ShellPhase::Running { timeout_secs: params.timeout_secs })
        &&& action matches ShellAction::Run(request) && request.command == params.command
            && request.timeout_secs == params.timeout_secs && request.working_dir == dir
            && request.login_path == tool.login_path
    }
}

} // verus!
