//! A call of one of the extension's tools, from the request to the answer.

use crate::code_execution::{answer, handle_execute, ExecuteEvent};
use crate::code_execution_client::{
    call_result, call_tool, required_arguments, setup_error, text_contents, tool_name,
    CallToolResult, SetupFailure, ToolKind,
};
use crate::content::{content_views, plain_text, Content, ContentStore, ContentView};
use crate::json::JsonObject;
use vstd::prelude::*;

verus! {

/// What the engine is asked for. `D` are requests for details of functions, `E`
/// are scripts, as they were read from the arguments of a call.
#[derive(Debug, PartialEq)]
pub enum EngineTask<D, E> {
    ListFunctions,
    DescribeFunctions(D),
    Execute(E),
}

/// How far a call has come.
#[derive(Debug, PartialEq)]
pub enum CallPhase<D, E> {
    /// A request for details is being read.
    ReadingDetails,
    /// A script is being read.
    ReadingScript,
    /// The engine is being got, or built.
    GettingEngine { task: EngineTask<D, E> },
    /// The engine is being asked about functions.
    Asking,
    /// The tools are being registered for a script.
    Registering { script: E },
    /// The script is running.
    Executing,
    Done,
}

/// What happened to a call. `M` are the engines, `R` the engines with tools
/// registered for a script.
#[derive(Debug)]
pub enum CallEvent<D, E, M, R> {
    DetailsRead(D),
    ScriptRead(E),
    ArgumentsUnreadable(String),
    EngineReady(M),
    EngineFailed(String),
    /// The engine told of its functions.
    Told(String),
    Registered(R),
    SetupFailed(SetupFailure),
    /// The script ended; what its tools set aside is in the store.
    Ended(ExecuteEvent, ContentStore),
}

/// What is to be done next for a call.
#[derive(Debug, PartialEq)]
pub enum CallAction<D, E, M, R> {
    /// Read a request for details from the arguments.
    ReadDetails(JsonObject),
    /// Read a script from the arguments.
    ReadScript(JsonObject),
    GetEngine,
    ListFunctions(M),
    DescribeFunctions(M, D),
    RegisterTools(M),
    Execute(R, E),
    Answer(CallToolResult),
}

/// Whether a result tells how a call came out: its contents, or its error as a
/// text.
pub open spec fn tells(
    result: CallToolResult,
    outcome: Result<Seq<ContentView>, Seq<char>>,
) -> bool {
    match outcome {
        Ok(contents) => content_views(result.content@) == contents && !result.is_error,
        Err(error) => content_views(result.content@) == seq![plain_text("Error: "@ + error)]
            && result.is_error,
    }
}

/// Whether a call ends here, and how.
pub open spec fn call_ends<D, E, M, R>(
    next: CallPhase<D, E>,
    action: CallAction<D, E, M, R>,
    outcome: Result<Seq<ContentView>, Seq<char>>,
) -> bool {
    &&& next == CallPhase::<D, E>::Done
    &&& action matches CallAction::Answer(result) && tells(result, outcome)
}

/// Whether a call starts in the given phase with the given action.
pub open spec fn call_begins<D, E, M, R>(
    name: Seq<char>,
    arguments: Option<JsonObject>,
    phase: CallPhase<D, E>,
    action: CallAction<D, E, M, R>,
) -> bool {
    if name == tool_name(ToolKind::ListFunctions) {
        &&& phase == (CallPhase::<D, E>::GettingEngine { task: EngineTask::ListFunctions })
        &&& action == CallAction::<D, E, M, R>::GetEngine
    } else if name == tool_name(ToolKind::GetFunctionDetails) {
        match arguments {
            Some(arguments) => {
                &&& phase == CallPhase::<D, E>::ReadingDetails
                &&& action == CallAction::<D, E, M, R>::ReadDetails(arguments)
            },
            None => call_ends(phase, action, Err("Missing arguments for "@ + name)),
        }
    } else if name == tool_name(ToolKind::Execute) {
        match arguments {
            Some(arguments) => {
                &&& phase == CallPhase::<D, E>::ReadingScript
                &&& action == CallAction::<D, E, M, R>::ReadScript(arguments)
            },
            None => call_ends(phase, action, Err("Missing arguments for "@ + name)),
        }
    } else {
        call_ends(phase, action, Err("Unknown tool: "@ + name))
    }
}

/// Whether an event can happen in a phase.
pub open spec fn expects<D, E, M, R>(phase: CallPhase<D, E>, event: CallEvent<D, E, M, R>) -> bool {
    match phase {
        CallPhase::ReadingDetails => event is DetailsRead || event is ArgumentsUnreadable,
        CallPhase::ReadingScript => event is ScriptRead || event is ArgumentsUnreadable,
        CallPhase::GettingEngine { .. } => event is EngineReady || event is EngineFailed,
        CallPhase::Asking => event is Told,
        CallPhase::Registering { .. } => event is Registered || event is SetupFailed,
        CallPhase::Executing => event is Ended,
        CallPhase::Done => false,
    }
}

/// The message for a script that did not run to its end, or the content that
/// the call is answered with.
pub open spec fn execute_outcome(event: ExecuteEvent, store: ContentStore) -> Result<
    Seq<ContentView>,
    Seq<char>,
> {
    match event {
        ExecuteEvent::RuntimeFailed(error) => Err("Failed to create runtime: "@ + error@),
        ExecuteEvent::ExecutionFailed(error) => Err("Execution error: "@ + error@),
        ExecuteEvent::TaskFailed(error) => Err("Execution task failed: "@ + error@),
        ExecuteEvent::Executed(output) => Ok(answer(output, store@)),
    }
}

/// Whether an event takes a call one step on.
pub open spec fn call_step<D, E, M, R>(
    phase: CallPhase<D, E>,
    event: CallEvent<D, E, M, R>,
    next: CallPhase<D, E>,
    action: CallAction<D, E, M, R>,
) -> bool {
    match (phase, event) {
        (CallPhase::ReadingDetails, CallEvent::DetailsRead(details)) => {
            &&& next == (CallPhase::<D, E>::GettingEngine {
                task: EngineTask::DescribeFunctions(details),
            })
            &&& action == CallAction::<D, E, M, R>::GetEngine
        },
        (CallPhase::ReadingScript, CallEvent::ScriptRead(script)) => {
            &&& next == (CallPhase::<D, E>::GettingEngine { task: EngineTask::Execute(script) })
            &&& action == CallAction::<D, E, M, R>::GetEngine
        },
        (CallPhase::ReadingDetails, CallEvent::ArgumentsUnreadable(error)) => call_ends(
            next,
            action,
            Err("Failed to parse arguments: "@ + error@),
        ),
        (CallPhase::ReadingScript, CallEvent::ArgumentsUnreadable(error)) => call_ends(
            next,
            action,
            Err("Failed to parse arguments: "@ + error@),
        ),
        (CallPhase::GettingEngine { task }, CallEvent::EngineReady(engine)) => match task {
            EngineTask::ListFunctions => {
                &&& next == CallPhase::<D, E>::Asking
                &&& action == CallAction::<D, E, M, R>::ListFunctions(engine)
            },
            EngineTask::DescribeFunctions(details) => {
                &&& next == CallPhase::<D, E>::Asking
                &&& action == CallAction::<D, E, M, R>::DescribeFunctions(engine, details)
            },
            EngineTask::Execute(script) => {
                &&& next == (CallPhase::<D, E>::Registering { script })
                &&& action == CallAction::<D, E, M, R>::RegisterTools(engine)
            },
        },
        (CallPhase::GettingEngine { .. }, CallEvent::EngineFailed(error)) => call_ends(
            next,
            action,
            Err(error@),
        ),
        (CallPhase::Asking, CallEvent::Told(code)) => call_ends(
            next,
            action,
            Ok(seq![plain_text(code@)]),
        ),
        (CallPhase::Registering { script }, CallEvent::Registered(ready)) => {
            &&& next == CallPhase::<D, E>::Executing
            &&& action == CallAction::<D, E, M, R>::Execute(ready, script)
        },
        (CallPhase::Registering { .. }, CallEvent::SetupFailed(failure)) => match failure {
            SetupFailure::NoManager => call_ends(
                next,
                action,
                Err("Extension manager not available"@),
            ),
            SetupFailure::Registration(error) => call_ends(
                next,
                action,
                Err("Failed to register callback: "@ + error@),
            ),
        },
        (CallPhase::Executing, CallEvent::Ended(ended, store)) => call_ends(
            next,
            action,
            execute_outcome(ended, store),
        ),
        _ => false,
    }
}

/// How many more steps a call may take.
pub open spec fn steps_left<D, E>(phase: CallPhase<D, E>) -> nat {
    match phase {
        CallPhase::ReadingDetails | CallPhase::ReadingScript => 4,
        CallPhase::GettingEngine { .. } => 3,
        CallPhase::Registering { .. } => 2,
        CallPhase::Asking | CallPhase::Executing => 1,
        CallPhase::Done => 0,
    }
}

/// Every step brings a call closer to its end, and the call ends exactly where
/// it is answered.
pub proof fn call_is_answered<D, E, M, R>(
    phase: CallPhase<D, E>,
    event: CallEvent<D, E, M, R>,
    next: CallPhase<D, E>,
    action: CallAction<D, E, M, R>,
)
    requires
        call_step(phase, event, next, action),
    ensures
        steps_left(next) < steps_left(phase),
        next == CallPhase::<D, E>::Done <==> action is Answer,
{
}

/// A call ends with the contents of a tool, or with an error.
fn end_call<D, E, M, R>(outcome: Result<Vec<Content>, String>) -> (r: (
    CallPhase<D, E>,
    CallAction<D, E, M, R>,
))
    ensures
        call_ends(
            r.0,
            r.1,
            match outcome {
                Ok(contents) => Ok(content_views(contents@)),
                Err(error) => Err(error@),
            },
        ),
{
    (CallPhase::Done, CallAction::Answer(call_result(outcome)))
}

/// Starts a call of the tool with the given name. Asking for functions needs no
/// arguments; everything else does.
pub fn begin_call<D, E, M, R>(name: &str, arguments: Option<JsonObject>) -> (r: (
    CallPhase<D, E>,
    CallAction<D, E, M, R>,
))
    ensures
        call_begins(name@, arguments, r.0, r.1),
{
    let kind = match call_tool(name) {
        Ok(kind) => kind,
        Err(error) => {
            assert(name@ != tool_name(ToolKind::ListFunctions));
            assert(name@ != tool_name(ToolKind::GetFunctionDetails));
            assert(name@ != tool_name(ToolKind::Execute));
            return end_call(Err(error));
        },
    };
    assert(name@ == tool_name(kind));
    assert(kind == ToolKind::Execute <==> name@ == tool_name(ToolKind::Execute));
    assert(kind == ToolKind::ListFunctions <==> name@ == tool_name(ToolKind::ListFunctions));
    if kind == ToolKind::ListFunctions {
        return (
            CallPhase::GettingEngine { task: EngineTask::ListFunctions },
            CallAction::GetEngine,
        );
    }
    match arguments {
        Some(arguments) => {
            if kind == ToolKind::Execute {
                (CallPhase::ReadingScript, CallAction::ReadScript(arguments))
            } else {
                (CallPhase::ReadingDetails, CallAction::ReadDetails(arguments))
            }
        },
        None => match required_arguments::<E>(None, kind) {
            Ok(_) => vstd::pervasive::unreached(),
            Err(error) => end_call(Err(error)),
        },
    }
}

/// Takes a call one step on.
pub fn advance_call<D, E, M, R>(phase: CallPhase<D, E>, event: CallEvent<D, E, M, R>) -> (r: (
    CallPhase<D, E>,
    CallAction<D, E, M, R>,
))
    requires
        expects(phase, event),
    ensures
        call_step(phase, event, r.0, r.1),
{
    match phase {
        CallPhase::ReadingDetails => {
            let parsed = match event {
                CallEvent::DetailsRead(details) => Ok(details),
                CallEvent::ArgumentsUnreadable(error) => Err(error),
                _ => vstd::pervasive::unreached(),
            };
            match required_arguments(Some(parsed), ToolKind::GetFunctionDetails) {
                Ok(details) => (
                    CallPhase::GettingEngine { task: EngineTask::DescribeFunctions(details) },
                    CallAction::GetEngine,
                ),
                Err(error) => end_call(Err(error)),
            }
        },
        CallPhase::ReadingScript => {
            let parsed = match event {
                CallEvent::ScriptRead(script) => Ok(script),
                CallEvent::ArgumentsUnreadable(error) => Err(error),
                _ => vstd::pervasive::unreached(),
            };
            match required_arguments(Some(parsed), ToolKind::Execute) {
                Ok(script) => (
                    CallPhase::GettingEngine { task: EngineTask::Execute(script) },
                    CallAction::GetEngine,
                ),
                Err(error) => end_call(Err(error)),
            }
        },
        CallPhase::GettingEngine { task } => match event {
            CallEvent::EngineReady(engine) => match task {
                EngineTask::ListFunctions => (
                    CallPhase::Asking,
                    CallAction::ListFunctions(engine),
                ),
                EngineTask::DescribeFunctions(details) => (
                    CallPhase::Asking,
                    CallAction::DescribeFunctions(engine, details),
                ),
                EngineTask::Execute(script) => (
                    CallPhase::Registering { script },
                    CallAction::RegisterTools(engine),
                ),
            },
            CallEvent::EngineFailed(error) => end_call(Err(error)),
            _ => vstd::pervasive::unreached(),
        },
        CallPhase::Asking => match event {
            CallEvent::Told(code) => end_call(Ok(text_contents(code))),
            _ => vstd::pervasive::unreached(),
        },
        CallPhase::Registering { script } => match event {
            CallEvent::Registered(ready) => (
                CallPhase::Executing,
                CallAction::Execute(ready, script),
            ),
            CallEvent::SetupFailed(failure) => end_call(Err(setup_error(&failure))),
            _ => vstd::pervasive::unreached(),
        },
        CallPhase::Executing => match event {
            CallEvent::Ended(ended, store) => end_call(handle_execute(&ended, &store)),
            _ => vstd::pervasive::unreached(),
        },
        CallPhase::Done => vstd::pervasive::unreached(),
    }
}

} // verus!
