use goose_tools::code_execution::{ExecuteEvent, ExecuteOutput};
use goose_tools::code_execution_call::{
    advance_call, begin_call, CallAction, CallEvent, CallPhase, EngineTask,
};
use goose_tools::code_execution_client::{
    call_result, call_tool, get_moim, list_tools, required_arguments, setup_error, text_contents,
    CodeExecutionClient, FunctionName, SetupFailure, ToolKind, EXTENSION_NAME,
};
use goose_tools::content::{Content, ContentStore};
use goose_tools::json::{JsonObject, JsonValue};

type Phase = CallPhase<u16, String>;

type Action = CallAction<u16, String, u8, i64>;

fn begin(name: &str, arguments: Option<JsonObject>) -> (Phase, Action) {
    begin_call(name, arguments)
}

fn advance(phase: Phase, event: CallEvent<u16, String, u8, i64>) -> (Phase, Action) {
    advance_call(phase, event)
}

fn text(s: &str) -> Content {
    Content::text(s.to_string())
}

fn answered(action: Action) -> (Vec<Content>, bool) {
    match action {
        CallAction::Answer(result) => (result.content, result.is_error),
        other => panic!("expected an answer, got {:?}", other),
    }
}

fn reading(name: &str) -> Phase {
    begin(name, Some(JsonObject::new())).0
}

#[test]
fn the_extension_presents_itself() {
    let client = CodeExecutionClient::new();
    let info = client.get_info();
    assert_eq!(info.name, EXTENSION_NAME);
    assert_eq!(info.name, "code_execution");
    assert_eq!(info.version, "1.0.0");
    assert_eq!(info.title, "Code Mode");
    assert!(info
        .instructions
        .starts_with("BATCH MULTIPLE TOOL CALLS INTO ONE execute CALL.\n\nThis"));
    assert!(info
        .instructions
        .ends_with("    4. Only return the data you need — tools can have very large responses.\n"));
    assert_eq!(info.instructions.lines().count(), 14);
}

#[test]
fn three_tools_are_listed() {
    let listing = list_tools();
    assert_eq!(listing.next_cursor, None);
    let tools = listing.tools;
    let names: Vec<&str> = tools.iter().map(|t| t.name.as_str()).collect();
    assert_eq!(
        names,
        vec!["list_functions", "get_function_details", "execute"]
    );
    let titles: Vec<&str> = tools.iter().map(|t| t.title.as_str()).collect();
    assert_eq!(
        titles,
        vec!["List functions", "Get function details", "Execute TypeScript"]
    );
    for tool in &tools {
        let runs = tool.kind == ToolKind::Execute;
        assert_eq!(tool.read_only, !runs);
        assert_eq!(tool.destructive, runs);
        assert_eq!(tool.idempotent, !runs);
        assert_eq!(tool.open_world, runs);
        assert_eq!(call_tool(&tool.name), Ok(tool.kind));
    }
    let schema = JsonValue::parse("{\"type\":\"object\",\"properties\":{},\"required\":[]}");
    match (&tools[0].input_schema, schema) {
        (Some(listed), Some(JsonValue::Object(expected))) => assert_eq!(*listed, expected),
        other => panic!("expected a schema, got {:?}", other),
    }
    assert_eq!(tools[1].input_schema, None);
    assert_eq!(tools[2].input_schema, None);
    assert!(tools[0]
        .description
        .starts_with("List all available functions across all namespaces.\n\nThis will not"));
    assert!(tools[1]
        .description
        .contains("(e.g., \"Developer.shell\", \"Github.createIssue\").\n"));
    assert!(tools[2].description.contains(
        "async function run() {\n    // Access functions via Namespace.functionName({ params })"
    ));
    assert!(tools[2].description.ends_with("and their parameters.\n"));
}

#[test]
fn unknown_tools_are_refused() {
    assert_eq!(
        call_tool("Execute"),
        Err("Unknown tool: Execute".to_string())
    );
    let (phase, action) = begin("rm", None);
    assert_eq!(phase, CallPhase::Done);
    assert_eq!(
        answered(action),
        (vec![text("Error: Unknown tool: rm")], true)
    );
}

#[test]
fn results_are_contents_or_an_error_text() {
    let result = call_result(Ok(text_contents("code".to_string())));
    assert_eq!(result.content, vec![text("code")]);
    assert!(!result.is_error);
    let result = call_result(Err("bad".to_string()));
    assert_eq!(result.content, vec![text("Error: bad")]);
    assert!(result.is_error);
}

#[test]
fn arguments_are_required() {
    assert_eq!(
        required_arguments(Some(Ok(5)), ToolKind::Execute),
        Ok(5)
    );
    assert_eq!(
        required_arguments::<i32>(Some(Err("eof".to_string())), ToolKind::Execute),
        Err("Failed to parse arguments: eof".to_string())
    );
    assert_eq!(
        required_arguments::<i32>(None, ToolKind::GetFunctionDetails),
        Err("Missing arguments for get_function_details".to_string())
    );
    for name in ["execute", "get_function_details"] {
        let (phase, action) = begin(name, None);
        assert_eq!(phase, CallPhase::Done);
        assert_eq!(
            answered(action),
            (
                vec![text(&format!("Error: Missing arguments for {}", name))],
                true
            )
        );
    }
}

#[test]
fn functions_are_listed_without_arguments() {
    let (phase, action) = begin("list_functions", None);
    assert_eq!(action, CallAction::GetEngine);
    let (phase, action) = advance(phase, CallEvent::EngineReady(7));
    assert_eq!(action, CallAction::ListFunctions(7));
    let (phase, action) = advance(phase, CallEvent::Told("code".to_string()));
    assert_eq!(phase, CallPhase::Done);
    assert_eq!(answered(action), (vec![text("code")], false));
}

#[test]
fn functions_are_described() {
    let (phase, action) =
        begin("get_function_details", Some(JsonObject::new()));
    assert_eq!(
        action,
        CallAction::ReadDetails(JsonObject::new())
    );
    let (phase, action) = advance(phase, CallEvent::DetailsRead(3));
    assert_eq!(action, CallAction::GetEngine);
    let (phase, action) = advance(phase, CallEvent::EngineReady(7));
    assert_eq!(action, CallAction::DescribeFunctions(7, 3));
    let (_, action) = advance(phase, CallEvent::Told("code".to_string()));
    assert_eq!(answered(action), (vec![text("code")], false));
}

#[test]
fn scripts_are_executed() {
    let phase = reading("execute");
    let (phase, _) = advance(phase, CallEvent::ScriptRead("a".to_string()));
    assert_eq!(
        phase,
        CallPhase::GettingEngine {
            task: EngineTask::Execute("a".to_string())
        }
    );
    let (phase, action) = advance(phase, CallEvent::EngineReady(7));
    assert_eq!(action, CallAction::RegisterTools(7));
    let (phase, action) = advance(phase, CallEvent::Registered(-1));
    assert_eq!(action, CallAction::Execute(-1, "a".to_string()));
    let event = ExecuteEvent::Executed(ExecuteOutput {
        success: true,
        output: None,
        stderr: String::new(),
    });
    let (_, action) = advance(phase, CallEvent::Ended(event, ContentStore::new()));
    assert_eq!(
        answered(action),
        (
            vec![text(
                "Code Executed Successfully: true\n\n# Return Value\n```json\nnull\n```\n"
            )],
            false
        )
    );
}

#[test]
fn calls_that_fail_on_the_way_are_answered_with_an_error() {
    for name in ["execute", "get_function_details"] {
        let event = CallEvent::ArgumentsUnreadable("eof".to_string());
        let (_, action) = advance(reading(name), event);
        assert_eq!(
            answered(action).0,
            vec![text("Error: Failed to parse arguments: eof")]
        );
    }
    let (phase, _) = begin("list_functions", None);
    let (_, action) = advance(phase, CallEvent::EngineFailed("none".to_string()));
    assert_eq!(answered(action), (vec![text("Error: none")], true));
    let registering = || {
        let event = CallEvent::ScriptRead("a".to_string());
        let (phase, _) = advance(reading("execute"), event);
        advance(phase, CallEvent::EngineReady(7)).0
    };
    let (_, action) = advance(
        registering(),
        CallEvent::SetupFailed(SetupFailure::NoManager),
    );
    assert_eq!(
        answered(action).0,
        vec![text("Error: Extension manager not available")]
    );
    let failure = SetupFailure::Registration("twice".to_string());
    let (_, action) = advance(registering(), CallEvent::SetupFailed(failure));
    assert_eq!(
        answered(action).0,
        vec![text("Error: Failed to register callback: twice")]
    );
    let (phase, _) = advance(registering(), CallEvent::Registered(-1));
    let event = ExecuteEvent::ExecutionFailed("syntax".to_string());
    let (_, action) = advance(phase, CallEvent::Ended(event, ContentStore::new()));
    assert_eq!(
        answered(action),
        (vec![text("Error: Execution error: syntax")], true)
    );
}

#[test]
fn setup_failures_have_messages() {
    assert_eq!(
        setup_error(&SetupFailure::NoManager),
        "Extension manager not available"
    );
    assert_eq!(
        setup_error(&SetupFailure::Registration("x".to_string())),
        "Failed to register callback: x"
    );
}

#[test]
fn the_reminder_names_all_functions() {
    let function = |namespace: &str, name: &str| FunctionName {
        namespace: namespace.to_string(),
        name: name.to_string(),
    };
    let reminder = get_moim(&vec![function("A", "b"), function("C", "d")]);
    assert_eq!(
        reminder,
        "ALWAYS batch multiple tool operations into ONE execute call.\n\
         - WRONG: Separate execute calls for read file, then write file\n\
         - RIGHT: One execute with an async run() function that reads AND writes\n\
         \n\
         Available namespaces: A.b, C.d\n\
         \n\
         Use the list_functions & get_function_details tools to see tool signatures and \
         input/output types before calling unfamiliar tools.\n"
    );
    assert!(get_moim(&vec![]).contains("Available namespaces: \n\n"));
}
