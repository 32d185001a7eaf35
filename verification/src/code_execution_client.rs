//! The code execution extension as a client sees it: its name, its tools and
//! how calls of them are answered.

use crate::content::{content_views, plain_text, Content};
use crate::json::{member_set_last, JsonObject, JsonValue, JsonView};
use crate::text::{join_text, joined, same_text, views, with_cause};
use crate::tool_texts::{
    EXECUTE_DESCRIPTION, GET_FUNCTION_DETAILS_DESCRIPTION, INSTRUCTIONS,
    LIST_FUNCTIONS_DESCRIPTION, REMINDER_AFTER_NAMES, REMINDER_BEFORE_NAMES,
};
use vstd::prelude::*;

verus! {

pub const EXTENSION_NAME: &'static str = "code_execution";

// ---------------------------------------------------------------------------
// Who it is
// ---------------------------------------------------------------------------

/// How the extension presents itself.
#[derive(Debug, PartialEq)]
pub struct ServerInfo {
    pub name: String,
    pub version: String,
    pub title: String,
    pub instructions: String,
}

/// The extension.
#[derive(Debug, PartialEq)]
pub struct CodeExecutionClient {
    pub info: ServerInfo,
}

impl CodeExecutionClient {
    pub fn new() -> (r: CodeExecutionClient)
        ensures
            r.info.name@ == EXTENSION_NAME@,
            r.info.version@ == "1.0.0"@,
            r.info.title@ == "Code Mode"@,
            r.info.instructions@ == INSTRUCTIONS@,
    {
        CodeExecutionClient {
            info: ServerInfo {
                name: EXTENSION_NAME.to_owned(),
                version: "1.0.0".to_owned(),
                title: "Code Mode".to_owned(),
                instructions: INSTRUCTIONS.to_owned(),
            },
        }
    }

    pub fn get_info(&self) -> (r: &ServerInfo)
        ensures
            *r == self.info,
    {
        &self.info
    }
}

// ---------------------------------------------------------------------------
// Its tools
// ---------------------------------------------------------------------------

/// A step of a script, as its author describes it.
#[derive(Debug, PartialEq)]
pub struct ToolGraphNode {
    /// Tool name in format "server/tool" (e.g., "developer/shell")
    pub tool: String,
    /// Brief description of what this call does (e.g., "list files in /src")
    pub description: String,
    /// Indices of nodes this depends on (empty if no dependencies)
    pub depends_on: Vec<usize>,
}

/// The script of a call.
#[derive(Debug, PartialEq)]
pub struct ExecuteInput {
    pub code: String,
}

/// A script, with a description of its steps.
#[derive(Debug, PartialEq)]
pub struct ExecuteWithToolGraph {
    pub input: ExecuteInput,
    /// DAG of tool calls showing execution flow. Each node represents a tool call.
    /// Use depends_on to show data flow (e.g., node 1 uses output from node 0).
    pub tool_graph: Vec<ToolGraphNode>,
}

/// The tools of the extension.
#[derive(Debug, Clone, Copy, PartialEq, Eq, Structural)]
pub enum ToolKind {
    ListFunctions,
    GetFunctionDetails,
    Execute,
}

pub open spec fn tool_name(kind: ToolKind) -> Seq<char> {
    match kind {
        ToolKind::ListFunctions => "list_functions"@,
        ToolKind::GetFunctionDetails => "get_function_details"@,
        ToolKind::Execute => "execute"@,
    }
}

pub open spec fn tool_title(kind: ToolKind) -> Seq<char> {
    match kind {
        ToolKind::ListFunctions => "List functions"@,
        ToolKind::GetFunctionDetails => "Get function details"@,
        ToolKind::Execute => "Execute TypeScript"@,
    }
}

pub open spec fn tool_description(kind: ToolKind) -> Seq<char> {
    match kind {
        ToolKind::ListFunctions => LIST_FUNCTIONS_DESCRIPTION@,
        ToolKind::GetFunctionDetails => GET_FUNCTION_DETAILS_DESCRIPTION@,
        ToolKind::Execute => EXECUTE_DESCRIPTION@,
    }
}

/// A tool as it is listed, with the hints for whoever calls it.
#[derive(Debug, PartialEq)]
pub struct ToolDescriptor {
    pub kind: ToolKind,
    pub name: String,
    pub description: String,
    /// The schema of the arguments, where it is not that of an argument type.
    pub input_schema: Option<JsonObject>,
    pub title: String,
    pub read_only: bool,
    pub destructive: bool,
    pub idempotent: bool,
    pub open_world: bool,
}

/// The tools of the extension, on one page.
#[derive(Debug, PartialEq)]
pub struct ListToolsResult {
    pub tools: Vec<ToolDescriptor>,
    /// Where the next page begins, if there is one.
    pub next_cursor: Option<String>,
}

/// The schema of a tool without parameters.
pub open spec fn no_parameters() -> Seq<(Seq<char>, JsonView)> {
    seq![
        ("properties"@, JsonView::Object(Seq::empty())),
        ("required"@, JsonView::Array(Seq::empty())),
        ("type"@, JsonView::Text("object"@)),
    ]
}

/// Whether a descriptor is that of a tool. Running scripts may change anything
/// anywhere; asking for functions changes nothing.
pub open spec fn describes(d: ToolDescriptor, kind: ToolKind) -> bool {
    &&& d.kind == kind
    &&& d.name@ == tool_name(kind)
    &&& d.description@ == tool_description(kind)
    &&& match d.input_schema {
        Some(schema) => kind == ToolKind::ListFunctions && schema@ == no_parameters(),
        None => kind != ToolKind::ListFunctions,
    }
    &&& d.title@ == tool_title(kind)
    &&& d.read_only == (kind != ToolKind::Execute)
    &&& d.destructive == (kind == ToolKind::Execute)
    &&& d.idempotent == (kind != ToolKind::Execute)
    &&& d.open_world == (kind == ToolKind::Execute)
}

/// No two tools have the same name.
pub proof fn tool_names_differ(a: ToolKind, b: ToolKind)
    requires
        a != b,
    ensures
        tool_name(a) != tool_name(b),
{
    reveal_strlit("list_functions");
    reveal_strlit("get_function_details");
    reveal_strlit("execute");
    assert(tool_name(a).len() != tool_name(b).len());
}

/// The schema of a tool without parameters.
fn empty_schema() -> (r: JsonObject)
    ensures
        r@ == no_parameters(),
{
    let properties = JsonValue::Object(JsonObject::new());
    let required = JsonValue::Array(Vec::new());
    proof {
        reveal_strlit("properties");
        reveal_strlit("required");
        reveal_strlit("type");
        assert("properties"@[0] == 'p');
        assert("required"@[0] == 'r');
        assert("type"@[0] == 't');
        assert(required@->Array_0 == Seq::<JsonView>::empty());
        let nothing = Seq::<(Seq<char>, JsonView)>::empty();
        let first = nothing.push(("properties"@, properties@));
        let second = first.push(("required"@, required@));
        member_set_last(nothing, "properties"@, properties@);
        member_set_last(first, "required"@, required@);
        member_set_last(second, "type"@, JsonView::Text("object"@));
        assert(second.push(("type"@, JsonView::Text("object"@))) == no_parameters());
    }
    JsonObject::new().insert("properties".to_owned(), properties).insert(
        "required".to_owned(),
        required,
    ).insert("type".to_owned(), JsonValue::Text("object".to_owned()))
}

fn describe(kind: ToolKind) -> (r: ToolDescriptor)
    ensures
        describes(r, kind),
{
    let (name, description, title) = match kind {
        ToolKind::ListFunctions => ("list_functions", LIST_FUNCTIONS_DESCRIPTION, "List functions"),
        ToolKind::GetFunctionDetails => (
            "get_function_details",
            GET_FUNCTION_DETAILS_DESCRIPTION,
            "Get function details",
        ),
        ToolKind::Execute => ("execute", EXECUTE_DESCRIPTION, "Execute TypeScript"),
    };
    let runs = kind == ToolKind::Execute;
    let input_schema = if kind == ToolKind::ListFunctions {
        Some(empty_schema())
    } else {
        None
    };
    ToolDescriptor {
        kind,
        name: name.to_owned(),
        description: description.to_owned(),
        input_schema,
        title: title.to_owned(),
        read_only: !runs,
        destructive: runs,
        idempotent: !runs,
        open_world: runs,
    }
}

/// The tools of the extension, as they are listed: all on one page.
pub fn list_tools() -> (r: ListToolsResult)
    ensures
        r.tools@.len() == 3,
        describes(r.tools@[0], ToolKind::ListFunctions),
        describes(r.tools@[1], ToolKind::GetFunctionDetails),
        describes(r.tools@[2], ToolKind::Execute),
        r.next_cursor is None,
{
    let mut tools: Vec<ToolDescriptor> = Vec::new();
    tools.push(describe(ToolKind::ListFunctions));
    tools.push(describe(ToolKind::GetFunctionDetails));
    tools.push(describe(ToolKind::Execute));
    ListToolsResult { tools, next_cursor: None }
}

// ---------------------------------------------------------------------------
// Calls
// ---------------------------------------------------------------------------

/// The answer to a call of a tool.
#[derive(Debug, PartialEq)]
pub struct CallToolResult {
    pub content: Vec<Content>,
    pub is_error: bool,
}

/// The tool that a call is for, or the error for a name that no tool has.
pub fn call_tool(name: &str) -> (r: Result<ToolKind, String>)
    ensures
        forall|kind: ToolKind|
            #![trigger tool_name(kind)]
            r == Ok::<ToolKind, String>(kind) <==> name@ == tool_name(kind),
        r matches Err(message) ==> message@ == "Unknown tool: "@ + name@,
{
    proof {
        tool_names_differ(ToolKind::ListFunctions, ToolKind::GetFunctionDetails);
        tool_names_differ(ToolKind::ListFunctions, ToolKind::Execute);
        tool_names_differ(ToolKind::GetFunctionDetails, ToolKind::Execute);
    }
    if same_text(name, "list_functions") {
        Ok(ToolKind::ListFunctions)
    } else if same_text(name, "get_function_details") {
        Ok(ToolKind::GetFunctionDetails)
    } else if same_text(name, "execute") {
        Ok(ToolKind::Execute)
    } else {
        Err(with_cause("Unknown tool: ", name))
    }
}

/// The answer to a call: its contents, or its error as a text.
pub fn call_result(result: Result<Vec<Content>, String>) -> (r: CallToolResult)
    ensures
        match result {
            Ok(content) => r.content == content && !r.is_error,
            Err(error) => content_views(r.content@) == seq![plain_text("Error: "@ + error@)]
                && r.is_error,
        },
{
    match result {
        Ok(content) => CallToolResult { content, is_error: false },
        Err(error) => {
            let content = text_contents(with_cause("Error: ", error.as_str()));
            CallToolResult { content, is_error: true }
        },
    }
}

/// The answer that consists of one text.
pub fn text_contents(text: String) -> (r: Vec<Content>)
    ensures
        content_views(r@) == seq![plain_text(text@)],
{
    let only = Content::text(text);
    let mut content: Vec<Content> = Vec::new();
    content.push(only);
    assert(content_views(content@) == seq![only@]);
    content
}

/// The arguments of a call that cannot do without: as they were read, or the
/// error where they could not be or there are none.
pub fn required_arguments<T>(parsed: Option<Result<T, String>>, kind: ToolKind) -> (r: Result<
    T,
    String,
>)
    ensures
        match parsed {
            Some(Ok(arguments)) => r == Ok::<T, String>(arguments),
            Some(Err(error)) => r matches Err(message) && message@
                == "Failed to parse arguments: "@ + error@,
            None => r matches Err(message) && message@ == "Missing arguments for "@ + tool_name(
                kind,
            ),
        },
{
    match parsed {
        Some(Ok(arguments)) => Ok(arguments),
        Some(Err(error)) => Err(with_cause("Failed to parse arguments: ", error.as_str())),
        None => {
            let name = match kind {
                ToolKind::ListFunctions => "list_functions",
                ToolKind::GetFunctionDetails => "get_function_details",
                ToolKind::Execute => "execute",
            };
            Err(with_cause("Missing arguments for ", name))
        },
    }
}

/// Why the tools of a session could not be offered to a script.
#[derive(Debug, PartialEq)]
pub enum SetupFailure {
    /// There is nobody to dispatch calls to.
    NoManager,
    /// A tool could not be registered.
    Registration(String),
}

/// The message for a failure.
pub fn setup_error(failure: &SetupFailure) -> (r: String)
    ensures
        match *failure {
            SetupFailure::NoManager => r@ == "Extension manager not available"@,
            SetupFailure::Registration(error) => r@ == "Failed to register callback: "@ + error@,
        },
{
    match failure {
        SetupFailure::NoManager => "Extension manager not available".to_owned(),
        SetupFailure::Registration(error) => with_cause(
            "Failed to register callback: ",
            error.as_str(),
        ),
    }
}

// ---------------------------------------------------------------------------
// The reminder
// ---------------------------------------------------------------------------

/// A function that scripts may call.
#[derive(Debug, PartialEq)]
pub struct FunctionName {
    pub namespace: String,
    pub name: String,
}

/// A function's name with its namespace.
pub open spec fn qualified(function: FunctionName) -> Seq<char> {
    function.namespace@ + "."@ + function.name@
}

/// The reminder for the model, with the names of all functions.
pub open spec fn reminder(functions: Seq<FunctionName>) -> Seq<char> {
    REMINDER_BEFORE_NAMES@ + joined(
        functions.map_values(|f: FunctionName| qualified(f)),
        ", "@,
    ) + REMINDER_AFTER_NAMES@
}

/// The reminder for the model, with the names of all functions.
pub fn get_moim(functions: &Vec<FunctionName>) -> (r: String)
    ensures
        r@ == reminder(functions@),
        r@ == REMINDER_BEFORE_NAMES@ + joined(
            functions@.map_values(|f: FunctionName| qualified(f)),
            ", "@,
        ) + REMINDER_AFTER_NAMES@,
{
    let ghost names = functions@.map_values(|f: FunctionName| qualified(f));
    let mut available: Vec<String> = Vec::new();
    for i in 0..functions.len()
        invariant
            names == functions@.map_values(|f: FunctionName| qualified(f)),
            available@.len() == i,
            forall|j: int| 0 <= j < i ==> (#[trigger] available@[j])@ == names[j],
    {
        let mut name = functions[i].namespace.clone();
        name.append(".");
        name.append(functions[i].name.as_str());
        available.push(name);
    }
    assert(views(available@) == names);
    let mut r = REMINDER_BEFORE_NAMES.to_owned();
    r.append(join_text(&available, ", ").as_str());
    r.append(REMINDER_AFTER_NAMES);
    r
}

} // verus!
