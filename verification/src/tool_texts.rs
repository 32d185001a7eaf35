//! The texts by which the code execution extension presents itself and its
//! tools.

use vstd::prelude::*;

verus! {

/// How the extension is to be used.
pub const INSTRUCTIONS: &'static str = r#"BATCH MULTIPLE TOOL CALLS INTO ONE execute CALL.

This extension exists to reduce round-trips. When a task requires multiple tool calls:
- WRONG: Multiple execute calls, each with one tool
- RIGHT: One execute call with a script that calls all needed tools

IMPORTANT: All tool calls are ASYNC. Use await for each call.

Workflow:
    1. Use the list_functions and get_function_details tools to discover tools and signatures
    2. Write ONE script that calls ALL tools needed for the task, no need to import anything,
       all the namespaces returned by list_functions and get_function_details will be available
    3. Chain results: use output from one tool as input to the next
    4. Only return the data you need — tools can have very large responses.
"#;

/// What `list_functions` does.
pub const LIST_FUNCTIONS_DESCRIPTION: &'static str = r#"List all available functions across all namespaces.

This will not return function input and output types.
After determining which functions are needed use
get_function_details to get input and output type 
information about specific functions.
"#;

/// What `get_function_details` does.
pub const GET_FUNCTION_DETAILS_DESCRIPTION: &'static str = r#"Get detailed type information for specific functions.

Provide a list of function identifiers in the format "Namespace.functionName"
(e.g., "Developer.shell", "Github.createIssue").

Returns full TypeScript interface definitions with parameter types,
return types, and descriptions for the requested functions.
"#;

/// What `execute` does.
pub const EXECUTE_DESCRIPTION: &'static str = r#"Execute TypeScript code that calls available functions.

SYNTAX - TypeScript with async run() function:
```typescript
async function run() {
    // Access functions via Namespace.functionName({ params }) — always camelCase
    const files = await Developer.shell({ command: "ls -la" });
    const readme = await Developer.shell({ command: "cat ./README.md" });
    return { files, readme };
}
```

TOOL_GRAPH: Always provide tool_graph to describe the execution flow for the UI.
Each node has: tool (Namespace.functionName), description (what it does), depends_on (indices of dependencies).
Example for chained operations:
[
  {"tool": "Developer.shell", "description": "list files", "depends_on": []},
  {"tool": "Developer.shell", "description": "read README.md", "depends_on": []},
  {"tool": "Developer.write", "description": "write output.txt", "depends_on": [0, 1]}
]

KEY RULES:
- Code MUST define an async function named `run()`
- All function calls are async - use `await`
- Function names are always camelCase (e.g., Developer.shell, Github.listIssues, Github.createIssue)
- The return value from `run()` is the ONLY output. Do NOT use console.log() — it is ignored.
- Only functions from `list_functions()` are available — no `fetch()`, `fs`, or other Node/Deno APIs
- Variables don't persist between `execute()` calls - return anything you need later
- Code runs in an isolated sandbox with restricted network access

HANDLING RETURN VALUES:
- If a function returns `any`, do NOT assume its shape - return it directly to inspect the structure
- Many functions return wrapper objects, not raw arrays - check the response structure before calling .filter(), .map(), etc.

TOKEN USAGE WARNING: This tool could return LARGE responses if your code returns big objects.
To minimize tokens:
- Filter/map/reduce data IN YOUR CODE before returning
- Only return specific fields you need (e.g., return {id: result.id, count: items.length})
- Avoid returning full API responses - extract just what you need

BEFORE CALLING: Use list_functions or get_function_details to check available functions and their parameters.
"#;

/// The reminder for the model, up to the names of the functions.
pub const REMINDER_BEFORE_NAMES: &'static str = r#"ALWAYS batch multiple tool operations into ONE execute call.
- WRONG: Separate execute calls for read file, then write file
- RIGHT: One execute with an async run() function that reads AND writes

Available namespaces: "#;

/// The reminder for the model, after the names of the functions.
pub const REMINDER_AFTER_NAMES: &'static str = r#"

Use the list_functions & get_function_details tools to see tool signatures and input/output types before calling unfamiliar tools.
"#;

} // verus!
