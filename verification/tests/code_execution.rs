use goose_tools::code_execution::{
    callback_arguments, collect_rich_content, compose_answer, execute_contents, format_output,
    handle_execute, is_pure_ref, read_or_text, set_aside, tool_callback, CallbackEvent,
    ExecuteEvent, ExecuteOutput, ToolReply,
};
use goose_tools::content::{content_token, extend_contents, Content, ContentStore, Role};
use goose_tools::json::{JsonObject, JsonValue};

fn parse(text: &str) -> JsonValue {
    JsonValue::parse(text).unwrap()
}

fn image(name: &str) -> Content {
    Content::Rich {
        body: JsonValue::Text(name.to_string()),
    }
}

fn text(s: &str) -> Content {
    Content::text(s.to_string())
}

fn text_for(s: &str, roles: Vec<Role>) -> Content {
    Content::Text {
        text: s.to_string(),
        audience: Some(roles),
    }
}

fn replied(content: Vec<Content>) -> CallbackEvent {
    CallbackEvent::Replied(ToolReply {
        structured_content: None,
        content,
    })
}

fn executed(success: bool, output: Option<JsonValue>, stderr: &str) -> ExecuteOutput {
    ExecuteOutput {
        success,
        output,
        stderr: stderr.to_string(),
    }
}

#[test]
fn structured_content_is_handed_on() {
    let event = CallbackEvent::Replied(ToolReply {
        structured_content: Some(parse("{\"stdout\":\"x\"}")),
        content: vec![text("ignored"), image("ignored")],
    });
    let (value, count, store) = tool_callback(event, 4, ContentStore::new());
    assert_eq!(value, Ok(parse("{\"stdout\":\"x\"}")));
    assert_eq!(count, 4);
    assert!(store.get("cref_4").is_none());
}

#[test]
fn texts_for_the_assistant_are_handed_on() {
    let content = vec![
        text("one"),
        text_for("hidden", vec![Role::User]),
        text_for("two", vec![Role::User, Role::Assistant]),
        text_for("three", vec![]),
    ];
    let (value, count, _) = tool_callback(replied(content), 0, ContentStore::new());
    assert_eq!(value, Ok(JsonValue::Text("one\ntwo\nthree".to_string())));
    assert_eq!(count, 0);
}

#[test]
fn texts_that_are_json_are_handed_on_as_json() {
    let content = vec![text("{\"a\":"), text("1}")];
    let (value, _, _) = tool_callback(replied(content), 0, ContentStore::new());
    assert_eq!(value, Ok(parse("{\"a\":1}")));
    let (value, _, _) = tool_callback(replied(vec![]), 0, ContentStore::new());
    assert_eq!(value, Ok(JsonValue::Text(String::new())));
}

#[test]
fn other_content_is_set_aside_under_a_token() {
    let content = vec![image("a"), text("7"), image("b")];
    let (value, count, store) = tool_callback(replied(content), 12, ContentStore::new());
    assert_eq!(
        value,
        Ok(parse(
            "{\"_goose_content_ref\":\"cref_12\",\"text_result\":7}"
        ))
    );
    assert_eq!(count, 13);
    assert_eq!(store.get("cref_12"), Some(&vec![image("a"), image("b")]));
    assert_eq!(store.get("cref_1"), None);
    let (_, count, store) = tool_callback(replied(vec![image("c")]), count, store);
    assert_eq!(count, 14);
    assert_eq!(store.get("cref_12"), Some(&vec![image("a"), image("b")]));
    assert_eq!(store.get("cref_13"), Some(&vec![image("c")]));
}

#[test]
fn the_count_of_tokens_wraps() {
    let (value, count, store) =
        tool_callback(replied(vec![image("a")]), u64::MAX, ContentStore::new());
    assert_eq!(
        value,
        Ok(parse(
            "{\"_goose_content_ref\":\"cref_18446744073709551615\",\"text_result\":\"\"}"
        ))
    );
    assert_eq!(count, 0);
    assert!(store.get(&content_token(u64::MAX)).is_some());
}

#[test]
fn failed_tool_calls_say_why() {
    let event = CallbackEvent::ToolFailed("no such file".to_string());
    let (value, count, _) = tool_callback(event, 3, ContentStore::new());
    assert_eq!(value, Err("Tool error: no such file".to_string()));
    assert_eq!(count, 3);
    let event = CallbackEvent::DispatchFailed("no such tool".to_string());
    let (value, _, _) = tool_callback(event, 3, ContentStore::new());
    assert_eq!(value, Err("Dispatch error: no such tool".to_string()));
}

#[test]
fn only_objects_are_arguments() {
    let object = JsonObject::new().insert("k".to_string(), JsonValue::Null);
    let copy = JsonObject::new().insert("k".to_string(), JsonValue::Null);
    assert_eq!(
        callback_arguments(Some(JsonValue::Object(object))),
        Some(copy)
    );
    assert_eq!(callback_arguments(Some(JsonValue::Array(vec![]))), None);
    assert_eq!(callback_arguments(None), None);
}

#[test]
fn stored_content_is_replaced_under_its_token() {
    let store = ContentStore::new()
        .insert("a".to_string(), vec![image("1")])
        .insert("b".to_string(), vec![])
        .insert("a".to_string(), vec![image("2")]);
    assert_eq!(store.get("a"), Some(&vec![image("2")]));
    assert_eq!(store.get("b"), Some(&vec![]));
    assert_eq!(store.get("c"), None);
}

#[test]
fn content_is_collected_from_every_level() {
    let store = ContentStore::new()
        .insert("x".to_string(), vec![image("1"), image("2")])
        .insert("y".to_string(), vec![image("3")]);
    let value = parse(
        "[{\"_goose_content_ref\":\"x\",\"a\":{\"_goose_content_ref\":\"y\"}},\
         {\"_goose_content_ref\":\"unknown\"},{\"_goose_content_ref\":5},\"x\",\
         {\"deep\":[{\"_goose_content_ref\":\"y\"}]}]",
    );
    let mut rich = vec![text("before")];
    collect_rich_content(&value, &store, &mut rich);
    assert_eq!(
        rich,
        vec![text("before"), image("1"), image("2"), image("3"), image("3")]
    );
    let mut rich = Vec::new();
    collect_rich_content(&value, &ContentStore::new(), &mut rich);
    assert_eq!(rich, vec![]);
}

#[test]
fn pure_references_are_told_apart() {
    for (value, pure) in [
        ("{\"_goose_content_ref\":\"x\"}", true),
        ("{\"_goose_content_ref\":1,\"text_result\":2}", true),
        ("{\"_goose_content_ref\":\"x\",\"other\":2}", false),
        (
            "{\"_goose_content_ref\":\"x\",\"text_result\":2,\"other\":3}",
            false,
        ),
        ("{\"text_result\":2}", false),
        ("[]", false),
    ] {
        assert_eq!(is_pure_ref(&parse(value)), pure, "{}", value);
    }
}

#[test]
fn set_aside_content_comes_back() {
    let (value, _, store) = tool_callback(
        replied(vec![text("done"), image("a"), image("b")]),
        0,
        ContentStore::new(),
    );
    let output = executed(true, Some(value.unwrap()), "");
    assert_eq!(
        execute_contents(&output, &store),
        vec![text("Tool returned rich content."), image("a"), image("b")]
    );
}

#[test]
fn results_are_reported_with_the_content_beside_them() {
    let store = ContentStore::new().insert("x".to_string(), vec![image("1")]);
    let value = parse("{\"n\":1,\"r\":{\"_goose_content_ref\":\"x\"}}");
    let contents = execute_contents(&executed(true, Some(value), "ignored"), &store);
    assert_eq!(
        contents,
        vec![
            text(
                "Code Executed Successfully: true\n\n# Return Value\n```json\n\
                 {\n  \"n\": 1,\n  \"r\": {\n    \"_goose_content_ref\": \"x\"\n  }\n}\n```\n"
            ),
            image("1")
        ]
    );
}

#[test]
fn a_reference_to_nothing_is_reported() {
    let value = parse("{\"_goose_content_ref\":\"x\"}");
    let contents = execute_contents(&executed(true, Some(value), ""), &ContentStore::new());
    assert_eq!(
        contents,
        vec![text(
            "Code Executed Successfully: true\n\n# Return Value\n```json\n\
             {\n  \"_goose_content_ref\": \"x\"\n}\n```\n"
        )]
    );
}

#[test]
fn failed_scripts_show_their_errors() {
    assert_eq!(
        format_output(false, "null", "boom"),
        "Code Executed Successfully: false\n\n# Return Value\n```json\nnull\n```\n\n# STDERR\nboom\n"
    );
    let contents = execute_contents(&executed(false, None, "boom"), &ContentStore::new());
    assert_eq!(contents, vec![text(&format_output(false, "null", "boom"))]);
}

#[test]
fn scripts_that_do_not_end_say_why() {
    let store = ContentStore::new();
    for (event, message) in [
        (
            ExecuteEvent::RuntimeFailed("a".to_string()),
            "Failed to create runtime: a",
        ),
        (
            ExecuteEvent::ExecutionFailed("b".to_string()),
            "Execution error: b",
        ),
        (
            ExecuteEvent::TaskFailed("c".to_string()),
            "Execution task failed: c",
        ),
    ] {
        assert_eq!(handle_execute(&event, &store), Err(message.to_string()));
    }
    let event = ExecuteEvent::Executed(executed(true, Some(parse("1")), ""));
    assert_eq!(
        handle_execute(&event, &store),
        Ok(vec![text(&format_output(true, "1", ""))])
    );
}

#[test]
fn contents_are_copied_whole() {
    let pieces = vec![
        text_for("a", vec![Role::User, Role::Assistant]),
        text("b"),
        Content::Rich {
            body: parse("{\"n\":[1.25,null]}"),
        },
    ];
    let mut copies = Vec::new();
    extend_contents(&mut copies, &pieces);
    assert_eq!(copies, pieces);
}

#[test]
fn texts_that_were_not_read_stay_texts() {
    assert_eq!(
        read_or_text(Some(parse("[1]")), "[1]".to_string()),
        parse("[1]")
    );
    assert_eq!(
        read_or_text(None, "x".to_string()),
        JsonValue::Text("x".to_string())
    );
}

#[test]
fn nothing_is_set_aside_without_other_content() {
    let (value, count, store) = set_aside(parse("1"), vec![], 2, ContentStore::new());
    assert_eq!(value, parse("1"));
    assert_eq!(count, 2);
    assert!(store.get("cref_2").is_none());
    let (value, count, store) = set_aside(parse("1"), vec![image("a")], 2, store);
    assert_eq!(
        value,
        parse("{\"_goose_content_ref\":\"cref_2\",\"text_result\":1}")
    );
    assert_eq!(count, 3);
    assert_eq!(store.get("cref_2"), Some(&vec![image("a")]));
}

#[test]
fn answers_are_composed_of_text_and_content() {
    let pure = executed(true, Some(parse("{\"_goose_content_ref\":\"x\"}")), "");
    assert_eq!(
        compose_answer(&pure, "shown", &vec![image("a")]),
        vec![text("Tool returned rich content."), image("a")]
    );
    assert_eq!(
        compose_answer(&pure, "shown", &vec![]),
        vec![text(
            "Code Executed Successfully: true\n\n# Return Value\n```json\nshown\n```\n"
        )]
    );
    let plain = executed(false, None, "boom");
    assert_eq!(
        compose_answer(&plain, "shown", &vec![image("a")]),
        vec![text(&format_output(false, "shown", "boom")), image("a")]
    );
}
