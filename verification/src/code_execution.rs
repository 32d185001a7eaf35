//! The code execution extension: scripts that call tools, the content that the
//! tools hand them, and what a script gives back.

use crate::content::{
    content_token, content_views, extend_contents, plain_text, token, Content, ContentStore,
    ContentView, Role,
};
use crate::json::{
    member, parsed_json, pretty_or_compact, with_member, JsonObject, JsonValue, JsonView,
};
use crate::text::{join_text, joined, same_text, views, with_cause};
use vstd::prelude::*;

verus! {

// ---------------------------------------------------------------------------
// What a tool hands a script
// ---------------------------------------------------------------------------

/// What a tool answered.
#[derive(Debug, PartialEq)]
pub struct ToolReply {
    pub structured_content: Option<JsonValue>,
    pub content: Vec<Content>,
}

/// What became of a tool call.
#[derive(Debug, PartialEq)]
pub enum CallbackEvent {
    /// The call could not be handed to a tool.
    DispatchFailed(String),
    /// The tool failed, with this message.
    ToolFailed(String),
    Replied(ToolReply),
}

/// Whether a text is meant for the assistant: it is unless it is meant for
/// others only.
pub open spec fn for_assistant(audience: Option<Seq<Role>>) -> bool {
    match audience {
        None => true,
        Some(roles) => roles.len() == 0 || roles.contains(Role::Assistant),
    }
}

/// The texts that are meant for the assistant, in order.
pub open spec fn assistant_texts(contents: Seq<ContentView>) -> Seq<Seq<char>>
    decreases contents.len(),
{
    if contents.len() == 0 {
        Seq::empty()
    } else {
        let before = assistant_texts(contents.drop_last());
        match contents.last() {
            ContentView::Text(text, audience) => if for_assistant(audience) {
                before.push(text)
            } else {
                before
            },
            ContentView::Rich(_) => before,
        }
    }
}

/// The pieces that are no texts, in order.
pub open spec fn rich_contents(contents: Seq<ContentView>) -> Seq<ContentView>
    decreases contents.len(),
{
    if contents.len() == 0 {
        Seq::empty()
    } else {
        let before = rich_contents(contents.drop_last());
        match contents.last() {
            ContentView::Text(_, _) => before,
            ContentView::Rich(_) => before.push(contents.last()),
        }
    }
}

/// A text as a JSON value: what it is in JSON, or else the text itself.
pub open spec fn text_value(text: Seq<char>) -> JsonView {
    match parsed_json(text) {
        Some(value) => value,
        None => JsonView::Text(text),
    }
}

/// The texts of an answer as one JSON value.
pub open spec fn reply_value(contents: Seq<ContentView>) -> JsonView {
    text_value(joined(assistant_texts(contents), "\n"@))
}

/// The members of the object that stands for content set aside.
pub open spec fn ref_members(token: Seq<char>, text_result: JsonView) -> Seq<
    (Seq<char>, JsonView),
> {
    seq![("_goose_content_ref"@, JsonView::Text(token)), ("text_result"@, text_result)]
}

/// The count after one more token, wrapping round at the end of the range.
pub open spec fn next_count(count: u64) -> u64 {
    if count == u64::MAX {
        0
    } else {
        (count + 1) as u64
    }
}

/// Setting its two members makes the object that stands for content set aside.
proof fn ref_members_built(token: Seq<char>, text_result: JsonView)
    ensures
        with_member(
            with_member(Seq::empty(), "_goose_content_ref"@, JsonView::Text(token)),
            "text_result"@,
            text_result,
        ) == ref_members(token, text_result),
        "_goose_content_ref"@ != "text_result"@,
{
    reveal_strlit("_goose_content_ref");
    reveal_strlit("text_result");
    let first = seq![("_goose_content_ref"@, JsonView::Text(token))];
    assert("_goose_content_ref"@[0] == '_');
    assert("text_result"@[0] == 't');
    assert(first.drop_first() == Seq::<(Seq<char>, JsonView)>::empty());
    reveal_with_fuel(with_member, 2);
    assert(with_member(first, "text_result"@, text_result) == ref_members(token, text_result));
}

/// The texts that are meant for the assistant, and the pieces that are no
/// texts.
fn separate(contents: &Vec<Content>) -> (r: (Vec<String>, Vec<Content>))
    ensures
        views(r.0@) == assistant_texts(content_views(contents@)),
        content_views(r.1@) == rich_contents(content_views(contents@)),
{
    let mut texts: Vec<String> = Vec::new();
    let mut rich: Vec<Content> = Vec::new();
    let ghost all = content_views(contents@);
    assert(views(texts@) == assistant_texts(all.take(0)));
    assert(content_views(rich@) == rich_contents(all.take(0)));
    for i in 0..contents.len()
        invariant
            all == content_views(contents@),
            views(texts@) == assistant_texts(all.take(i as int)),
            content_views(rich@) == rich_contents(all.take(i as int)),
    {
        let ghost grown = all.take(i + 1);
        assert(grown.drop_last() == all.take(i as int));
        assert(grown.last() == contents@[i as int]@);
        let ghost held_texts = texts@;
        let ghost held_rich = rich@;
        match &contents[i] {
            Content::Text { text, audience } => {
                if meant_for_assistant(audience) {
                    let copy = text.clone();
                    texts.push(copy);
                    assert(views(texts@) == views(held_texts).push(text@));
                }
            },
            Content::Rich { .. } => {
                let copy = contents[i].copy();
                rich.push(copy);
                assert(content_views(rich@) == content_views(held_rich).push(copy@));
            },
        }
    }
    assert(all.take(all.len() as int) == all);
    (texts, rich)
}

/// Whether a text is meant for the assistant.
fn meant_for_assistant(audience: &Option<Vec<Role>>) -> (r: bool)
    ensures
        r == for_assistant(
            match *audience {
                Some(roles) => Some(roles@),
                None => None,
            },
        ),
{
    match audience {
        None => true,
        Some(roles) => {
            if roles.len() == 0 {
                return true;
            }
            for i in 0..roles.len()
                invariant
                    *audience == Some(*roles),
                    roles@.len() > 0,
                    forall|j: int| 0 <= j < i ==> roles@[j] != Role::Assistant,
            {
                if roles[i] == Role::Assistant {
                    assert(roles@.contains(Role::Assistant));
                    return true;
                }
            }
            false
        },
    }
}

/// The members that a script calls a tool with.
pub open spec fn arguments_of(args: Option<JsonValue>) -> Option<Seq<(Seq<char>, JsonView)>> {
    match args {
        Some(JsonValue::Object(object)) => Some(object@),
        _ => None,
    }
}

/// The arguments that a script calls a tool with: those of an object, and none
/// of anything else.
pub fn callback_arguments(args: Option<JsonValue>) -> (r: Option<JsonObject>)
    ensures
        arguments_of(args) == (match r {
            Some(object) => Some(object@),
            None => None,
        }),
        match args {
            Some(JsonValue::Object(object)) => r == Some(object),
            _ => r is None,
        },
{
    match args {
        Some(JsonValue::Object(object)) => Some(object),
        _ => None,
    }
}

/// The texts of a tool as a JSON value: as they were read, or else as a text.
pub fn read_or_text(parsed: Option<JsonValue>, text: String) -> (r: JsonValue)
    ensures
        r == (match parsed {
            Some(value) => value,
            None => JsonValue::Text(text),
        }),
{
    match parsed {
        Some(value) => value,
        None => JsonValue::Text(text),
    }
}

/// What a script is handed of a tool's texts and its other content: where there
/// is other content, that is set aside under the next token and an object with
/// the token and the texts is handed on.
pub fn set_aside(
    text_result: JsonValue,
    rich: Vec<Content>,
    count: u64,
    store: ContentStore,
) -> (r: (JsonValue, u64, ContentStore))
    ensures
        if rich@.len() == 0 {
            r.0 == text_result && r.1 == count && r.2@ == store@
        } else {
            &&& r.0@ == JsonView::Object(ref_members(token(count as nat), text_result@))
            &&& r.1 == next_count(count)
            &&& r.2@ == store@.insert(token(count as nat), content_views(rich@))
        },
{
    if rich.len() == 0 {
        return (text_result, count, store);
    }
    let name = content_token(count);
    let kept = store.insert(name.clone(), rich);
    proof {
        ref_members_built(name@, text_result@);
    }
    let object = JsonObject::new().insert(
        "_goose_content_ref".to_owned(),
        JsonValue::Text(name),
    ).insert("text_result".to_owned(), text_result);
    (JsonValue::Object(object), count.wrapping_add(1), kept)
}

/// What a script is handed: a value, or a message that says what went wrong.
pub open spec fn handed_view(value: Result<JsonValue, String>) -> Result<JsonView, Seq<char>> {
    match value {
        Ok(value) => Ok(value@),
        Err(message) => Err(message@),
    }
}

/// What a tool call comes to: what the script is handed, the next count and
/// what is set aside then.
pub open spec fn callback_outcome(
    event: CallbackEvent,
    count: u64,
    store: Map<Seq<char>, Seq<ContentView>>,
) -> (Result<JsonView, Seq<char>>, u64, Map<Seq<char>, Seq<ContentView>>) {
    match event {
        CallbackEvent::DispatchFailed(error) => (Err("Dispatch error: "@ + error@), count, store),
        CallbackEvent::ToolFailed(error) => (Err("Tool error: "@ + error@), count, store),
        CallbackEvent::Replied(reply) => match reply.structured_content {
            Some(value) => (Ok(value@), count, store),
            None => {
                let contents = content_views(reply.content@);
                let rich = rich_contents(contents);
                if rich.len() == 0 {
                    (Ok(reply_value(contents)), count, store)
                } else {
                    let name = token(count as nat);
                    (
                        Ok(JsonView::Object(ref_members(name, reply_value(contents)))),
                        next_count(count),
                        store.insert(name, rich),
                    )
                }
            },
        },
    }
}

/// What a tool call hands the script. Structured content is handed on. Else
/// the texts meant for the assistant are, as JSON where they are JSON; and
/// where there is other content too, that is set aside under the next token
/// and an object with the token and the texts is handed on.
pub fn tool_callback(event: CallbackEvent, count: u64, store: ContentStore) -> (r: (
    Result<JsonValue, String>,
    u64,
    ContentStore,
))
    ensures
        (handed_view(r.0), r.1, r.2@) == callback_outcome(event, count, store@),
        match event {
            CallbackEvent::DispatchFailed(error) => {
                &&& r.0 matches Err(message) && message@ == "Dispatch error: "@ + error@
                &&& r.1 == count && r.2@ == store@
            },
            CallbackEvent::ToolFailed(error) => {
                &&& r.0 matches Err(message) && message@ == "Tool error: "@ + error@
                &&& r.1 == count && r.2@ == store@
            },
            CallbackEvent::Replied(reply) => match reply.structured_content {
                Some(value) => r.0 == Ok::<JsonValue, String>(value) && r.1 == count && r.2@
                    == store@,
                None => {
                    let contents = content_views(reply.content@);
                    let rich = rich_contents(contents);
                    if rich.len() == 0 {
                        &&& r.0 matches Ok(value) && value@ == reply_value(contents)
                        &&& r.1 == count && r.2@ == store@
                    } else {
                        &&& r.0 matches Ok(value) && value@ == JsonView::Object(
                            ref_members(token(count as nat), reply_value(contents)),
                        )
                        &&& r.1 == next_count(count)
                        &&& r.2@ == store@.insert(token(count as nat), rich)
                    }
                },
            },
        },
{
    let reply = match event {
        CallbackEvent::DispatchFailed(error) => {
            return (Err(with_cause("Dispatch error: ", error.as_str())), count, store);
        },
        CallbackEvent::ToolFailed(error) => {
            return (Err(with_cause("Tool error: ", error.as_str())), count, store);
        },
        CallbackEvent::Replied(reply) => reply,
    };
    let ToolReply { structured_content, content } = reply;
    if let Some(value) = structured_content {
        return (Ok(value), count, store);
    }
    let (texts, rich) = separate(&content);
    let text = join_text(&texts, "\n");
    let parsed = JsonValue::parse(text.as_str());
    let text_result = read_or_text(parsed, text);
    assert(content_views(rich@).len() == rich@.len());
    let (value, next, kept) = set_aside(text_result, rich, count, store);
    (Ok(value), next, kept)
}

// ---------------------------------------------------------------------------
// What a script gives back
// ---------------------------------------------------------------------------

/// The content that an object itself refers to.
pub open spec fn referred(
    members: Seq<(Seq<char>, JsonView)>,
    store: Map<Seq<char>, Seq<ContentView>>,
) -> Seq<ContentView> {
    match member(members, "_goose_content_ref"@) {
        Some(JsonView::Text(token)) => if store.contains_key(token) {
            store[token]
        } else {
            Seq::empty()
        },
        _ => Seq::empty(),
    }
}

/// The content that a value refers to, each object before what is inside it.
pub open spec fn collected(value: JsonView, store: Map<Seq<char>, Seq<ContentView>>) -> Seq<
    ContentView,
>
    decreases value,
{
    match value {
        JsonView::Object(members) => referred(members, store) + collected_members(members, store),
        JsonView::Array(items) => collected_items(items, store),
        _ => Seq::empty(),
    }
}

pub open spec fn collected_items(
    items: Seq<JsonView>,
    store: Map<Seq<char>, Seq<ContentView>>,
) -> Seq<ContentView>
    decreases items,
{
    if items.len() == 0 {
        Seq::empty()
    } else {
        collected_items(items.drop_last(), store) + collected(items[items.len() - 1], store)
    }
}

pub open spec fn collected_members(
    members: Seq<(Seq<char>, JsonView)>,
    store: Map<Seq<char>, Seq<ContentView>>,
) -> Seq<ContentView>
    decreases members,
{
    if members.len() == 0 {
        Seq::empty()
    } else {
        collected_members(members.drop_last(), store) + collected(
            members[members.len() - 1].1,
            store,
        )
    }
}

/// Recursively walk a JSON value, collecting rich content for any
/// `_goose_content_ref` tokens found.
pub fn collect_rich_content(val: &JsonValue, store: &ContentStore, rich: &mut Vec<Content>)
    ensures
        content_views(final(rich)@) == content_views(old(rich)@) + collected(val@, store@),
    decreases val,
{
    let ghost before = content_views(rich@);
    match val {
        JsonValue::Object(object) => {
            if let Some(JsonValue::Text(token)) = object.get("_goose_content_ref") {
                if let Some(stored) = store.get(token.as_str()) {
                    extend_contents(rich, stored);
                }
            }
            let ghost own = referred(object@, store@);
            assert(content_views(rich@) == before + own);
            assert(before + own == before + own + collected_members(object@.take(0), store@));
            let count = object.len();
            for i in 0..count
                invariant
                    count == object@.len(),
                    val == JsonValue::Object(*object),
                    content_views(rich@) == before + own + collected_members(
                        object@.take(i as int),
                        store@,
                    ),
            {
                let ghost grown = object@.take(i + 1);
                assert(grown.drop_last() == object@.take(i as int));
                assert(grown[grown.len() - 1] == object@[i as int]);
                let value = object.value_at(i);
                assert(decreases_to!(val => val->Object_0));
                collect_rich_content(value, store, rich);
                assert(content_views(rich@) == before + own + collected_members(grown, store@));
            }
            assert(object@.take(object@.len() as int) == object@);
            assert(content_views(rich@) == before + collected(val@, store@));
        },
        JsonValue::Array(items) => {
            let ghost all = val@->Array_0;
            assert(before == before + collected_items(all.take(0), store@));
            for i in 0..items.len()
                invariant
                    val == JsonValue::Array(*items),
                    all == val@->Array_0,
                    content_views(rich@) == before + collected_items(all.take(i as int), store@),
            {
                let ghost grown = all.take(i + 1);
                assert(grown.drop_last() == all.take(i as int));
                assert(grown[grown.len() - 1] == items@[i as int]@);
                assert(decreases_to!(val => val->Array_0));
                assert(decreases_to!(val->Array_0 => val->Array_0@));
                assert(decreases_to!(val->Array_0@ => val->Array_0@[i as int]));
                collect_rich_content(&items[i], store, rich);
                assert(content_views(rich@) == before + collected_items(grown, store@));
            }
            assert(all.take(all.len() as int) == all);
        },
        _ => {
            assert(content_views(rich@) == before + collected(val@, store@));
        },
    }
}

/// Whether a value is exactly an object that stands for content set aside.
pub open spec fn pure_ref(value: JsonView) -> bool {
    match value {
        JsonView::Object(members) => {
            &&& member(members, "_goose_content_ref"@) is Some
            &&& members.len() <= 2
            &&& forall|i: int|
                0 <= i < members.len() ==> (#[trigger] members[i]).0 == "_goose_content_ref"@
                    || members[i].0 == "text_result"@
        },
        _ => false,
    }
}

/// What a script did.
#[derive(Debug, PartialEq)]
pub struct ExecuteOutput {
    pub success: bool,
    pub output: Option<JsonValue>,
    pub stderr: String,
}

/// How a script ended.
#[derive(Debug, PartialEq)]
pub enum ExecuteEvent {
    RuntimeFailed(String),
    ExecutionFailed(String),
    TaskFailed(String),
    Executed(ExecuteOutput),
}

/// What is shown of a script that ran.
pub open spec fn execution_report(
    success: bool,
    return_val: Seq<char>,
    stderr: Seq<char>,
) -> Seq<char> {
    if success {
        "Code Executed Successfully: true\n\n# Return Value\n```json\n"@ + return_val + "\n```\n"@
    } else {
        "Code Executed Successfully: false\n\n# Return Value\n```json\n"@ + return_val
            + "\n```\n\n# STDERR\n"@ + stderr + "\n"@
    }
}

/// What is shown of a script that ran.
pub fn format_output(success: bool, return_val: &str, stderr: &str) -> (r: String)
    ensures
        r@ == execution_report(success, return_val@, stderr@),
{
    if success {
        let mut r = "Code Executed Successfully: true\n\n# Return Value\n```json\n".to_owned();
        r.append(return_val);
        r.append("\n```\n");
        r
    } else {
        let mut r = "Code Executed Successfully: false\n\n# Return Value\n```json\n".to_owned();
        r.append(return_val);
        r.append("\n```\n\n# STDERR\n");
        r.append(stderr);
        r.append("\n");
        r
    }
}

/// Whether a value is exactly an object that stands for content set aside.
pub fn is_pure_ref(value: &JsonValue) -> (r: bool)
    ensures
        r == pure_ref(value@),
{
    match value {
        JsonValue::Object(object) => {
            let count = object.len();
            if !object.contains_key("_goose_content_ref") || count > 2 {
                return false;
            }
            for i in 0..count
                invariant
                    *value == JsonValue::Object(*object),
                    count == object@.len(),
                    forall|j: int|
                        0 <= j < i ==> (#[trigger] object@[j]).0 == "_goose_content_ref"@
                            || object@[j].0 == "text_result"@,
            {
                let key = object.key_at(i);
                if !same_text(key.as_str(), "_goose_content_ref") && !same_text(
                    key.as_str(),
                    "text_result",
                ) {
                    assert(value@ == JsonView::Object(object@));
                    return false;
                }
            }
            true
        },
        _ => false,
    }
}

/// What a script gave back, where nothing stands for null.
pub open spec fn returned(output: Option<JsonValue>) -> JsonView {
    match output {
        Some(value) => value@,
        None => JsonView::Null,
    }
}

/// The content that the tool answers with, by the text that shows what the
/// script gave back and the content that it refers to: where the script gave
/// back exactly what stands for content set aside, a notice and that content;
/// else a report and whatever content the value refers to.
pub open spec fn composed(
    output: ExecuteOutput,
    return_val: Seq<char>,
    rich: Seq<ContentView>,
) -> Seq<ContentView> {
    if pure_ref(returned(output.output)) && rich.len() > 0 {
        seq![plain_text("Tool returned rich content."@)] + rich
    } else {
        seq![plain_text(execution_report(output.success, return_val, output.stderr@))] + rich
    }
}

/// The content that the tool answers with.
pub open spec fn answer(
    output: ExecuteOutput,
    store: Map<Seq<char>, Seq<ContentView>>,
) -> Seq<ContentView> {
    let value = returned(output.output);
    composed(output, pretty_or_compact(value), collected(value, store))
}

/// The content that the tool answers with, by the text that shows what the
/// script gave back and the content that it refers to.
pub fn compose_answer(output: &ExecuteOutput, return_val: &str, rich: &Vec<Content>) -> (r: Vec<
    Content,
>)
    ensures
        content_views(r@) == composed(*output, return_val@, content_views(rich@)),
{
    let pure = match &output.output {
        Some(value) => is_pure_ref(value),
        None => false,
    };
    let text = if pure && rich.len() > 0 {
        // A text comes first so that providers that pass on texts only still
        // have a result for the model.
        "Tool returned rich content.".to_owned()
    } else {
        format_output(output.success, return_val, output.stderr.as_str())
    };
    let mut contents: Vec<Content> = Vec::new();
    let first = Content::text(text);
    contents.push(first);
    assert(content_views(contents@) == seq![first@]);
    extend_contents(&mut contents, rich);
    assert(content_views(rich@).len() == rich@.len());
    contents
}

/// The content that the tool answers with for a script that ran.
pub fn execute_contents(output: &ExecuteOutput, store: &ContentStore) -> (r: Vec<Content>)
    ensures
        content_views(r@) == answer(*output, store@),
{
    let nothing = JsonValue::Null;
    let value = match &output.output {
        Some(value) => value,
        None => &nothing,
    };
    let mut rich: Vec<Content> = Vec::new();
    assert(content_views(rich@) == Seq::<ContentView>::empty());
    collect_rich_content(value, store, &mut rich);
    assert(content_views(rich@) == collected(value@, store@));
    let return_val = value.pretty_text();
    compose_answer(output, return_val.as_str(), &rich)
}

/// What the tool answers for a script, however it ended.
pub fn handle_execute(event: &ExecuteEvent, store: &ContentStore) -> (r: Result<
    Vec<Content>,
    String,
>)
    ensures
        match *event {
            ExecuteEvent::RuntimeFailed(error) => r matches Err(message) && message@
                == "Failed to create runtime: "@ + error@,
            ExecuteEvent::ExecutionFailed(error) => r matches Err(message) && message@
                == "Execution error: "@ + error@,
            ExecuteEvent::TaskFailed(error) => r matches Err(message) && message@
                == "Execution task failed: "@ + error@,
            ExecuteEvent::Executed(output) => r matches Ok(contents) && content_views(contents@)
                == answer(output, store@),
        },
{
    match event {
        ExecuteEvent::RuntimeFailed(error) => Err(
            with_cause("Failed to create runtime: ", error.as_str()),
        ),
        ExecuteEvent::ExecutionFailed(error) => Err(with_cause("Execution error: ", error.as_str())),
        ExecuteEvent::TaskFailed(error) => Err(
            with_cause("Execution task failed: ", error.as_str()),
        ),
        ExecuteEvent::Executed(output) => Ok(execute_contents(output, store)),
    }
}

/// A script that gives back what a tool handed it gets the content that was
/// set aside for it: the answer is a notice and that content, before anything
/// that the texts of the tool refer to themselves.
pub proof fn content_comes_back(
    output: ExecuteOutput,
    token: Seq<char>,
    text_result: JsonView,
    rich: Seq<ContentView>,
    store: Map<Seq<char>, Seq<ContentView>>,
)
    requires
        returned(output.output) == JsonView::Object(ref_members(token, text_result)),
        rich.len() > 0,
    ensures
        ({
            let kept = store.insert(token, rich);
            answer(output, kept) == seq![plain_text("Tool returned rich content."@)] + (rich
                + collected(text_result, kept))
        }),
{
    ref_members_built(token, text_result);
    let members = ref_members(token, text_result);
    let kept = store.insert(token, rich);
    assert(members[0].0 == "_goose_content_ref"@);
    assert(member(members, "_goose_content_ref"@) == Some(JsonView::Text(token)));
    reveal_with_fuel(collected_members, 3);
    reveal_with_fuel(collected, 2);
    assert(members.drop_last().drop_last() == Seq::<(Seq<char>, JsonView)>::empty());
    assert(members.drop_last()[0] == ("_goose_content_ref"@, JsonView::Text(token)));
    assert(collected(JsonView::Text(token), kept) == Seq::<ContentView>::empty());
    assert(collected_members(members, kept) == collected(text_result, kept));
    let value = JsonView::Object(members);
    assert(pure_ref(value));
    assert(collected(value, kept) == rich + collected(text_result, kept));
}

/// Whatever a script gives back, the answer begins with a text.
pub proof fn answer_begins_with_text(
    output: ExecuteOutput,
    store: Map<Seq<char>, Seq<ContentView>>,
)
    ensures
        answer(output, store).len() > 0,
        answer(output, store)[0] is Text,
{
}

/// A value refers to no content where nothing is set aside.
pub proof fn nothing_collected_from_empty(value: JsonView)
    ensures
        collected(value, Map::empty()) == Seq::<ContentView>::empty(),
    decreases value,
{
    match value {
        JsonView::Object(members) => {
            no_members_collected(members);
        },
        JsonView::Array(items) => {
            no_items_collected(items);
        },
        _ => {},
    }
}

proof fn no_items_collected(items: Seq<JsonView>)
    ensures
        collected_items(items, Map::empty()) == Seq::<ContentView>::empty(),
    decreases items,
{
    if items.len() > 0 {
        no_items_collected(items.drop_last());
        nothing_collected_from_empty(items[items.len() - 1]);
    }
}

proof fn no_members_collected(members: Seq<(Seq<char>, JsonView)>)
    ensures
        collected_members(members, Map::empty()) == Seq::<ContentView>::empty(),
    decreases members,
{
    if members.len() > 0 {
        no_members_collected(members.drop_last());
        nothing_collected_from_empty(members[members.len() - 1].1);
    }
}

} // verus!
