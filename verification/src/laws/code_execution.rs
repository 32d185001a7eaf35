//! Laws of the code execution extension.

use crate::code_execution::{
    answer, arguments_of, assistant_texts, callback_outcome, collected, collected_items,
    collected_members, execution_report, for_assistant, next_count, pure_ref, ref_members,
    reply_value, returned, rich_contents, CallbackEvent, ExecuteEvent, ExecuteOutput,
};
use crate::code_execution_call::{
    call_begins, call_step, expects, CallAction, CallEvent, CallPhase, EngineTask,
};
use crate::code_execution_client::{
    describes, no_parameters, qualified, reminder, FunctionName, SetupFailure, ToolDescriptor,
    ToolKind,
};
use crate::content::{content_views, token, Content, ContentStore, ContentView, Role};
use crate::json::{
    ascending, member, member_keys, parsed_json, pretty_or_compact, JsonObject, JsonValue, JsonView,
};
use crate::laws::json::member_is_first_with_key;
use crate::laws::text::{begins_with, ends_with, part_between, part_of, part_of_part};
use crate::text::{decimal, joined};
use crate::tool_texts::{REMINDER_AFTER_NAMES, REMINDER_BEFORE_NAMES};
use vstd::prelude::*;

verus! {

// ---------------------------------------------------------------------------
// What a tool hands a script
// ---------------------------------------------------------------------------

/// The views of pieces of content are those of each piece, all of them and in
/// order; a piece shows what it holds.
pub proof fn contents_one_by_one(contents: Seq<Content>)
    ensures
        content_views(contents).len() == contents.len(),
        forall|i: int|
            0 <= i < contents.len() ==> #[trigger] content_views(contents)[i] == contents[i]@,
        forall|i: int|
            0 <= i < contents.len() ==> match #[trigger] contents[i] {
                Content::Text { text, audience } => {
                    &&& contents[i]@ matches ContentView::Text(shown, readers) && shown == text@
                        && match audience {
                        Some(roles) => readers == Some(roles@),
                        None => readers is None,
                    }
                },
                Content::Rich { body } => contents[i]@ == ContentView::Rich(body@),
            },
{
}

/// A text is for the assistant where its audience is absent, is empty or
/// contains the assistant, and in no other case.
pub proof fn texts_for_the_assistant(roles: Seq<Role>)
    ensures
        for_assistant(None),
        roles.contains(Role::Assistant) ==> for_assistant(Some(roles)),
        roles.len() == 0 ==> for_assistant(Some(roles)),
        roles.len() > 0 && (forall|i: int|
            0 <= i < roles.len() ==> #[trigger] roles[i] == Role::User) ==> !for_assistant(
            Some(roles),
        ),
{
    if roles.contains(Role::Assistant) {
        let i = roles.index_of(Role::Assistant);
        assert(roles[i] == Role::Assistant);
    }
}

/// The script is handed the texts whose audience is absent, is empty or
/// contains the assistant, all of them and in order, and no others; and every
/// piece that is no text is set aside, in order.
pub proof fn replies_are_separated(contents: Seq<ContentView>)
    ensures
        assistant_texts(contents) == contents.filter_map(
            |c: ContentView|
                match c {
                    ContentView::Text(text, None) => Some(text),
                    ContentView::Text(text, Some(roles)) => if roles.len() == 0 || exists|i: int|
                        0 <= i < roles.len() && #[trigger] roles[i] == Role::Assistant {
                        Some(text)
                    } else {
                        None
                    },
                    ContentView::Rich(_) => None,
                },
        ),
        rich_contents(contents) == contents.filter(|c: ContentView| c is Rich),
    decreases contents.len(),
{
    reveal(Seq::filter);
    if contents.len() > 0 {
        replies_are_separated(contents.drop_last());
        if let ContentView::Text(text, Some(roles)) = contents.last() {
            if roles.contains(Role::Assistant) {
                let i = roles.index_of(Role::Assistant);
                assert(roles[i] == Role::Assistant);
            }
        }
    }
}

/// The texts of a reply are handed on as the JSON that they are when joined
/// line by line, or as that text where they are no JSON.
pub proof fn texts_are_handed_on(contents: Seq<ContentView>)
    ensures
        parsed_json(joined(assistant_texts(contents), "\n"@)) matches Some(value) ==> reply_value(
            contents,
        ) == value,
        parsed_json(joined(assistant_texts(contents), "\n"@)) is None ==> reply_value(contents)
            == JsonView::Text(joined(assistant_texts(contents), "\n"@)),
{
}

/// What a tool call comes to. Structured content is handed on as it is. Without
/// it the texts are; and where there are pieces that are no text, all of them
/// are set aside, in order, under a token that what is handed on names, and
/// nothing that was set aside before is touched under another token. A call
/// that failed says why and sets nothing aside.
pub proof fn tool_calls_come_to(
    event: CallbackEvent,
    count: u64,
    store: Map<Seq<char>, Seq<ContentView>>,
    other: Seq<char>,
)
    ensures
        ({
            let (handed, next, after) = callback_outcome(event, count, store);
            match event {
                CallbackEvent::DispatchFailed(error) => handed == Err::<JsonView, Seq<char>>(
                    "Dispatch error: "@ + error@,
                ) && next == count && after == store,
                CallbackEvent::ToolFailed(error) => handed == Err::<JsonView, Seq<char>>(
                    "Tool error: "@ + error@,
                ) && next == count && after == store,
                CallbackEvent::Replied(reply) => match reply.structured_content {
                    Some(value) => handed == Ok::<JsonView, Seq<char>>(value@) && next == count
                        && after == store,
                    None => {
                        let contents = content_views(reply.content@);
                        let others = contents.filter(|c: ContentView| c is Rich);
                        if others.len() == 0 {
                            handed == Ok::<JsonView, Seq<char>>(reply_value(contents)) && next
                                == count && after == store
                        } else {
                            &&& handed matches Ok(JsonView::Object(members)) && member(
                                members,
                                "_goose_content_ref"@,
                            ) == Some(JsonView::Text(token(count as nat))) && member(
                                members,
                                "text_result"@,
                            ) == Some(reply_value(contents)) && members.len() == 2
                            &&& after.contains_key(token(count as nat)) && after[token(
                                count as nat,
                            )] == others
                            &&& other != token(count as nat) ==> after.contains_key(other)
                                == store.contains_key(other) && after[other] == store[other]
                            &&& next == if count == u64::MAX {
                                0
                            } else {
                                count + 1
                            }
                        }
                    },
                },
            }
        }),
{
    if let CallbackEvent::Replied(reply) = event {
        let contents = content_views(reply.content@);
        replies_are_separated(contents);
        references_name_their_token(token(count as nat), reply_value(contents), other);
    }
}

/// A tool is called with the members of an object, whatever they are, and with
/// no arguments for anything else.
pub proof fn objects_are_arguments(args: Option<JsonValue>)
    ensures
        args matches Some(JsonValue::Object(object)) ==> arguments_of(args) == Some(object@),
        args matches Some(value) ==> !(value is Object) ==> arguments_of(args) is None,
        args is None ==> arguments_of(args) is None,
{
}

/// The reminder names every function, with its namespace, and has nothing else
/// between its fixed parts.
pub proof fn reminders_name_every_function(functions: Seq<FunctionName>, i: int)
    requires
        0 <= i < functions.len(),
    ensures
        part_of(
            functions[i].namespace@ + "."@ + functions[i].name@,
            reminder(functions),
        ),
        begins_with(reminder(functions), REMINDER_BEFORE_NAMES@),
        ends_with(reminder(functions), REMINDER_AFTER_NAMES@),
{
    let names = functions.map_values(|f: FunctionName| qualified(f));
    let all = joined(names, ", "@);
    let text = reminder(functions);
    assert(text.take(REMINDER_BEFORE_NAMES@.len() as int) == REMINDER_BEFORE_NAMES@);
    assert(text.skip(text.len() - REMINDER_AFTER_NAMES@.len()) == REMINDER_AFTER_NAMES@);
    part_of_joined(names, ", "@, i);
    part_between(REMINDER_BEFORE_NAMES@, all, REMINDER_AFTER_NAMES@);
    part_of_part(names[i], all, text);
}

proof fn part_of_joined(parts: Seq<Seq<char>>, sep: Seq<char>, i: int)
    requires
        0 <= i < parts.len(),
    ensures
        part_of(parts[i], joined(parts, sep)),
    decreases parts.len(),
{
    let nothing = Seq::<char>::empty();
    let front = parts.drop_last();
    let gap = if parts.len() == 1 {
        nothing
    } else {
        sep
    };
    let whole = joined(parts, sep);
    if i == parts.len() - 1 {
        assert(whole == (joined(front, sep) + gap) + parts[i] + nothing);
        part_between(joined(front, sep) + gap, parts[i], nothing);
    } else {
        part_of_joined(front, sep, i);
        assert(whole == nothing + joined(front, sep) + (gap + parts.last()));
        part_between(nothing, joined(front, sep), gap + parts.last());
        part_of_part(parts[i], joined(front, sep), whole);
    }
}

/// What stands for content set aside names its token and holds the texts, and
/// nothing else.
pub proof fn references_name_their_token(name: Seq<char>, text_result: JsonView, key: Seq<char>)
    ensures
        member(ref_members(name, text_result), "_goose_content_ref"@) == Some(
            JsonView::Text(name),
        ),
        member(ref_members(name, text_result), "text_result"@) == Some(text_result),
        key != "_goose_content_ref"@ && key != "text_result"@ ==> member(
            ref_members(name, text_result),
            key,
        ) is None,
        ref_members(name, text_result).len() == 2,
{
    reveal_strlit("_goose_content_ref");
    reveal_strlit("text_result");
    assert("_goose_content_ref"@[0] == '_');
    assert("text_result"@[0] == 't');
    let members = ref_members(name, text_result);
    reveal_with_fuel(member, 3);
    assert(members.drop_first() == seq![("text_result"@, text_result)]);
    assert(members.drop_first().drop_first() == Seq::<(Seq<char>, JsonView)>::empty());
}

/// A token is its count in decimal behind a fixed word, and the count goes up
/// by one, wrapping round.
pub proof fn tokens_count_up(count: u64)
    ensures
        token(count as nat) == "cref_"@ + decimal(count as nat),
        count < u64::MAX ==> next_count(count) == count + 1,
        count == u64::MAX ==> next_count(count) == 0,
{
}

// ---------------------------------------------------------------------------
// What a script gives back
// ---------------------------------------------------------------------------

/// The content that the token of an object stands for.
pub open spec fn own_content(
    members: Seq<(Seq<char>, JsonView)>,
    store: Map<Seq<char>, Seq<ContentView>>,
) -> Seq<ContentView> {
    match member(members, "_goose_content_ref"@) {
        Some(JsonView::Text(name)) => match store.index_opt(name) {
            Some(contents) => contents,
            None => seq![],
        },
        _ => seq![],
    }
}

proof fn items_collected(items: Seq<JsonView>, store: Map<Seq<char>, Seq<ContentView>>)
    ensures
        collected_items(items, store) == items.map_values(
            |item: JsonView| collected(item, store),
        ).flatten(),
    decreases items.len(),
{
    let each = items.map_values(|item: JsonView| collected(item, store));
    each.lemma_flatten_and_flatten_alt_are_equivalent();
    if items.len() > 0 {
        let front = items.drop_last();
        items_collected(front, store);
        let front_each = front.map_values(|item: JsonView| collected(item, store));
        front_each.lemma_flatten_and_flatten_alt_are_equivalent();
        assert(each.drop_last() == front_each);
    }
}

proof fn members_collected(
    members: Seq<(Seq<char>, JsonView)>,
    store: Map<Seq<char>, Seq<ContentView>>,
)
    ensures
        collected_members(members, store) == members.map_values(
            |m: (Seq<char>, JsonView)| collected(m.1, store),
        ).flatten(),
    decreases members.len(),
{
    let each = members.map_values(|m: (Seq<char>, JsonView)| collected(m.1, store));
    each.lemma_flatten_and_flatten_alt_are_equivalent();
    if members.len() > 0 {
        let front = members.drop_last();
        members_collected(front, store);
        let front_each = front.map_values(|m: (Seq<char>, JsonView)| collected(m.1, store));
        front_each.lemma_flatten_and_flatten_alt_are_equivalent();
        assert(each.drop_last() == front_each);
    }
}

/// The content of an object is what its own token stands for, and then that of
/// every member's value, in order; the content of an array is that of every
/// item, in order; nothing else has content.
pub proof fn content_of_every_member(
    value: JsonView,
    store: Map<Seq<char>, Seq<ContentView>>,
)
    ensures
        match value {
            JsonView::Object(members) => collected(value, store) == own_content(members, store)
                + members.map_values(|m: (Seq<char>, JsonView)| collected(m.1, store)).flatten(),
            JsonView::Array(items) => collected(value, store) == items.map_values(
                |item: JsonView| collected(item, store),
            ).flatten(),
            _ => collected(value, store).len() == 0,
        },
{
    match value {
        JsonView::Object(members) => {
            members_collected(members, store);
        },
        JsonView::Array(items) => {
            items_collected(items, store);
        },
        _ => {},
    }
}

/// The value that stands inside another at a path: each step goes to the member
/// or item at that place.
pub open spec fn inside(value: JsonView, path: Seq<int>) -> Option<JsonView>
    decreases path.len(),
{
    if path.len() == 0 {
        Some(value)
    } else {
        match value {
            JsonView::Object(members) => if 0 <= path[0] < members.len() {
                inside(members[path[0]].1, path.drop_first())
            } else {
                None
            },
            JsonView::Array(items) => if 0 <= path[0] < items.len() {
                inside(items[path[0]], path.drop_first())
            } else {
                None
            },
            _ => None,
        }
    }
}

proof fn part_of_flattened<T>(parts: Seq<Seq<T>>, i: int)
    requires
        0 <= i < parts.len(),
    ensures
        part_of(parts[i], parts.flatten()),
    decreases parts.len(),
{
    let nothing = Seq::<T>::empty();
    if i == 0 {
        assert(parts.flatten() == nothing + parts[0] + parts.drop_first().flatten());
        part_between(nothing, parts[0], parts.drop_first().flatten());
    } else {
        let rest = parts.drop_first();
        part_of_flattened(rest, i - 1);
        assert(rest[i - 1] == parts[i]);
        assert(parts.flatten() == parts[0] + rest.flatten() + nothing);
        part_between(parts[0], rest.flatten(), nothing);
        part_of_part(parts[i], rest.flatten(), parts.flatten());
    }
}

/// Whatever is inside a value, at any depth, gives its content to the whole.
pub proof fn content_of_every_depth(
    value: JsonView,
    path: Seq<int>,
    store: Map<Seq<char>, Seq<ContentView>>,
)
    requires
        inside(value, path) is Some,
    ensures
        part_of(collected(inside(value, path)->0, store), collected(value, store)),
    decreases path.len(),
{
    let whole = collected(value, store);
    let nothing = Seq::<ContentView>::empty();
    if path.len() == 0 {
        assert(whole == nothing + whole + nothing);
        part_between(nothing, whole, nothing);
    } else {
        content_of_every_member(value, store);
        let target = collected(inside(value, path)->0, store);
        match value {
            JsonView::Object(members) => {
                let step = members[path[0]].1;
                content_of_every_depth(step, path.drop_first(), store);
                let each = members.map_values(|m: (Seq<char>, JsonView)| collected(m.1, store));
                part_of_flattened(each, path[0]);
                assert(each[path[0]] == collected(step, store));
                part_of_part(target, each[path[0]], each.flatten());
                let own = own_content(members, store);
                assert(whole == own + each.flatten() + nothing);
                part_between(own, each.flatten(), nothing);
                part_of_part(target, each.flatten(), whole);
            },
            JsonView::Array(items) => {
                let step = items[path[0]];
                content_of_every_depth(step, path.drop_first(), store);
                let each = items.map_values(|item: JsonView| collected(item, store));
                part_of_flattened(each, path[0]);
                assert(each[path[0]] == collected(step, store));
                part_of_part(target, each[path[0]], each.flatten());
            },
            _ => {},
        }
    }
}

/// Everything that is stored under a token which an object names, wherever in
/// the value that object is, comes back with the answer.
pub proof fn every_reference_comes_back(
    output: ExecuteOutput,
    path: Seq<int>,
    members: Seq<(Seq<char>, JsonView)>,
    name: Seq<char>,
    store: Map<Seq<char>, Seq<ContentView>>,
)
    requires
        inside(returned(output.output), path) == Some(JsonView::Object(members)),
        member(members, "_goose_content_ref"@) == Some(JsonView::Text(name)),
        store.contains_key(name),
    ensures
        part_of(store[name], answer(output, store)),
{
    let value = returned(output.output);
    let object = JsonView::Object(members);
    content_of_every_depth(value, path, store);
    content_of_every_member(object, store);
    let nothing = Seq::<ContentView>::empty();
    let rest = members.map_values(|m: (Seq<char>, JsonView)| collected(m.1, store)).flatten();
    assert(collected(object, store) == nothing + store[name] + rest);
    part_between(nothing, store[name], rest);
    part_of_part(store[name], collected(object, store), collected(value, store));
    answers_have_a_text_and_the_content(output, store);
    let whole = answer(output, store);
    let all = collected(value, store);
    assert(whole == whole.take(1) + all + nothing);
    part_between(whole.take(1), all, nothing);
    part_of_part(store[name], all, whole);
}

/// An answer is one text and then all the content that the value refers to. The
/// text is a notice exactly where the value is nothing but a reference to
/// content that is there; else it reports the value, and what a script that
/// failed printed.
pub proof fn answers_have_a_text_and_the_content(
    output: ExecuteOutput,
    store: Map<Seq<char>, Seq<ContentView>>,
)
    ensures
        ({
            let value = returned(output.output);
            let all = collected(value, store);
            let whole = answer(output, store);
            &&& whole.len() == all.len() + 1
            &&& whole.skip(1) == all
            &&& whole[0] == ContentView::Text(
                if pure_ref(value) && all.len() > 0 {
                    "Tool returned rich content."@
                } else {
                    execution_report(output.success, pretty_or_compact(value), output.stderr@)
                },
                None,
            )
        }),
        output.output is None ==> returned(output.output) == JsonView::Null,
        output.output matches Some(value) ==> returned(output.output) == value@,
{
    let value = returned(output.output);
    let whole = answer(output, store);
    assert(whole.skip(1) == collected(value, store));
}

/// A report says whether the script succeeded and shows what it gave back; it
/// shows what the script printed to its error stream exactly where it failed.
pub proof fn reports_show_the_value(return_val: Seq<char>, stderr: Seq<char>)
    ensures
        execution_report(true, return_val, stderr)
            == "Code Executed Successfully: true\n\n# Return Value\n```json\n"@ + return_val
            + "\n```\n"@,
        begins_with(
            execution_report(false, return_val, stderr),
            "Code Executed Successfully: false\n\n# Return Value\n```json\n"@ + return_val
                + "\n```\n"@,
        ),
        ends_with(
            execution_report(false, return_val, stderr),
            "\n\n# STDERR\n"@ + stderr + "\n"@,
        ),
        execution_report(false, return_val, stderr).len()
            == "Code Executed Successfully: false\n\n# Return Value\n```json\n"@.len()
            + return_val.len() + "\n```\n\n# STDERR\n"@.len() + stderr.len() + 1,
{
    reveal_strlit("\n```\n");
    reveal_strlit("\n\n# STDERR\n");
    reveal_strlit("\n```\n\n# STDERR\n");
    reveal_strlit("\n");
    let failed = execution_report(false, return_val, stderr);
    let head = "Code Executed Successfully: false\n\n# Return Value\n```json\n"@ + return_val
        + "\n```\n"@;
    let tail = "\n\n# STDERR\n"@ + stderr + "\n"@;
    assert("\n```\n\n# STDERR\n"@ == "\n```\n"@ + "\n\n# STDERR\n"@.skip(1));
    assert("\n```\n\n# STDERR\n"@ == "\n```"@ + "\n\n# STDERR\n"@) by {
        reveal_strlit("\n```");
    }
    assert(failed.take(head.len() as int) == head);
    assert(failed.skip(failed.len() - tail.len()) == tail);
}

/// A value is nothing but a reference exactly where it is an object that has a
/// token and has no member but the token and the texts.
pub proof fn nothing_but_a_reference(members: Seq<(Seq<char>, JsonView)>)
    requires
        ascending(member_keys(members)),
    ensures
        pure_ref(JsonView::Object(members)) <==> (member(members, "_goose_content_ref"@) is Some
            && forall|key: Seq<char>| #[trigger]
            member(members, key) is Some ==> key == "_goose_content_ref"@ || key == "text_result"@),
        !pure_ref(JsonView::Null),
        forall|b: bool| !pure_ref(JsonView::Bool(b)),
        forall|t: Seq<char>| !pure_ref(JsonView::Text(t)),
        forall|items: Seq<JsonView>| !pure_ref(JsonView::Array(items)),
{
    let keys = member_keys(members);
    let two = |key: Seq<char>| key == "_goose_content_ref"@ || key == "text_result"@;
    if pure_ref(JsonView::Object(members)) {
        assert forall|key: Seq<char>| #[trigger] member(members, key) is Some implies two(key) by {
            member_is_first_with_key(members, key);
        }
    }
    if member(members, "_goose_content_ref"@) is Some && forall|key: Seq<char>| #[trigger]
        member(members, key) is Some ==> two(key) {
        assert forall|i: int| 0 <= i < members.len() implies two((#[trigger] members[i]).0) by {
            member_is_first_with_key(members, members[i].0);
            assert(member(members, members[i].0) is Some);
        }
        if members.len() > 2 {
            assert(keys[0] == members[0].0 && keys[1] == members[1].0 && keys[2] == members[2].0);
            crate::json::text_before_irreflexive(keys[0]);
            crate::json::text_before_irreflexive(keys[1]);
            assert(two(members[0].0) && two(members[1].0) && two(members[2].0));
        }
    }
}

// ---------------------------------------------------------------------------
// Calls
// ---------------------------------------------------------------------------

/// Whether an answer is one text for everyone.
pub open spec fn one_text<D, E, M, R>(
    action: CallAction<D, E, M, R>,
    text: Seq<char>,
    error: bool,
) -> bool {
    action matches CallAction::Answer(result) && result.is_error == error && result.content@.len()
        == 1 && result.content@[0]@ == ContentView::Text(text, None)
}

/// A call that fails on the way is answered with one text that tells what
/// failed; one that asks for functions, with what the engine tells; one that
/// executes a script, with the content for it.
pub proof fn calls_are_answered_by_what_happened<D, E, M, R>(
    phase: CallPhase<D, E>,
    event: CallEvent<D, E, M, R>,
    next: CallPhase<D, E>,
    action: CallAction<D, E, M, R>,
)
    requires
        call_step(phase, event, next, action),
    ensures
        match event {
            CallEvent::ArgumentsUnreadable(error) => one_text(
                action,
                "Error: "@ + ("Failed to parse arguments: "@ + error@),
                true,
            ),
            CallEvent::EngineFailed(error) => one_text(action, "Error: "@ + error@, true),
            CallEvent::Told(code) => one_text(action, code@, false),
            CallEvent::SetupFailed(SetupFailure::NoManager) => one_text(
                action,
                "Error: "@ + "Extension manager not available"@,
                true,
            ),
            CallEvent::SetupFailed(SetupFailure::Registration(error)) => one_text(
                action,
                "Error: "@ + ("Failed to register callback: "@ + error@),
                true,
            ),
            CallEvent::Ended(ExecuteEvent::RuntimeFailed(error), _) => one_text(
                action,
                "Error: "@ + ("Failed to create runtime: "@ + error@),
                true,
            ),
            CallEvent::Ended(ExecuteEvent::ExecutionFailed(error), _) => one_text(
                action,
                "Error: "@ + ("Execution error: "@ + error@),
                true,
            ),
            CallEvent::Ended(ExecuteEvent::TaskFailed(error), _) => one_text(
                action,
                "Error: "@ + ("Execution task failed: "@ + error@),
                true,
            ),
            CallEvent::Ended(ExecuteEvent::Executed(output), store) => {
                action matches CallAction::Answer(result) && !result.is_error && content_views(
                    result.content@,
                ) == answer(output, store@)
            },
            _ => !(action is Answer),
        },
{
    if let CallAction::Answer(result) = action {
        assert(content_views(result.content@).len() == result.content@.len());
        if result.content@.len() > 0 {
            assert(content_views(result.content@)[0] == result.content@[0]@);
        }
    }
}

/// A call is for the tool that it names: what was read from its arguments is
/// what the engine is asked for, and the script that was read is the one that
/// is executed, by the engine that was got.
pub proof fn calls_keep_their_arguments<D, E, M, R>(
    phase: CallPhase<D, E>,
    event: CallEvent<D, E, M, R>,
    next: CallPhase<D, E>,
    action: CallAction<D, E, M, R>,
)
    requires
        call_step(phase, event, next, action),
    ensures
        event matches CallEvent::DetailsRead(details) ==> action is GetEngine && next == (
        CallPhase::<D, E>::GettingEngine { task: EngineTask::DescribeFunctions(details) }),
        event matches CallEvent::ScriptRead(script) ==> action is GetEngine && next == (CallPhase::<
            D,
            E,
        >::GettingEngine { task: EngineTask::Execute(script) }),
        event matches CallEvent::EngineReady(engine) ==> match phase {
            CallPhase::GettingEngine { task: EngineTask::ListFunctions } => action
                == CallAction::<D, E, M, R>::ListFunctions(engine) && next is Asking,
            CallPhase::GettingEngine { task: EngineTask::DescribeFunctions(details) } => action
                == CallAction::<D, E, M, R>::DescribeFunctions(engine, details) && next is Asking,
            CallPhase::GettingEngine { task: EngineTask::Execute(script) } => action
                == CallAction::<D, E, M, R>::RegisterTools(engine) && next == (CallPhase::<
                D,
                E,
            >::Registering { script }),
            _ => false,
        },
        event matches CallEvent::Registered(ready) ==> (phase matches CallPhase::Registering {
            script,
        } && action == CallAction::<D, E, M, R>::Execute(ready, script) && next is Executing),
{
}

/// A call begins by the name of its tool: asking for functions needs no
/// arguments, the other two are refused without them, and any other name is
/// refused.
pub proof fn calls_begin_by_name<D, E, M, R>(
    name: Seq<char>,
    arguments: Option<JsonObject>,
    phase: CallPhase<D, E>,
    action: CallAction<D, E, M, R>,
)
    requires
        call_begins(name, arguments, phase, action),
    ensures
        name == "list_functions"@ ==> action is GetEngine && phase == (CallPhase::<
            D,
            E,
        >::GettingEngine { task: EngineTask::ListFunctions }),
        name == "get_function_details"@ && arguments is Some ==> action == CallAction::<
            D,
            E,
            M,
            R,
        >::ReadDetails(arguments->0) && phase is ReadingDetails,
        name == "execute"@ && arguments is Some ==> action == CallAction::<D, E, M, R>::ReadScript(
            arguments->0,
        ) && phase is ReadingScript,
        (name == "execute"@ || name == "get_function_details"@) && arguments is None ==> one_text(
            action,
            "Error: "@ + ("Missing arguments for "@ + name),
            true,
        ),
        name != "list_functions"@ && name != "get_function_details"@ && name != "execute"@
            ==> one_text(action, "Error: "@ + ("Unknown tool: "@ + name), true),
{
    reveal_strlit("list_functions");
    reveal_strlit("get_function_details");
    reveal_strlit("execute");
    assert("list_functions"@.len() != "get_function_details"@.len());
    assert("list_functions"@.len() != "execute"@.len());
    if let CallAction::Answer(result) = action {
        assert(content_views(result.content@).len() == result.content@.len());
        if result.content@.len() > 0 {
            assert(content_views(result.content@)[0] == result.content@[0]@);
        }
    }
}

/// What can happen to a call while it is in a phase.
pub proof fn calls_expect<D, E, M, R>(
    phase: CallPhase<D, E>,
    details: D,
    script: E,
    engine: M,
    ready: R,
    text: String,
    failure: SetupFailure,
    ended: ExecuteEvent,
    store: ContentStore,
)
    ensures
        phase is ReadingDetails ==> expects(
            phase,
            CallEvent::<D, E, M, R>::DetailsRead(details),
        ) && expects(phase, CallEvent::<D, E, M, R>::ArgumentsUnreadable(text)),
        phase is ReadingScript ==> expects(phase, CallEvent::<D, E, M, R>::ScriptRead(script))
            && expects(phase, CallEvent::<D, E, M, R>::ArgumentsUnreadable(text)),
        phase is GettingEngine ==> expects(phase, CallEvent::<D, E, M, R>::EngineReady(engine))
            && expects(phase, CallEvent::<D, E, M, R>::EngineFailed(text)),
        phase is Asking ==> expects(phase, CallEvent::<D, E, M, R>::Told(text)),
        phase is Registering ==> expects(phase, CallEvent::<D, E, M, R>::Registered(ready))
            && expects(phase, CallEvent::<D, E, M, R>::SetupFailed(failure)),
        phase is Executing ==> expects(phase, CallEvent::<D, E, M, R>::Ended(ended, store)),
{
}

/// Asking for functions changes nothing and needs nothing; executing a script
/// may change anything.
pub proof fn tools_are_described(d: ToolDescriptor, kind: ToolKind)
    requires
        describes(d, kind),
    ensures
        d.kind == kind,
        kind == ToolKind::Execute ==> !d.read_only && d.destructive && !d.idempotent
            && d.open_world,
        kind != ToolKind::Execute ==> d.read_only && !d.destructive && d.idempotent
            && !d.open_world,
        kind == ToolKind::ListFunctions ==> d.name@ == "list_functions"@ && d.title@
            == "List functions"@,
        kind == ToolKind::GetFunctionDetails ==> d.name@ == "get_function_details"@ && d.title@
            == "Get function details"@,
        kind == ToolKind::Execute ==> d.name@ == "execute"@ && d.title@ == "Execute TypeScript"@,
        d.input_schema is Some <==> kind == ToolKind::ListFunctions,
        d.input_schema matches Some(schema) ==> {
            &&& member(schema@, "properties"@) == Some(JsonView::Object(seq![]))
            &&& member(schema@, "required"@) == Some(JsonView::Array(seq![]))
            &&& member(schema@, "type"@) == Some(JsonView::Text("object"@))
            &&& schema@.len() == 3
        },
{
    reveal_strlit("properties");
    reveal_strlit("required");
    reveal_strlit("type");
    assert("properties"@[0] == 'p' && "required"@[0] == 'r' && "type"@[0] == 't');
    let all = no_parameters();
    reveal_with_fuel(member, 4);
    assert(all.drop_first()[0] == all[1]);
    assert(all.drop_first().drop_first()[0] == all[2]);
}

} // verus!
