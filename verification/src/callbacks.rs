//! The tools that a script may call: how they are named, when the engine that
//! runs scripts has to be built anew for them.

use crate::json::{
    compact_json, member_set_last, text_before, text_before_irreflexive, text_before_total,
    text_before_transitive, JsonObject, JsonValue, JsonView,
};
use crate::text::{
    first_at, occurs, occurs_at, split_once_at, split_once_text, views, with_cause,
};
use std::collections::hash_map::DefaultHasher;
use std::hash::{Hash, Hasher};
use vstd::prelude::*;
use vstd::relations::{sorted_by, total_ordering};
use vstd::seq_lib::lemma_sorted_unique;
use vstd::std_specs::hash::DefaultHasherAdditionalSpecFns;

verus! {

// ---------------------------------------------------------------------------
// Names
// ---------------------------------------------------------------------------

/// A tool as the extensions list it.
#[derive(Debug, PartialEq)]
pub struct ToolInfo {
    pub name: String,
    /// The extension that owns the tool, where it says so.
    pub owner: Option<String>,
    pub description: Option<String>,
    pub input_schema: JsonValue,
    pub output_schema: Option<JsonValue>,
}

/// A tool as a script may call it.
#[derive(Debug, PartialEq)]
pub struct CallbackConfig {
    pub name: String,
    pub namespace: String,
    pub description: Option<String>,
    pub input_schema: Option<JsonValue>,
    pub output_schema: Option<JsonValue>,
}

/// The first place of a pattern that occurs in a text.
pub open spec fn first_place(s: Seq<char>, pattern: Seq<char>) -> int {
    choose|i: int| first_at(s, pattern, i)
}

/// The namespace and the name under which a script calls a tool: what stands
/// on either side of the first `__` of its name; or else its owner and its
/// name; or else none.
pub open spec fn tool_place(name: Seq<char>, owner: Option<String>) -> Option<
    (Seq<char>, Seq<char>),
> {
    if occurs(name, "__"@) {
        let at = first_place(name, "__"@);
        Some((name.take(at), name.skip(at + "__"@.len())))
    } else {
        match owner {
            Some(owner) => Some((owner@, name)),
            None => None,
        }
    }
}

/// Whether a configuration is that of a tool that scripts may call.
pub open spec fn configures(config: CallbackConfig, tool: ToolInfo) -> bool {
    &&& tool_place(tool.name@, tool.owner) == Some((config.namespace@, config.name@))
    &&& config.description == tool.description
    &&& config.input_schema == Some(tool.input_schema)
    &&& config.output_schema == tool.output_schema
}

/// The tools that scripts may call, in order.
pub open spec fn callable(tools: Seq<ToolInfo>) -> Seq<ToolInfo>
    decreases tools.len(),
{
    if tools.len() == 0 {
        Seq::empty()
    } else {
        let before = callable(tools.drop_last());
        if tool_place(tools.last().name@, tools.last().owner) is Some {
            before.push(tools.last())
        } else {
            before
        }
    }
}

/// Whether the configurations are those of the tools, one by one.
pub open spec fn configure_all(configs: Seq<CallbackConfig>, tools: Seq<ToolInfo>) -> bool {
    &&& configs.len() == tools.len()
    &&& forall|i: int| 0 <= i < configs.len() ==> configures(#[trigger] configs[i], tools[i])
}

/// The name by which a call of a script is dispatched.
pub open spec fn dispatch_name(namespace: Seq<char>, name: Seq<char>) -> Seq<char> {
    namespace + "__"@ + name
}

/// There is one first place at most.
pub proof fn first_at_unique(s: Seq<char>, pattern: Seq<char>, a: int, b: int)
    requires
        first_at(s, pattern, a),
        first_at(s, pattern, b),
    ensures
        a == b,
{
    if a < b {
        assert(!occurs_at(s, pattern, a));
    } else if b < a {
        assert(!occurs_at(s, pattern, b));
    }
}

/// What stands on either side of the first occurrence.
proof fn split_once_place(
    s: Seq<char>,
    pattern: Seq<char>,
    before: Seq<char>,
    after: Seq<char>,
)
    requires
        split_once_at(s, pattern, before, after),
    ensures
        first_place(s, pattern) == before.len(),
        before == s.take(first_place(s, pattern)),
        after == s.skip(first_place(s, pattern) + pattern.len()),
{
    first_at_unique(s, pattern, before.len() as int, first_place(s, pattern));
    assert(before == s.take(before.len() as int));
    assert(after == s.skip((before.len() + pattern.len()) as int));
}

/// A text in which a pattern occurs has a first place of it.
pub proof fn first_place_exists(s: Seq<char>, pattern: Seq<char>, at: int)
    requires
        occurs_at(s, pattern, at),
    ensures
        exists|i: int| first_at(s, pattern, i),
    decreases at,
{
    if !first_at(s, pattern, at) {
        let earlier = choose|j: int| 0 <= j < at && occurs_at(s, pattern, j);
        first_place_exists(s, pattern, earlier);
    }
}

/// A tool whose name has a prefix is dispatched by the name that it is listed
/// under; one that is known by its owner, by owner and name.
pub proof fn dispatched_as_listed(name: Seq<char>, owner: Option<String>)
    requires
        tool_place(name, owner) is Some,
    ensures
        ({
            let place = tool_place(name, owner)->0;
            if occurs(name, "__"@) {
                dispatch_name(place.0, place.1) == name
            } else {
                owner is Some && dispatch_name(place.0, place.1) == owner->0@ + "__"@ + name
            }
        }),
{
    if occurs(name, "__"@) {
        let at = choose|i: int| occurs_at(name, "__"@, i);
        first_place_exists(name, "__"@, at);
        let first = first_place(name, "__"@);
        let n = "__"@.len() as int;
        assert(name == name.take(first) + name.subrange(first, first + n) + name.skip(first + n));
    }
}

/// The configurations of the tools that scripts may call.
pub fn callback_configs(tools: Vec<ToolInfo>) -> (r: Vec<CallbackConfig>)
    ensures
        configure_all(r@, callable(tools@)),
{
    let mut configs: Vec<CallbackConfig> = Vec::new();
    let ghost all = tools@;
    assert(callable(all.take(0)) == Seq::<ToolInfo>::empty());
    for tool in it: tools
        invariant
            it.seq() == all,
            configure_all(configs@, callable(all.take(it.index()))),
    {
        let ghost listed = tool;
        let ghost k = it.index();
        let ghost before = callable(all.take(k));
        proof {
            assert(all.take(k + 1).drop_last() == all.take(k));
            assert(all.take(k + 1).last() == tool);
        }
        let ToolInfo { name: full_name, owner, description, input_schema, output_schema } = tool;
        let place = match split_once_text(full_name.as_str(), "__") {
            Some((server, tool_name)) => {
                proof {
                    split_once_place(full_name@, "__"@, server@, tool_name@);
                }
                Some((server, tool_name))
            },
            None => match owner {
                Some(owner) => Some((owner, full_name)),
                None => None,
            },
        };
        let ghost wanted = tool_place(listed.name@, listed.owner);
        assert(place is Some <==> wanted is Some);
        assert(place matches Some((namespace, name)) ==> wanted == Some((namespace@, name@)));
        if let Some((namespace, name)) = place {
            let config = CallbackConfig {
                name,
                namespace,
                description,
                input_schema: Some(input_schema),
                output_schema,
            };
            let ghost held = configs@;
            configs.push(config);
            proof {
                let known = before.push(listed);
                assert(callable(all.take(k + 1)) == known);
                assert(configures(config, listed));
                assert forall|i: int| 0 <= i < configs@.len() implies configures(
                    #[trigger] configs@[i],
                    known[i],
                ) by {
                    if i < held.len() {
                        assert(configs@[i] == held[i]);
                    }
                }
            }
        } else {
            assert(callable(all.take(k + 1)) == before);
        }
    }
    assert(all.take(all.len() as int) == all);
    configs
}

/// The name by which a call of a script is dispatched.
pub fn full_tool_name(namespace: &str, name: &str) -> (r: String)
    ensures
        r@ == dispatch_name(namespace@, name@),
{
    let mut r = namespace.to_owned();
    r.append("__");
    r.append(name);
    r
}

/// The names by which calls of a script are dispatched, one for each
/// configuration.
pub open spec fn all_dispatch_names(configs: Seq<CallbackConfig>) -> Seq<Seq<char>> {
    configs.map_values(|c: CallbackConfig| dispatch_name(c.namespace@, c.name@))
}

/// The names by which calls of a script are dispatched, one for each
/// configuration, in order.
pub fn dispatch_names(configs: &[CallbackConfig]) -> (r: Vec<String>)
    ensures
        views(r@) == all_dispatch_names(configs@),
        views(r@) == configs@.map_values(
            |c: CallbackConfig| dispatch_name(c.namespace@, c.name@),
        ),
{
    let mut names: Vec<String> = Vec::new();
    let ghost wanted = configs@.map_values(
        |c: CallbackConfig| dispatch_name(c.namespace@, c.name@),
    );
    for i in 0..configs.len()
        invariant
            wanted == configs@.map_values(
                |c: CallbackConfig| dispatch_name(c.namespace@, c.name@),
            ),
            names@.len() == i,
            forall|j: int| 0 <= j < i ==> (#[trigger] names@[j])@ == wanted[j],
    {
        names.push(full_tool_name(configs[i].namespace.as_str(), configs[i].name.as_str()));
    }
    assert(views(names@) == wanted);
    names
}

// ---------------------------------------------------------------------------
// Fingerprints
// ---------------------------------------------------------------------------

/// Whether `a` comes no later than `b` in the order of strings.
pub open spec fn text_order() -> spec_fn(Seq<char>, Seq<char>) -> bool {
    |a: Seq<char>, b: Seq<char>| !text_before(b, a)
}

/// What `str::hash` writes into a hasher for a text.
pub uninterp spec fn hash_writes(text: Seq<char>) -> Seq<Seq<u8>>;

/// What hashing the texts one after the other writes.
pub open spec fn all_writes(texts: Seq<Seq<char>>) -> Seq<Seq<u8>>
    decreases texts.len(),
{
    if texts.len() == 0 {
        Seq::empty()
    } else {
        all_writes(texts.drop_last()) + hash_writes(texts.last())
    }
}

/// The fingerprint of configurations given as texts: the hash of the texts in
/// their order as strings.
pub open spec fn fingerprint(texts: Seq<Seq<char>>) -> u64 {
    DefaultHasher::spec_finish(all_writes(texts.sort_by(text_order())))
}

/// `<[String]>::sort` puts strings into ascending order, keeping all of them.
#[verifier::external_body]
fn sort_texts(texts: &mut Vec<String>)
    ensures
        sorted_by(views(final(texts)@), text_order()),
        views(final(texts)@).to_multiset() == views(old(texts)@).to_multiset(),
{
    texts.sort();
}

/// `String::hash` with a `DefaultHasher`: what it writes is named
/// `hash_writes`, and comes after what was written before.
#[verifier::external_body]
fn feed_text(hasher: &mut DefaultHasher, text: &String)
    ensures
        final(hasher)@ == old(hasher)@ + hash_writes(text@),
{
    text.hash(hasher);
}

/// Strings are in order one way or the other, and only equal ones both ways.
pub proof fn text_order_is_total()
    ensures
        total_ordering(text_order()),
{
    let leq = text_order();
    assert forall|a: Seq<char>| #[trigger] leq(a, a) by {
        text_before_irreflexive(a);
    }
    assert forall|a: Seq<char>, b: Seq<char>| #[trigger] leq(a, b) && #[trigger] leq(b, a) implies a
        == b by {
        text_before_total(a, b);
    }
    assert forall|a: Seq<char>, b: Seq<char>, c: Seq<char>| #[trigger]
        leq(a, b) && #[trigger] leq(b, c) implies leq(a, c) by {
        if text_before(c, a) {
            text_before_total(a, b);
            text_before_total(b, c);
            if text_before(a, b) {
                text_before_transitive(c, a, b);
            }
        }
    }
    assert forall|a: Seq<char>, b: Seq<char>| #[trigger] leq(a, b) || #[trigger] leq(b, a) by {
        if text_before(b, a) && text_before(a, b) {
            text_before_transitive(a, b, a);
            text_before_irreflexive(a);
        }
    }
}

/// The fingerprint does not depend on the order of the configurations.
pub proof fn fingerprint_ignores_order(a: Seq<Seq<char>>, b: Seq<Seq<char>>)
    requires
        a.to_multiset() == b.to_multiset(),
    ensures
        fingerprint(a) == fingerprint(b),
{
    text_order_is_total();
    a.lemma_sort_by_ensures(text_order());
    b.lemma_sort_by_ensures(text_order());
    lemma_sorted_unique(a.sort_by(text_order()), b.sort_by(text_order()), text_order());
}

/// The hash of texts in their order as strings.
pub fn hash_texts(config_texts: Vec<String>) -> (r: u64)
    ensures
        r == fingerprint(views(config_texts@)),
{
    let ghost given = views(config_texts@);
    let mut texts = config_texts;
    sort_texts(&mut texts);
    proof {
        text_order_is_total();
        given.lemma_sort_by_ensures(text_order());
        lemma_sorted_unique(views(texts@), given.sort_by(text_order()), text_order());
    }
    let ghost all = views(texts@);
    let mut hasher = DefaultHasher::new();
    for i in 0..texts.len()
        invariant
            all == views(texts@),
            hasher@ == all_writes(all.take(i as int)),
    {
        feed_text(&mut hasher, &texts[i]);
        proof {
            assert(all.take(i + 1).drop_last() == all.take(i as int));
            assert(all.take(i + 1).last() == texts@[i as int]@);
        }
    }
    assert(all.take(all.len() as int) == all);
    hasher.finish()
}

/// A text that may be absent, in JSON.
pub open spec fn optional_text(text: Option<String>) -> JsonView {
    match text {
        Some(text) => JsonView::Text(text@),
        None => JsonView::Null,
    }
}

/// A value that may be absent, in JSON.
pub open spec fn optional_value(value: Option<JsonValue>) -> JsonView {
    match value {
        Some(value) => value@,
        None => JsonView::Null,
    }
}

/// A configuration in JSON.
pub open spec fn config_view(config: CallbackConfig) -> JsonView {
    JsonView::Object(
        seq![
            ("description"@, optional_text(config.description)),
            ("input_schema"@, optional_value(config.input_schema)),
            ("name"@, JsonView::Text(config.name@)),
            ("namespace"@, JsonView::Text(config.namespace@)),
            ("output_schema"@, optional_value(config.output_schema)),
        ],
    )
}

/// Configurations in JSON.
pub open spec fn config_views(configs: Seq<CallbackConfig>) -> Seq<JsonView> {
    configs.map_values(|c: CallbackConfig| config_view(c))
}

/// The fingerprint of configurations given in JSON.
pub open spec fn config_fingerprint(configs: Seq<JsonView>) -> u64 {
    fingerprint(configs.map_values(|c: JsonView| compact_json(c)))
}

/// Values that are the same but for their order are written as texts that are
/// the same but for their order.
proof fn written_in_any_order(a: Seq<JsonView>, b: Seq<JsonView>)
    requires
        a.to_multiset() == b.to_multiset(),
    ensures
        a.map_values(|c: JsonView| compact_json(c)).to_multiset() == b.map_values(
            |c: JsonView| compact_json(c),
        ).to_multiset(),
    decreases a.len(),
{
    broadcast use vstd::seq_lib::group_to_multiset_ensures;

    let write = |c: JsonView| compact_json(c);
    assert(a.len() == a.to_multiset().len() && b.len() == b.to_multiset().len());
    if a.len() == 0 {
        assert(a.map_values(write) == b.map_values(write));
    } else {
        let last = a.last();
        let front = a.drop_last();
        assert(a == front.push(last));
        assert(a.contains(last));
        assert(b.to_multiset().count(last) > 0);
        assert(b.contains(last));
        let j = b.index_of(last);
        let rest = b.remove(j);
        assert(rest.to_multiset() == b.to_multiset().remove(last));
        assert(front.to_multiset() =~= a.to_multiset().remove(last));
        written_in_any_order(front, rest);
        assert(a.map_values(write) == front.map_values(write).push(write(last)));
        assert(b.map_values(write) == rest.map_values(write).insert(j, write(last)));
    }
}

/// The fingerprint of configurations does not depend on their order.
pub proof fn config_order_ignored(a: Seq<JsonView>, b: Seq<JsonView>)
    requires
        a.to_multiset() == b.to_multiset(),
    ensures
        config_fingerprint(a) == config_fingerprint(b),
{
    written_in_any_order(a, b);
    fingerprint_ignores_order(
        a.map_values(|c: JsonView| compact_json(c)),
        b.map_values(|c: JsonView| compact_json(c)),
    );
}

/// A text that may be absent, in JSON.
fn optional_text_value(text: &Option<String>) -> (r: JsonValue)
    ensures
        r@ == optional_text(*text),
{
    match text {
        Some(text) => JsonValue::Text(text.clone()),
        None => JsonValue::Null,
    }
}

/// A value that may be absent, in JSON.
fn optional_json_value(value: &Option<JsonValue>) -> (r: JsonValue)
    ensures
        r@ == optional_value(*value),
{
    match value {
        Some(value) => value.copy(),
        None => JsonValue::Null,
    }
}

/// The keys of a configuration stand in the order of strings.
proof fn config_keys_ascend()
    ensures
        text_before("description"@, "input_schema"@),
        text_before("description"@, "name"@),
        text_before("description"@, "namespace"@),
        text_before("description"@, "output_schema"@),
        text_before("input_schema"@, "name"@),
        text_before("input_schema"@, "namespace"@),
        text_before("input_schema"@, "output_schema"@),
        text_before("name"@, "namespace"@),
        text_before("name"@, "output_schema"@),
        text_before("namespace"@, "output_schema"@),
{
    reveal_strlit("description");
    reveal_strlit("input_schema");
    reveal_strlit("name");
    reveal_strlit("namespace");
    reveal_strlit("output_schema");
    reveal_with_fuel(text_before, 6);
}

/// A configuration as a text.
pub fn config_text(config: &CallbackConfig) -> (r: String)
    ensures
        r@ == compact_json(config_view(*config)),
{
    let description = optional_text_value(&config.description);
    let input_schema = optional_json_value(&config.input_schema);
    let name = JsonValue::Text(config.name.clone());
    let namespace = JsonValue::Text(config.namespace.clone());
    let output_schema = optional_json_value(&config.output_schema);
    proof {
        config_keys_ascend();
        let m0 = Seq::<(Seq<char>, JsonView)>::empty();
        let m1 = m0.push(("description"@, description@));
        let m2 = m1.push(("input_schema"@, input_schema@));
        let m3 = m2.push(("name"@, name@));
        let m4 = m3.push(("namespace"@, namespace@));
        member_set_last(m0, "description"@, description@);
        member_set_last(m1, "input_schema"@, input_schema@);
        member_set_last(m2, "name"@, name@);
        member_set_last(m3, "namespace"@, namespace@);
        member_set_last(m4, "output_schema"@, output_schema@);
        assert(JsonView::Object(m4.push(("output_schema"@, output_schema@))) == config_view(
            *config,
        )) by {
            assert(m4.push(("output_schema"@, output_schema@)) == config_view(*config)->Object_0);
        }
    }
    let object = JsonObject::new().insert("description".to_owned(), description).insert(
        "input_schema".to_owned(),
        input_schema,
    ).insert("name".to_owned(), name).insert("namespace".to_owned(), namespace).insert(
        "output_schema".to_owned(),
        output_schema,
    );
    JsonValue::Object(object).compact_text()
}

/// Compute order-independent hash of callback configs.
pub fn hash(configs: &Vec<CallbackConfig>) -> (r: u64)
    ensures
        r == config_fingerprint(config_views(configs@)),
{
    let mut texts: Vec<String> = Vec::new();
    for i in 0..configs.len()
        invariant
            texts@.len() == i,
            forall|j: int|
                0 <= j < i ==> (#[trigger] texts@[j])@ == compact_json(config_view(configs@[j])),
    {
        texts.push(config_text(&configs[i]));
    }
    assert(views(texts@) == config_views(configs@).map_values(|c: JsonView| compact_json(c)));
    hash_texts(texts)
}

// ---------------------------------------------------------------------------
// The engine in store
// ---------------------------------------------------------------------------

/// An engine, with the fingerprint of the configurations that it was built for.
pub struct CodeModeState<M> {
    pub code_mode: M,
    pub hash: u64,
}

/// The message for an engine that could not be built.
pub open spec fn build_failure(error: Seq<char>) -> Seq<char> {
    "failed adding callback configs to CodeMode: "@ + error
}

impl<M> CodeModeState<M> {
    /// An engine as it was built for the configurations, with their
    /// fingerprint, or why it was not.
    pub fn new(configs: &Vec<CallbackConfig>, built: Result<M, String>) -> (r: Result<
        CodeModeState<M>,
        String,
    >)
        ensures
            match built {
                Ok(code_mode) => r == Ok::<CodeModeState<M>, String>(
                    (CodeModeState {
                        code_mode,
                        hash: config_fingerprint(config_views(configs@)),
                    }),
                ),
                Err(error) => r matches Err(message) && message@ == build_failure(error@),
            },
    {
        match built {
            Ok(code_mode) => Ok(CodeModeState { code_mode, hash: hash(configs) }),
            Err(error) => Err(
                with_cause("failed adding callback configs to CodeMode: ", error.as_str()),
            ),
        }
    }
}

/// The engine in store, if there is one and it was built for the given
/// fingerprint.
pub open spec fn cached<M>(state: Option<CodeModeState<M>>, current_hash: u64) -> Option<M> {
    match state {
        Some(stored) => if stored.hash == current_hash {
            Some(stored.code_mode)
        } else {
            None
        },
        None => None,
    }
}

/// An engine is used again for as long as the configurations stay the same, in
/// whatever order they are listed.
pub proof fn order_keeps_engine<M>(
    code_mode: M,
    built_for: Seq<CallbackConfig>,
    current: Seq<CallbackConfig>,
)
    requires
        config_views(built_for).to_multiset() == config_views(current).to_multiset(),
    ensures
        cached(
            Some(CodeModeState { code_mode, hash: config_fingerprint(config_views(built_for)) }),
            config_fingerprint(config_views(current)),
        ) == Some(code_mode),
{
    config_order_ignored(config_views(built_for), config_views(current));
}

/// What is in store after an engine was built for the configurations, or could
/// not be: the new engine, under their fingerprint, or what was there before.
pub open spec fn renewed<M>(
    state: Option<CodeModeState<M>>,
    configs: Seq<JsonView>,
    built: Result<M, String>,
) -> Option<CodeModeState<M>> {
    match built {
        Ok(code_mode) => Some(CodeModeState { code_mode, hash: config_fingerprint(configs) }),
        Err(_) => state,
    }
}

/// Configurations in JSON, where they could be loaded.
pub open spec fn loaded_views(configs: Option<Vec<CallbackConfig>>) -> Option<Seq<JsonView>> {
    match configs {
        Some(configs) => Some(config_views(configs@)),
        None => None,
    }
}

/// What is in store after an engine was asked for, and what the asker gets. The
/// engine in store is used where it was built for the configurations; else what
/// was built for them now is put in store. `built` only counts in that case.
pub open spec fn engine_call<M>(
    state: Option<CodeModeState<M>>,
    configs: Option<Seq<JsonView>>,
    built: Result<M, String>,
) -> (Option<CodeModeState<M>>, Result<M, Seq<char>>) {
    match configs {
        Some(current) => match cached(state, config_fingerprint(current)) {
            Some(code_mode) => (state, Ok(code_mode)),
            None => (
                renewed(state, current, built),
                match built {
                    Ok(code_mode) => Ok(code_mode),
                    Err(error) => Err(build_failure(error@)),
                },
            ),
        },
        None => (state, Err("Failed to load callback configs"@)),
    }
}

/// An engine that was got for some configurations is got again for these in any
/// order, and what is in store stays. For configurations with another
/// fingerprint the one that is built for them is got and takes its place in
/// store under their fingerprint, or, where none can be built, it is an error
/// and the one in store stays. Where the configurations cannot be loaded it is
/// an error too, and what is in store stays.
pub proof fn engine_follows_configs<M>(
    state: Option<CodeModeState<M>>,
    earlier: Seq<JsonView>,
    built_earlier: Result<M, String>,
    configs: Option<Seq<JsonView>>,
    built: Result<M, String>,
)
    requires
        engine_call(state, Some(earlier), built_earlier).1 is Ok,
    ensures
        ({
            let (held, got) = engine_call(state, Some(earlier), built_earlier);
            let (after, outcome) = engine_call(held, configs, built);
            match configs {
                Some(current) => {
                    &&& current.to_multiset() == earlier.to_multiset() ==> outcome == got && after
                        == held
                    &&& config_fingerprint(current) != config_fingerprint(earlier) ==> match built {
                        Ok(fresh) => outcome == Ok::<M, Seq<char>>(fresh) && after == Some(
                            CodeModeState {
                                code_mode: fresh,
                                hash: config_fingerprint(current),
                            },
                        ),
                        Err(error) => outcome == Err::<M, Seq<char>>(build_failure(error@))
                            && after == held && cached(after, config_fingerprint(earlier)) == Some(
                            got->Ok_0,
                        ),
                    }
                },
                None => outcome == Err::<M, Seq<char>>("Failed to load callback configs"@) && after
                    == held,
            }
        }),
{
    if let Some(current) = configs {
        if current.to_multiset() == earlier.to_multiset() {
            config_order_ignored(current, earlier);
        }
    }
}

/// The engine for the current configurations: the one in store, or none where
/// one has to be built. It is an error where the configurations could not be
/// loaded.
pub fn get_code_mode<'a, M>(
    state: &'a Option<CodeModeState<M>>,
    configs: &Option<Vec<CallbackConfig>>,
) -> (r: Result<Option<&'a M>, String>)
    ensures
        forall|built: Result<M, String>| #[trigger]
            engine_call(*state, loaded_views(*configs), built) == (match r {
                Ok(Some(code_mode)) => (*state, Ok::<M, Seq<char>>(*code_mode)),
                Ok(None) => (
                    renewed(*state, loaded_views(*configs)->0, built),
                    match built {
                        Ok(code_mode) => Ok(code_mode),
                        Err(error) => Err(build_failure(error@)),
                    },
                ),
                Err(message) => (*state, Err(message@)),
            }),
        match *configs {
            Some(current) => r matches Ok(found) && match found {
                Some(code_mode) => cached(*state, config_fingerprint(config_views(current@)))
                    == Some(*code_mode),
                None => cached(*state, config_fingerprint(config_views(current@))) is None,
            },
            None => r matches Err(message) && message@ == "Failed to load callback configs"@,
        },
{
    match configs {
        Some(current) => match state {
            Some(stored) => {
                if stored.hash == hash(current) {
                    Ok(Some(&stored.code_mode))
                } else {
                    Ok(None)
                }
            },
            None => Ok(None),
        },
        None => Err("Failed to load callback configs".to_owned()),
    }
}

/// Puts an engine that was built for the configurations in store. Where it
/// could not be built, what was in store stays, and there is a message.
pub fn renew_engine<M>(
    state: Option<CodeModeState<M>>,
    configs: &Vec<CallbackConfig>,
    built: Result<M, String>,
) -> (r: (Option<CodeModeState<M>>, Option<String>))
    ensures
        cached(state, config_fingerprint(config_views(configs@))) is None ==> {
            let call = engine_call(state, Some(config_views(configs@)), built);
            &&& r.0 == call.0
            &&& r.1 is None <==> call.1 is Ok
            &&& r.1 matches Some(message) ==> call.1 == Err::<M, Seq<char>>(message@)
        },
        r.0 == renewed(state, config_views(configs@), built),
        match built {
            Ok(_) => r.1 is None,
            Err(error) => r.1 matches Some(message) && message@ == build_failure(error@),
        },
{
    match CodeModeState::new(configs, built) {
        Ok(fresh) => (Some(fresh), None),
        Err(message) => (state, Some(message)),
    }
}

} // verus!
