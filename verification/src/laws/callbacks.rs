//! Laws of the tools that scripts may call.

use crate::callbacks::{
    all_dispatch_names, all_writes, build_failure, cached, callable, config_fingerprint,
    config_view, config_views, configure_all, dispatch_name, dispatched_as_listed, fingerprint,
    first_place, first_place_exists, hash_writes, optional_text, renewed, text_order,
    text_order_is_total, tool_place, CallbackConfig, CodeModeState, ToolInfo,
};
use crate::json::{compact_json, text_before, JsonView};
use crate::laws::text::ends_with;
use crate::text::{first_at, occurs, occurs_at};
use std::collections::hash_map::DefaultHasher;
use vstd::prelude::*;
use vstd::relations::sorted_by;
use vstd::seq_lib::lemma_sorted_unique;
use vstd::std_specs::hash::DefaultHasherAdditionalSpecFns;

verus! {

/// A tool whose name has two underscores is named by what stands before the
/// first such place and what stands after it; any other by its owner and its
/// whole name; and one without either cannot be called.
pub proof fn tools_named(name: Seq<char>, owner: Option<String>)
    ensures
        (exists|i: int| 0 <= i <= name.len() - 2 && #[trigger] name[i] == '_' && name[i + 1] == '_')
            ==> {
            &&& tool_place(name, owner) matches Some(place) && name == place.0 + seq!['_', '_']
                + place.1 && forall|j: int|
                0 <= j < place.0.len() ==> #[trigger] name[j] != '_' || name[j + 1] != '_'
        },
        (forall|i: int|
            0 <= i <= name.len() - 2 ==> #[trigger] name[i] != '_' || name[i + 1] != '_') ==> match owner {
            Some(owner) => tool_place(name, Some(owner)) == Some((owner@, name)),
            None => tool_place(name, None) is None,
        },
{
    reveal_strlit("__");
    let gap = "__"@;
    assert(gap == seq!['_', '_']);
    assert forall|i: int| 0 <= i <= name.len() - 2 implies (#[trigger] name[i] == '_' && name[i + 1]
        == '_' <==> occurs_at(name, gap, i)) by {
        let here = name.subrange(i, i + 2);
        assert(here[0] == name[i] && here[1] == name[i + 1]);
        if name[i] == '_' && name[i + 1] == '_' {
            assert(here == gap);
        }
    }
    if exists|i: int| 0 <= i <= name.len() - 2 && #[trigger] name[i] == '_' && name[i + 1] == '_' {
        let i = choose|i: int|
            0 <= i <= name.len() - 2 && #[trigger] name[i] == '_' && name[i + 1] == '_';
        assert(occurs_at(name, gap, i));
        assert(occurs(name, gap));
        dispatched_as_listed(name, owner);
        let place = tool_place(name, owner)->0;
        first_place_exists(name, gap, i);
        let first = first_place(name, gap);
        assert(first_at(name, gap, first));
        assert(place.0 == name.take(first));
        assert forall|j: int| 0 <= j < place.0.len() implies #[trigger] name[j] != '_' || name[j + 1]
            != '_' by {
            assert(!occurs_at(name, gap, j));
        }
    }
    if forall|i: int|
        0 <= i <= name.len() - 2 ==> #[trigger] name[i] != '_' || name[i + 1] != '_' {
        if occurs(name, gap) {
            let i = choose|i: int| occurs_at(name, gap, i);
            assert(name[i] == '_');
        }
    }
}

/// Every tool that can be named has a configuration, in the order in which the
/// tools are listed, and no other has; each is that of its tool.
pub proof fn tools_configured(tools: Seq<ToolInfo>)
    ensures
        callable(tools) == tools.filter(|t: ToolInfo| tool_place(t.name@, t.owner) is Some),
    decreases tools.len(),
{
    reveal(Seq::filter);
    if tools.len() > 0 {
        tools_configured(tools.drop_last());
    }
}

/// A configuration has the name, the description and the schemas of its tool.
pub proof fn configurations_are_those_of_tools(
    configs: Seq<CallbackConfig>,
    tools: Seq<ToolInfo>,
)
    requires
        configure_all(configs, tools),
    ensures
        configs.len() == tools.len(),
        forall|i: int|
            0 <= i < configs.len() ==> {
                &&& tool_place(tools[i].name@, tools[i].owner) == Some(
                    ((#[trigger] configs[i]).namespace@, configs[i].name@),
                )
                &&& configs[i].description == tools[i].description
                &&& configs[i].input_schema == Some(tools[i].input_schema)
                &&& configs[i].output_schema == tools[i].output_schema
            },
{
}

/// A call is dispatched by namespace and name with two underscores between
/// them.
pub proof fn dispatched_by_both_names(namespace: Seq<char>, name: Seq<char>)
    ensures
        dispatch_name(namespace, name) == namespace + seq!['_', '_'] + name,
{
    reveal_strlit("__");
    assert("__"@ == seq!['_', '_']);
}

/// Every configuration has its name to be dispatched by, in order.
pub proof fn dispatch_names_one_by_one(configs: Seq<CallbackConfig>)
    ensures
        all_dispatch_names(configs).len() == configs.len(),
        forall|i: int|
            0 <= i < configs.len() ==> #[trigger] all_dispatch_names(configs)[i]
                == configs[i].namespace@ + seq!['_', '_'] + configs[i].name@,
{
    assert forall|i: int| 0 <= i < configs.len() implies #[trigger] all_dispatch_names(configs)[i]
        == configs[i].namespace@ + seq!['_', '_'] + configs[i].name@ by {
        dispatched_by_both_names(configs[i].namespace@, configs[i].name@);
    }
}

/// Hashing texts one after the other writes what hashing each of them writes,
/// in order.
pub proof fn hashed_one_by_one(texts: Seq<Seq<char>>)
    ensures
        all_writes(texts) == texts.map_values(|t: Seq<char>| hash_writes(t)).flatten(),
    decreases texts.len(),
{
    let each = texts.map_values(|t: Seq<char>| hash_writes(t));
    each.lemma_flatten_and_flatten_alt_are_equivalent();
    if texts.len() > 0 {
        let front = texts.drop_last();
        hashed_one_by_one(front);
        let front_each = front.map_values(|t: Seq<char>| hash_writes(t));
        front_each.lemma_flatten_and_flatten_alt_are_equivalent();
        assert(each.drop_last() == front_each);
    }
}

/// The fingerprint of texts is what hashing gives of all of them, each as often
/// as it occurs, in their order as strings.
pub proof fn fingerprint_of_sorted_texts(texts: Seq<Seq<char>>, sorted: Seq<Seq<char>>)
    requires
        sorted.to_multiset() == texts.to_multiset(),
        forall|i: int, j: int|
            0 <= i < j < sorted.len() ==> !text_before(#[trigger] sorted[j], #[trigger] sorted[i]),
    ensures
        fingerprint(texts) == DefaultHasher::spec_finish(
            sorted.map_values(|t: Seq<char>| hash_writes(t)).flatten(),
        ),
{
    hashed_one_by_one(sorted);
    text_order_is_total();
    texts.lemma_sort_by_ensures(text_order());
    assert(sorted_by(sorted, text_order()));
    lemma_sorted_unique(texts.sort_by(text_order()), sorted, text_order());
}

/// The fingerprint of configurations is that of all their texts.
pub proof fn fingerprint_of_all_texts(configs: Seq<JsonView>)
    ensures
        config_fingerprint(configs) == fingerprint(
            Seq::new(configs.len(), |i: int| compact_json(configs[i])),
        ),
{
    assert(configs.map_values(|c: JsonView| compact_json(c)) == Seq::new(
        configs.len(),
        |i: int| compact_json(configs[i]),
    ));
}

/// Configurations that differ in a name, a description or a schema differ in
/// JSON, so that none of these is left out of the fingerprint.
pub proof fn configurations_differ_in_json(a: CallbackConfig, b: CallbackConfig)
    requires
        config_view(a) == config_view(b),
    ensures
        a.name@ == b.name@,
        a.namespace@ == b.namespace@,
        optional_text(a.description) == optional_text(b.description),
        a.description is Some <==> b.description is Some,
        a.description is Some ==> a.description->0@ == b.description->0@,
        a.input_schema is Some && b.input_schema is Some ==> a.input_schema->0@
            == b.input_schema->0@,
        a.output_schema is Some && b.output_schema is Some ==> a.output_schema->0@
            == b.output_schema->0@,
{
    let (x, y) = (config_view(a)->Object_0, config_view(b)->Object_0);
    assert(x[0] == y[0] && x[1] == y[1] && x[2] == y[2] && x[3] == y[3] && x[4] == y[4]);
}

/// The JSON of configurations is that of each, all of them and in order.
pub proof fn configurations_one_by_one(configs: Seq<CallbackConfig>)
    ensures
        config_views(configs).len() == configs.len(),
        forall|i: int|
            0 <= i < configs.len() ==> #[trigger] config_views(configs)[i] == config_view(
                configs[i],
            ),
{
}

/// The engine in store is used exactly for the fingerprint that it was built
/// for; a new one takes its place, and where none could be built it stays.
pub proof fn engines_in_store<M>(
    code_mode: M,
    hash: u64,
    wanted: u64,
    configs: Seq<JsonView>,
    fresh: M,
    error: String,
)
    ensures
        ({
            let state = Some(CodeModeState { code_mode, hash });
            &&& hash == wanted ==> cached(state, wanted) == Some(code_mode)
            &&& hash != wanted ==> cached(state, wanted) is None
            &&& cached(None::<CodeModeState<M>>, wanted) is None
            &&& cached(renewed(state, configs, Ok(fresh)), config_fingerprint(configs)) == Some(
                fresh,
            )
            &&& renewed(state, configs, Err(error)) == state
        }),
{
}

/// An engine that could not be built says why.
pub proof fn failed_builds_say_why(error: Seq<char>)
    ensures
        ends_with(build_failure(error), error),
        build_failure(error) == "failed adding callback configs to CodeMode: "@ + error,
{
    let text = build_failure(error);
    assert(text.skip(text.len() - error.len()) == error);
}

} // verus!
