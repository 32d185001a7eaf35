//! JSON values as the library reads and builds them, and the passage to and
//! from the values and texts of `serde_json`.

use crate::text::{chars_of, same_text};
use vstd::prelude::*;

verus! {

// ---------------------------------------------------------------------------
// The model
// ---------------------------------------------------------------------------

/// A JSON number, carried as `serde_json` holds it.
#[verifier::external_type_specification]
#[verifier::external_body]
pub struct ExNumber(serde_json::Number);

/// A JSON value. The members of an object stand in the ascending order of
/// their keys, and no key occurs twice.
pub enum JsonView {
    Null,
    Bool(bool),
    Number(serde_json::Number),
    Text(Seq<char>),
    Array(Seq<JsonView>),
    Object(Seq<(Seq<char>, JsonView)>),
}

/// Whether `a` comes before `b` in the order of strings: character by
/// character, and a proper prefix first.
pub open spec fn text_before(a: Seq<char>, b: Seq<char>) -> bool
    decreases a.len(),
{
    if b.len() == 0 {
        false
    } else if a.len() == 0 {
        true
    } else if a[0] == b[0] {
        text_before(a.drop_first(), b.drop_first())
    } else {
        a[0] < b[0]
    }
}

/// Whether the keys ascend.
pub open spec fn ascending(keys: Seq<Seq<char>>) -> bool {
    forall|i: int, j: int|
        0 <= i < j < keys.len() ==> text_before(#[trigger] keys[i], #[trigger] keys[j])
}

/// The keys of an object's members.
pub open spec fn member_keys(members: Seq<(Seq<char>, JsonView)>) -> Seq<Seq<char>> {
    members.map_values(|m: (Seq<char>, JsonView)| m.0)
}

/// The value of the member with the given key.
pub open spec fn member(members: Seq<(Seq<char>, JsonView)>, key: Seq<char>) -> Option<JsonView>
    decreases members.len(),
{
    if members.len() == 0 {
        None
    } else if members[0].0 == key {
        Some(members[0].1)
    } else {
        member(members.drop_first(), key)
    }
}

/// The members with the given one set: in place of the one with its key, if
/// there is such a member, or else where the order of the keys puts it.
pub open spec fn with_member(
    members: Seq<(Seq<char>, JsonView)>,
    key: Seq<char>,
    value: JsonView,
) -> Seq<(Seq<char>, JsonView)>
    decreases members.len(),
{
    if members.len() == 0 {
        seq![(key, value)]
    } else if members[0].0 == key {
        members.update(0, (key, value))
    } else if text_before(key, members[0].0) {
        seq![(key, value)] + members
    } else {
        seq![members[0]] + with_member(members.drop_first(), key, value)
    }
}

// ---------------------------------------------------------------------------
// The order of strings
// ---------------------------------------------------------------------------

pub proof fn text_before_irreflexive(a: Seq<char>)
    ensures
        !text_before(a, a),
    decreases a.len(),
{
    if a.len() > 0 {
        text_before_irreflexive(a.drop_first());
    }
}

pub proof fn text_before_transitive(a: Seq<char>, b: Seq<char>, c: Seq<char>)
    requires
        text_before(a, b),
        text_before(b, c),
    ensures
        text_before(a, c),
    decreases a.len(),
{
    if a.len() > 0 && b.len() > 0 && c.len() > 0 && a[0] == b[0] && b[0] == c[0] {
        text_before_transitive(a.drop_first(), b.drop_first(), c.drop_first());
    }
}

pub proof fn text_before_total(a: Seq<char>, b: Seq<char>)
    ensures
        a == b || text_before(a, b) || text_before(b, a),
    decreases a.len(),
{
    if a.len() > 0 && b.len() > 0 && a[0] == b[0] {
        text_before_total(a.drop_first(), b.drop_first());
        if a.drop_first() == b.drop_first() {
            assert(a == seq![a[0]] + a.drop_first());
            assert(b == seq![b[0]] + b.drop_first());
        }
    } else if a.len() == 0 && b.len() == 0 {
        assert(a == b);
    }
}

/// Whether `a` comes before `b` in the order of strings.
pub fn comes_before(a: &str, b: &str) -> (r: bool)
    ensures
        r == text_before(a@, b@),
{
    let left = chars_of(a);
    let right = chars_of(b);
    let mut i: usize = 0;
    assert(a@.skip(0) == a@);
    assert(b@.skip(0) == b@);
    while i < left.len() && i < right.len() && left[i] == right[i]
        invariant
            i <= left@.len(),
            i <= right@.len(),
            left@ == a@,
            right@ == b@,
            text_before(a@, b@) == text_before(a@.skip(i as int), b@.skip(i as int)),
        decreases left@.len() - i,
    {
        assert(a@.skip(i as int).drop_first() == a@.skip(i + 1));
        assert(b@.skip(i as int).drop_first() == b@.skip(i + 1));
        i = i + 1;
    }
    if i == right.len() {
        false
    } else if i == left.len() {
        true
    } else {
        left[i] < right[i]
    }
}

// ---------------------------------------------------------------------------
// Values
// ---------------------------------------------------------------------------

/// A JSON value.
#[derive(Debug, PartialEq)]
pub enum JsonValue {
    Null,
    Bool(bool),
    Number(serde_json::Number),
    Text(String),
    Array(Vec<JsonValue>),
    Object(JsonObject),
}

/// The members of a JSON object, in the ascending order of their keys.
#[derive(Debug, PartialEq)]
pub struct JsonObject {
    members: Vec<(String, JsonValue)>,
}

impl JsonValue {
    /// What the value is.
    pub open spec fn model(self) -> JsonView
        decreases self,
    {
        match self {
            JsonValue::Null => JsonView::Null,
            JsonValue::Bool(b) => JsonView::Bool(b),
            JsonValue::Number(n) => JsonView::Number(n),
            JsonValue::Text(s) => JsonView::Text(s@),
            JsonValue::Array(items) => JsonView::Array(
                Seq::new(
                    items@.len(),
                    |i: int|
                        if 0 <= i < items@.len() {
                            items@[i].model()
                        } else {
                            JsonView::Null
                        },
                ),
            ),
            JsonValue::Object(o) => JsonView::Object(o.model()),
        }
    }
}

impl JsonObject {
    /// The members, in order.
    pub closed spec fn model(self) -> Seq<(Seq<char>, JsonView)>
        decreases self,
    {
        Seq::new(
            self.members@.len(),
            |i: int|
                if 0 <= i < self.members@.len() {
                    (self.members@[i].0@, self.members@[i].1.model())
                } else {
                    (Seq::empty(), JsonView::Null)
                },
        )
    }

    #[verifier::type_invariant]
    spec fn well_formed(self) -> bool {
        ascending(member_keys(self.model()))
    }
}

impl View for JsonValue {
    type V = JsonView;

    open spec fn view(&self) -> JsonView {
        self.model()
    }
}

impl View for JsonObject {
    type V = Seq<(Seq<char>, JsonView)>;

    open spec fn view(&self) -> Seq<(Seq<char>, JsonView)> {
        self.model()
    }
}

// ---------------------------------------------------------------------------
// Members
// ---------------------------------------------------------------------------

/// Where the member with a key is set, by the place that the order gives it.
proof fn with_member_at(
    members: Seq<(Seq<char>, JsonView)>,
    key: Seq<char>,
    value: JsonView,
    at: int,
)
    requires
        0 <= at <= members.len(),
        forall|i: int| 0 <= i < at ==> text_before((#[trigger] members[i]).0, key),
        at < members.len() ==> !text_before(members[at].0, key),
    ensures
        with_member(members, key, value) == if at < members.len() && members[at].0 == key {
            members.update(at, (key, value))
        } else {
            members.insert(at, (key, value))
        },
    decreases members.len(),
{
    if members.len() == 0 {
        assert(members.insert(0, (key, value)) == seq![(key, value)]);
    } else if at == 0 {
        if members[0].0 != key {
            text_before_total(members[0].0, key);
            assert(members.insert(0, (key, value)) == seq![(key, value)] + members);
        }
    } else {
        let rest = members.drop_first();
        assert(text_before(members[0].0, key));
        text_before_irreflexive(key);
        if text_before(key, members[0].0) {
            text_before_transitive(key, members[0].0, key);
        }
        assert forall|i: int| 0 <= i < at - 1 implies text_before((#[trigger] rest[i]).0, key) by {
            assert(rest[i] == members[i + 1]);
        }
        if at < members.len() {
            assert(rest[at - 1] == members[at]);
        }
        with_member_at(rest, key, value, at - 1);
        let tail = with_member(rest, key, value);
        if at < members.len() && members[at].0 == key {
            assert(members.update(at, (key, value)) == seq![members[0]] + tail);
        } else {
            assert(members.insert(at, (key, value)) == seq![members[0]] + tail);
        }
    }
}

/// A member whose key comes after all others is set at the end.
pub proof fn member_set_last(members: Seq<(Seq<char>, JsonView)>, key: Seq<char>, value: JsonView)
    requires
        forall|i: int| 0 <= i < members.len() ==> text_before((#[trigger] members[i]).0, key),
    ensures
        with_member(members, key, value) == members.push((key, value)),
{
    with_member_at(members, key, value, members.len() as int);
    assert(members.insert(members.len() as int, (key, value)) == members.push((key, value)));
}

/// A member's value by its place.
proof fn member_at(members: Seq<(Seq<char>, JsonView)>, key: Seq<char>, at: int)
    requires
        0 <= at <= members.len(),
        forall|i: int| 0 <= i < at ==> (#[trigger] members[i]).0 != key,
        at < members.len() ==> members[at].0 == key,
    ensures
        member(members, key) == if at < members.len() {
            Some(members[at].1)
        } else {
            None
        },
    decreases members.len(),
{
    if members.len() > 0 && at > 0 {
        let rest = members.drop_first();
        assert(members[0].0 != key);
        assert forall|i: int| 0 <= i < at - 1 implies (#[trigger] rest[i]).0 != key by {
            assert(rest[i] == members[i + 1]);
        }
        if at < members.len() {
            assert(rest[at - 1] == members[at]);
        }
        member_at(rest, key, at - 1);
    }
}

/// A member that was set is the one that is found, and every other key is
/// found as before.
pub proof fn member_after_insert(
    members: Seq<(Seq<char>, JsonView)>,
    key: Seq<char>,
    value: JsonView,
    other: Seq<char>,
)
    ensures
        member(with_member(members, key, value), other) == if other == key {
            Some(value)
        } else {
            member(members, other)
        },
    decreases members.len(),
{
    let grown = with_member(members, key, value);
    reveal_with_fuel(member, 2);
    if members.len() == 0 {
        assert(grown.drop_first() == members);
    } else if members[0].0 == key {
        assert(grown.drop_first() == members.drop_first());
    } else if text_before(key, members[0].0) {
        assert(grown.drop_first() == members);
    } else {
        member_after_insert(members.drop_first(), key, value, other);
        assert(grown.drop_first() == with_member(members.drop_first(), key, value));
    }
}

impl JsonObject {
    /// An object without members.
    pub fn new() -> (r: JsonObject)
        ensures
            r@ == Seq::<(Seq<char>, JsonView)>::empty(),
    {
        let members: Vec<(String, JsonValue)> = Vec::new();
        let r = JsonObject { members };
        assert(r@ == Seq::<(Seq<char>, JsonView)>::empty());
        r
    }

    /// How many members the object has. Their keys ascend, so no key occurs
    /// twice.
    pub fn len(&self) -> (r: usize)
        ensures
            r == self@.len(),
            ascending(member_keys(self@)),
    {
        proof {
            use_type_invariant(self);
        }
        self.members.len()
    }

    /// The key of the member at a place.
    pub fn key_at(&self, i: usize) -> (r: &String)
        requires
            i < self@.len(),
        ensures
            r@ == self@[i as int].0,
    {
        &self.members[i].0
    }

    /// The value of the member at a place.
    pub fn value_at(&self, i: usize) -> (r: &JsonValue)
        requires
            i < self@.len(),
        ensures
            r@ == self@[i as int].1,
            decreases_to!(self => r),
    {
        let r = &self.members[i].1;
        assert(decreases_to!(self => self.members));
        assert(decreases_to!(self.members => self.members@));
        assert(decreases_to!(self.members@ => self.members@[i as int]));
        assert(decreases_to!(self.members@[i as int] => self.members@[i as int].1));
        r
    }

    /// The value of the member with a key.
    pub fn get(&self, key: &str) -> (r: Option<&JsonValue>)
        ensures
            r is Some <==> member(self@, key@) is Some,
            r matches Some(value) ==> member(self@, key@) == Some(value@),
    {
        for i in 0..self.members.len()
            invariant
                forall|j: int| 0 <= j < i ==> (#[trigger] self@[j]).0 != key@,
        {
            if same_text(self.members[i].0.as_str(), key) {
                proof {
                    member_at(self@, key@, i as int);
                }
                return Some(&self.members[i].1);
            }
        }
        proof {
            member_at(self@, key@, self@.len() as int);
        }
        None
    }

    /// Whether there is a member with a key.
    pub fn contains_key(&self, key: &str) -> (r: bool)
        ensures
            r == (member(self@, key@) is Some),
    {
        self.get(key).is_some()
    }

    /// The object with a member set.
    pub fn insert(self, key: String, value: JsonValue) -> (r: JsonObject)
        ensures
            r@ == with_member(self@, key@, value@),
    {
        proof {
            use_type_invariant(&self);
        }
        let ghost before = self@;
        let ghost (k, v) = (key@, value@);
        let JsonObject { mut members } = self;
        let mut at: usize = 0;
        while at < members.len() && comes_before(members[at].0.as_str(), key.as_str())
            invariant
                at <= members@.len(),
                before == (JsonObject { members }).model(),
                key@ == k,
                forall|i: int| 0 <= i < at ==> text_before((#[trigger] before[i]).0, k),
            decreases members@.len() - at,
        {
            at = at + 1;
        }
        proof {
            with_member_at(before, k, v, at as int);
        }
        let ghost held = members@;
        let found = at < members.len() && same_text(members[at].0.as_str(), key.as_str());
        if found {
            members.set(at, (key, value));
        } else {
            members.insert(at, (key, value));
        }
        let ghost after = (JsonObject { members }).model();
        proof {
            let wanted = with_member(before, k, v);
            assert(after.len() == wanted.len());
            assert forall|i: int| 0 <= i < after.len() implies after[i] == wanted[i] by {}
            assert(after == wanted);
            ascending_after_insert(before, k, v);
        }
        JsonObject { members }
    }
}

/// Setting a member keeps the keys in order.
pub proof fn ascending_after_insert(
    members: Seq<(Seq<char>, JsonView)>,
    key: Seq<char>,
    value: JsonView,
)
    requires
        ascending(member_keys(members)),
    ensures
        ascending(member_keys(with_member(members, key, value))),
    decreases members.len(),
{
    let grown = with_member(members, key, value);
    let keys = member_keys(members);
    let grown_keys = member_keys(grown);
    if members.len() > 0 {
        let rest = members.drop_first();
        assert(member_keys(rest) == keys.drop_first());
        if members[0].0 == key {
            assert(grown_keys == keys);
        } else if text_before(key, members[0].0) {
            assert(grown_keys == seq![key] + keys);
            assert forall|i: int, j: int| 0 <= i < j < grown_keys.len() implies text_before(
                #[trigger] grown_keys[i],
                #[trigger] grown_keys[j],
            ) by {
                assert(grown_keys[j] == keys[j - 1]);
                if i > 0 {
                    assert(grown_keys[i] == keys[i - 1]);
                } else if j > 1 {
                    text_before_transitive(key, keys[0], keys[j - 1]);
                }
            }
        } else {
            text_before_total(key, members[0].0);
            assert(ascending(member_keys(rest))) by {
                assert forall|i: int, j: int| 0 <= i < j < keys.drop_first().len() implies text_before(
                    #[trigger] keys.drop_first()[i],
                    #[trigger] keys.drop_first()[j],
                ) by {
                    assert(keys.drop_first()[i] == keys[i + 1]);
                    assert(keys.drop_first()[j] == keys[j + 1]);
                }
            }
            ascending_after_insert(rest, key, value);
            let tail = with_member(rest, key, value);
            assert(grown_keys == seq![keys[0]] + member_keys(tail));
            assert forall|i: int, j: int| 0 <= i < j < grown_keys.len() implies text_before(
                #[trigger] grown_keys[i],
                #[trigger] grown_keys[j],
            ) by {
                let tail_keys = member_keys(tail);
                assert(grown_keys[j] == tail_keys[j - 1]);
                if i > 0 {
                    assert(grown_keys[i] == tail_keys[i - 1]);
                } else {
                    with_member_key(rest, key, value, j - 1);
                    if tail[j - 1].0 != key {
                        let m = choose|m: int| 0 <= m < rest.len() && rest[m].0 == tail[j - 1].0;
                        assert(keys[m + 1] == rest[m].0);
                    }
                }
            }
        }
    }
}

/// The keys after a member is set are the keys before and its key.
proof fn with_member_key(
    members: Seq<(Seq<char>, JsonView)>,
    key: Seq<char>,
    value: JsonView,
    at: int,
)
    requires
        0 <= at < with_member(members, key, value).len(),
    ensures
        ({
            let grown = with_member(members, key, value);
            grown[at].0 == key || exists|m: int|
                0 <= m < members.len() && #[trigger] members[m].0 == grown[at].0
        }),
    decreases members.len(),
{
    let grown = with_member(members, key, value);
    if members.len() > 0 {
        if members[0].0 == key {
            if at > 0 {
                assert(members[at].0 == grown[at].0);
            }
        } else if text_before(key, members[0].0) {
            if at > 0 {
                assert(members[at - 1].0 == grown[at].0);
            }
        } else {
            let rest = members.drop_first();
            if at == 0 {
                assert(members[0].0 == grown[at].0);
            } else {
                with_member_key(rest, key, value, at - 1);
                if grown[at].0 != key {
                    let m = choose|m: int| 0 <= m < rest.len() && #[trigger] rest[m].0 == grown[at].0;
                    assert(members[m + 1].0 == grown[at].0);
                }
            }
        }
    }
}

// ---------------------------------------------------------------------------
// Values and texts of serde_json
// ---------------------------------------------------------------------------

/// A value of `serde_json`, carried as it is.
#[verifier::external_type_specification]
#[verifier::external_body]
pub struct ExValue(serde_json::Value);

/// The JSON value that a `serde_json::Value` holds.
pub uninterp spec fn json_of(value: serde_json::Value) -> JsonView;

/// The value that `serde_json::from_str` reads from a text, if it accepts it.
pub uninterp spec fn parsed_json(text: Seq<char>) -> Option<JsonView>;

/// The text that `serde_json::to_string` writes for a value, or the empty text
/// where it fails.
pub uninterp spec fn compact_json(value: JsonView) -> Seq<char>;

/// The text that `serde_json::to_string_pretty` writes for a value, unless it
/// fails.
pub uninterp spec fn pretty_json(value: JsonView) -> Option<Seq<char>>;

/// One level of a value: what it is, with its items or members still closed.
enum JsonNode {
    Null,
    Bool(bool),
    Number(serde_json::Number),
    Text(String),
    Array(Vec<serde_json::Value>),
    Object(Vec<(String, serde_json::Value)>),
}

impl JsonNode {
    /// The keys of an object's members.
    spec fn keys(self) -> Seq<Seq<char>> {
        match self {
            JsonNode::Object(members) => members@.map_values(|m: (String, serde_json::Value)| m.0@),
            _ => Seq::empty(),
        }
    }

    /// The value that the level is part of.
    spec fn model(self) -> JsonView {
        match self {
            JsonNode::Null => JsonView::Null,
            JsonNode::Bool(b) => JsonView::Bool(b),
            JsonNode::Number(n) => JsonView::Number(n),
            JsonNode::Text(s) => JsonView::Text(s@),
            JsonNode::Array(items) => JsonView::Array(
                items@.map_values(|item: serde_json::Value| json_of(item)),
            ),
            JsonNode::Object(members) => JsonView::Object(
                members@.map_values(|m: (String, serde_json::Value)| (m.0@, json_of(m.1))),
            ),
        }
    }
}

/// Takes a `serde_json::Value` apart, variant by variant. Walking a
/// `serde_json::Map` by value gives its members in the ascending order of
/// their keys: the map stands on a `BTreeMap`.
#[verifier::external_body]
fn open_value(value: serde_json::Value) -> (r: JsonNode)
    ensures
        r.model() == json_of(value),
        ascending(r.keys()),
{
    match value {
        serde_json::Value::Null => JsonNode::Null,
        serde_json::Value::Bool(b) => JsonNode::Bool(b),
        serde_json::Value::Number(n) => JsonNode::Number(n),
        serde_json::Value::String(s) => JsonNode::Text(s),
        serde_json::Value::Array(items) => JsonNode::Array(items),
        serde_json::Value::Object(map) => JsonNode::Object(map.into_iter().collect()),
    }
}

/// Puts a `serde_json::Value` together, variant by variant. Members whose keys
/// ascend are the members of the `serde_json::Map` collected from them, in
/// that order.
#[verifier::external_body]
fn close_node(node: JsonNode) -> (r: serde_json::Value)
    requires
        ascending(node.keys()),
    ensures
        json_of(r) == node.model(),
{
    match node {
        JsonNode::Null => serde_json::Value::Null,
        JsonNode::Bool(b) => serde_json::Value::Bool(b),
        JsonNode::Number(n) => serde_json::Value::Number(n),
        JsonNode::Text(s) => serde_json::Value::String(s),
        JsonNode::Array(items) => serde_json::Value::Array(items),
        JsonNode::Object(members) => serde_json::Value::Object(members.into_iter().collect()),
    }
}

/// `serde_json::Number::clone` gives the same number.
#[verifier::external_body]
fn copy_number(n: &serde_json::Number) -> (r: serde_json::Number)
    ensures
        r == *n,
{
    n.clone()
}

/// `serde_json::from_str`: what it reads from the text is named
/// `parsed_json`; the error is dropped.
#[verifier::external_body]
fn read_text(text: &str) -> (r: Option<serde_json::Value>)
    ensures
        r is Some <==> parsed_json(text@) is Some,
        r matches Some(value) ==> parsed_json(text@) == Some(json_of(value)),
{
    serde_json::from_str(text).ok()
}

/// `serde_json::to_string`, or the empty text where it fails: what it writes is
/// named `compact_json`. The compact form has no line feed and no carriage
/// return: it puts no white space between tokens and escapes control characters
/// inside strings.
#[verifier::external_body]
fn write_text(value: &serde_json::Value) -> (r: String)
    ensures
        r@ == compact_json(json_of(*value)),
        !r@.contains('\n'),
        !r@.contains('\r'),
{
    serde_json::to_string(value).unwrap_or_default()
}

/// `serde_json::to_string_pretty`: what it writes is named `pretty_json`; the
/// error is dropped.
#[verifier::external_body]
fn write_pretty(value: &serde_json::Value) -> (r: Option<String>)
    ensures
        r is Some <==> pretty_json(json_of(*value)) is Some,
        r matches Some(text) ==> pretty_json(json_of(*value)) == Some(text@),
{
    serde_json::to_string_pretty(value).ok()
}

impl JsonValue {
    /// The value that a `serde_json::Value` holds.
    pub fn from_value(value: serde_json::Value) -> (r: JsonValue)
        ensures
            r@ == json_of(value),
        decreases json_of(value),
    {
        let ghost whole = json_of(value);
        let node = open_value(value);
        let ghost keys = node.keys();
        match node {
            JsonNode::Null => JsonValue::Null,
            JsonNode::Bool(b) => JsonValue::Bool(b),
            JsonNode::Number(n) => JsonValue::Number(n),
            JsonNode::Text(s) => JsonValue::Text(s),
            JsonNode::Array(items) => {
                let ghost all = items@;
                let mut read: Vec<JsonValue> = Vec::new();
                for item in it: items
                    invariant
                        it.seq() == all,
                        whole == json_of(value),
                        whole == JsonView::Array(all.map_values(|x: serde_json::Value| json_of(x))),
                        read@.len() == it.index(),
                        forall|i: int| 0 <= i < read@.len() ==> (#[trigger] read@[i])@ == json_of(all[i]),
                    decreases all.len() - it.index(),
                {
                    assert(whole->Array_0[it.index()] == json_of(item));
                    assert(decreases_to!(whole => whole->Array_0));
                    assert(decreases_to!(whole->Array_0 => whole->Array_0[it.index()]));
                    read.push(JsonValue::from_value(item));
                }
                let r = JsonValue::Array(read);
                assert(r@->Array_0 == whole->Array_0);
                r
            },
            JsonNode::Object(closed) => {
                let ghost all = closed@;
                let mut members: Vec<(String, JsonValue)> = Vec::new();
                for entry in it: closed
                    invariant
                        it.seq() == all,
                        whole == json_of(value),
                        whole == JsonView::Object(
                            all.map_values(|m: (String, serde_json::Value)| (m.0@, json_of(m.1))),
                        ),
                        members@.len() == it.index(),
                        forall|i: int|
                            0 <= i < members@.len() ==> (#[trigger] members@[i]).0@ == all[i].0@
                                && members@[i].1@ == json_of(all[i].1),
                    decreases all.len() - it.index(),
                {
                    let (key, inner) = entry;
                    assert(whole->Object_0[it.index()] == (key@, json_of(inner)));
                    assert(decreases_to!(whole => whole->Object_0));
                    assert(decreases_to!(whole->Object_0 => whole->Object_0[it.index()]));
                    assert(decreases_to!(whole->Object_0[it.index()] => whole->Object_0[it.index()].1));
                    members.push((key, JsonValue::from_value(inner)));
                }
                let ghost read = (JsonObject { members }).model();
                assert(read == whole->Object_0);
                assert(member_keys(read) == keys);
                JsonValue::Object(JsonObject { members })
            },
        }
    }

    /// The value as a `serde_json::Value`.
    pub fn to_value(&self) -> (r: serde_json::Value)
        ensures
            json_of(r) == self@,
        decreases self,
    {
        match self {
            JsonValue::Null => close_node(JsonNode::Null),
            JsonValue::Bool(b) => close_node(JsonNode::Bool(*b)),
            JsonValue::Number(n) => close_node(JsonNode::Number(copy_number(n))),
            JsonValue::Text(s) => close_node(JsonNode::Text(s.clone())),
            JsonValue::Array(items) => {
                let mut built: Vec<serde_json::Value> = Vec::new();
                for i in 0..items.len()
                    invariant
                        self == JsonValue::Array(*items),
                        built@.len() == i,
                        forall|j: int| 0 <= j < i ==> json_of(#[trigger] built@[j]) == items@[j]@,
                {
                    assert(decreases_to!(self => self->Array_0));
                    assert(decreases_to!(items => items@));
                    assert(decreases_to!(items@ => items@[i as int]));
                    built.push(items[i].to_value());
                }
                let node = JsonNode::Array(built);
                assert(node.model()->Array_0 == self@->Array_0);
                close_node(node)
            },
            JsonValue::Object(object) => {
                proof {
                    use_type_invariant(object);
                }
                let mut built: Vec<(String, serde_json::Value)> = Vec::new();
                for i in 0..object.members.len()
                    invariant
                        self == JsonValue::Object(*object),
                        built@.len() == i,
                        forall|j: int|
                            0 <= j < i ==> (#[trigger] built@[j]).0@ == object@[j].0 && json_of(
                                built@[j].1,
                            ) == object@[j].1,
                {
                    let value = object.value_at(i);
                    assert(decreases_to!(self => self->Object_0));
                    built.push((object.key_at(i).clone(), value.to_value()));
                }
                let node = JsonNode::Object(built);
                assert(node.model()->Object_0 == self@->Object_0);
                assert(node.keys() == member_keys(object@));
                close_node(node)
            },
        }
    }

    /// The same value once more.
    pub fn copy(&self) -> (r: JsonValue)
        ensures
            r@ == self@,
        decreases self,
    {
        match self {
            JsonValue::Null => JsonValue::Null,
            JsonValue::Bool(b) => JsonValue::Bool(*b),
            JsonValue::Number(n) => JsonValue::Number(copy_number(n)),
            JsonValue::Text(s) => JsonValue::Text(s.clone()),
            JsonValue::Array(items) => {
                let mut copied: Vec<JsonValue> = Vec::new();
                for i in 0..items.len()
                    invariant
                        self == JsonValue::Array(*items),
                        copied@.len() == i,
                        forall|j: int| 0 <= j < i ==> (#[trigger] copied@[j])@ == items@[j]@,
                {
                    assert(decreases_to!(self => self->Array_0));
                    assert(decreases_to!(items => items@));
                    assert(decreases_to!(items@ => items@[i as int]));
                    copied.push(items[i].copy());
                }
                let r = JsonValue::Array(copied);
                assert(r@->Array_0 == self@->Array_0);
                r
            },
            JsonValue::Object(object) => {
                proof {
                    use_type_invariant(object);
                }
                let mut members: Vec<(String, JsonValue)> = Vec::new();
                for i in 0..object.members.len()
                    invariant
                        self == JsonValue::Object(*object),
                        members@.len() == i,
                        forall|j: int|
                            0 <= j < i ==> (#[trigger] members@[j]).0@ == object@[j].0
                                && members@[j].1@ == object@[j].1,
                {
                    let value = object.value_at(i);
                    assert(decreases_to!(self => self->Object_0));
                    members.push((object.key_at(i).clone(), value.copy()));
                }
                let ghost copied = (JsonObject { members }).model();
                assert(copied == object@);
                JsonValue::Object(JsonObject { members })
            },
        }
    }

    /// The value that a text is in JSON, if it is JSON.
    pub fn parse(text: &str) -> (r: Option<JsonValue>)
        ensures
            r is Some <==> parsed_json(text@) is Some,
            r matches Some(value) ==> parsed_json(text@) == Some(value@),
    {
        match read_text(text) {
            Some(value) => Some(JsonValue::from_value(value)),
            None => None,
        }
    }

    /// The value in JSON on one line.
    pub fn compact_text(&self) -> (r: String)
        ensures
            r@ == compact_json(self@),
            !r@.contains('\n'),
            !r@.contains('\r'),
    {
        write_text(&self.to_value())
    }

    /// The value in indented JSON, or on one line where that fails.
    pub fn pretty_text(&self) -> (r: String)
        ensures
            r@ == pretty_or_compact(self@),
    {
        let value = self.to_value();
        match write_pretty(&value) {
            Some(text) => text,
            None => write_text(&value),
        }
    }
}

/// The indented JSON text of a value, or the compact one where there is none.
pub open spec fn pretty_or_compact(value: JsonView) -> Seq<char> {
    match pretty_json(value) {
        Some(text) => text,
        None => compact_json(value),
    }
}

} // verus!
