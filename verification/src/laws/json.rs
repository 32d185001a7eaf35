//! Laws of JSON values.

use crate::json::{
    compact_json, member, pretty_json, pretty_or_compact, text_before, JsonValue, JsonView,
};
use vstd::prelude::*;

verus! {

/// Strings are ordered by the first character in which they differ.
pub proof fn order_by_first_difference(
    start: Seq<char>,
    x: char,
    a: Seq<char>,
    y: char,
    b: Seq<char>,
)
    requires
        x != y,
    ensures
        text_before(start + seq![x] + a, start + seq![y] + b) <==> x < y,
    decreases start.len(),
{
    let left = start + seq![x] + a;
    let right = start + seq![y] + b;
    if start.len() > 0 {
        let rest = start.drop_first();
        order_by_first_difference(rest, x, a, y, b);
        assert(left.drop_first() == rest + seq![x] + a);
        assert(right.drop_first() == rest + seq![y] + b);
        assert(left[0] == right[0]);
    } else {
        assert(left[0] == x && right[0] == y);
    }
}

/// A proper beginning of a string comes before it.
pub proof fn beginning_comes_first(start: Seq<char>, more: Seq<char>)
    requires
        more.len() > 0,
    ensures
        text_before(start, start + more),
        !text_before(start + more, start),
    decreases start.len(),
{
    if start.len() > 0 {
        beginning_comes_first(start.drop_first(), more);
        assert((start + more).drop_first() == start.drop_first() + more);
    }
}

/// The member with a key is the first that has it, and there is none exactly
/// where no member has it.
pub proof fn member_is_first_with_key(members: Seq<(Seq<char>, JsonView)>, key: Seq<char>)
    ensures
        match member(members, key) {
            Some(value) => exists|i: int|
                0 <= i < members.len() && #[trigger] members[i] == (key, value) && forall|j: int|
                    0 <= j < i ==> (#[trigger] members[j]).0 != key,
            None => forall|i: int| 0 <= i < members.len() ==> (#[trigger] members[i]).0 != key,
        },
    decreases members.len(),
{
    if members.len() > 0 {
        if members[0].0 == key {
            assert(members[0] == (key, members[0].1));
        } else {
            let rest = members.drop_first();
            member_is_first_with_key(rest, key);
            match member(rest, key) {
                Some(value) => {
                    let i = choose|i: int|
                        0 <= i < rest.len() && #[trigger] rest[i] == (key, value) && forall|j: int|
                            0 <= j < i ==> (#[trigger] rest[j]).0 != key;
                    assert(members[i + 1] == (key, value));
                    assert forall|j: int| 0 <= j < i + 1 implies (#[trigger] members[j]).0 != key by {
                        if j > 0 {
                            assert(rest[j - 1].0 != key);
                        }
                    }
                },
                None => {
                    assert forall|i: int| 0 <= i < members.len() implies (#[trigger] members[i]).0
                        != key by {
                        if i > 0 {
                            assert(rest[i - 1].0 != key);
                        }
                    }
                },
            }
        }
    }
}

/// The view of a value shows all that it holds.
pub proof fn value_shows_what_it_holds(value: JsonValue)
    ensures
        match value {
            JsonValue::Null => value@ == JsonView::Null,
            JsonValue::Bool(b) => value@ == JsonView::Bool(b),
            JsonValue::Number(n) => value@ == JsonView::Number(n),
            JsonValue::Text(s) => value@ == JsonView::Text(s@),
            JsonValue::Array(items) => {
                &&& value@ is Array
                &&& value@->Array_0.len() == items@.len()
                &&& forall|i: int|
                    0 <= i < items@.len() ==> #[trigger] value@->Array_0[i] == items@[i]@
            },
            JsonValue::Object(object) => value@ == JsonView::Object(object@),
        },
{
}

/// A value is shown indented unless that fails.
pub proof fn shown_indented(value: JsonView)
    ensures
        pretty_json(value) == Some(pretty_or_compact(value)) || (pretty_json(value) is None
            && pretty_or_compact(value) == compact_json(value)),
{
}

} // verus!
