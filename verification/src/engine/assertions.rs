//! Assertions on a response body: structural match, containment, and
//! regular expressions on the whole body or on an extracted value.

use crate::json::{
    compact, lemma_lookup_found, lemma_lookup_own, lookup, member, well_formed, Json, JsonValue,
};
use crate::models::test::JsonAssertion;
use crate::pattern::{matches_pattern, pattern_matches};
use crate::utils::json_path::{extract_json_path, extracted};
use vstd::prelude::*;

verus! {

/// Whether `actual` matches `expected` structurally.
///
/// An expected object asks that `actual` is an object that has each
/// expected key with a matching value; keys that are not expected are
/// not looked at. An expected array asks for an array of the same length
/// that matches element by element. A scalar asks for an equal value.
pub open spec fn exact_match(expected: JsonValue, actual: JsonValue) -> bool
    decreases expected,
{
    match expected {
        JsonValue::Object(members) => actual is Object && forall|i: int|
            0 <= i < members.len() ==> match member(actual, (#[trigger] members[i]).0) {
                Some(found) => exact_match(members[i].1, found),
                None => false,
            },
        JsonValue::Array(items) => actual is Array && actual->Array_0.len() == items.len()
            && forall|i: int|
            0 <= i < items.len() ==> exact_match(#[trigger] items[i], actual->Array_0[i]),
        _ => expected == actual,
    }
}

/// Whether `actual` contains `expected`.
///
/// Objects are held against each other as in `exact_match`. An empty
/// expected array is contained in every array; any other expected array
/// asks that each of its elements is contained in some element of the
/// actual array, in any order. In every other case the two are equal.
pub open spec fn contains_value(expected: JsonValue, actual: JsonValue) -> bool
    decreases expected, 0int,
{
    match expected {
        JsonValue::Object(members) => if actual is Object {
            forall|i: int|
                0 <= i < members.len() ==> match member(actual, (#[trigger] members[i]).0) {
                    Some(found) => contains_value(members[i].1, found),
                    None => false,
                }
        } else {
            false
        },
        JsonValue::Array(items) => if actual is Array {
            items.len() == 0 || forall|i: int|
                0 <= i < items.len() ==> contained_in_some(#[trigger] items[i], actual->Array_0)
        } else {
            false
        },
        _ => expected == actual,
    }
}

/// Whether some element of `others` contains `expected`.
pub open spec fn contained_in_some(expected: JsonValue, others: Seq<JsonValue>) -> bool
    decreases expected, 1int,
{
    exists|j: int| 0 <= j < others.len() && contains_value(expected, #[trigger] others[j])
}

/// Whether `assertion` holds of the body `actual`.
pub open spec fn holds(assertion: JsonAssertion, actual: JsonValue) -> bool {
    match assertion {
        JsonAssertion::Exact(expected) => exact_match(expected@, actual),
        JsonAssertion::Contains(expected) => contains_value(expected@, actual),
        JsonAssertion::Regex(pattern) => pattern_matches(pattern@, compact(actual)),
        JsonAssertion::PathRegex(path, pattern) => match extracted(actual, path@) {
            Some(text) => pattern_matches(pattern@, text),
            None => false,
        },
    }
}

/// Whether `actual` matches `expected` structurally.
pub fn body_matches(expected: &Json, actual: &Json) -> (r: bool)
    ensures
        r == exact_match(expected@, actual@),
    decreases expected,
{
    match expected {
        Json::Object(members) => {
            if !actual.is_object() {
                return false;
            }
            let ghost all = expected@->Object_0;
            let n: usize = members.len();
            let mut i: usize = 0;
            while i < n
                invariant
                    n == members.len(),
                    i <= n,
                    *expected == Json::Object(*members),
                    expected@ == JsonValue::Object(all),
                    actual@ is Object,
                    all.len() == n,
                    forall|k: int|
                        0 <= k < n ==> #[trigger] all[k] == (members@[k].0@, members@[k].1@),
                    forall|k: int|
                        0 <= k < i ==> match member(actual@, (#[trigger] all[k]).0) {
                            Some(found) => exact_match(all[k].1, found),
                            None => false,
                        },
                decreases n - i,
            {
                match actual.get(members[i].0.as_str()) {
                    Some(found) => {
                        if !body_matches(&members[i].1, found) {
                            assert(all[i as int].0 == members@[i as int].0@);
                            return false;
                        }
                    },
                    None => {
                        assert(all[i as int].0 == members@[i as int].0@);
                        return false;
                    },
                }
                i += 1;
            }
            true
        },
        Json::Array(items) => {
            match actual {
                Json::Array(others) => {
                    if items.len() != others.len() {
                        return false;
                    }
                    let n: usize = items.len();
                    let mut i: usize = 0;
                    while i < n
                        invariant
                            n == items.len(),
                            n == others.len(),
                            i <= n,
                            *expected == Json::Array(*items),
                            *actual == Json::Array(*others),
                            forall|k: int|
                                0 <= k < i ==> exact_match(
                                    #[trigger] expected@->Array_0[k],
                                    actual@->Array_0[k],
                                ),
                        decreases n - i,
                    {
                        if !body_matches(&items[i], &others[i]) {
                            assert(expected@->Array_0[i as int] == items@[i as int]@);
                            return false;
                        }
                        i += 1;
                    }
                    true
                },
                _ => false,
            }
        },
        _ => expected.scalar_equals(actual),
    }
}

/// Whether `actual` contains `expected`.
pub fn contains_json_value(expected: &Json, actual: &Json) -> (r: bool)
    ensures
        r == contains_value(expected@, actual@),
    decreases expected, 0int,
{
    match expected {
        Json::Object(members) => {
            if !actual.is_object() {
                return false;
            }
            let ghost all = expected@->Object_0;
            let n: usize = members.len();
            let mut i: usize = 0;
            while i < n
                invariant
                    n == members.len(),
                    i <= n,
                    *expected == Json::Object(*members),
                    expected@ == JsonValue::Object(all),
                    actual@ is Object,
                    all.len() == n,
                    forall|k: int|
                        0 <= k < n ==> #[trigger] all[k] == (members@[k].0@, members@[k].1@),
                    forall|k: int|
                        0 <= k < i ==> match member(actual@, (#[trigger] all[k]).0) {
                            Some(found) => contains_value(all[k].1, found),
                            None => false,
                        },
                decreases n - i,
            {
                match actual.get(members[i].0.as_str()) {
                    Some(found) => {
                        if !contains_json_value(&members[i].1, found) {
                            assert(all[i as int].0 == members@[i as int].0@);
                            return false;
                        }
                    },
                    None => {
                        assert(all[i as int].0 == members@[i as int].0@);
                        return false;
                    },
                }
                i += 1;
            }
            true
        },
        Json::Array(items) => {
            match actual {
                Json::Array(others) => {
                    let n: usize = items.len();
                    let mut i: usize = 0;
                    while i < n
                        invariant
                            n == items.len(),
                            i <= n,
                            *expected == Json::Array(*items),
                            *actual == Json::Array(*others),
                            forall|k: int|
                                0 <= k < i ==> contained_in_some(
                                    #[trigger] expected@->Array_0[k],
                                    actual@->Array_0,
                                ),
                        decreases n - i,
                    {
                        let found = some_element_contains(&items[i], actual);
                        if !found {
                            assert(expected@->Array_0[i as int] == items@[i as int]@);
                            assert(!contained_in_some(items@[i as int]@, actual@->Array_0));
                            return false;
                        }
                        assert(expected@->Array_0[i as int] == items@[i as int]@);
                        i += 1;
                    }
                    true
                },
                _ => false,
            }
        },
        _ => expected.scalar_equals(actual),
    }
}

/// Whether some element of the array `actual` contains `expected`.
fn some_element_contains(expected: &Json, actual: &Json) -> (r: bool)
    requires
        actual@ is Array,
    ensures
        r == contained_in_some(expected@, actual@->Array_0),
    decreases expected, 1int,
{
    match actual {
        Json::Array(others) => {
            let m: usize = others.len();
            let mut j: usize = 0;
            while j < m
                invariant
                    m == others.len(),
                    j <= m,
                    *actual == Json::Array(*others),
                    forall|k: int|
                        0 <= k < j ==> !contains_value(expected@, #[trigger] actual@->Array_0[k]),
                decreases m - j,
            {
                assert(actual@->Array_0[j as int] == others@[j as int]@);
                if contains_json_value(expected, &others[j]) {
                    return true;
                }
                j += 1;
            }
            false
        },
        _ => false,
    }
}

/// Extracts the text at `path` from `json`.
pub fn extract_json_value(json: &Json, path: &str) -> (r: Option<String>)
    ensures
        match r {
            Some(text) => extracted(json@, path@) == Some(text@),
            None => extracted(json@, path@) is None,
        },
{
    extract_json_path(json, path)
}

/// Whether `assertion` holds of the body `actual`. A pattern that is no
/// regular expression holds of nothing, and so does a path that selects
/// nothing.
pub fn validate_assertion(assertion: &JsonAssertion, actual: &Json) -> (r: bool)
    ensures
        r == holds(*assertion, actual@),
{
    match assertion {
        JsonAssertion::Exact(expected) => body_matches(expected, actual),
        JsonAssertion::Contains(expected) => contains_json_value(expected, actual),
        JsonAssertion::Regex(pattern) => {
            let text = actual.to_compact();
            matches_pattern(pattern.as_str(), text.as_str())
        },
        JsonAssertion::PathRegex(path, pattern) => {
            match extract_json_value(actual, path.as_str()) {
                Some(text) => matches_pattern(pattern.as_str(), text.as_str()),
                None => false,
            }
        },
    }
}

/// A value whose objects have distinct keys matches itself.
pub proof fn lemma_exact_reflexive(x: JsonValue)
    requires
        well_formed(x),
    ensures
        exact_match(x, x),
    decreases x,
{
    match x {
        JsonValue::Object(members) => {
            assert forall|i: int| 0 <= i < members.len() implies match member(
                x,
                (#[trigger] members[i]).0,
            ) {
                Some(found) => exact_match(members[i].1, found),
                None => false,
            } by {
                lemma_lookup_own(members, i);
                lemma_exact_reflexive(members[i].1);
            }
        },
        JsonValue::Array(items) => {
            assert forall|i: int| 0 <= i < items.len() implies exact_match(
                #[trigger] items[i],
                items[i],
            ) by {
                lemma_exact_reflexive(items[i]);
            }
        },
        _ => {},
    }
}

/// A value whose objects have distinct keys contains itself.
pub proof fn lemma_contains_reflexive(x: JsonValue)
    requires
        well_formed(x),
    ensures
        contains_value(x, x),
    decreases x,
{
    match x {
        JsonValue::Object(members) => {
            assert forall|i: int| 0 <= i < members.len() implies match member(
                x,
                (#[trigger] members[i]).0,
            ) {
                Some(found) => contains_value(members[i].1, found),
                None => false,
            } by {
                lemma_lookup_own(members, i);
                lemma_contains_reflexive(members[i].1);
            }
        },
        JsonValue::Array(items) => {
            assert forall|i: int| 0 <= i < items.len() implies contained_in_some(
                #[trigger] items[i],
                items,
            ) by {
                lemma_contains_reflexive(items[i]);
            }
        },
        _ => {},
    }
}

/// Containment carries over: what is contained in `b` is contained in
/// everything that contains `b`.
pub proof fn lemma_contains_transitive(a: JsonValue, b: JsonValue, c: JsonValue)
    requires
        contains_value(a, b),
        contains_value(b, c),
    ensures
        contains_value(a, c),
    decreases a,
{
    match a {
        JsonValue::Object(members) => {
            let in_b = b->Object_0;
            assert forall|i: int| 0 <= i < members.len() implies match member(
                c,
                (#[trigger] members[i]).0,
            ) {
                Some(found) => contains_value(members[i].1, found),
                None => false,
            } by {
                let key = members[i].0;
                lemma_lookup_found(in_b, key);
                let middle = lookup(in_b, key)->0;
                let k = choose|k: int|
                    0 <= k < in_b.len() && (#[trigger] in_b[k]) == (key, middle) && forall|h: int|
                        0 <= h < k ==> (#[trigger] in_b[h]).0 != key;
                assert(in_b[k].0 == key);
                let last = member(c, key)->0;
                lemma_contains_transitive(members[i].1, middle, last);
            }
        },
        JsonValue::Array(items) => {
            if items.len() > 0 {
                let in_b = b->Array_0;
                let in_c = c->Array_0;
                assert(contained_in_some(items[0], in_b));
                assert forall|i: int| 0 <= i < items.len() implies contained_in_some(
                    #[trigger] items[i],
                    in_c,
                ) by {
                    assert(contained_in_some(items[i], in_b));
                    let j = choose|j: int|
                        0 <= j < in_b.len() && contains_value(items[i], #[trigger] in_b[j]);
                    assert(contained_in_some(in_b[j], in_c));
                    let k = choose|k: int|
                        0 <= k < in_c.len() && contains_value(in_b[j], #[trigger] in_c[k]);
                    lemma_contains_transitive(items[i], in_b[j], in_c[k]);
                }
            }
        },
        _ => {},
    }
}

/// Containment is kept where members are added behind those of the
/// actual object.
pub proof fn lemma_contains_more_members(
    a: JsonValue,
    members: Seq<(Seq<char>, JsonValue)>,
    more: Seq<(Seq<char>, JsonValue)>,
)
    requires
        contains_value(a, JsonValue::Object(members)),
    ensures
        contains_value(a, JsonValue::Object(members + more)),
{
    match a {
        JsonValue::Object(wanted) => {
            assert forall|i: int| 0 <= i < wanted.len() implies match lookup(
                members + more,
                (#[trigger] wanted[i]).0,
            ) {
                Some(found) => contains_value(wanted[i].1, found),
                None => false,
            } by {
                assert(member(JsonValue::Object(members), wanted[i].0) is Some);
                lemma_lookup_prefix(members, more, wanted[i].0);
            }
        },
        _ => {},
    }
}

/// A key that the front part of a list of members has is found there.
proof fn lemma_lookup_prefix(
    members: Seq<(Seq<char>, JsonValue)>,
    more: Seq<(Seq<char>, JsonValue)>,
    key: Seq<char>,
)
    requires
        lookup(members, key) is Some,
    ensures
        lookup(members + more, key) == lookup(members, key),
    decreases members.len(),
{
    if members.len() > 0 {
        assert((members + more)[0] == members[0]);
        if members[0].0 != key {
            assert((members + more).drop_first() =~= members.drop_first() + more);
            lemma_lookup_prefix(members.drop_first(), more, key);
        }
    }
}

/// Containment is kept where the actual array gets more elements,
/// wherever they are put: every element it had is still there.
pub proof fn lemma_contains_more_elements(a: JsonValue, items: Seq<JsonValue>, more: Seq<JsonValue>)
    requires
        contains_value(a, JsonValue::Array(items)),
        forall|i: int| 0 <= i < items.len() ==> more.contains(#[trigger] items[i]),
    ensures
        contains_value(a, JsonValue::Array(more)),
{
    match a {
        JsonValue::Array(wanted) => {
            if wanted.len() > 0 {
                assert forall|i: int| 0 <= i < wanted.len() implies contained_in_some(
                    #[trigger] wanted[i],
                    more,
                ) by {
                    assert(contained_in_some(wanted[i], items));
                    let j = choose|j: int|
                        0 <= j < items.len() && contains_value(wanted[i], #[trigger] items[j]);
                    assert(more.contains(items[j]));
                    let k = choose|k: int| 0 <= k < more.len() && more[k] == items[j];
                    assert(contains_value(wanted[i], more[k]));
                }
            }
        },
        _ => {},
    }
}

} // verus!
