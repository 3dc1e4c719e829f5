//! Extraction of a value from a JSON document by a dotted path.
//!
//! A path is `$.` followed by segments that dots separate. A segment is a
//! key, an index, or a key followed by one index in square brackets.

use crate::json::{compact, element, member, Json, JsonValue};
use crate::text::{chars_of, find_char, index_of, parse_index, parsed_index, piece, strip_range, unquoted, Strip};
use vstd::prelude::*;

verus! {

/// What one segment selects in `v`.
///
/// A segment that holds both `[` and `]` is a key, which may be empty,
/// followed by an index between the first `[` and the first `]`; what
/// stands behind that `]` is not read. Any other segment is an index
/// where it reads as one, and a key where it does not.
pub open spec fn selected(v: JsonValue, segment: Seq<char>) -> Option<JsonValue> {
    let open = index_of(segment, '[');
    let close = index_of(segment, ']');
    if 0 <= open < segment.len() && 0 <= close < segment.len() {
        if close < open {
            None
        } else {
            match parsed_index(segment.subrange(open + 1, close)) {
                None => None,
                Some(i) => if open == 0 {
                    element(v, i as int)
                } else {
                    match member(v, segment.subrange(0, open)) {
                        Some(inner) => element(inner, i as int),
                        None => None,
                    }
                },
            }
        }
    } else {
        match parsed_index(segment) {
            Some(i) => element(v, i as int),
            None => member(v, segment),
        }
    }
}

/// What the segments of `path` select in `v`, one after the other.
/// Nothing is selected as soon as a segment selects nothing or `null`.
pub open spec fn navigated(v: JsonValue, path: Seq<char>) -> Option<JsonValue>
    decreases path.len(),
{
    let dot = index_of(path, '.');
    if 0 <= dot < path.len() {
        match selected(v, path.subrange(0, dot)) {
            Some(next) => if next is Null {
                None
            } else {
                navigated(next, path.subrange(dot + 1, path.len() as int))
            },
            None => None,
        }
    } else {
        match selected(v, path) {
            Some(next) => if next is Null {
                None
            } else {
                Some(next)
            },
            None => None,
        }
    }
}

/// `path` without the `$.` it begins with, however often it is repeated.
pub open spec fn without_root(path: Seq<char>) -> Seq<char>
    decreases path.len(),
{
    if path.len() >= 2 && path[0] == '$' && path[1] == '.' {
        without_root(path.subrange(2, path.len() as int))
    } else {
        path
    }
}

/// The text that stands for a selected value: a string as it is, a
/// number by its text, a boolean as `true` or `false`, anything else by
/// its compact text without surrounding double quotes.
pub open spec fn rendered(v: JsonValue) -> Seq<char> {
    match v {
        JsonValue::String(s) => s,
        JsonValue::Number(n) => n,
        JsonValue::Bool(b) => if b {
            seq!['t', 'r', 'u', 'e']
        } else {
            seq!['f', 'a', 'l', 's', 'e']
        },
        _ => unquoted(compact(v)),
    }
}

/// The text that `path` extracts from `v`.
pub open spec fn extracted(v: JsonValue, path: Seq<char>) -> Option<Seq<char>> {
    match navigated(v, without_root(path)) {
        Some(found) => Some(rendered(found)),
        None => None,
    }
}

/// The text that `path` extracts from `v`, for a path that must begin
/// with `$.`.
pub open spec fn extracted_rooted(v: JsonValue, path: Seq<char>) -> Option<Seq<char>> {
    if path.len() >= 2 && path[0] == '$' && path[1] == '.' {
        match navigated(v, path.subrange(2, path.len() as int)) {
            Some(found) => Some(rendered(found)),
            None => None,
        }
    } else {
        None
    }
}

/// An array that holds `inner` at index `i`, and `null` before it.
pub open spec fn array_with(i: usize, inner: JsonValue) -> JsonValue {
    JsonValue::Array(
        Seq::new(
            (i + 1) as nat,
            |k: int|
                if k == i {
                    inner
                } else {
                    JsonValue::Null
                },
        ),
    )
}

/// Whether a segment can be resolved at all: where it holds both `[` and
/// `]`, the first `]` stands behind the first `[`, and what stands
/// between them reads as an index.
pub open spec fn resolvable(segment: Seq<char>) -> bool {
    let open = index_of(segment, '[');
    let close = index_of(segment, ']');
    0 <= open < segment.len() && 0 <= close < segment.len() ==> open <= close && parsed_index(
        segment.subrange(open + 1, close),
    ) is Some
}

/// The least value in which `segment` selects `inner`.
pub open spec fn wrapped(segment: Seq<char>, inner: JsonValue) -> JsonValue {
    let open = index_of(segment, '[');
    let close = index_of(segment, ']');
    if 0 <= open < segment.len() && 0 <= close < segment.len() {
        let at = array_with(parsed_index(segment.subrange(open + 1, close))->0, inner);
        if open == 0 {
            at
        } else {
            JsonValue::Object(seq![(segment.subrange(0, open), at)])
        }
    } else {
        match parsed_index(segment) {
            Some(i) => array_with(i, inner),
            None => JsonValue::Object(seq![(segment, inner)]),
        }
    }
}

/// Whether every segment of `path` can be resolved.
pub open spec fn resolvable_path(path: Seq<char>) -> bool
    decreases path.len(),
{
    let dot = index_of(path, '.');
    if 0 <= dot < path.len() {
        resolvable(path.subrange(0, dot)) && resolvable_path(
            path.subrange(dot + 1, path.len() as int),
        )
    } else {
        resolvable(path)
    }
}

/// The document that is built along `path` around `v`: the least value
/// in which the segments of `path` select `v`.
pub open spec fn built(path: Seq<char>, v: JsonValue) -> JsonValue
    decreases path.len(),
{
    let dot = index_of(path, '.');
    if 0 <= dot < path.len() {
        wrapped(path.subrange(0, dot), built(path.subrange(dot + 1, path.len() as int), v))
    } else {
        wrapped(path, v)
    }
}

/// A segment selects in the value built around it what it was built
/// around.
pub proof fn lemma_selected_wrapped(segment: Seq<char>, inner: JsonValue)
    requires
        resolvable(segment),
    ensures
        selected(wrapped(segment, inner), segment) == Some(inner),
        !(wrapped(segment, inner) is Null),
{
    let open = index_of(segment, '[');
    let close = index_of(segment, ']');
    if 0 <= open < segment.len() && 0 <= close < segment.len() {
        let i = parsed_index(segment.subrange(open + 1, close))->0;
        assert(element(array_with(i, inner), i as int) == Some(inner));
    } else {
        match parsed_index(segment) {
            Some(i) => {
                assert(element(array_with(i, inner), i as int) == Some(inner));
            },
            None => {
                let members = seq![(segment, inner)];
                assert(members[0].0 == segment);
                assert(crate::json::lookup(members, segment) == Some(inner));
            },
        }
    }
}

/// The segments of a path select in the document built along the path
/// the value it was built around.
pub proof fn lemma_navigated_built(path: Seq<char>, v: JsonValue)
    requires
        resolvable_path(path),
        !(v is Null),
    ensures
        navigated(built(path, v), path) == Some(v),
    decreases path.len(),
{
    let dot = index_of(path, '.');
    if 0 <= dot < path.len() {
        let rest = path.subrange(dot + 1, path.len() as int);
        lemma_navigated_built(rest, v);
        lemma_selected_wrapped(path.subrange(0, dot), built(rest, v));
    } else {
        lemma_selected_wrapped(path, v);
    }
}

/// Extraction gives back what a document was built around: for a path
/// whose segments can all be resolved and a value other than `null`,
/// the path extracts from the document built along it the text of the
/// value.
pub proof fn lemma_extract_built(path: Seq<char>, v: JsonValue)
    requires
        resolvable_path(without_root(path)),
        !(v is Null),
    ensures
        extracted(built(without_root(path), v), path) == Some(rendered(v)),
{
    lemma_navigated_built(without_root(path), v);
}

/// `text` without the double quotes that surround it.
pub fn strip_surrounding_quotes(text: &str) -> (r: String)
    ensures
        r@ == unquoted(text@),
{
    let v = chars_of(text);
    assert(v@.subrange(0, v@.len() as int) =~= v@);
    let (a, b) = strip_range(&v, 0, v.len(), Strip::Char('"'));
    piece(text, a, b)
}

/// The text that stands for `j`.
pub fn render(j: &Json) -> (r: String)
    ensures
        r@ == rendered(j@),
{
    match j {
        Json::String(s) => s.clone(),
        Json::Number(n) => n.clone(),
        Json::Bool(b) => {
            proof {
                reveal_strlit("true");
                reveal_strlit("false");
            }
            let r = if *b {
                String::from_str("true")
            } else {
                String::from_str("false")
            };
            assert(r@ =~= rendered(j@));
            r
        },
        _ => {
            let text = j.to_compact();
            strip_surrounding_quotes(text.as_str())
        },
    }
}

/// What the segment `[from, to)` of `path` selects in `current`.
fn select<'a>(current: &'a Json, path: &str, v: &Vec<char>, from: usize, to: usize) -> (r: Option<
    &'a Json,
>)
    requires
        v@ == path@,
        from <= to <= v.len(),
    ensures
        match r {
            Some(j) => selected(current@, path@.subrange(from as int, to as int)) == Some(j@),
            None => selected(current@, path@.subrange(from as int, to as int)) is None,
        },
{
    let ghost segment = path@.subrange(from as int, to as int);
    let open: usize = find_char(v, from, to, '[');
    let close: usize = find_char(v, from, to, ']');
    if open < to && close < to {
        if close < open {
            return None;
        }
        proof {
            assert(segment.subrange(open - from + 1, close - from) =~= v@.subrange(
                open + 1,
                close as int,
            ));
            assert(segment.subrange(0, open - from) =~= v@.subrange(from as int, open as int));
        }
        match parse_index(v, open + 1, close) {
            None => None,
            Some(i) => {
                if open == from {
                    current.at(i)
                } else {
                    let key = piece(path, from, open);
                    match current.get(key.as_str()) {
                        Some(inner) => inner.at(i),
                        None => None,
                    }
                }
            },
        }
    } else {
        match parse_index(v, from, to) {
            Some(i) => current.at(i),
            None => {
                let key = piece(path, from, to);
                current.get(key.as_str())
            },
        }
    }
}

/// What the segments of `path` from the index `start` on select in
/// `json`.
pub(crate) fn navigate<'a>(json: &'a Json, path: &str, v: &Vec<char>, start: usize) -> (r: Option<&'a Json>)
    requires
        v@ == path@,
        start <= v.len(),
    ensures
        match r {
            Some(j) => navigated(json@, path@.subrange(start as int, path@.len() as int)) == Some(
                j@,
            ),
            None => navigated(json@, path@.subrange(start as int, path@.len() as int)) is None,
        },
{
    let n: usize = v.len();
    let mut current: &Json = json;
    let mut pos: usize = start;
    loop
        invariant
            v@ == path@,
            n == v.len(),
            pos <= n,
            navigated(json@, path@.subrange(start as int, n as int)) == navigated(
                current@,
                path@.subrange(pos as int, n as int),
            ),
        decreases n - pos,
    {
        let ghost rest = path@.subrange(pos as int, n as int);
        let dot: usize = find_char(v, pos, n, '.');
        proof {
            assert(rest.subrange(0, dot - pos) =~= path@.subrange(pos as int, dot as int));
            if dot < n {
                assert(rest.subrange(dot - pos + 1, rest.len() as int) =~= path@.subrange(
                    dot + 1,
                    n as int,
                ));
            } else {
                assert(rest =~= path@.subrange(pos as int, dot as int));
            }
        }
        match select(current, path, v, pos, dot) {
            None => {
                return None;
            },
            Some(next) => {
                if next.is_null() {
                    return None;
                }
                if dot >= n {
                    return Some(next);
                }
                current = next;
                pos = dot + 1;
            },
        }
    }
}

/// The index behind the `$.` that `v` begins with, however often it is
/// repeated.
fn skip_root(v: &Vec<char>) -> (r: usize)
    ensures
        r <= v.len(),
        v@.subrange(r as int, v@.len() as int) == without_root(v@),
{
    let n: usize = v.len();
    let mut pos: usize = 0;
    assert(v@.subrange(0, n as int) =~= v@);
    while n - pos >= 2 && v[pos] == '$' && v[pos + 1] == '.'
        invariant
            n == v.len(),
            pos <= n,
            without_root(v@) == without_root(v@.subrange(pos as int, n as int)),
        decreases n - pos,
    {
        proof {
            let rest = v@.subrange(pos as int, n as int);
            assert(rest.subrange(2, rest.len() as int) =~= v@.subrange(pos + 2, n as int));
        }
        pos += 2;
    }
    pos
}

/// Extracts the text at `path` from `json`.
///
/// Gives nothing as soon as a segment of the path cannot be resolved or
/// resolves to `null`.
pub fn extract_json_path(json: &Json, path: &str) -> (r: Option<String>)
    ensures
        match r {
            Some(text) => extracted(json@, path@) == Some(text@),
            None => extracted(json@, path@) is None,
        },
{
    let v = chars_of(path);
    let start = skip_root(&v);
    match navigate(json, path, &v, start) {
        Some(found) => Some(render(found)),
        None => None,
    }
}

/// A path into a JSON document.
pub struct JsonPath<'a> {
    path: &'a str,
}

impl<'a> JsonPath<'a> {
    /// The text of the path.
    pub closed spec fn text(&self) -> Seq<char> {
        self.path@
    }

    /// A path from its text.
    pub fn new(path: &'a str) -> (r: Self)
        ensures
            r.text() == path@,
    {
        Self { path }
    }

    /// Extracts the text at this path from `json`.
    pub fn extract_from(&self, json: &Json) -> (r: Option<String>)
        ensures
            match r {
                Some(text) => extracted(json@, self.text()) == Some(text@),
                None => extracted(json@, self.text()) is None,
            },
    {
        extract_json_path(json, self.path)
    }
}

} // verus!
