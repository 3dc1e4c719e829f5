//! The variable store of a run, and what a response adds to it.

use crate::json::{Json, JsonValue};
use crate::text::{
    chars_of, decimal, decimal_string, find_char, index_of, lemma_index_of_bounds, lowercase,
    pairs, piece, same_text, second_field, starts_with, strip_range, to_lowercase, trimmed,
    unquoted, Strip,
};
use crate::utils::json_path::{extracted_rooted, navigate, render};
use crate::utils::string::{replace_variables, substituted};
use vstd::hash_map::StringHashMap;
use vstd::prelude::*;

verus! {

/// `vars` after each name of `found` was bound to its value, in order: a
/// later binding of a name replaces an earlier one.
pub open spec fn stored(
    vars: Map<Seq<char>, Seq<char>>,
    found: Seq<(Seq<char>, Seq<char>)>,
) -> Map<Seq<char>, Seq<char>>
    decreases found.len(),
{
    if found.len() == 0 {
        vars
    } else {
        stored(vars, found.drop_last()).insert(found.last().0, found.last().1)
    }
}

/// A mapping from variable names to string values. Names are
/// case-sensitive, and the order of insertion does not matter.
pub struct Variables {
    map: StringHashMap<String>,
}

impl View for Variables {
    type V = Map<Seq<char>, Seq<char>>;

    closed spec fn view(&self) -> Map<Seq<char>, Seq<char>> {
        Map::new(|k: Seq<char>| self.map@.contains_key(k), |k: Seq<char>| self.map@[k]@)
    }
}

impl Variables {
    /// An empty store.
    pub fn new() -> (r: Self)
        ensures
            r@ == Map::<Seq<char>, Seq<char>>::empty(),
    {
        let r = Variables { map: StringHashMap::new() };
        assert(r@ =~= Map::<Seq<char>, Seq<char>>::empty());
        r
    }

    /// Binds `name` to `value`, replacing what `name` was bound to.
    pub fn insert(&mut self, name: String, value: String)
        ensures
            final(self)@ == old(self)@.insert(name@, value@),
    {
        self.map.insert(name, value);
        assert(self@ =~= old(self)@.insert(name@, value@));
    }

    /// The value that `name` is bound to.
    pub fn get(&self, name: &str) -> (r: Option<&String>)
        ensures
            match r {
                Some(v) => self@.contains_key(name@) && v@ == self@[name@],
                None => !self@.contains_key(name@),
            },
    {
        self.map.get(name)
    }

    /// Whether `name` is bound.
    pub fn contains_key(&self, name: &str) -> (r: bool)
        ensures
            r == self@.contains_key(name@),
    {
        self.map.contains_key(name)
    }

    /// The number of bound names.
    pub fn len(&self) -> (r: usize)
        ensures
            r == self@.len(),
    {
        assert(self@.dom() =~= self.map@.dom());
        self.map.len()
    }

    /// Whether no name is bound.
    pub fn is_empty(&self) -> (r: bool)
        ensures
            r == (self@.len() == 0),
    {
        self.len() == 0
    }

    /// Binds each name of `found` to its value, in order.
    pub fn insert_all(&mut self, found: &Vec<(String, String)>)
        ensures
            final(self)@ == stored(old(self)@, pairs(found@)),
    {
        let n: usize = found.len();
        let mut i: usize = 0;
        assert(pairs(found@).take(0) =~= Seq::<(Seq<char>, Seq<char>)>::empty());
        while i < n
            invariant
                n == found.len(),
                i <= n,
                self@ == stored(old(self)@, pairs(found@).take(i as int)),
            decreases n - i,
        {
            proof {
                let upto = pairs(found@).take(i + 1);
                assert(upto.drop_last() =~= pairs(found@).take(i as int));
                assert(upto.last() == (found@[i as int].0@, found@[i as int].1@));
            }
            self.insert(found[i].0.clone(), found[i].1.clone());
            i += 1;
        }
        assert(pairs(found@).take(n as int) =~= pairs(found@));
    }

    /// Adds every binding of `other`; where both bind a name, the value
    /// of `other` stays.
    pub fn merge(&mut self, other: Variables)
        ensures
            final(self)@ == old(self)@.union_prefer_right(other@),
    {
        self.map.union_prefer_right(other.map);
        assert(self@ =~= old(self)@.union_prefer_right(other@));
    }
}

/// The text that `path` extracts from `json`, for a path that begins
/// with `$.`; a path that does not extracts nothing.
pub fn get_json_value(json: &Json, path: &str) -> (r: Option<String>)
    ensures
        match r {
            Some(text) => extracted_rooted(json@, path@) == Some(text@),
            None => extracted_rooted(json@, path@) is None,
        },
{
    let v = chars_of(path);
    if v.len() >= 2 && v[0] == '$' && v[1] == '.' {
        match navigate(json, path, &v, 2) {
            Some(found) => Some(render(found)),
            None => None,
        }
    } else {
        None
    }
}

/// The value of the cookie `name` in a `Set-Cookie` header.
///
/// The header is read piece by piece, the pieces being what semicolons
/// separate. The first piece that, without the white space around it,
/// begins with `name` and `=` gives the value: what stands in that piece
/// between the first `=` and the next one, without the white space
/// around it.
pub open spec fn cookie_value(header: Seq<char>, name: Seq<char>) -> Option<Seq<char>>
    decreases header.len(),
{
    let i = index_of(header, ';');
    if 0 <= i < header.len() {
        let piece = header.subrange(0, i);
        if starts_with(trimmed(piece), name + seq!['=']) {
            Some(trimmed(second_field(piece, '=')))
        } else {
            cookie_value(header.subrange(i + 1, header.len() as int), name)
        }
    } else {
        if starts_with(trimmed(header), name + seq!['=']) {
            Some(trimmed(second_field(header, '=')))
        } else {
            None
        }
    }
}

/// The value of the cookie `name` in the piece `[from, to)` of `header`,
/// where that piece is the cookie.
fn cookie_in_piece(header: &str, v: &Vec<char>, from: usize, to: usize, wanted: &Vec<char>) -> (r:
    Option<String>)
    requires
        v@ == header@,
        from <= to <= v.len(),
    ensures
        match r {
            Some(value) => starts_with(
                trimmed(header@.subrange(from as int, to as int)),
                wanted@ + seq!['='],
            ) && value@ == trimmed(second_field(header@.subrange(from as int, to as int), '=')),
            None => !starts_with(
                trimmed(header@.subrange(from as int, to as int)),
                wanted@ + seq!['='],
            ),
        },
{
    let ghost whole = header@.subrange(from as int, to as int);
    let (a, b) = strip_range(v, from, to, Strip::Whitespace);
    let ghost t = v@.subrange(a as int, b as int);
    let n: usize = wanted.len();
    if b - a <= n {
        return None;
    }
    proof {
        assert(t.subrange(0, n as int) =~= v@.subrange(a as int, a + n));
        assert((wanted@ + seq!['=']).len() == n + 1);
        if t.subrange(0, n + 1) == wanted@ + seq!['='] {
            assert(t.subrange(0, n + 1)[n as int] == '=');
            assert(t.subrange(0, n as int) =~= (wanted@ + seq!['=']).subrange(0, n as int));
            assert((wanted@ + seq!['=']).subrange(0, n as int) =~= wanted@);
        }
        if t.subrange(0, n as int) == wanted@ && t[n as int] == '=' {
            assert(t.subrange(0, n + 1) =~= wanted@ + seq!['=']);
        }
    }
    if !(crate::text::range_equals(v, a, a + n, wanted) && v[a + n] == '=') {
        return None;
    }
    let first: usize = find_char(v, from, to, '=');
    proof {
        lemma_index_of_bounds(whole, '=');
        assert(v@[a + n] == '=');
        assert(first <= a + n);
        assert(whole.subrange(first - from + 1, whole.len() as int) =~= v@.subrange(
            first + 1,
            to as int,
        ));
    }
    let second: usize = find_char(v, first + 1, to, '=');
    proof {
        let rest = v@.subrange(first + 1, to as int);
        lemma_index_of_bounds(rest, '=');
        assert(rest.subrange(0, second - (first + 1)) =~= v@.subrange(first + 1, second as int));
    }
    let (c, d) = strip_range(v, first + 1, second, Strip::Whitespace);
    Some(piece(header, c, d))
}

/// The value of the cookie `name` in a `Set-Cookie` header.
pub fn extract_cookie_value(header: &str, name: &str) -> (r: Option<String>)
    ensures
        match r {
            Some(value) => cookie_value(header@, name@) == Some(value@),
            None => cookie_value(header@, name@) is None,
        },
{
    let v = chars_of(header);
    let wanted = chars_of(name);
    let n: usize = v.len();
    let mut pos: usize = 0;
    assert(header@.subrange(0, n as int) =~= header@);
    loop
        invariant
            v@ == header@,
            wanted@ == name@,
            n == v.len(),
            pos <= n,
            cookie_value(header@, name@) == cookie_value(
                header@.subrange(pos as int, n as int),
                name@,
            ),
        decreases n - pos,
    {
        let ghost rest = header@.subrange(pos as int, n as int);
        let end: usize = find_char(&v, pos, n, ';');
        proof {
            assert(rest.subrange(0, end - pos) =~= header@.subrange(pos as int, end as int));
            if end < n {
                assert(rest.subrange(end - pos + 1, rest.len() as int) =~= header@.subrange(
                    end + 1,
                    n as int,
                ));
            } else {
                assert(rest =~= header@.subrange(pos as int, end as int));
            }
        }
        match cookie_in_piece(header, &v, pos, end, &wanted) {
            Some(value) => {
                return Some(value);
            },
            None => {},
        }
        if end >= n {
            return None;
        }
        pos = end + 1;
    }
}

/// What the store map of a test takes from a body: for each name and
/// path in order, the name with the text extracted at the path, without
/// surrounding double quotes, where the path selects something.
pub open spec fn store_found(body: JsonValue, store: Seq<(Seq<char>, Seq<char>)>) -> Seq<
    (Seq<char>, Seq<char>),
>
    decreases store.len(),
{
    if store.len() == 0 {
        Seq::empty()
    } else {
        let before = store_found(body, store.drop_last());
        match extracted_rooted(body, store.last().1) {
            Some(text) => before.push((store.last().0, unquoted(text))),
            None => before,
        }
    }
}

/// The name of the variable that holds the response header `name`.
pub open spec fn header_variable(name: Seq<char>) -> Seq<char> {
    "header_"@ + lowercase(name)
}

/// The variables that the headers of a response give: one for each
/// header, in order.
pub open spec fn header_found(headers: Seq<(Seq<char>, Seq<char>)>) -> Seq<(Seq<char>, Seq<char>)> {
    Seq::new(headers.len(), |i: int| (header_variable(headers[i].0), headers[i].1))
}

/// The value of the first header that is named `Set-Cookie`, in whatever
/// case.
pub open spec fn set_cookie_header(headers: Seq<(Seq<char>, Seq<char>)>) -> Option<Seq<char>>
    decreases headers.len(),
{
    if headers.len() == 0 {
        None
    } else if lowercase(headers[0].0) == "set-cookie"@ {
        Some(headers[0].1)
    } else {
        set_cookie_header(headers.drop_first())
    }
}

/// What the cookie map of a test takes from a `Set-Cookie` header: for
/// each cookie name and variable name in order, the variable with the
/// value of the cookie, where the header has that cookie.
pub open spec fn cookies_found(header: Seq<char>, cookies: Seq<(Seq<char>, Seq<char>)>) -> Seq<
    (Seq<char>, Seq<char>),
>
    decreases cookies.len(),
{
    if cookies.len() == 0 {
        Seq::empty()
    } else {
        let before = cookies_found(header, cookies.drop_last());
        match cookie_value(header, cookies.last().0) {
            Some(value) => before.push((cookies.last().1, value)),
            None => before,
        }
    }
}

/// Everything that a response stores, in order: the response time under
/// `response_time_ms`, what the store map takes from the body, one
/// variable for each header, and what the cookie map takes from the
/// `Set-Cookie` header where there is one.
pub open spec fn response_found(
    body: JsonValue,
    store: Seq<(Seq<char>, Seq<char>)>,
    headers: Seq<(Seq<char>, Seq<char>)>,
    cookies: Option<Seq<(Seq<char>, Seq<char>)>>,
    response_time_ms: u64,
) -> Seq<(Seq<char>, Seq<char>)> {
    seq![("response_time_ms"@, decimal(response_time_ms as nat))] + store_found(body, store)
        + header_found(headers) + match cookies {
        Some(wanted) => match set_cookie_header(headers) {
            Some(header) => cookies_found(header, wanted),
            None => Seq::empty(),
        },
        None => Seq::empty(),
    }
}

/// The cookie map of a test as pairs of texts.
pub open spec fn cookie_pairs(cookie_map: Option<Vec<(String, String)>>) -> Option<
    Seq<(Seq<char>, Seq<char>)>,
> {
    match cookie_map {
        Some(c) => Some(pairs(c@)),
        None => None,
    }
}

/// Appends to `out` what `store_map` takes from `body`.
fn gather_store(body: &Json, store_map: &Vec<(String, String)>, out: &mut Vec<(String, String)>)
    ensures
        pairs(final(out)@) == pairs(old(out)@) + store_found(body@, pairs(store_map@)),
{
    let n: usize = store_map.len();
    let mut i: usize = 0;
    assert(pairs(store_map@).take(0) =~= Seq::<(Seq<char>, Seq<char>)>::empty());
    assert(pairs(out@) =~= pairs(old(out)@) + Seq::<(Seq<char>, Seq<char>)>::empty());
    while i < n
        invariant
            n == store_map.len(),
            i <= n,
            pairs(out@) == pairs(old(out)@) + store_found(
                body@,
                pairs(store_map@).take(i as int),
            ),
        decreases n - i,
    {
        proof {
            let upto = pairs(store_map@).take(i + 1);
            assert(upto.drop_last() =~= pairs(store_map@).take(i as int));
            assert(upto.last() == (store_map@[i as int].0@, store_map@[i as int].1@));
        }
        let ghost held = pairs(out@);
        let ghost sofar = store_found(body@, pairs(store_map@).take(i as int));
        match get_json_value(body, store_map[i].1.as_str()) {
            Some(value) => {
                let clean = crate::utils::json_path::strip_surrounding_quotes(value.as_str());
                let name = store_map[i].0.clone();
                out.push((name, clean));
                assert(pairs(out@) =~= held.push((store_map@[i as int].0@, clean@)));
                assert(held.push((store_map@[i as int].0@, clean@)) =~= pairs(old(out)@)
                    + sofar.push((store_map@[i as int].0@, clean@)));
            },
            None => {},
        }
        i += 1;
    }
    assert(pairs(store_map@).take(n as int) =~= pairs(store_map@));
}

/// Appends to `out` one variable for each of `headers`.
fn gather_headers(headers: &Vec<(String, String)>, out: &mut Vec<(String, String)>)
    ensures
        pairs(final(out)@) == pairs(old(out)@) + header_found(pairs(headers@)),
{
    let n: usize = headers.len();
    let mut i: usize = 0;
    assert(pairs(out@) =~= pairs(old(out)@) + header_found(pairs(headers@)).take(0));
    while i < n
        invariant
            n == headers.len(),
            i <= n,
            pairs(out@) == pairs(old(out)@) + header_found(pairs(headers@)).take(i as int),
        decreases n - i,
    {
        let ghost held = pairs(out@);
        let lower = to_lowercase(headers[i].0.as_str());
        let mut name = String::from_str("header_");
        name.append(lower.as_str());
        let value = headers[i].1.clone();
        out.push((name, value));
        assert(pairs(out@) =~= held.push((name@, value@)));
        assert(held.push((name@, value@)) =~= pairs(old(out)@) + header_found(
            pairs(headers@),
        ).take(i + 1));
        i += 1;
    }
    assert(header_found(pairs(headers@)).take(n as int) =~= header_found(pairs(headers@)));
}

/// The value of the first of `headers` that is named `Set-Cookie`, in
/// whatever case.
fn find_set_cookie(headers: &Vec<(String, String)>) -> (r: Option<&String>)
    ensures
        match r {
            Some(value) => set_cookie_header(pairs(headers@)) == Some(value@),
            None => set_cookie_header(pairs(headers@)) is None,
        },
{
    let n: usize = headers.len();
    let mut i: usize = 0;
    let ghost all = pairs(headers@);
    assert(all.skip(0) =~= all);
    while i < n
        invariant
            n == headers.len(),
            i <= n,
            all == pairs(headers@),
            set_cookie_header(all) == set_cookie_header(all.skip(i as int)),
        decreases n - i,
    {
        proof {
            assert(all.skip(i as int).drop_first() =~= all.skip(i + 1));
            assert(all.skip(i as int)[0] == all[i as int]);
        }
        let lower = to_lowercase(headers[i].0.as_str());
        if same_text(lower.as_str(), "set-cookie") {
            return Some(&headers[i].1);
        }
        i += 1;
    }
    None
}

/// Appends to `out` what `cookies` take from the `Set-Cookie` header
/// `header`.
fn gather_cookies(header: &str, cookies: &Vec<(String, String)>, out: &mut Vec<(String, String)>)
    ensures
        pairs(final(out)@) == pairs(old(out)@) + cookies_found(header@, pairs(cookies@)),
{
    let n: usize = cookies.len();
    let mut i: usize = 0;
    assert(pairs(cookies@).take(0) =~= Seq::<(Seq<char>, Seq<char>)>::empty());
    assert(pairs(out@) =~= pairs(old(out)@) + Seq::<(Seq<char>, Seq<char>)>::empty());
    while i < n
        invariant
            n == cookies.len(),
            i <= n,
            pairs(out@) == pairs(old(out)@) + cookies_found(
                header@,
                pairs(cookies@).take(i as int),
            ),
        decreases n - i,
    {
        proof {
            let upto = pairs(cookies@).take(i + 1);
            assert(upto.drop_last() =~= pairs(cookies@).take(i as int));
            assert(upto.last() == (cookies@[i as int].0@, cookies@[i as int].1@));
        }
        let ghost held = pairs(out@);
        let ghost sofar = cookies_found(header@, pairs(cookies@).take(i as int));
        match extract_cookie_value(header, cookies[i].0.as_str()) {
            Some(value) => {
                let name = cookies[i].1.clone();
                out.push((name, value));
                assert(pairs(out@) =~= held.push((cookies@[i as int].1@, value@)));
                assert(held.push((cookies@[i as int].1@, value@)) =~= pairs(old(out)@)
                    + sofar.push((cookies@[i as int].1@, value@)));
            },
            None => {},
        }
        i += 1;
    }
    assert(pairs(cookies@).take(n as int) =~= pairs(cookies@));
}

/// Stores what a response gives: the response time, the values that
/// `store_map` names in the body, one variable for each header, and the
/// cookies that `cookie_map` names. A path that selects nothing and a
/// cookie that is not there store nothing.
pub fn store_variables(
    body: &Json,
    store_map: &Vec<(String, String)>,
    headers: &Vec<(String, String)>,
    cookie_map: &Option<Vec<(String, String)>>,
    response_time_ms: u64,
    vars: &mut Variables,
)
    ensures
        final(vars)@ == stored(
            old(vars)@,
            response_found(
                body@,
                pairs(store_map@),
                pairs(headers@),
                cookie_pairs(*cookie_map),
                response_time_ms,
            ),
        ),
{
    let mut found: Vec<(String, String)> = Vec::new();
    let time = decimal_string(response_time_ms);
    found.push((String::from_str("response_time_ms"), time));
    assert(pairs(found@) =~= seq![("response_time_ms"@, decimal(response_time_ms as nat))]);
    gather_store(body, store_map, &mut found);
    gather_headers(headers, &mut found);
    let ghost held = pairs(found@);
    match cookie_map {
        Some(cookies) => {
            match find_set_cookie(headers) {
                Some(header) => {
                    gather_cookies(header.as_str(), cookies, &mut found);
                },
                None => {
                    assert(pairs(found@) =~= held + Seq::<(Seq<char>, Seq<char>)>::empty());
                },
            }
        },
        None => {
            assert(pairs(found@) =~= held + Seq::<(Seq<char>, Seq<char>)>::empty());
        },
    }
    vars.insert_all(&found);
}

/// `v` with every string in it after substitution. Keys, numbers,
/// booleans and `null` stay as they are.
pub open spec fn substituted_json(
    v: JsonValue,
    env: Map<Seq<char>, Seq<char>>,
    vars: Map<Seq<char>, Seq<char>>,
) -> JsonValue
    decreases v,
{
    match v {
        JsonValue::String(s) => JsonValue::String(substituted(s, env, vars)),
        JsonValue::Array(items) => JsonValue::Array(
            Seq::new(
                items.len(),
                |i: int|
                    if 0 <= i < items.len() {
                        substituted_json(items[i], env, vars)
                    } else {
                        JsonValue::Null
                    },
            ),
        ),
        JsonValue::Object(members) => JsonValue::Object(
            Seq::new(
                members.len(),
                |i: int|
                    if 0 <= i < members.len() {
                        (members[i].0, substituted_json(members[i].1, env, vars))
                    } else {
                        (Seq::empty(), JsonValue::Null)
                    },
            ),
        ),
        _ => v,
    }
}

/// Substitutes variables into every string of `json`.
pub fn replace_variables_in_json(json: &Json, env: &Variables, vars: &Variables) -> (r: Json)
    ensures
        r@ == substituted_json(json@, env@, vars@),
    decreases json,
{
    match json {
        Json::Null => Json::Null,
        Json::Bool(b) => Json::Bool(*b),
        Json::Number(n) => Json::Number(n.clone()),
        Json::String(s) => Json::String(replace_variables(s.as_str(), env, vars)),
        Json::Array(items) => {
            let n: usize = items.len();
            let mut out: Vec<Json> = Vec::new();
            let mut i: usize = 0;
            while i < n
                invariant
                    n == items.len(),
                    i <= n,
                    out.len() == i,
                    *json == Json::Array(*items),
                    forall|k: int|
                        0 <= k < i ==> (#[trigger] out@[k])@ == substituted_json(
                            items@[k]@,
                            env@,
                            vars@,
                        ),
                decreases n - i,
            {
                assert(decreases_to!(*json => json->Array_0));
                assert(decreases_to!(*items => items[i as int]));
                let item = replace_variables_in_json(&items[i], env, vars);
                out.push(item);
                i += 1;
            }
            let r = Json::Array(out);
            assert(r@->Array_0 =~= substituted_json(json@, env@, vars@)->Array_0);
            r
        },
        Json::Object(members) => {
            let n: usize = members.len();
            let mut out: Vec<(String, Json)> = Vec::new();
            let mut i: usize = 0;
            while i < n
                invariant
                    n == members.len(),
                    i <= n,
                    out.len() == i,
                    *json == Json::Object(*members),
                    forall|k: int|
                        0 <= k < i ==> (#[trigger] out@[k]).0@ == members@[k].0@ && out@[k].1@
                            == substituted_json(members@[k].1@, env@, vars@),
                decreases n - i,
            {
                assert(decreases_to!(*json => json->Object_0));
                assert(decreases_to!(*members => members[i as int]));
                let value = replace_variables_in_json(&members[i].1, env, vars);
                let key = members[i].0.clone();
                out.push((key, value));
                i += 1;
            }
            let r = Json::Object(out);
            assert(r@->Object_0 =~= substituted_json(json@, env@, vars@)->Object_0);
            r
        },
    }
}

} // verus!
