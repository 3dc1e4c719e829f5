//! What is read from an HTTP response: cookies, and the checks on its
//! body.

use crate::engine::execution::{concluded, run, ExecutionResult, RunAction, RunEvent};
use crate::engine::variables::Variables;
use crate::http::client::Exchange;
use crate::json::Json;
use crate::models::test::{JsonAssertion, Test};
use crate::text::{chars_of, find_char, index_of, piece, second_field, strip_range, trimmed, Strip};
use crate::utils::json_path::extracted;
use vstd::prelude::*;

verus! {

/// The value of the cookie `name` in the text of one cookie: the cookie
/// itself, which is what stands before the first semicolon, and the
/// attributes behind it, which are not looked at.
///
/// The cookie is read without the white space around it. It has the name
/// `name` where it holds an `=` and `name` stands before the first one;
/// its value is what stands between that `=` and the next one.
pub open spec fn named_value(cookie: Seq<char>, name: Seq<char>) -> Option<Seq<char>> {
    let end = index_of(cookie, ';');
    let pair = if 0 <= end <= cookie.len() {
        trimmed(cookie.subrange(0, end))
    } else {
        trimmed(cookie)
    };
    let eq = index_of(pair, '=');
    if 0 <= eq < pair.len() && pair.subrange(0, eq) == name {
        Some(second_field(pair, '='))
    } else {
        None
    }
}

/// The value of the cookie `name` in a header that holds several
/// cookies, which commas separate: that of the first cookie of this
/// name.
pub open spec fn cookie_in(header: Seq<char>, name: Seq<char>) -> Option<Seq<char>>
    decreases header.len(),
{
    let i = index_of(header, ',');
    if 0 <= i < header.len() {
        match named_value(header.subrange(0, i), name) {
            Some(value) => Some(value),
            None => cookie_in(header.subrange(i + 1, header.len() as int), name),
        }
    } else {
        named_value(header, name)
    }
}

/// The value of the cookie `name` in the cookie text `[from, to)` of
/// `header`.
fn value_in_cookie(header: &str, v: &Vec<char>, from: usize, to: usize, wanted: &Vec<char>) -> (r:
    Option<String>)
    requires
        v@ == header@,
        from <= to <= v.len(),
    ensures
        match r {
            Some(value) => named_value(header@.subrange(from as int, to as int), wanted@) == Some(
                value@,
            ),
            None => named_value(header@.subrange(from as int, to as int), wanted@) is None,
        },
{
    let ghost cookie = header@.subrange(from as int, to as int);
    let end: usize = find_char(v, from, to, ';');
    proof {
        assert(cookie.subrange(0, end - from) =~= v@.subrange(from as int, end as int));
    }
    let (a, b) = strip_range(v, from, end, Strip::Whitespace);
    let ghost pair = v@.subrange(a as int, b as int);
    let eq: usize = find_char(v, a, b, '=');
    if eq >= b {
        return None;
    }
    proof {
        assert(pair.subrange(0, eq - a) =~= v@.subrange(a as int, eq as int));
        assert(pair.subrange(eq - a + 1, pair.len() as int) =~= v@.subrange(eq + 1, b as int));
    }
    if !crate::text::range_equals(v, a, eq, wanted) {
        return None;
    }
    let next: usize = find_char(v, eq + 1, b, '=');
    proof {
        let rest = v@.subrange(eq + 1, b as int);
        crate::text::lemma_index_of_bounds(rest, '=');
        assert(rest.subrange(0, next - (eq + 1)) =~= v@.subrange(eq + 1, next as int));
    }
    Some(piece(header, eq + 1, next))
}

/// The value of the cookie `cookie_name` in a `Set-Cookie` header that
/// may hold several cookies, separated by commas, each followed by its
/// attributes behind semicolons.
pub fn extract_cookie_value(cookie_header: &str, cookie_name: &str) -> (r: Option<String>)
    ensures
        match r {
            Some(value) => cookie_in(cookie_header@, cookie_name@) == Some(value@),
            None => cookie_in(cookie_header@, cookie_name@) is None,
        },
{
    let v = chars_of(cookie_header);
    let wanted = chars_of(cookie_name);
    let n: usize = v.len();
    let mut pos: usize = 0;
    assert(cookie_header@.subrange(0, n as int) =~= cookie_header@);
    loop
        invariant
            v@ == cookie_header@,
            wanted@ == cookie_name@,
            n == v.len(),
            pos <= n,
            cookie_in(cookie_header@, cookie_name@) == cookie_in(
                cookie_header@.subrange(pos as int, n as int),
                cookie_name@,
            ),
        decreases n - pos,
    {
        let ghost rest = cookie_header@.subrange(pos as int, n as int);
        let end: usize = find_char(&v, pos, n, ',');
        proof {
            assert(rest.subrange(0, end - pos) =~= cookie_header@.subrange(
                pos as int,
                end as int,
            ));
            if end < n {
                assert(rest.subrange(end - pos + 1, rest.len() as int)
                    =~= cookie_header@.subrange(end + 1, n as int));
            } else {
                assert(rest =~= cookie_header@.subrange(pos as int, end as int));
            }
        }
        match value_in_cookie(cookie_header, &v, pos, end, &wanted) {
            Some(value) => {
                return Some(value);
            },
            None => {},
        }
        if end >= n {
            return None;
        }
        pos = end + 1;
    }
}

/// Whether `actual` matches `expected` structurally.
pub fn body_matches(expected: &Json, actual: &Json) -> (r: bool)
    ensures
        r == crate::engine::assertions::exact_match(expected@, actual@),
{
    crate::engine::assertions::body_matches(expected, actual)
}

/// Whether `actual` contains `expected`.
pub fn contains_json_value(expected: &Json, actual: &Json) -> (r: bool)
    ensures
        r == crate::engine::assertions::contains_value(expected@, actual@),
{
    crate::engine::assertions::contains_json_value(expected, actual)
}

/// Whether `assertion` holds of the body `actual`.
pub fn validate_assertion(assertion: &JsonAssertion, actual: &Json) -> (r: bool)
    ensures
        r == crate::engine::assertions::holds(*assertion, actual@),
{
    crate::engine::assertions::validate_assertion(assertion, actual)
}

/// Extracts the text at `path` from `json`.
pub fn extract_json_value(json: &Json, path: &str) -> (r: Option<String>)
    ensures
        match r {
            Some(text) => extracted(json@, path@) == Some(text@),
            None => extracted(json@, path@) is None,
        },
{
    crate::utils::json_path::extract_json_path(json, path)
}

/// What is made of a response: whether it passed, the expected and the
/// actual status, the body, and the headers.
pub struct Processed {
    /// Whether the response passed every check.
    pub success: bool,
    /// The status that the test expects.
    pub expected_status: u16,
    /// The status of the response.
    pub actual_status: u16,
    /// The body of the response.
    pub body: Option<Json>,
    /// The headers of the response.
    pub headers: Vec<(String, String)>,
}

/// Whether `made` carries what the HTTP phase found.
pub open spec fn carried(made: Processed, found: ExecutionResult) -> bool {
    &&& made.success == found.success
    &&& made.expected_status == found.status.0
    &&& made.actual_status == found.status.1
    &&& made.body == found.body
    &&& made.headers == found.headers
}

/// Checks a response against `test` and stores what the test takes from
/// it: the response is checked with its time already stored, and the
/// variables that the test names are taken from it where every check
/// passed.
pub fn process_response(
    status: u16,
    body: Json,
    headers: Vec<(String, String)>,
    time_ms: u64,
    test: &Test,
    env: &Variables,
    variables: &mut Variables,
) -> (r: Processed)
    ensures
        exists|found: ExecutionResult| #[trigger]
            concluded(
                found,
                *test,
                Exchange::Received { status, body, headers, time_ms },
                env@,
                old(variables)@,
                final(variables)@,
            ) && carried(r, found),
{
    let exchange = Exchange::Received { status, body, headers, time_ms };
    match run(test, RunEvent::Responded(exchange), env, variables) {
        RunAction::Done(found) => {
            let success = found.success;
            let expected_status = found.status.0;
            let actual_status = found.status.1;
            let made = Processed {
                success,
                expected_status,
                actual_status,
                body: found.body,
                headers: found.headers,
            };
            assert(concluded(found, *test, exchange, env@, old(variables)@, variables@));
            assert(carried(made, found));
            made
        },
        RunAction::Probe(_) => Processed {
            success: false,
            expected_status: test.expected_status,
            actual_status: status,
            body: None,
            headers: Vec::new(),
        },
        RunAction::Send(_, _) => Processed {
            success: false,
            expected_status: test.expected_status,
            actual_status: status,
            body: None,
            headers: Vec::new(),
        },
    }
}

} // verus!
