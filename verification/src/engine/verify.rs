//! The checks on a response: status, response time, expected body and
//! assertions. Every check that fails leaves a message; a response can
//! fail for several reasons at once.

use crate::engine::assertions::{
    body_matches, contains_value, exact_match, holds, validate_assertion,
};
use crate::engine::variables::{replace_variables_in_json, substituted_json, Variables};
use crate::json::{compact, Json, JsonValue};
use crate::models::test::{JsonAssertion, Test};
use crate::pattern::pattern_matches;
use crate::text::{decimal, push_decimal, texts};
use crate::utils::json_path::extracted;
use crate::utils::string::{replace_variables, substituted};
use vstd::prelude::*;

verus! {

/// What the checks on a response found.
#[derive(Debug)]
pub struct Result {
    /// Whether every check passed.
    pub ok: bool,
    /// The expected status and the actual one.
    pub status: (u16, u16),
    /// The time the response took, in milliseconds.
    pub time_ms: u64,
    /// One message for each check that failed, in the order of the
    /// checks.
    pub errors: Vec<String>,
}

/// Whether `made` is `of` with variables substituted into its values and
/// strings.
pub open spec fn instance_of(
    made: JsonAssertion,
    of: JsonAssertion,
    env: Map<Seq<char>, Seq<char>>,
    vars: Map<Seq<char>, Seq<char>>,
) -> bool {
    match of {
        JsonAssertion::Exact(e) => made matches JsonAssertion::Exact(m) && m@ == substituted_json(
            e@,
            env,
            vars,
        ),
        JsonAssertion::Contains(e) => made matches JsonAssertion::Contains(m) && m@
            == substituted_json(e@, env, vars),
        JsonAssertion::Regex(p) => made matches JsonAssertion::Regex(q) && q@ == substituted(
            p@,
            env,
            vars,
        ),
        JsonAssertion::PathRegex(path, p) => made matches JsonAssertion::PathRegex(a, b) && a@
            == substituted(path@, env, vars) && b@ == substituted(p@, env, vars),
    }
}

/// Whether `assertion` holds of `body` once variables are substituted
/// into it.
pub open spec fn holds_with(
    assertion: JsonAssertion,
    body: JsonValue,
    env: Map<Seq<char>, Seq<char>>,
    vars: Map<Seq<char>, Seq<char>>,
) -> bool {
    match assertion {
        JsonAssertion::Exact(e) => exact_match(substituted_json(e@, env, vars), body),
        JsonAssertion::Contains(e) => contains_value(substituted_json(e@, env, vars), body),
        JsonAssertion::Regex(p) => pattern_matches(substituted(p@, env, vars), compact(body)),
        JsonAssertion::PathRegex(path, p) => match extracted(
            body,
            substituted(path@, env, vars),
        ) {
            Some(text) => pattern_matches(substituted(p@, env, vars), text),
            None => false,
        },
    }
}

/// An assertion with variables substituted holds where the assertion
/// holds with those variables.
pub proof fn lemma_instance_holds(
    made: JsonAssertion,
    of: JsonAssertion,
    body: JsonValue,
    env: Map<Seq<char>, Seq<char>>,
    vars: Map<Seq<char>, Seq<char>>,
)
    requires
        instance_of(made, of, env, vars),
    ensures
        holds(made, body) == holds_with(of, body, env, vars),
{
}

/// How a message names an assertion: its kind, and in brackets its value
/// in compact form, or its strings in double quotes.
pub open spec fn description(assertion: JsonAssertion) -> Seq<char> {
    match assertion {
        JsonAssertion::Exact(e) => "Exact("@ + compact(e@) + ")"@,
        JsonAssertion::Contains(e) => "Contains("@ + compact(e@) + ")"@,
        JsonAssertion::Regex(p) => "Regex(\""@ + p@ + "\")"@,
        JsonAssertion::PathRegex(path, p) => "PathRegex(\""@ + path@ + "\", \""@ + p@ + "\")"@,
    }
}

/// The message for a status other than the expected one.
pub open spec fn status_error(status: u16, expected: u16) -> Seq<char> {
    "Status "@ + decimal(status as nat) + ", expected "@ + decimal(expected as nat)
}

/// The message for a response that took too long.
pub open spec fn time_error(time_ms: u64, max: u64) -> Seq<char> {
    "Time "@ + decimal(time_ms as nat) + "ms > "@ + decimal(max as nat) + "ms"@
}

/// The message for an assertion that does not hold.
pub open spec fn assertion_error(assertion: JsonAssertion) -> Seq<char> {
    "Failed: "@ + description(assertion)
}

/// One message for each of `assertions` that does not hold of `body`, in
/// order.
pub open spec fn assertion_errors(
    assertions: Seq<JsonAssertion>,
    body: JsonValue,
    env: Map<Seq<char>, Seq<char>>,
    vars: Map<Seq<char>, Seq<char>>,
) -> Seq<Seq<char>>
    decreases assertions.len(),
{
    if assertions.len() == 0 {
        Seq::empty()
    } else {
        let before = assertion_errors(assertions.drop_last(), body, env, vars);
        if holds_with(assertions.last(), body, env, vars) {
            before
        } else {
            before.push(assertion_error(assertions.last()))
        }
    }
}

/// The message of the status check, where it fails.
pub open spec fn status_errors(test: Test, status: u16) -> Seq<Seq<char>> {
    if status != test.expected_status {
        seq![status_error(status, test.expected_status)]
    } else {
        Seq::empty()
    }
}

/// The message of the check on the response time, where it fails.
pub open spec fn time_errors(test: Test, time_ms: u64) -> Seq<Seq<char>> {
    match test.max_response_time {
        Some(max) => if time_ms > max {
            seq![time_error(time_ms, max)]
        } else {
            Seq::empty()
        },
        None => Seq::empty(),
    }
}

/// The message of the check on the expected body, where it fails.
pub open spec fn body_errors(
    test: Test,
    body: JsonValue,
    env: Map<Seq<char>, Seq<char>>,
    vars: Map<Seq<char>, Seq<char>>,
) -> Seq<Seq<char>> {
    match test.expected_body {
        Some(e) => if !exact_match(substituted_json(e@, env, vars), body) {
            seq!["Body mismatch"@]
        } else {
            Seq::empty()
        },
        None => Seq::empty(),
    }
}

/// The messages of all checks that fail, in the order of the checks:
/// status, response time, expected body, assertions.
pub open spec fn check_errors(
    test: Test,
    status: u16,
    body: JsonValue,
    time_ms: u64,
    env: Map<Seq<char>, Seq<char>>,
    vars: Map<Seq<char>, Seq<char>>,
) -> Seq<Seq<char>> {
    status_errors(test, status) + time_errors(test, time_ms) + body_errors(test, body, env, vars)
        + match test.assertions {
        Some(a) => assertion_errors(a@, body, env, vars),
        None => Seq::empty(),
    }
}

/// Whether a response passes: it has the expected status, it did not
/// take longer than it may, its body matches the expected body, and
/// every assertion holds of it.
pub open spec fn passes(
    test: Test,
    status: u16,
    body: JsonValue,
    time_ms: u64,
    env: Map<Seq<char>, Seq<char>>,
    vars: Map<Seq<char>, Seq<char>>,
) -> bool {
    &&& status == test.expected_status
    &&& (test.max_response_time matches Some(max) ==> time_ms <= max)
    &&& (test.expected_body matches Some(e) ==> exact_match(substituted_json(e@, env, vars), body))
    &&& (test.assertions matches Some(a) ==> forall|i: int|
        0 <= i < a@.len() ==> holds_with(#[trigger] a@[i], body, env, vars))
}

/// No assertion leaves a message exactly where all of them hold.
pub proof fn lemma_assertion_errors_empty(
    assertions: Seq<JsonAssertion>,
    body: JsonValue,
    env: Map<Seq<char>, Seq<char>>,
    vars: Map<Seq<char>, Seq<char>>,
)
    ensures
        assertion_errors(assertions, body, env, vars).len() == 0 <==> forall|i: int|
            0 <= i < assertions.len() ==> holds_with(#[trigger] assertions[i], body, env, vars),
    decreases assertions.len(),
{
    if assertions.len() > 0 {
        let front = assertions.drop_last();
        lemma_assertion_errors_empty(front, body, env, vars);
        if assertion_errors(assertions, body, env, vars).len() == 0 {
            assert forall|i: int| 0 <= i < assertions.len() implies holds_with(
                #[trigger] assertions[i],
                body,
                env,
                vars,
            ) by {
                if i < front.len() {
                    assert(front[i] == assertions[i]);
                }
            }
        }
        if forall|i: int|
            0 <= i < assertions.len() ==> holds_with(#[trigger] assertions[i], body, env, vars) {
            assert forall|i: int| 0 <= i < front.len() implies holds_with(
                #[trigger] front[i],
                body,
                env,
                vars,
            ) by {
                assert(front[i] == assertions[i]);
            }
            assert(holds_with(assertions[assertions.len() - 1], body, env, vars));
        }
    }
}

/// The checks leave no message exactly where the response passes.
pub proof fn lemma_no_errors_iff_passes(
    test: Test,
    status: u16,
    body: JsonValue,
    time_ms: u64,
    env: Map<Seq<char>, Seq<char>>,
    vars: Map<Seq<char>, Seq<char>>,
)
    ensures
        check_errors(test, status, body, time_ms, env, vars).len() == 0 <==> passes(
            test,
            status,
            body,
            time_ms,
            env,
            vars,
        ),
{
    match test.assertions {
        Some(a) => {
            lemma_assertion_errors_empty(a@, body, env, vars);
        },
        None => {},
    }
}

/// Replaces the markers of `s`, as `replace_variables` does.
pub fn replace_vars(s: &str, env: &Variables, vars: &Variables) -> (r: String)
    ensures
        r@ == substituted(s@, env@, vars@),
{
    replace_variables(s, env, vars)
}

/// Substitutes variables into the value or the strings of `assertion`.
pub fn process_assertion(assertion: &JsonAssertion, env: &Variables, vars: &Variables) -> (r:
    JsonAssertion)
    ensures
        instance_of(r, *assertion, env@, vars@),
{
    match assertion {
        JsonAssertion::Exact(v) => JsonAssertion::Exact(replace_variables_in_json(v, env, vars)),
        JsonAssertion::Contains(v) => JsonAssertion::Contains(
            replace_variables_in_json(v, env, vars),
        ),
        JsonAssertion::Regex(p) => JsonAssertion::Regex(replace_vars(p.as_str(), env, vars)),
        JsonAssertion::PathRegex(path, pattern) => JsonAssertion::PathRegex(
            replace_vars(path.as_str(), env, vars),
            replace_vars(pattern.as_str(), env, vars),
        ),
    }
}

/// How a message names `assertion`.
pub fn describe(assertion: &JsonAssertion) -> (r: String)
    ensures
        r@ == description(*assertion),
{
    match assertion {
        JsonAssertion::Exact(e) => {
            let mut out = String::from_str("Exact(");
            out.append(e.to_compact().as_str());
            out.append(")");
            out
        },
        JsonAssertion::Contains(e) => {
            let mut out = String::from_str("Contains(");
            out.append(e.to_compact().as_str());
            out.append(")");
            out
        },
        JsonAssertion::Regex(p) => {
            let mut out = String::from_str("Regex(\"");
            out.append(p.as_str());
            out.append("\")");
            out
        },
        JsonAssertion::PathRegex(path, p) => {
            let mut out = String::from_str("PathRegex(\"");
            out.append(path.as_str());
            out.append("\", \"");
            out.append(p.as_str());
            out.append("\")");
            out
        },
    }
}

/// Whether `assertion` holds of `body` once variables are substituted
/// into it.
pub fn assertion_holds(assertion: &JsonAssertion, body: &Json, env: &Variables, vars: &Variables) -> (r:
    bool)
    ensures
        r == holds_with(*assertion, body@, env@, vars@),
{
    let made = process_assertion(assertion, env, vars);
    proof {
        lemma_instance_holds(made, *assertion, body@, env@, vars@);
    }
    validate_assertion(&made, body)
}

/// Checks a response against `test`.
pub fn check(test: &Test, status: u16, body: &Json, time_ms: u64, env: &Variables, vars: &Variables) -> (r:
    Result)
    ensures
        texts(r.errors@) == check_errors(*test, status, body@, time_ms, env@, vars@),
        r.ok == passes(*test, status, body@, time_ms, env@, vars@),
        r.status == (test.expected_status, status),
        r.time_ms == time_ms,
{
    let mut errors: Vec<String> = Vec::new();
    assert(texts(errors@) =~= Seq::<Seq<char>>::empty());
    if status != test.expected_status {
        let mut msg = String::from_str("Status ");
        push_decimal(&mut msg, status as u64);
        msg.append(", expected ");
        push_decimal(&mut msg, test.expected_status as u64);
        errors.push(msg);
    }
    assert(texts(errors@) =~= status_errors(*test, status));
    let ghost first = texts(errors@);
    match test.max_response_time {
        Some(max) => {
            if time_ms > max {
                let mut msg = String::from_str("Time ");
                push_decimal(&mut msg, time_ms);
                msg.append("ms > ");
                push_decimal(&mut msg, max);
                msg.append("ms");
                errors.push(msg);
            }
        },
        None => {},
    }
    assert(texts(errors@) =~= first + time_errors(*test, time_ms));
    let ghost second = texts(errors@);
    match &test.expected_body {
        Some(expected) => {
            let made = replace_variables_in_json(expected, env, vars);
            if !body_matches(&made, body) {
                errors.push(String::from_str("Body mismatch"));
            }
        },
        None => {},
    }
    assert(texts(errors@) =~= second + body_errors(*test, body@, env@, vars@));
    let ghost third = texts(errors@);
    match &test.assertions {
        Some(assertions) => {
            let n: usize = assertions.len();
            let mut i: usize = 0;
            assert(assertions@.take(0) =~= Seq::<JsonAssertion>::empty());
            assert(texts(errors@) =~= third + Seq::<Seq<char>>::empty());
            while i < n
                invariant
                    n == assertions.len(),
                    i <= n,
                    texts(errors@) == third + assertion_errors(
                        assertions@.take(i as int),
                        body@,
                        env@,
                        vars@,
                    ),
                decreases n - i,
            {
                proof {
                    assert(assertions@.take(i + 1).drop_last() =~= assertions@.take(i as int));
                    assert(assertions@.take(i + 1).last() == assertions@[i as int]);
                }
                let ghost held = texts(errors@);
                let ghost sofar = assertion_errors(assertions@.take(i as int), body@, env@, vars@);
                if !assertion_holds(&assertions[i], body, env, vars) {
                    let mut msg = String::from_str("Failed: ");
                    msg.append(describe(&assertions[i]).as_str());
                    errors.push(msg);
                    assert(texts(errors@) =~= held.push(msg@));
                    assert(held.push(msg@) =~= third + sofar.push(msg@));
                }
                i += 1;
            }
            assert(assertions@.take(n as int) =~= assertions@);
        },
        None => {
            assert(texts(errors@) =~= third + Seq::<Seq<char>>::empty());
        },
    }
    proof {
        lemma_no_errors_iff_passes(*test, status, body@, time_ms, env@, vars@);
    }
    let ok = errors.len() == 0;
    Result { ok, status: (test.expected_status, status), time_ms, errors }
}

} // verus!
