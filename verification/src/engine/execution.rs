//! The HTTP phase of a test: the request that is sent, and what is made
//! of the response.
//!
//! The engine neither reads the body file nor sends the request. It says
//! what is to be done and goes on from what the caller hands back.

use crate::engine::variables::{
    cookie_pairs, replace_variables_in_json, response_found, store_variables, stored,
    substituted_json, Variables,
};
use crate::engine::verify::{check, check_errors, passes};
use crate::http::client::{Exchange, RequestData};
use crate::json::{Json, JsonValue};
use crate::models::test::Test;
use crate::text::{decimal, decimal_string, lowercase, pairs, texts, to_lowercase};
use crate::utils::file::{
    escapes, escapes_directory, file_body, file_failure, json_failure, load_body_from_file,
    FileProbe,
};
use crate::utils::string::{
    optional_pairs, replace_variables, substitute_values, substituted, substituted_values,
};
use vstd::prelude::*;

verus! {

/// How the HTTP phase of a test ended.
#[derive(Debug)]
pub struct ExecutionResult {
    /// Whether the response passed every check.
    pub success: bool,
    /// The expected status and the actual one; the actual one is 0 where
    /// no response came.
    pub status: (u16, u16),
    /// The time the response took, in milliseconds.
    pub time_ms: u64,
    /// The body of the response.
    pub body: Option<Json>,
    /// The headers of the response, each also under its name in lower
    /// case.
    pub headers: Vec<(String, String)>,
    /// One message for each check that failed.
    pub errors: Vec<String>,
}

/// What happened in the HTTP phase of a test.
#[derive(Debug)]
pub enum RunEvent {
    /// The phase is to be started.
    Start,
    /// The body file was looked up.
    Probed(FileProbe),
    /// The request was sent.
    Responded(Exchange),
}

/// What is to be done in the HTTP phase of a test.
#[derive(Debug)]
pub enum RunAction {
    /// Look up the body file at this path below the directory of the
    /// suite, and come back with what is there.
    Probe(String),
    /// Send this request, and come back with the response. The text,
    /// where there is one, says why the request goes without the body
    /// that the test names.
    Send(RequestData, Option<String>),
    /// The phase is over.
    Done(ExecutionResult),
}

/// Whether `req` is the request of `test` with the body `body`: the
/// method as it is, and variables substituted into the endpoint and into
/// the value of every header and query parameter.
pub open spec fn request_for(
    req: RequestData,
    test: Test,
    body: Option<JsonValue>,
    env: Map<Seq<char>, Seq<char>>,
    vars: Map<Seq<char>, Seq<char>>,
) -> bool {
    &&& req.method@ == test.method@
    &&& req.url@ == substituted(test.endpoint@, env, vars)
    &&& pairs(req.headers@) == substituted_values(optional_pairs(test.headers), env, vars)
    &&& pairs(req.params@) == substituted_values(optional_pairs(test.query_params), env, vars)
    &&& match body {
        Some(b) => req.body matches Some(x) && x@ == b,
        None => req.body is None,
    }
}

/// What is said where the body file of a test cannot be used.
pub open spec fn body_warning(file_path: Seq<char>, why: Seq<char>) -> Seq<char> {
    "Error loading body file '"@ + file_path + "': "@ + why
}

/// Whether `action` sends the request of `test` with a body, and without
/// a warning.
pub open spec fn sends_with(
    action: RunAction,
    test: Test,
    body: JsonValue,
    env: Map<Seq<char>, Seq<char>>,
    vars: Map<Seq<char>, Seq<char>>,
) -> bool {
    action matches RunAction::Send(req, warning) && warning is None && request_for(
        req,
        test,
        Some(body),
        env,
        vars,
    )
}

/// Whether `action` sends the request of `test` without a body, with the
/// warning `why` where there is one.
pub open spec fn sends_without(
    action: RunAction,
    test: Test,
    why: Option<Seq<char>>,
    env: Map<Seq<char>, Seq<char>>,
    vars: Map<Seq<char>, Seq<char>>,
) -> bool {
    &&& action matches RunAction::Send(req, warning)
    &&& request_for(req, test, None, env, vars)
    &&& match why {
        Some(text) => warning matches Some(w) && w@ == text,
        None => warning is None,
    }
}

/// Whether `action` is the right start of the HTTP phase of `test`.
///
/// A test with a body sends it, with variables substituted. A test with
/// a body file asks for the file to be looked up, unless its path leaves
/// the directory of the suite: then the request goes without a body. A
/// test with neither sends no body.
pub open spec fn started(
    action: RunAction,
    test: Test,
    env: Map<Seq<char>, Seq<char>>,
    vars: Map<Seq<char>, Seq<char>>,
) -> bool {
    match test.body {
        Some(b) => sends_with(action, test, substituted_json(b@, env, vars), env, vars),
        None => match test.body_file {
            Some(path) => if escapes(path@) {
                sends_without(
                    action,
                    test,
                    Some(
                        body_warning(
                            path@,
                            "File operation failed: File path cannot escape test directory"@,
                        ),
                    ),
                    env,
                    vars,
                )
            } else {
                action matches RunAction::Probe(p) && p@ == path@
            },
            None => sends_without(action, test, None, env, vars),
        },
    }
}

/// Whether `action` is what follows from looking up the body file of
/// `test`: the request goes with the body that the file gives, or
/// without a body and with a warning where the file gives none.
pub open spec fn probed(
    action: RunAction,
    test: Test,
    probe: FileProbe,
    env: Map<Seq<char>, Seq<char>>,
    vars: Map<Seq<char>, Seq<char>>,
) -> bool {
    match test.body {
        Some(b) => sends_with(action, test, substituted_json(b@, env, vars), env, vars),
        None => match test.body_file {
            Some(path) => match file_failure(path@, probe) {
                Some(why) => sends_without(
                    action,
                    test,
                    Some(body_warning(path@, "File operation failed: "@ + why)),
                    env,
                    vars,
                ),
                None => match file_body(path@, probe->Content_0@, env, vars) {
                    Some(json) => sends_with(action, test, json, env, vars),
                    None => sends_without(
                        action,
                        test,
                        Some(
                            body_warning(
                                path@,
                                "JSON processing failed: "@ + json_failure(
                                    path@,
                                    probe->Content_0@,
                                    env,
                                    vars,
                                ),
                            ),
                        ),
                        env,
                        vars,
                    ),
                },
            },
            None => sends_without(action, test, None, env, vars),
        },
    }
}

/// The headers of a response, followed by each of them under its name in
/// lower case.
pub open spec fn with_lowercase(headers: Seq<(Seq<char>, Seq<char>)>) -> Seq<(Seq<char>, Seq<char>)> {
    headers + Seq::new(headers.len(), |i: int| (lowercase(headers[i].0), headers[i].1))
}

/// The store after a response came: the response time is stored under
/// `response_time_ms`, whatever the response is like.
pub open spec fn timed(before: Map<Seq<char>, Seq<char>>, time_ms: u64) -> Map<Seq<char>, Seq<char>> {
    before.insert("response_time_ms"@, decimal(time_ms as nat))
}

/// Whether `result` is what the HTTP phase of `test` makes of
/// `exchange`, and `after` the store behind it.
///
/// Where no response came the phase fails with the reason as its only
/// message and the actual status 0, and nothing is stored. A response is
/// checked with its time already stored; the phase succeeds where every
/// check passes, and only then the variables that the test names are
/// taken from the body, the headers and the cookies.
pub open spec fn concluded(
    result: ExecutionResult,
    test: Test,
    exchange: Exchange,
    env: Map<Seq<char>, Seq<char>>,
    before: Map<Seq<char>, Seq<char>>,
    after: Map<Seq<char>, Seq<char>>,
) -> bool {
    match exchange {
        Exchange::Failed(why) => {
            &&& !result.success
            &&& result.status == (test.expected_status, 0u16)
            &&& result.time_ms == 0
            &&& result.body is None
            &&& result.headers@.len() == 0
            &&& texts(result.errors@) == seq![why@]
            &&& after == before
        },
        Exchange::Received { status, body, headers, time_ms } => {
            let all = with_lowercase(pairs(headers@));
            let ok = passes(test, status, body@, time_ms, env, timed(before, time_ms));
            &&& result.success == ok
            &&& result.status == (test.expected_status, status)
            &&& result.time_ms == time_ms
            &&& result.body matches Some(b) && b@ == body@
            &&& pairs(result.headers@) == all
            &&& texts(result.errors@) == check_errors(
                test,
                status,
                body@,
                time_ms,
                env,
                timed(before, time_ms),
            )
            &&& after == if ok {
                stored(
                    timed(before, time_ms),
                    response_found(
                        body@,
                        optional_pairs(test.store),
                        all,
                        cookie_pairs(test.get_cookie),
                        time_ms,
                    ),
                )
            } else {
                timed(before, time_ms)
            }
        },
    }
}

/// The request of `test` with the body `body`.
pub fn build_request(test: &Test, body: Option<Json>, env: &Variables, vars: &Variables) -> (r:
    RequestData)
    ensures
        request_for(
            r,
            *test,
            match body {
                Some(b) => Some(b@),
                None => None,
            },
            env@,
            vars@,
        ),
{
    RequestData {
        method: test.method.clone(),
        url: replace_variables(test.endpoint.as_str(), env, vars),
        headers: substitute_values(&test.headers, env, vars),
        params: substitute_values(&test.query_params, env, vars),
        body,
    }
}

/// The headers of a response, followed by each of them under its name in
/// lower case.
pub fn lowercase_headers(headers: &Vec<(String, String)>) -> (r: Vec<(String, String)>)
    ensures
        pairs(r@) == with_lowercase(pairs(headers@)),
{
    let n: usize = headers.len();
    let mut out: Vec<(String, String)> = Vec::new();
    let mut i: usize = 0;
    assert(pairs(out@) =~= pairs(headers@).take(0));
    while i < n
        invariant
            n == headers.len(),
            i <= n,
            pairs(out@) == pairs(headers@).take(i as int),
        decreases n - i,
    {
        let ghost held = pairs(out@);
        let key = headers[i].0.clone();
        let value = headers[i].1.clone();
        out.push((key, value));
        assert(pairs(out@) =~= held.push((key@, value@)));
        assert(pairs(out@) =~= pairs(headers@).take(i + 1));
        i += 1;
    }
    assert(pairs(headers@).take(n as int) =~= pairs(headers@));
    let ghost lower = Seq::new(
        pairs(headers@).len(),
        |k: int| (lowercase(pairs(headers@)[k].0), pairs(headers@)[k].1),
    );
    i = 0;
    assert(pairs(out@) =~= pairs(headers@) + lower.take(0));
    while i < n
        invariant
            n == headers.len(),
            i <= n,
            lower == Seq::new(
                pairs(headers@).len(),
                |k: int| (lowercase(pairs(headers@)[k].0), pairs(headers@)[k].1),
            ),
            pairs(out@) == pairs(headers@) + lower.take(i as int),
        decreases n - i,
    {
        let ghost held = pairs(out@);
        let key = to_lowercase(headers[i].0.as_str());
        let value = headers[i].1.clone();
        out.push((key, value));
        assert(pairs(out@) =~= held.push((key@, value@)));
        assert(pairs(out@) =~= pairs(headers@) + lower.take(i + 1));
        i += 1;
    }
    assert(lower.take(n as int) =~= lower);
    out
}

/// Starts the HTTP phase of `test`, or goes on with it.
pub fn run(test: &Test, event: RunEvent, env: &Variables, vars: &mut Variables) -> (r: RunAction)
    ensures
        match event {
            RunEvent::Start => final(vars)@ == old(vars)@ && started(r, *test, env@, old(vars)@),
            RunEvent::Probed(probe) => final(vars)@ == old(vars)@ && probed(
                r,
                *test,
                probe,
                env@,
                old(vars)@,
            ),
            RunEvent::Responded(exchange) => r matches RunAction::Done(result) && concluded(
                result,
                *test,
                exchange,
                env@,
                old(vars)@,
                final(vars)@,
            ),
        },
{
    match event {
        RunEvent::Start => {
            match &test.body {
                Some(inline) => {
                    let body = replace_variables_in_json(inline, env, vars);
                    RunAction::Send(build_request(test, Some(body), env, vars), None)
                },
                None => match &test.body_file {
                    Some(path) => {
                        if escapes_directory(path.as_str()) {
                            let mut warning = String::from_str("Error loading body file '");
                            warning.append(path.as_str());
                            warning.append("': ");
                            warning.append(
                                "File operation failed: File path cannot escape test directory",
                            );
                            RunAction::Send(build_request(test, None, env, vars), Some(warning))
                        } else {
                            RunAction::Probe(path.clone())
                        }
                    },
                    None => RunAction::Send(build_request(test, None, env, vars), None),
                },
            }
        },
        RunEvent::Probed(probe) => {
            match &test.body {
                Some(inline) => {
                    let body = replace_variables_in_json(inline, env, vars);
                    RunAction::Send(build_request(test, Some(body), env, vars), None)
                },
                None => match &test.body_file {
                    Some(path) => {
                        match load_body_from_file(path.as_str(), &probe, env, vars) {
                            Ok(body) => RunAction::Send(
                                build_request(test, Some(body), env, vars),
                                None,
                            ),
                            Err(e) => {
                                let mut warning = String::from_str("Error loading body file '");
                                warning.append(path.as_str());
                                warning.append("': ");
                                warning.append(e.to_string().as_str());
                                RunAction::Send(build_request(test, None, env, vars), Some(warning))
                            },
                        }
                    },
                    None => RunAction::Send(build_request(test, None, env, vars), None),
                },
            }
        },
        RunEvent::Responded(exchange) => {
            match exchange {
                Exchange::Failed(why) => {
                    let mut errors: Vec<String> = Vec::new();
                    errors.push(why);
                    assert(texts(errors@) =~= seq![why@]);
                    RunAction::Done(
                        ExecutionResult {
                            success: false,
                            status: (test.expected_status, 0),
                            time_ms: 0,
                            body: None,
                            headers: Vec::new(),
                            errors,
                        },
                    )
                },
                Exchange::Received { status, body, headers, time_ms } => {
                    let all = lowercase_headers(&headers);
                    vars.insert(String::from_str("response_time_ms"), decimal_string(time_ms));
                    let validation = check(test, status, &body, time_ms, env, vars);
                    if validation.ok {
                        let nothing: Vec<(String, String)> = Vec::new();
                        assert(pairs(nothing@) =~= Seq::<(Seq<char>, Seq<char>)>::empty());
                        let store_map = match &test.store {
                            Some(s) => s,
                            None => &nothing,
                        };
                        store_variables(&body, store_map, &all, &test.get_cookie, time_ms, vars);
                    }
                    RunAction::Done(
                        ExecutionResult {
                            success: validation.ok,
                            status: (test.expected_status, status),
                            time_ms,
                            body: Some(body),
                            headers: all,
                            errors: validation.errors,
                        },
                    )
                },
            }
        },
    }
}

} // verus!
