//! The request of a test as the suite configures it: the base of the
//! suite before the endpoint, the default headers before those of the
//! test, and the authorization header behind them.

use crate::engine::variables::{replace_variables_in_json, substituted_json, Variables};
use crate::json::{Json, JsonValue};
use crate::models::suite::TestSuite;
use crate::models::test::Test;
use crate::text::{lowercase, pairs, same_text, to_lowercase};
use crate::utils::file::{file_body, file_failure, load_body_from_file, FileProbe};
use crate::utils::string::{
    optional_pairs, replace_variables, substitute_values, substituted, substituted_values,
};
use vstd::prelude::*;

verus! {

/// A request with every template resolved.
#[derive(Debug)]
pub struct Request {
    /// The address: the base of the suite and the endpoint.
    pub url: String,
    /// The headers, where there are any.
    pub headers: Option<Vec<(String, String)>>,
    /// The query parameters, where the test has any.
    pub params: Option<Vec<(String, String)>>,
    /// The body.
    pub body: Option<Json>,
}

/// The value of the authorization header: the token after substitution,
/// behind `Bearer ` or `Basic ` where the method, in whatever case, is
/// `bearer` or `basic`.
pub open spec fn authorization(method: Seq<char>, token: Seq<char>) -> Seq<char> {
    if lowercase(method) == "bearer"@ {
        "Bearer "@ + token
    } else if lowercase(method) == "basic"@ {
        "Basic "@ + token
    } else {
        token
    }
}

/// The authorization header of a suite, where it names a method and a
/// token.
pub open spec fn authorization_header(
    suite: TestSuite,
    env: Map<Seq<char>, Seq<char>>,
    vars: Map<Seq<char>, Seq<char>>,
) -> Seq<(Seq<char>, Seq<char>)> {
    match (suite.config.auth_method, suite.config.auth_token) {
        (Some(method), Some(token)) => seq![
            ("Authorization"@, authorization(method@, substituted(token@, env, vars))),
        ],
        _ => Seq::empty(),
    }
}

/// The headers of a request: the default headers of the suite, the
/// headers of the test, and the authorization header, every value after
/// substitution.
pub open spec fn all_headers(
    test: Test,
    suite: TestSuite,
    env: Map<Seq<char>, Seq<char>>,
    vars: Map<Seq<char>, Seq<char>>,
) -> Seq<(Seq<char>, Seq<char>)> {
    substituted_values(optional_pairs(suite.config.default_headers), env, vars)
        + substituted_values(optional_pairs(test.headers), env, vars) + authorization_header(
        suite,
        env,
        vars,
    )
}

/// The body of a request: the body of the test with variables
/// substituted, or what its body file gives.
pub open spec fn resolved_body(
    test: Test,
    probe: FileProbe,
    env: Map<Seq<char>, Seq<char>>,
    vars: Map<Seq<char>, Seq<char>>,
) -> Option<JsonValue> {
    match test.body {
        Some(b) => Some(substituted_json(b@, env, vars)),
        None => match test.body_file {
            Some(path) => if file_failure(path@, probe) is Some {
                None
            } else {
                file_body(path@, probe->Content_0@, env, vars)
            },
            None => None,
        },
    }
}

/// Whether `req` is the request of `test` in `suite`; `probe` is what
/// was found at the path of the body file, where the test names one.
pub open spec fn prepared(
    req: Request,
    test: Test,
    suite: TestSuite,
    probe: FileProbe,
    env: Map<Seq<char>, Seq<char>>,
    vars: Map<Seq<char>, Seq<char>>,
) -> bool {
    &&& req.url@ == suite.config.base_url@ + substituted(test.endpoint@, env, vars)
    &&& match req.headers {
        Some(h) => pairs(h@) == all_headers(test, suite, env, vars) && h@.len() > 0,
        None => all_headers(test, suite, env, vars).len() == 0,
    }
    &&& match test.query_params {
        Some(p) => req.params matches Some(q) && pairs(q@) == substituted_values(
            pairs(p@),
            env,
            vars,
        ),
        None => req.params is None,
    }
    &&& match resolved_body(test, probe, env, vars) {
        Some(b) => req.body matches Some(x) && x@ == b,
        None => req.body is None,
    }
}

/// The headers of the request of `test` in `suite`.
fn build_headers(test: &Test, suite: &TestSuite, env: &Variables, vars: &Variables) -> (r: Option<
    Vec<(String, String)>,
>)
    ensures
        match r {
            Some(h) => pairs(h@) == all_headers(*test, *suite, env@, vars@) && h@.len() > 0,
            None => all_headers(*test, *suite, env@, vars@).len() == 0,
        },
{
    let mut headers = substitute_values(&suite.config.default_headers, env, vars);
    let ghost first = pairs(headers@);
    let mut more = substitute_values(&test.headers, env, vars);
    let ghost second = pairs(more@);
    headers.append(&mut more);
    assert(pairs(headers@) =~= first + second);
    match (&suite.config.auth_method, &suite.config.auth_token) {
        (Some(method), Some(token)) => {
            let processed = replace_variables(token.as_str(), env, vars);
            let lower = to_lowercase(method.as_str());
            let value = if same_text(lower.as_str(), "bearer") {
                let mut v = String::from_str("Bearer ");
                v.append(processed.as_str());
                v
            } else if same_text(lower.as_str(), "basic") {
                let mut v = String::from_str("Basic ");
                v.append(processed.as_str());
                v
            } else {
                processed
            };
            headers.push((String::from_str("Authorization"), value));
            assert(pairs(headers@) =~= first + second + seq![("Authorization"@, value@)]);
        },
        _ => {
            assert(pairs(headers@) =~= first + second + Seq::<(Seq<char>, Seq<char>)>::empty());
        },
    }
    if headers.len() == 0 {
        None
    } else {
        Some(headers)
    }
}

/// The body of the request of `test`.
fn resolve_body(test: &Test, probe: &FileProbe, env: &Variables, vars: &Variables) -> (r: Option<
    Json,
>)
    ensures
        match resolved_body(*test, *probe, env@, vars@) {
            Some(b) => r matches Some(x) && x@ == b,
            None => r is None,
        },
{
    match &test.body {
        Some(body) => Some(replace_variables_in_json(body, env, vars)),
        None => match &test.body_file {
            Some(path) => match load_body_from_file(path.as_str(), probe, env, vars) {
                Ok(content) => Some(content),
                Err(_) => None,
            },
            None => None,
        },
    }
}

/// The request of `test` in `suite`. `probe` is what was found at the
/// path of the body file; it is not looked at where the test has a body
/// of its own or names no body file.
pub fn build(test: &Test, suite: &TestSuite, env: &Variables, vars: &Variables, probe: &FileProbe) -> (r:
    Request)
    ensures
        prepared(r, *test, *suite, *probe, env@, vars@),
{
    let mut url = suite.config.base_url.clone();
    url.append(replace_variables(test.endpoint.as_str(), env, vars).as_str());
    let params = match &test.query_params {
        Some(_) => Some(substitute_values(&test.query_params, env, vars)),
        None => None,
    };
    Request {
        url,
        headers: build_headers(test, suite, env, vars),
        params,
        body: resolve_body(test, probe, env, vars),
    }
}

} // verus!
