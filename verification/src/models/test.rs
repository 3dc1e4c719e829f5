//! Test definitions and their assertions.

use crate::json::Json;
use crate::models::command::CommandStep;
use vstd::prelude::*;

verus! {

/// An assertion on a response body.
#[derive(Debug)]
pub enum JsonAssertion {
    /// The body matches the value structurally: every expected key is
    /// there, arrays agree element by element.
    Exact(Json),
    /// The body contains the value: as `Exact`, but an expected array
    /// asks only that each of its elements is matched somewhere.
    Contains(Json),
    /// The compact text of the body matches the pattern.
    Regex(String),
    /// The text extracted at the path matches the pattern.
    PathRegex(String, String),
}

/// One test: a request and what is expected of the response.
#[derive(Debug)]
pub struct Test {
    /// The name of the test.
    pub name: String,
    /// The HTTP method.
    pub method: String,
    /// The endpoint, a template.
    pub endpoint: String,
    /// Query parameters, as names and value templates.
    pub query_params: Option<Vec<(String, String)>>,
    /// Headers, as names and value templates.
    pub headers: Option<Vec<(String, String)>>,
    /// The body of the request.
    pub body: Option<Json>,
    /// A file that holds the body of the request. A test has a body or a
    /// body file, not both.
    pub body_file: Option<String>,
    /// The status that the response must have.
    pub expected_status: u16,
    /// A value that the body of the response must match.
    pub expected_body: Option<Json>,
    /// Assertions that must hold of the body of the response.
    pub assertions: Option<Vec<JsonAssertion>>,
    /// Headers that the response is expected to have.
    pub expected_headers: Option<Vec<(String, String)>>,
    /// Variables to take from the body, as names and paths.
    pub store: Option<Vec<(String, String)>>,
    /// Variables to take from cookies, as cookie names and variable
    /// names.
    pub get_cookie: Option<Vec<(String, String)>>,
    /// The time the response may take, in milliseconds.
    pub max_response_time: Option<u64>,
    /// The hook that runs before the request.
    pub before: Option<Vec<CommandStep>>,
    /// The hook that runs after the request.
    pub after: Option<Vec<CommandStep>>,
}

} // verus!
