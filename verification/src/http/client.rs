//! What the engine hands to the transport, and what it takes back.

use crate::json::Json;
use vstd::prelude::*;

verus! {

/// A request, with every template resolved.
#[derive(Debug)]
pub struct RequestData {
    /// The HTTP method.
    pub method: String,
    /// The endpoint, to be appended to the base of the suite.
    pub url: String,
    /// The headers, as names and values.
    pub headers: Vec<(String, String)>,
    /// The query parameters, as names and values.
    pub params: Vec<(String, String)>,
    /// The body.
    pub body: Option<Json>,
}

/// What came of sending a request.
#[derive(Debug)]
pub enum Exchange {
    /// No response came; the text says why.
    Failed(String),
    /// A response came.
    Received {
        /// Its status code.
        status: u16,
        /// Its body: the JSON it holds, or its text as a string.
        body: Json,
        /// Its headers, as names and values.
        headers: Vec<(String, String)>,
        /// The time between sending the request and having the response,
        /// in milliseconds.
        time_ms: u64,
    },
}

} // verus!
