//! Whether a response passes a test, as one verdict.

use crate::engine::variables::Variables;
use crate::engine::verify::{check, instance_of, passes, process_assertion};
use crate::json::Json;
use crate::models::test::{JsonAssertion, Test};
use vstd::prelude::*;

verus! {

/// The verdict on a response.
#[derive(Debug)]
pub struct TestValidationResult {
    /// Whether the response passes.
    pub success: bool,
    /// The status that the test expects.
    pub expected_status: u16,
    /// The status of the response.
    pub actual_status: u16,
    /// The time the response took, in milliseconds.
    pub response_time_ms: u64,
}

/// Holds a response against `test`: its status, the time it took, the
/// expected body and the assertions.
pub fn validate_test(
    test: &Test,
    status: u16,
    body: &Json,
    response_time_ms: u64,
    env: &Variables,
    variables: &Variables,
) -> (r: TestValidationResult)
    ensures
        r.success == passes(*test, status, body@, response_time_ms, env@, variables@),
        r.expected_status == test.expected_status,
        r.actual_status == status,
        r.response_time_ms == response_time_ms,
{
    let found = check(test, status, body, response_time_ms, env, variables);
    TestValidationResult {
        success: found.ok,
        expected_status: test.expected_status,
        actual_status: status,
        response_time_ms,
    }
}

/// Substitutes variables into the value or the strings of `assertion`.
pub fn process_assertion_with_variables(
    assertion: &JsonAssertion,
    env: &Variables,
    variables: &Variables,
) -> (r: JsonAssertion)
    ensures
        instance_of(r, *assertion, env@, variables@),
{
    process_assertion(assertion, env, variables)
}

} // verus!
