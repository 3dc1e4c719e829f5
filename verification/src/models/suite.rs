//! A suite: its configuration, its tests and its hooks.

use crate::models::command::CommandStep;
use crate::models::config::Config;
use crate::models::test::Test;
use vstd::prelude::*;

verus! {

/// A test suite.
#[derive(Debug)]
pub struct TestSuite {
    /// The configuration.
    pub config: Config,
    /// The tests, in the order in which they run.
    pub tests: Vec<Test>,
    /// The hook that runs before the first test.
    pub setup: Option<Vec<CommandStep>>,
    /// The hook that runs after the last test.
    pub teardown: Option<Vec<CommandStep>>,
}

} // verus!
