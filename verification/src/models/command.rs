//! Command steps: the hooks of a suite and of its tests.

use vstd::prelude::*;

verus! {

/// Names the variable that takes the standard output of a step.
#[derive(Debug)]
pub struct CaptureConfig {
    /// The variable for the standard output; the standard error goes to
    /// the variable of this name followed by `_stderr`.
    pub var: String,
}

/// One command of a hook.
#[derive(Debug)]
pub struct CommandStep {
    /// The command, or the script where the step runs in a shell.
    pub run: String,
    /// The arguments.
    pub args: Option<Vec<String>>,
    /// Whether the step runs in a shell.
    pub shell: Option<bool>,
    /// The working directory.
    pub dir: Option<String>,
    /// Environment variables for the process, as names and values.
    pub env: Option<Vec<(String, String)>>,
    /// The time the process may take, in milliseconds.
    pub timeout_ms: Option<u64>,
    /// Whether a failure of the step lets the hook go on.
    pub ignore_error: Option<bool>,
    /// Where the output goes.
    pub capture: Option<CaptureConfig>,
    /// Variables to take from the standard output read as JSON, as names
    /// and paths.
    pub export: Option<Vec<(String, String)>>,
    /// A condition without which the step is skipped.
    pub when: Option<String>,
    /// On which outcome of the test an after-hook runs: `success`,
    /// `failure` or `always`.
    pub on: Option<String>,
}

/// The time a process may take where a step names none.
pub const DEFAULT_TIMEOUT_MS: u64 = 30000;

impl CommandStep {
    /// Whether a failure of the step lets the hook go on; it does not
    /// unless the step says so.
    pub fn should_ignore_error(&self) -> (r: bool)
        ensures
            r == self.ignores_error(),
    {
        match self.ignore_error {
            Some(b) => b,
            None => false,
        }
    }

    /// Whether the step runs in a shell; it does not unless the step
    /// says so.
    pub fn should_use_shell(&self) -> (r: bool)
        ensures
            r == self.uses_shell(),
    {
        match self.shell {
            Some(b) => b,
            None => false,
        }
    }

    /// The time the process may take, in milliseconds.
    pub fn get_timeout_ms(&self) -> (r: u64)
        ensures
            r == self.timeout(),
    {
        match self.timeout_ms {
            Some(t) => t,
            None => DEFAULT_TIMEOUT_MS,
        }
    }

    /// On which outcome of the test the step runs as an after-hook.
    pub fn get_on_condition(&self) -> (r: &str)
        ensures
            r@ == self.on_condition(),
    {
        match &self.on {
            Some(s) => s.as_str(),
            None => "always",
        }
    }

    /// Whether a failure of the step lets the hook go on.
    pub open spec fn ignores_error(&self) -> bool {
        self.ignore_error == Some(true)
    }

    /// Whether the step runs in a shell.
    pub open spec fn uses_shell(&self) -> bool {
        self.shell == Some(true)
    }

    /// The time the process may take, in milliseconds.
    pub open spec fn timeout(&self) -> u64 {
        match self.timeout_ms {
            Some(t) => t,
            None => DEFAULT_TIMEOUT_MS,
        }
    }

    /// On which outcome of the test the step runs as an after-hook.
    pub open spec fn on_condition(&self) -> Seq<char> {
        match self.on {
            Some(s) => s@,
            None => "always"@,
        }
    }
}

} // verus!
