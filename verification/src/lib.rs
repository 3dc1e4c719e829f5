//! A declarative HTTP API test engine.
//!
//! A suite names requests, what is expected of the responses, how
//! values flow from one test to the next, and the commands that run
//! around the tests. The engine substitutes variables into every field
//! of a test, extracts values from responses and from the output of
//! commands, checks responses against assertions, and decides the order
//! of everything that happens in a run.
//!
//! The engine performs no input or output of its own. Where a process is
//! to be launched, a file to be read or a request to be sent, it says
//! so, and goes on from what the caller hands back.
//!
//! - `utils`: template substitution, path extraction, body files
//! - `engine`: assertions, command steps, the checks on a response
//! - `runner`: a test with its hooks, and a suite with its tests
//! - `checker`: the checks on a suite before it runs
//! - `output`: what is written of the results
//! - `models`, `http`, `cli`, `error`: the records that the others share
//! - `json`, `pattern`, `text`: JSON values, regular expressions, text

pub mod checker;
pub mod cli;
pub mod engine;
pub mod error;
pub mod http;
pub mod json;
pub mod models;
pub mod output;
pub mod pattern;
pub mod runner;
pub mod text;
pub mod utils;

pub use checker::validate;
pub use cli::{Commands, Opts};
pub use runner::TestRunner;
