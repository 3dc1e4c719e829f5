//! The records of a test suite.

pub mod command;
pub mod config;
pub mod suite;
pub mod test;

pub use config::Config;
pub use suite::TestSuite;
pub use test::Test;
