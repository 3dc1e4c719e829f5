//! The command line.

pub mod commands;

pub use commands::{Commands, Opts};
