//! The test execution engine.

pub mod assertions;
pub mod commands;
pub mod execution;
pub mod executor;
pub mod prep;
pub mod test_validator;
pub mod variables;
pub mod verify;
