//! The checks on a suite before it runs.

pub mod validator;

pub use validator::validate;
