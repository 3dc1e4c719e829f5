//! Helpers on strings, paths and files.

pub mod file;
pub mod json_path;
pub mod string;
