//! The exchange with the service under test.

pub mod client;
pub mod response;
