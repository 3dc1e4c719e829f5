//! What is written of the results: as pieces of text, each with the
//! style in which it is to be shown.

pub mod formatter;
pub mod style;
pub mod summary;

pub use formatter::TestResultFormatter;
pub use summary::TestSummaryFormatter;
