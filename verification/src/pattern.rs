//! Regular expressions, as the `regex` crate compiles and runs them.

use vstd::prelude::*;

verus! {

#[verifier::external_type_specification]
#[verifier::external_body]
pub struct ExRegex(regex::Regex);

#[verifier::external_type_specification]
#[verifier::external_body]
pub struct ExRegexError(regex::Error);

/// Whether `Regex::new` accepts `pattern`.
pub uninterp spec fn compiles(pattern: Seq<char>) -> bool;

/// The pattern that a compiled expression was made from, as
/// `Regex::as_str` gives it.
pub uninterp spec fn source(re: regex::Regex) -> Seq<char>;

/// Whether the expression that `Regex::new` makes of `pattern` matches
/// somewhere in `text`, as `Regex::is_match` finds.
pub uninterp spec fn matches(pattern: Seq<char>, text: Seq<char>) -> bool;

/// `Regex::new`: compiles `pattern`, or refuses it. Which of the two is a
/// function of the pattern alone, and the compiled expression remembers
/// the pattern.
#[verifier::external_body]
fn compile(pattern: &str) -> (r: Result<regex::Regex, regex::Error>)
    ensures
        r is Ok == compiles(pattern@),
        r matches Ok(re) ==> source(re) == pattern@,
{
    regex::Regex::new(pattern)
}

/// `Regex::is_match`: whether there is a match anywhere in `text`. The
/// result is a function of the pattern and the text alone.
#[verifier::external_body]
fn is_match(re: &regex::Regex, text: &str) -> (r: bool)
    ensures
        r == matches(source(*re), text@),
{
    re.is_match(text)
}

/// Whether `pattern` is a regular expression that matches somewhere in
/// `text`. A pattern that does not compile matches nothing.
pub open spec fn pattern_matches(pattern: Seq<char>, text: Seq<char>) -> bool {
    compiles(pattern) && matches(pattern, text)
}

/// Tests `text` against `pattern`.
pub fn matches_pattern(pattern: &str, text: &str) -> (r: bool)
    ensures
        r == pattern_matches(pattern@, text@),
{
    match compile(pattern) {
        Ok(re) => is_match(&re, text),
        Err(_) => false,
    }
}

} // verus!
