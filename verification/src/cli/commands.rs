//! The commands of the command line, and the variables given on it.

use crate::engine::variables::Variables;
use crate::text::{chars_of, find_char, index_of, piece, strip_range, trimmed, Strip};
use vstd::prelude::*;

verus! {

/// What the command line asks for.
#[derive(Debug)]
pub struct Opts {
    /// The command.
    pub command: Commands,
}

/// A command.
#[derive(Debug)]
pub enum Commands {
    /// Run the tests of a suite.
    Run {
        /// Run only the tests whose name holds this text.
        filter: Option<String>,
        /// Write without colour.
        disable_color: bool,
        /// Write every detail of every test.
        verbose: bool,
        /// The file of the suite.
        file: Option<String>,
        /// Write what the engine does.
        debug: bool,
        /// Variables, as `key=value` pairs that commas separate.
        var: Option<String>,
        /// Leave the details of failures out of the summary.
        no_fail_summary: bool,
    },
    /// Check a suite without running it.
    Validate {
        /// The file of the suite.
        file: Option<String>,
        /// Variables, as `key=value` pairs that commas separate.
        var: Option<String>,
    },
    /// List the tests of a suite.
    List {
        /// Write every detail of every test.
        verbose: bool,
        /// The file of the suite.
        file: Option<String>,
    },
}

/// `vars` with what one pair adds to it.
///
/// The pair is read without the white space around it. Where it holds an
/// `=`, what stands before the first one is the key and what stands
/// behind it the value, each without the white space around it; a pair
/// without `=` or with an empty key adds nothing.
pub open spec fn bound(vars: Map<Seq<char>, Seq<char>>, pair: Seq<char>) -> Map<Seq<char>, Seq<char>> {
    let t = trimmed(pair);
    let eq = index_of(t, '=');
    if 0 <= eq < t.len() {
        let key = trimmed(t.subrange(0, eq));
        let value = trimmed(t.subrange(eq + 1, t.len() as int));
        if key.len() > 0 {
            vars.insert(key, value)
        } else {
            vars
        }
    } else {
        vars
    }
}

/// `vars` with what the pairs of `s` add to it, one after the other; the
/// pairs are what commas separate.
pub open spec fn parsed_variables(s: Seq<char>, vars: Map<Seq<char>, Seq<char>>) -> Map<
    Seq<char>,
    Seq<char>,
>
    decreases s.len(),
{
    let i = index_of(s, ',');
    if 0 <= i < s.len() {
        parsed_variables(s.subrange(i + 1, s.len() as int), bound(vars, s.subrange(0, i)))
    } else {
        bound(vars, s)
    }
}

/// Adds to `vars` what the pair `[from, to)` of `text` gives.
fn bind_pair(vars: &mut Variables, text: &str, v: &Vec<char>, from: usize, to: usize)
    requires
        v@ == text@,
        from <= to <= v.len(),
    ensures
        final(vars)@ == bound(old(vars)@, text@.subrange(from as int, to as int)),
{
    let (a, b) = strip_range(v, from, to, Strip::Whitespace);
    let ghost t = v@.subrange(a as int, b as int);
    let eq: usize = find_char(v, a, b, '=');
    if eq < b {
        proof {
            assert(t.subrange(0, eq - a) =~= v@.subrange(a as int, eq as int));
            assert(t.subrange(eq - a + 1, t.len() as int) =~= v@.subrange(eq + 1, b as int));
        }
        let (ka, kb) = strip_range(v, a, eq, Strip::Whitespace);
        let (va, vb) = strip_range(v, eq + 1, b, Strip::Whitespace);
        if ka < kb {
            vars.insert(piece(text, ka, kb), piece(text, va, vb));
        }
    }
}

impl Commands {
    /// Reads variables given as `key1=value1,key2=value2`. A later pair
    /// replaces an earlier one of the same key.
    pub fn parse_variables(var_string: Option<String>) -> (r: Variables)
        ensures
            r@ == match var_string {
                Some(s) => parsed_variables(s@, Map::empty()),
                None => Map::empty(),
            },
    {
        let mut variables = Variables::new();
        match var_string {
            Some(vars) => {
                let text = vars.as_str();
                let v = chars_of(text);
                let n: usize = v.len();
                let mut pos: usize = 0;
                assert(text@.subrange(0, n as int) =~= text@);
                loop
                    invariant
                        v@ == text@,
                        text@ == vars@,
                        var_string == Some(vars),
                        n == v.len(),
                        pos <= n,
                        parsed_variables(vars@, Map::empty()) == parsed_variables(
                            text@.subrange(pos as int, n as int),
                            variables@,
                        ),
                    decreases n - pos,
                {
                    let ghost rest = text@.subrange(pos as int, n as int);
                    let end: usize = find_char(&v, pos, n, ',');
                    proof {
                        assert(rest.subrange(0, end - pos) =~= text@.subrange(
                            pos as int,
                            end as int,
                        ));
                        if end < n {
                            assert(rest.subrange(end - pos + 1, rest.len() as int)
                                =~= text@.subrange(end + 1, n as int));
                        } else {
                            assert(rest =~= text@.subrange(pos as int, end as int));
                        }
                    }
                    bind_pair(&mut variables, text, &v, pos, end);
                    if end >= n {
                        return variables;
                    }
                    pos = end + 1;
                }
            },
            None => variables,
        }
    }
}

} // verus!
