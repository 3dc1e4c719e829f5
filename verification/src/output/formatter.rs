//! What is written of one result.

use crate::json::pretty;
use crate::output::style::{make_ruler, pieces, put, put_number, ruler, styled, Span, Style};
use crate::runner::TestResult;
use crate::text::{decimal, texts};
use vstd::prelude::*;

verus! {

/// Writes the result of one test.
#[derive(Debug)]
pub struct TestResultFormatter {
    /// Whether the result goes without colour.
    pub disable_color: bool,
    /// Whether every detail is written.
    pub verbose: bool,
}

/// The messages of a result, each behind a dash.
pub open spec fn error_lines(plain: bool, messages: Seq<Seq<char>>, n: int, end: Seq<char>) -> Seq<
    (Seq<char>, Style),
>
    decreases n,
{
    if n <= 0 || n > messages.len() {
        Seq::empty()
    } else {
        error_lines(plain, messages, n - 1, end) + seq![
            ("  "@, Style::Plain),
            ("-"@, styled(plain, Style::Bold)),
            (" "@, Style::Plain),
            (messages[n - 1], styled(plain, Style::Red)),
            (end, Style::Plain),
        ]
    }
}

/// The short form of a result: a mark and the name, and for a test that
/// failed the expected and the actual status.
pub open spec fn compact_result(plain: bool, r: TestResult) -> Seq<(Seq<char>, Style)> {
    if r.success {
        seq![
            ("✓"@, styled(plain, Style::Green)),
            (" "@, Style::Plain),
            (r.name@, Style::Plain),
        ]
    } else {
        seq![
            ("✗"@, styled(plain, Style::Red)),
            (" "@, Style::Plain),
            (r.name@, Style::Plain),
            (" (expected "@, Style::Plain),
            (decimal(r.expected_status as nat), Style::Plain),
            (", got "@, Style::Plain),
            (decimal(r.actual_status as nat), styled(plain, Style::Red)),
            (")"@, Style::Plain),
        ]
    }
}

/// The head of the long form of a result: a ruler, the name, the
/// endpoint, whether the test passed, and the status, which is green
/// where it is the expected one and red where it is not.
pub open spec fn verbose_head(plain: bool, r: TestResult, width: nat) -> Seq<(Seq<char>, Style)> {
    seq![
        ("\n"@, Style::Plain),
        (ruler(width), styled(plain, Style::Blue)),
        ("\n"@, Style::Plain),
        ("Test: "@, Style::Plain),
        (r.name@, styled(plain, Style::Bold)),
        ("\n"@, Style::Plain),
        ("Endpoint: "@, Style::Plain),
        (r.method@, styled(plain, Style::Yellow)),
        (" "@, Style::Plain),
        (r.endpoint@, styled(plain, Style::Yellow)),
        ("\n"@, Style::Plain),
        ("Success: "@, Style::Plain),
        if r.success {
            ("Yes"@, styled(plain, Style::Green))
        } else {
            ("No"@, styled(plain, Style::Red))
        },
        ("\n"@, Style::Plain),
        ("Status: "@, Style::Plain),
        (
            decimal(r.actual_status as nat),
            styled(
                plain,
                if r.expected_status == r.actual_status {
                    Style::Green
                } else {
                    Style::Red
                },
            ),
        ),
        (" (expected "@, Style::Plain),
        (decimal(r.expected_status as nat), styled(plain, Style::Bold)),
        (")\n"@, Style::Plain),
    ]
}

/// What the long form of a result says of the body of the response: the
/// body in indented form, and that it was held against itself.
pub open spec fn verbose_body(plain: bool, r: TestResult) -> Seq<(Seq<char>, Style)> {
    match r.response_body {
        Some(body) => seq![
            ("\nResponse Body: "@, Style::Plain),
            (pretty(body@), Style::Plain),
            ("\n"@, Style::Plain),
            ("\nBody comparison:\n"@, Style::Plain),
            ("  "@, Style::Plain),
            ("✓ Body matches expected value"@, styled(plain, Style::Green)),
            ("\n"@, Style::Plain),
        ],
        None => Seq::empty(),
    }
}

/// The long form of a result.
pub open spec fn verbose_result(plain: bool, r: TestResult, width: nat) -> Seq<(Seq<char>, Style)> {
    verbose_head(plain, r, width) + verbose_body(plain, r) + (if r.messages@.len() > 0 {
        seq![("\nMessages:\n"@, Style::Plain)] + error_lines(
            plain,
            texts(r.messages@),
            r.messages@.len() as int,
            "\n"@,
        )
    } else {
        Seq::empty()
    })
}

/// Adds the messages of a result to `out`, each behind a dash and
/// followed by `end`.
fn put_errors(out: &mut Vec<Span>, plain: bool, messages: &Vec<String>, end: &str)
    ensures
        pieces(final(out)@) == pieces(old(out)@) + error_lines(
            plain,
            texts(messages@),
            messages@.len() as int,
            end@,
        ),
{
    let n: usize = messages.len();
    let mut i: usize = 0;
    let red = if plain {
        Style::Plain
    } else {
        Style::Red
    };
    let bold = if plain {
        Style::Plain
    } else {
        Style::Bold
    };
    assert(pieces(out@) =~= pieces(old(out)@) + error_lines(plain, texts(messages@), 0, end@));
    while i < n
        invariant
            n == messages.len(),
            i <= n,
            red == styled(plain, Style::Red),
            bold == styled(plain, Style::Bold),
            pieces(out@) == pieces(old(out)@) + error_lines(
                plain,
                texts(messages@),
                i as int,
                end@,
            ),
        decreases n - i,
    {
        let ghost held = pieces(out@);
        put(out, "  ", Style::Plain);
        put(out, "-", bold);
        put(out, " ", Style::Plain);
        put(out, messages[i].as_str(), red);
        put(out, end, Style::Plain);
        assert(texts(messages@)[i as int] == messages@[i as int]@);
        assert(pieces(out@) =~= held + seq![
            ("  "@, Style::Plain),
            ("-"@, bold),
            (" "@, Style::Plain),
            (messages@[i as int]@, red),
            (end@, Style::Plain),
        ]);
        assert(pieces(out@) =~= pieces(old(out)@) + error_lines(
            plain,
            texts(messages@),
            i + 1,
            end@,
        ));
        i += 1;
    }
}

impl TestResultFormatter {
    /// A formatter that writes with colour or without, in the long or
    /// the short form.
    pub fn new(disable_color: bool, verbose: bool) -> (r: Self)
        ensures
            r.disable_color == disable_color,
            r.verbose == verbose,
    {
        Self { disable_color, verbose }
    }

    /// The long form of a result, for a terminal of the given width.
    pub fn format_verbose_result(&self, result: &TestResult, width: usize) -> (r: Vec<Span>)
        ensures
            pieces(r@) == verbose_result(self.disable_color, *result, width as nat),
    {
        let plain = self.disable_color;
        let bold = if plain {
            Style::Plain
        } else {
            Style::Bold
        };
        let yellow = if plain {
            Style::Plain
        } else {
            Style::Yellow
        };
        let green = if plain {
            Style::Plain
        } else {
            Style::Green
        };
        let red = if plain {
            Style::Plain
        } else {
            Style::Red
        };
        let mut out: Vec<Span> = Vec::new();
        assert(pieces(out@) =~= Seq::<(Seq<char>, Style)>::empty());
        put(&mut out, "\n", Style::Plain);
        put(&mut out, make_ruler(width).as_str(), if plain {
            Style::Plain
        } else {
            Style::Blue
        });
        put(&mut out, "\n", Style::Plain);
        put(&mut out, "Test: ", Style::Plain);
        put(&mut out, result.name.as_str(), bold);
        put(&mut out, "\n", Style::Plain);
        put(&mut out, "Endpoint: ", Style::Plain);
        put(&mut out, result.method.as_str(), yellow);
        put(&mut out, " ", Style::Plain);
        put(&mut out, result.endpoint.as_str(), yellow);
        put(&mut out, "\n", Style::Plain);
        put(&mut out, "Success: ", Style::Plain);
        if result.success {
            put(&mut out, "Yes", green);
        } else {
            put(&mut out, "No", red);
        }
        put(&mut out, "\n", Style::Plain);
        put(&mut out, "Status: ", Style::Plain);
        put_number(
            &mut out,
            result.actual_status as u64,
            if result.expected_status == result.actual_status {
                green
            } else {
                red
            },
        );
        put(&mut out, " (expected ", Style::Plain);
        put_number(&mut out, result.expected_status as u64, bold);
        put(&mut out, ")\n", Style::Plain);
        assert(pieces(out@) =~= verbose_head(plain, *result, width as nat));
        let ghost head = pieces(out@);
        match &result.response_body {
            Some(body) => {
                put(&mut out, "\nResponse Body: ", Style::Plain);
                put(&mut out, body.to_pretty().as_str(), Style::Plain);
                put(&mut out, "\n", Style::Plain);
                put(&mut out, "\nBody comparison:\n", Style::Plain);
                put(&mut out, "  ", Style::Plain);
                put(&mut out, "✓ Body matches expected value", green);
                put(&mut out, "\n", Style::Plain);
            },
            None => {},
        }
        assert(pieces(out@) =~= head + verbose_body(plain, *result));
        let ghost middle = pieces(out@);
        if result.messages.len() > 0 {
            put(&mut out, "\nMessages:\n", Style::Plain);
            put_errors(&mut out, plain, &result.messages, "\n");
        }
        assert(pieces(out@) =~= middle + (if result.messages@.len() > 0 {
            seq![("\nMessages:\n"@, Style::Plain)] + error_lines(
                plain,
                texts(result.messages@),
                result.messages@.len() as int,
                "\n"@,
            )
        } else {
            Seq::empty()
        }));
        out
    }

    /// The short form of a result.
    pub fn format_compact_result(&self, result: &TestResult) -> (r: Vec<Span>)
        ensures
            pieces(r@) == compact_result(self.disable_color, *result),
    {
        let plain = self.disable_color;
        let mut out: Vec<Span> = Vec::new();
        assert(pieces(out@) =~= Seq::<(Seq<char>, Style)>::empty());
        if result.success {
            put(&mut out, "✓", if plain {
                Style::Plain
            } else {
                Style::Green
            });
            put(&mut out, " ", Style::Plain);
            put(&mut out, result.name.as_str(), Style::Plain);
        } else {
            let red = if plain {
                Style::Plain
            } else {
                Style::Red
            };
            put(&mut out, "✗", red);
            put(&mut out, " ", Style::Plain);
            put(&mut out, result.name.as_str(), Style::Plain);
            put(&mut out, " (expected ", Style::Plain);
            put_number(&mut out, result.expected_status as u64, Style::Plain);
            put(&mut out, ", got ", Style::Plain);
            put_number(&mut out, result.actual_status as u64, red);
            put(&mut out, ")", Style::Plain);
        }
        assert(pieces(out@) =~= compact_result(plain, *result));
        out
    }

    /// The messages of a result, each behind a dash.
    pub fn format_error_messages(&self, result: &TestResult) -> (r: Vec<Span>)
        ensures
            pieces(r@) == error_lines(
                self.disable_color,
                texts(result.messages@),
                result.messages@.len() as int,
                "\n"@,
            ),
    {
        let mut out: Vec<Span> = Vec::new();
        assert(pieces(out@) =~= Seq::<(Seq<char>, Style)>::empty());
        put_errors(&mut out, self.disable_color, &result.messages, "\n");
        assert(pieces(out@) =~= error_lines(
            self.disable_color,
            texts(result.messages@),
            result.messages@.len() as int,
            "\n"@,
        ));
        out
    }
}

} // verus!
