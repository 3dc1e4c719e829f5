//! The summary of a run: the list of results, and the details of the
//! tests that failed.

use crate::json::{compact, pretty, Json, JsonValue};
use crate::output::style::{make_ruler, pieces, put, put_number, ruler, styled, Span, Style};
use crate::runner::TestResult;
use crate::text::{decimal, texts};
use vstd::prelude::*;
use vstd::utf8::{decode_utf8, encode_utf8, is_char_boundary};

verus! {

/// Writes the summary of a run.
#[derive(Debug)]
pub struct TestSummaryFormatter {
    /// Whether the summary goes without colour.
    pub disable_color: bool,
}

/// The number of bytes of a response body that the details of a failure
/// show at most.
pub const MAX_SUMMARY_BODY_BYTES: usize = 8192;

/// The line of one result in the list of results: a mark and the name,
/// and for a test that failed the expected and the actual status.
pub open spec fn result_line(plain: bool, r: TestResult) -> Seq<(Seq<char>, Style)> {
    if r.success {
        seq![
            ("  "@, Style::Plain),
            ("✓"@, styled(plain, Style::Green)),
            (" "@, Style::Plain),
            (r.name@, Style::Plain),
            ("\n"@, Style::Plain),
        ]
    } else {
        seq![
            ("  "@, Style::Plain),
            ("✗"@, styled(plain, Style::Red)),
            (" "@, Style::Plain),
            (r.name@, Style::Plain),
            (" (expected "@, Style::Plain),
            (decimal(r.expected_status as nat), Style::Plain),
            (", got "@, Style::Plain),
            (decimal(r.actual_status as nat), styled(plain, Style::Red)),
            (")\n"@, Style::Plain),
        ]
    }
}

/// The lines of the first `n` results.
pub open spec fn result_lines(plain: bool, results: Seq<TestResult>, n: int) -> Seq<
    (Seq<char>, Style),
>
    decreases n,
{
    if n <= 0 || n > results.len() {
        Seq::empty()
    } else {
        result_lines(plain, results, n - 1) + result_line(plain, results[n - 1])
    }
}

/// How many of the first `n` results are those of tests that passed.
pub open spec fn passed(results: Seq<TestResult>, n: int) -> nat
    decreases n,
{
    if n <= 0 || n > results.len() {
        0
    } else {
        passed(results, n - 1) + (if results[n - 1].success {
            1nat
        } else {
            0nat
        })
    }
}

/// What stands above the list of results: in colour, a ruler.
pub open spec fn results_heading(plain: bool, width: nat) -> Seq<(Seq<char>, Style)> {
    if plain {
        seq![("\nResults:\n"@, Style::Plain)]
    } else {
        seq![
            ("\n"@, Style::Plain),
            (ruler(width), Style::Blue),
            ("\n"@, Style::Plain),
            ("\nResults:\n"@, Style::Plain),
        ]
    }
}

/// The count of tests of one kind, where there are any.
pub open spec fn counted(n: nat, comma: bool, style: Style, what: Seq<char>) -> Seq<
    (Seq<char>, Style),
> {
    if n > 0 {
        (if comma {
            seq![(", "@, Style::Plain)]
        } else {
            Seq::empty()
        }) + seq![(decimal(n), style), (" tests"@, style), (what, Style::Plain)]
    } else {
        Seq::empty()
    }
}

/// The last line of the list of results: how many tests passed, failed
/// and were skipped, and how many there are. Without colour the tests
/// that passed are counted even where there are none.
pub open spec fn tally(plain: bool, good: nat, bad: nat, skipped: nat, total: nat) -> Seq<
    (Seq<char>, Style),
> {
    seq![("\n"@, Style::Plain)] + (if plain {
        seq![(decimal(good), Style::Plain), (" tests"@, Style::Plain), (" passed"@, Style::Plain)]
            + counted(bad, true, Style::Plain, " failed"@) + counted(
            skipped,
            true,
            Style::Plain,
            " skipped"@,
        )
    } else {
        counted(good, false, Style::Green, " passed"@) + counted(
            bad,
            good > 0,
            Style::Red,
            " failed"@,
        ) + counted(skipped, good > 0 || bad > 0, Style::Yellow, " skipped"@)
    }) + seq![(" (total: "@, Style::Plain), (decimal(total), Style::Plain), (")\n"@, Style::Plain)]
}

/// The list of results.
pub open spec fn compact_results(
    plain: bool,
    results: Seq<TestResult>,
    skipped: nat,
    total: nat,
    width: nat,
) -> Seq<(Seq<char>, Style)> {
    let good = passed(results, results.len() as int);
    results_heading(plain, width) + result_lines(plain, results, results.len() as int) + tally(
        plain,
        good,
        (results.len() - good) as nat,
        skipped,
        total,
    )
}

/// The text of a body before it is cut: indented for an object or an
/// array, compact for anything else.
pub open spec fn displayed(v: JsonValue) -> Seq<char> {
    if v is Object || v is Array {
        pretty(v)
    } else {
        compact(v)
    }
}

/// The greatest index not above `i` at which a character begins in
/// `bytes`.
pub open spec fn boundary_below(bytes: Seq<u8>, i: int) -> int
    decreases i,
{
    if i <= 0 {
        0
    } else if is_char_boundary(bytes, i) {
        i
    } else {
        boundary_below(bytes, i - 1)
    }
}

/// `text` cut to its first `limit` bytes, and to fewer where a
/// character would be cut in two, with a note that it was cut; `text`
/// itself where it is not longer than `limit` bytes.
pub open spec fn cut(text: Seq<char>, limit: int) -> Seq<char> {
    let bytes = encode_utf8(text);
    if bytes.len() > limit {
        decode_utf8(bytes.subrange(0, boundary_below(bytes, limit))) + "\n... (truncated)"@
    } else {
        text
    }
}

/// The text of a body in the details of a failure.
pub open spec fn body_text(v: JsonValue) -> Seq<char> {
    cut(displayed(v), MAX_SUMMARY_BODY_BYTES as int)
}

/// Cuts `text` to `limit` bytes.
pub fn cut_text(text: String, limit: usize) -> (r: String)
    ensures
        r@ == cut(text@, limit as int),
{
    broadcast use {
        vstd::utf8::encode_utf8_valid_utf8,
        vstd::utf8::encode_utf8_decode_utf8,
        vstd::utf8::is_char_boundary_start_end_of_seq,
    };

    let s = text.as_str();
    let ghost bytes = encode_utf8(text@);
    if s.as_bytes().len() <= limit {
        return text;
    }
    let mut at: usize = limit;
    while at > 0 && !s.is_char_boundary(at)
        invariant
            at <= limit < bytes.len(),
            s@ == text@,
            bytes == encode_utf8(text@),
            boundary_below(bytes, limit as int) == boundary_below(bytes, at as int),
        decreases at,
    {
        at -= 1;
    }
    assert(is_char_boundary(bytes, at as int));
    let (head, _) = s.split_at(at);
    let mut out = String::from_str(head);
    out.append("\n... (truncated)");
    proof {
        assert(encode_utf8(head@) =~= bytes.subrange(0, at as int));
        assert(decode_utf8(encode_utf8(head@)) == head@);
    }
    out
}

/// The separating line and the heading above the details of failures.
pub open spec fn failures_heading(plain: bool, width: nat) -> Seq<(Seq<char>, Style)> {
    if plain {
        seq![("\nFailures:\n"@, Style::Plain)]
    } else {
        seq![
            ("\n"@, Style::Plain),
            (ruler(width), Style::Blue),
            ("\n"@, Style::Plain),
            ("\n"@, Style::Plain),
            ("Failures:"@, Style::RedBold),
            ("\n"@, Style::Plain),
        ]
    }
}

/// The messages of a result, one on a line.
pub open spec fn message_lines(plain: bool, messages: Seq<Seq<char>>, n: int) -> Seq<
    (Seq<char>, Style),
>
    decreases n,
{
    if n <= 0 || n > messages.len() {
        Seq::empty()
    } else {
        message_lines(plain, messages, n - 1) + seq![
            ("  - "@, Style::Plain),
            (messages[n - 1], styled(plain, Style::Red)),
            ("\n"@, Style::Plain),
        ]
    }
}

/// The details of one test that failed: its name, its endpoint, its
/// status, its messages and the body of the response.
pub open spec fn failure_block(plain: bool, r: TestResult) -> Seq<(Seq<char>, Style)> {
    seq![
        ("---\n"@, Style::Plain),
        ("Test: "@, Style::Plain),
        (r.name@, styled(plain, Style::Bold)),
        ("\n"@, Style::Plain),
        ("Endpoint: "@, Style::Plain),
        (r.method@, styled(plain, Style::Yellow)),
        (" "@, Style::Plain),
        (r.endpoint@, styled(plain, Style::Yellow)),
        ("\n"@, Style::Plain),
        ("Status: "@, Style::Plain),
        (decimal(r.actual_status as nat), styled(plain, Style::Red)),
        (" (expected "@, Style::Plain),
        (decimal(r.expected_status as nat), styled(plain, Style::Bold)),
        (")\n"@, Style::Plain),
    ] + (if r.messages@.len() > 0 {
        seq![("Messages:\n"@, Style::Plain)] + message_lines(
            plain,
            texts(r.messages@),
            r.messages@.len() as int,
        )
    } else {
        Seq::empty()
    }) + (match r.response_body {
        Some(body) => seq![
            ("Response Body:\n"@, Style::Plain),
            (body_text(body@), Style::Plain),
            ("\n"@, Style::Plain),
        ],
        None => seq![("Response Body: <none>\n"@, Style::Plain)],
    })
}

/// The details of the tests among the first `n` results that failed,
/// with an empty line between one and the next.
pub open spec fn failure_blocks(plain: bool, results: Seq<TestResult>, n: int) -> Seq<
    (Seq<char>, Style),
>
    decreases n,
{
    if n <= 0 || n > results.len() {
        Seq::empty()
    } else if results[n - 1].success {
        failure_blocks(plain, results, n - 1)
    } else {
        failure_blocks(plain, results, n - 1) + (if passed(results, n - 1) < n - 1 {
            seq![("\n"@, Style::Plain)]
        } else {
            Seq::empty()
        }) + failure_block(plain, results[n - 1])
    }
}

/// The details of the failures of a run; nothing where no test failed.
pub open spec fn failure_details(plain: bool, results: Seq<TestResult>, width: nat) -> Seq<
    (Seq<char>, Style),
> {
    if passed(results, results.len() as int) == results.len() {
        Seq::empty()
    } else {
        failures_heading(plain, width) + failure_blocks(plain, results, results.len() as int)
    }
}

/// No more tests passed than there are results.
pub proof fn lemma_passed_bound(results: Seq<TestResult>, n: int)
    requires
        0 <= n <= results.len(),
    ensures
        passed(results, n) <= n,
    decreases n,
{
    if n > 0 {
        lemma_passed_bound(results, n - 1);
    }
}

/// Adds the messages of a result to `out`.
fn put_messages(out: &mut Vec<Span>, plain: bool, messages: &Vec<String>)
    ensures
        pieces(final(out)@) == pieces(old(out)@) + message_lines(
            plain,
            texts(messages@),
            messages@.len() as int,
        ),
{
    let n: usize = messages.len();
    let mut i: usize = 0;
    let red = if plain {
        Style::Plain
    } else {
        Style::Red
    };
    assert(pieces(out@) =~= pieces(old(out)@) + message_lines(plain, texts(messages@), 0));
    while i < n
        invariant
            n == messages.len(),
            i <= n,
            red == styled(plain, Style::Red),
            pieces(out@) == pieces(old(out)@) + message_lines(plain, texts(messages@), i as int),
        decreases n - i,
    {
        let ghost held = pieces(out@);
        put(out, "  - ", Style::Plain);
        put(out, messages[i].as_str(), red);
        put(out, "\n", Style::Plain);
        assert(texts(messages@)[i as int] == messages@[i as int]@);
        assert(pieces(out@) =~= held + seq![
            ("  - "@, Style::Plain),
            (messages@[i as int]@, red),
            ("\n"@, Style::Plain),
        ]);
        assert(pieces(out@) =~= pieces(old(out)@) + message_lines(
            plain,
            texts(messages@),
            i + 1,
        ));
        i += 1;
    }
}

impl TestSummaryFormatter {
    /// A formatter that writes with colour or without.
    pub fn new(disable_color: bool) -> (r: Self)
        ensures
            r.disable_color == disable_color,
    {
        Self { disable_color }
    }

    /// The text of a response body in the details of a failure: indented
    /// for an object or an array, and cut where it is long.
    pub fn format_response_body(&self, body: &Json) -> (r: String)
        ensures
            r@ == body_text(body@),
    {
        let formatted = if body.is_object() || body.is_array() {
            body.to_pretty()
        } else {
            body.to_compact()
        };
        cut_text(formatted, MAX_SUMMARY_BODY_BYTES)
    }

    /// Adds the line of one result to `out`.
    fn put_result_line(&self, out: &mut Vec<Span>, result: &TestResult)
        ensures
            pieces(final(out)@) == pieces(old(out)@) + result_line(self.disable_color, *result),
    {
        let plain = self.disable_color;
        put(out, "  ", Style::Plain);
        if result.success {
            put(out, "✓", if plain {
                Style::Plain
            } else {
                Style::Green
            });
            put(out, " ", Style::Plain);
            put(out, result.name.as_str(), Style::Plain);
            put(out, "\n", Style::Plain);
        } else {
            let red = if plain {
                Style::Plain
            } else {
                Style::Red
            };
            put(out, "✗", red);
            put(out, " ", Style::Plain);
            put(out, result.name.as_str(), Style::Plain);
            put(out, " (expected ", Style::Plain);
            put_number(out, result.expected_status as u64, Style::Plain);
            put(out, ", got ", Style::Plain);
            put_number(out, result.actual_status as u64, red);
            put(out, ")\n", Style::Plain);
        }
        assert(pieces(out@) =~= pieces(old(out)@) + result_line(plain, *result));
    }

    /// Adds the count of tests of one kind to `out`.
    fn put_counted(out: &mut Vec<Span>, n: usize, comma: bool, style: Style, what: &str)
        ensures
            pieces(final(out)@) == pieces(old(out)@) + counted(n as nat, comma, style, what@),
    {
        if n > 0 {
            if comma {
                put(out, ", ", Style::Plain);
            }
            put_number(out, n as u64, style);
            put(out, " tests", style);
            put(out, what, Style::Plain);
        }
        assert(pieces(out@) =~= pieces(old(out)@) + counted(n as nat, comma, style, what@));
    }

    /// The list of results: one line for each, and the counts of the
    /// tests that passed, failed and were skipped.
    pub fn format_compact_results(
        &self,
        results: &Vec<TestResult>,
        skipped: usize,
        total: usize,
        width: usize,
    ) -> (r: Vec<Span>)
        ensures
            pieces(r@) == compact_results(
                self.disable_color,
                results@,
                skipped as nat,
                total as nat,
                width as nat,
            ),
    {
        let plain = self.disable_color;
        let mut out: Vec<Span> = Vec::new();
        assert(pieces(out@) =~= Seq::<(Seq<char>, Style)>::empty());
        if !plain {
            put(&mut out, "\n", Style::Plain);
            put(&mut out, make_ruler(width).as_str(), Style::Blue);
            put(&mut out, "\n", Style::Plain);
        }
        put(&mut out, "\nResults:\n", Style::Plain);
        assert(pieces(out@) =~= results_heading(plain, width as nat));
        let ghost head = pieces(out@);
        let n: usize = results.len();
        let mut i: usize = 0;
        let mut good: usize = 0;
        assert(pieces(out@) =~= head + result_lines(plain, results@, 0));
        while i < n
            invariant
                n == results.len(),
                i <= n,
                good <= i,
                plain == self.disable_color,
                good == passed(results@, i as int),
                pieces(out@) == head + result_lines(plain, results@, i as int),
            decreases n - i,
        {
            let ghost held = pieces(out@);
            self.put_result_line(&mut out, &results[i]);
            assert(pieces(out@) =~= head + result_lines(plain, results@, i + 1));
            if results[i].success {
                good += 1;
            }
            i += 1;
        }
        let bad: usize = n - good;
        Self::put_tally(&mut out, plain, good, bad, skipped, total);
        out
    }

    /// Adds the last line of the list of results to `out`.
    fn put_tally(out: &mut Vec<Span>, plain: bool, good: usize, bad: usize, skipped: usize, total: usize)
        ensures
            pieces(final(out)@) == pieces(old(out)@) + tally(
                plain,
                good as nat,
                bad as nat,
                skipped as nat,
                total as nat,
            ),
    {
        put(out, "\n", Style::Plain);
        let ghost start = pieces(out@);
        if plain {
            put_number(out, good as u64, Style::Plain);
            put(out, " tests", Style::Plain);
            put(out, " passed", Style::Plain);
            let ghost first = pieces(out@);
            Self::put_counted(out, bad, true, Style::Plain, " failed");
            Self::put_counted(out, skipped, true, Style::Plain, " skipped");
            assert(pieces(out@) =~= start + (seq![
                (decimal(good as nat), Style::Plain),
                (" tests"@, Style::Plain),
                (" passed"@, Style::Plain),
            ] + counted(bad as nat, true, Style::Plain, " failed"@) + counted(
                skipped as nat,
                true,
                Style::Plain,
                " skipped"@,
            )));
        } else {
            Self::put_counted(out, good, false, Style::Green, " passed");
            Self::put_counted(out, bad, good > 0, Style::Red, " failed");
            Self::put_counted(out, skipped, good > 0 || bad > 0, Style::Yellow, " skipped");
            assert(pieces(out@) =~= start + (counted(good as nat, false, Style::Green, " passed"@)
                + counted(bad as nat, good > 0, Style::Red, " failed"@) + counted(
                skipped as nat,
                good > 0 || bad > 0,
                Style::Yellow,
                " skipped"@,
            )));
        }
        let ghost middle = pieces(out@);
        put(out, " (total: ", Style::Plain);
        put_number(out, total as u64, Style::Plain);
        put(out, ")\n", Style::Plain);
        assert(pieces(out@) =~= middle + seq![
            (" (total: "@, Style::Plain),
            (decimal(total as nat), Style::Plain),
            (")\n"@, Style::Plain),
        ]);
    }

    /// Adds the details of one test that failed to `out`.
    fn put_failure(&self, out: &mut Vec<Span>, result: &TestResult)
        ensures
            pieces(final(out)@) == pieces(old(out)@) + failure_block(self.disable_color, *result),
    {
        let plain = self.disable_color;
        let bold = if plain {
            Style::Plain
        } else {
            Style::Bold
        };
        let yellow = if plain {
            Style::Plain
        } else {
            Style::Yellow
        };
        let red = if plain {
            Style::Plain
        } else {
            Style::Red
        };
        put(out, "---\n", Style::Plain);
        put(out, "Test: ", Style::Plain);
        put(out, result.name.as_str(), bold);
        put(out, "\n", Style::Plain);
        put(out, "Endpoint: ", Style::Plain);
        put(out, result.method.as_str(), yellow);
        put(out, " ", Style::Plain);
        put(out, result.endpoint.as_str(), yellow);
        put(out, "\n", Style::Plain);
        put(out, "Status: ", Style::Plain);
        put_number(out, result.actual_status as u64, red);
        put(out, " (expected ", Style::Plain);
        put_number(out, result.expected_status as u64, bold);
        put(out, ")\n", Style::Plain);
        let ghost first = pieces(out@);
        if result.messages.len() > 0 {
            put(out, "Messages:\n", Style::Plain);
            put_messages(out, plain, &result.messages);
        }
        let ghost second = pieces(out@);
        assert(second =~= first + (if result.messages@.len() > 0 {
            seq![("Messages:\n"@, Style::Plain)] + message_lines(
                plain,
                texts(result.messages@),
                result.messages@.len() as int,
            )
        } else {
            Seq::empty()
        }));
        match &result.response_body {
            Some(body) => {
                put(out, "Response Body:\n", Style::Plain);
                let text = self.format_response_body(body);
                put(out, text.as_str(), Style::Plain);
                put(out, "\n", Style::Plain);
            },
            None => {
                put(out, "Response Body: <none>\n", Style::Plain);
            },
        }
        assert(pieces(out@) =~= pieces(old(out)@) + failure_block(plain, *result));
    }

    /// The details of the tests that failed; nothing where none did.
    pub fn format_failure_details(&self, results: &Vec<TestResult>, width: usize) -> (r: Vec<Span>)
        ensures
            pieces(r@) == failure_details(self.disable_color, results@, width as nat),
    {
        let plain = self.disable_color;
        let n: usize = results.len();
        let mut any: bool = false;
        let mut i: usize = 0;
        while i < n
            invariant
                n == results.len(),
                i <= n,
                any == (passed(results@, i as int) < i),
            decreases n - i,
        {
            proof {
                lemma_passed_bound(results@, i as int);
            }
            if !results[i].success {
                any = true;
            }
            i += 1;
        }
        let mut out: Vec<Span> = Vec::new();
        assert(pieces(out@) =~= Seq::<(Seq<char>, Style)>::empty());
        proof {
            lemma_passed_bound(results@, n as int);
        }
        if !any {
            return out;
        }
        if plain {
            put(&mut out, "\nFailures:\n", Style::Plain);
        } else {
            put(&mut out, "\n", Style::Plain);
            put(&mut out, make_ruler(width).as_str(), Style::Blue);
            put(&mut out, "\n", Style::Plain);
            put(&mut out, "\n", Style::Plain);
            put(&mut out, "Failures:", Style::RedBold);
            put(&mut out, "\n", Style::Plain);
        }
        assert(pieces(out@) =~= failures_heading(plain, width as nat));
        let ghost head = pieces(out@);
        let mut first: bool = true;
        i = 0;
        assert(pieces(out@) =~= head + failure_blocks(plain, results@, 0));
        while i < n
            invariant
                n == results.len(),
                i <= n,
                plain == self.disable_color,
                first == (passed(results@, i as int) == i),
                pieces(out@) == head + failure_blocks(plain, results@, i as int),
            decreases n - i,
        {
            proof {
                lemma_passed_bound(results@, i as int);
            }
            if !results[i].success {
                let ghost held = pieces(out@);
                if !first {
                    put(&mut out, "\n", Style::Plain);
                }
                let ghost gap = pieces(out@);
                self.put_failure(&mut out, &results[i]);
                assert(pieces(out@) =~= head + failure_blocks(plain, results@, i + 1));
                first = false;
            }
            i += 1;
        }
        out
    }
}

} // verus!
