//! The checks on a suite before it runs: what is missing, what is not
//! allowed, and what is likely a mistake.
//!
//! The engine does not look at the file system. Whether a path is
//! absolute, and what stands at the path of a body file, is handed in.

use crate::engine::executor::{command_allowed, command_name};
use crate::json::{parse_failure, parsed, Json};
use crate::models::command::CommandStep;
use crate::models::suite::TestSuite;
use crate::models::test::Test;
use crate::text::{
    contains, contains_text, decimal, first_word_of, list_contains, push_decimal, same_text, texts,
    to_uppercase, uppercase,
};
use crate::utils::file::{escapes, escapes_directory, FileProbe};
use vstd::prelude::*;

verus! {

/// What was found out about the body file of a test.
#[derive(Debug)]
pub struct BodyFileFacts {
    /// Whether the path is absolute.
    pub absolute: bool,
    /// Whether the path has the extension `json`, in whatever case.
    pub json: bool,
    /// What stands at the path below the directory of the suite.
    pub probe: FileProbe,
}

/// What was found out about a test.
#[derive(Debug)]
pub struct TestFacts {
    /// What was found out about the body file, where the test names one.
    pub body_file: Option<BodyFileFacts>,
    /// For each step of the before-hook, whether its directory is an
    /// absolute path.
    pub before_dirs: Vec<bool>,
    /// For each step of the after-hook, whether its directory is an
    /// absolute path.
    pub after_dirs: Vec<bool>,
}

/// What was found out about a suite.
#[derive(Debug)]
pub struct SuiteFacts {
    /// For each step of the setup hook, whether its directory is an
    /// absolute path.
    pub setup_dirs: Vec<bool>,
    /// For each step of the teardown hook, whether its directory is an
    /// absolute path.
    pub teardown_dirs: Vec<bool>,
    /// What was found out about each test, in the order of the suite.
    pub tests: Vec<TestFacts>,
}

/// The longest time in milliseconds that a step may take without a
/// warning.
pub const LARGE_TIMEOUT_MS: u64 = 600000;

/// How messages name the step of the given number, counted from 1, of
/// the hook `context`.
pub open spec fn step_label(context: Seq<char>, number: nat) -> Seq<char> {
    context + " step "@ + decimal(number)
}

/// The message for a step without a command.
pub open spec fn run_finding(step: CommandStep, label: Seq<char>) -> Seq<Seq<char>> {
    if step.run@.len() == 0 {
        seq!["Error: "@ + label + " has empty 'run' field."@]
    } else {
        Seq::empty()
    }
}

/// The message for a step whose command may not run.
pub open spec fn allowed_finding(step: CommandStep, label: Seq<char>, allowed: Option<&Vec<String>>) -> Seq<
    Seq<char>,
> {
    if !command_allowed(step, allowed) {
        seq![
            "Error: "@ + label + " uses command '"@ + command_name(step)
                + "' which is not in allowed_commands list."@,
        ]
    } else {
        Seq::empty()
    }
}

/// The messages for the directory of a step: an error where it leaves
/// the directory of the suite, a warning where it is absolute.
pub open spec fn dir_findings(step: CommandStep, label: Seq<char>, absolute: bool) -> Seq<Seq<char>> {
    match step.dir {
        Some(dir) => (if escapes(dir@) {
            seq![
                "Error: "@ + label + " has invalid 'dir' path '"@ + dir@
                    + "' - path traversal is not allowed."@,
            ]
        } else {
            Seq::empty()
        }) + (if absolute {
            seq![
                "Warning: "@ + label + " uses absolute path '"@ + dir@
                    + "' - consider using relative paths for portability."@,
            ]
        } else {
            Seq::empty()
        }),
        None => Seq::empty(),
    }
}

/// The warning for a time limit of 0 or above ten minutes.
pub open spec fn timeout_findings(step: CommandStep, label: Seq<char>) -> Seq<Seq<char>> {
    match step.timeout_ms {
        Some(t) => if t == 0 {
            seq![
                "Warning: "@ + label
                    + " has timeout_ms set to 0, which may cause immediate timeout."@,
            ]
        } else if t > LARGE_TIMEOUT_MS {
            seq![
                "Warning: "@ + label + " has very large timeout_ms ("@ + decimal(t as nat)
                    + "ms), consider reducing it."@,
            ]
        } else {
            Seq::empty()
        },
        None => Seq::empty(),
    }
}

/// The warning for a step that exports without capturing.
pub open spec fn export_finding(step: CommandStep, label: Seq<char>) -> Seq<Seq<char>> {
    if step.export is Some && step.capture is None {
        seq![
            "Warning: "@ + label
                + " uses 'export' without 'capture'. Export requires JSON stdout which may not be captured."@,
        ]
    } else {
        Seq::empty()
    }
}

/// The message for a step with an `on` condition outside an after-hook:
/// a hook is an after-hook where its name holds `after`.
pub open spec fn on_finding(step: CommandStep, label: Seq<char>, context: Seq<char>) -> Seq<Seq<char>> {
    if step.on is Some && !contains(context, "after"@) {
        seq!["Error: "@ + label + " uses 'on' field which is only valid for 'after' hooks."@]
    } else {
        Seq::empty()
    }
}

/// What is found in one step, in the order of the checks.
pub open spec fn step_findings(
    step: CommandStep,
    context: Seq<char>,
    number: nat,
    allowed: Option<&Vec<String>>,
    absolute: bool,
) -> Seq<Seq<char>> {
    let label = step_label(context, number);
    run_finding(step, label) + allowed_finding(step, label, allowed) + dir_findings(
        step,
        label,
        absolute,
    ) + timeout_findings(step, label) + export_finding(step, label) + on_finding(
        step,
        label,
        context,
    )
}

/// Whether the directory of the step of index `i` is absolute, as far as
/// that was found out.
pub open spec fn known_absolute(absolute_dirs: Seq<bool>, i: int) -> bool {
    0 <= i < absolute_dirs.len() && absolute_dirs[i]
}

/// What is found in the first `n` steps of a hook, step by step.
pub open spec fn steps_findings(
    steps: Seq<CommandStep>,
    n: int,
    context: Seq<char>,
    allowed: Option<&Vec<String>>,
    absolute_dirs: Seq<bool>,
) -> Seq<Seq<char>>
    decreases n,
{
    if n <= 0 || n > steps.len() {
        Seq::empty()
    } else {
        steps_findings(steps, n - 1, context, allowed, absolute_dirs) + step_findings(
            steps[n - 1],
            context,
            n as nat,
            allowed,
            known_absolute(absolute_dirs, n - 1),
        )
    }
}

/// What is found in one step.
pub fn validate_command_step(
    step: &CommandStep,
    context: &str,
    number: usize,
    allowed_commands: Option<&Vec<String>>,
    absolute: bool,
) -> (r: Vec<String>)
    ensures
        texts(r@) == step_findings(*step, context@, number as nat, allowed_commands, absolute),
{
    let mut label = String::from_str(context);
    label.append(" step ");
    push_decimal(&mut label, number as u64);
    let ghost l = label@;
    let mut out: Vec<String> = Vec::new();
    assert(texts(out@) =~= Seq::<Seq<char>>::empty());
    if step.run.as_str().unicode_len() == 0 {
        let mut msg = String::from_str("Error: ");
        msg.append(label.as_str());
        msg.append(" has empty 'run' field.");
        out.push(msg);
    }
    assert(texts(out@) =~= run_finding(*step, l));
    let ghost first = texts(out@);
    match allowed_commands {
        Some(allowed) => {
            let checked: &String = if step.should_use_shell() {
                match &step.args {
                    Some(args) => if args.len() > 1 {
                        &args[1]
                    } else {
                        &step.run
                    },
                    None => &step.run,
                }
            } else {
                &step.run
            };
            let name = first_word_of(checked.as_str());
            if !list_contains(allowed, name.as_str()) {
                let mut msg = String::from_str("Error: ");
                msg.append(label.as_str());
                msg.append(" uses command '");
                msg.append(name.as_str());
                msg.append("' which is not in allowed_commands list.");
                out.push(msg);
            }
        },
        None => {},
    }
    assert(texts(out@) =~= first + allowed_finding(*step, l, allowed_commands));
    let ghost second = texts(out@);
    match &step.dir {
        Some(dir) => {
            if escapes_directory(dir.as_str()) {
                let mut msg = String::from_str("Error: ");
                msg.append(label.as_str());
                msg.append(" has invalid 'dir' path '");
                msg.append(dir.as_str());
                msg.append("' - path traversal is not allowed.");
                out.push(msg);
            }
            if absolute {
                let mut msg = String::from_str("Warning: ");
                msg.append(label.as_str());
                msg.append(" uses absolute path '");
                msg.append(dir.as_str());
                msg.append("' - consider using relative paths for portability.");
                out.push(msg);
            }
        },
        None => {},
    }
    assert(texts(out@) =~= second + dir_findings(*step, l, absolute));
    let ghost third = texts(out@);
    match step.timeout_ms {
        Some(t) => {
            if t == 0 {
                let mut msg = String::from_str("Warning: ");
                msg.append(label.as_str());
                msg.append(" has timeout_ms set to 0, which may cause immediate timeout.");
                out.push(msg);
            } else if t > LARGE_TIMEOUT_MS {
                let mut msg = String::from_str("Warning: ");
                msg.append(label.as_str());
                msg.append(" has very large timeout_ms (");
                push_decimal(&mut msg, t);
                msg.append("ms), consider reducing it.");
                out.push(msg);
            }
        },
        None => {},
    }
    assert(texts(out@) =~= third + timeout_findings(*step, l));
    let ghost fourth = texts(out@);
    if step.export.is_some() && step.capture.is_none() {
        let mut msg = String::from_str("Warning: ");
        msg.append(label.as_str());
        msg.append(
            " uses 'export' without 'capture'. Export requires JSON stdout which may not be captured.",
        );
        out.push(msg);
    }
    assert(texts(out@) =~= fourth + export_finding(*step, l));
    let ghost fifth = texts(out@);
    if step.on.is_some() && !contains_text(context, "after") {
        let mut msg = String::from_str("Error: ");
        msg.append(label.as_str());
        msg.append(" uses 'on' field which is only valid for 'after' hooks.");
        out.push(msg);
    }
    assert(texts(out@) =~= fifth + on_finding(*step, l, context@));
    out
}

/// What is found in the steps of a hook. `absolute_dirs` says for each
/// step whether its directory is an absolute path; a step that it does
/// not reach counts as one whose directory is not.
pub fn validate_command_steps(
    steps: &Vec<CommandStep>,
    context: &str,
    allowed_commands: Option<&Vec<String>>,
    absolute_dirs: &Vec<bool>,
) -> (r: Vec<String>)
    ensures
        texts(r@) == steps_findings(
            steps@,
            steps@.len() as int,
            context@,
            allowed_commands,
            absolute_dirs@,
        ),
{
    let mut out: Vec<String> = Vec::new();
    let n: usize = steps.len();
    let mut i: usize = 0;
    assert(texts(out@) =~= Seq::<Seq<char>>::empty());
    while i < n
        invariant
            n == steps.len(),
            i <= n,
            texts(out@) == steps_findings(
                steps@,
                i as int,
                context@,
                allowed_commands,
                absolute_dirs@,
            ),
        decreases n - i,
    {
        let absolute = i < absolute_dirs.len() && absolute_dirs[i];
        let mut found = validate_command_step(&steps[i], context, i + 1, allowed_commands, absolute);
        let ghost held = texts(out@);
        let ghost more = texts(found@);
        out.append(&mut found);
        assert(texts(out@) =~= held + more);
        i += 1;
    }
    out
}

/// Whether `method` is an HTTP method that tests may use, in whatever
/// case.
pub open spec fn known_method(method: Seq<char>) -> bool {
    let m = uppercase(method);
    m == "GET"@ || m == "POST"@ || m == "PUT"@ || m == "DELETE"@ || m == "PATCH"@ || m == "HEAD"@
        || m == "OPTIONS"@
}

/// What is found in the fields of a test: a missing name, method or
/// endpoint, a method that is none, and a body together with a body
/// file.
pub open spec fn field_findings(test: Test) -> Seq<Seq<char>> {
    (if test.name@.len() == 0 {
        seq!["Error: A test is missing a name."@]
    } else {
        Seq::empty()
    }) + (if test.method@.len() == 0 {
        seq!["Error: Test `"@ + test.name@ + "` is missing an HTTP method."@]
    } else {
        Seq::empty()
    }) + (if test.endpoint@.len() == 0 {
        seq!["Error: Test `"@ + test.name@ + "` is missing an endpoint."@]
    } else {
        Seq::empty()
    }) + (if !known_method(test.method@) {
        seq![
            "Error: Test `"@ + test.name@ + "` has an invalid HTTP method `"@ + test.method@
                + "`."@,
        ]
    } else {
        Seq::empty()
    }) + (if test.body is Some && test.body_file is Some {
        seq![
            "Error: Test `"@ + test.name@
                + "` cannot have both `body` and `body_file` specified."@,
        ]
    } else {
        Seq::empty()
    })
}

/// Whether `method` is an HTTP method that tests may use.
pub fn is_known_method(method: &str) -> (r: bool)
    ensures
        r == known_method(method@),
{
    let upper = to_uppercase(method);
    let m = upper.as_str();
    same_text(m, "GET") || same_text(m, "POST") || same_text(m, "PUT") || same_text(m, "DELETE")
        || same_text(m, "PATCH") || same_text(m, "HEAD") || same_text(m, "OPTIONS")
}

/// What is found in the fields of a test.
pub fn validate_fields(test: &Test) -> (r: Vec<String>)
    ensures
        texts(r@) == field_findings(*test),
{
    let mut out: Vec<String> = Vec::new();
    let ghost name = test.name@;
    assert(texts(out@) =~= Seq::<Seq<char>>::empty());
    if test.name.as_str().unicode_len() == 0 {
        out.push(String::from_str("Error: A test is missing a name."));
    }
    let ghost a = texts(out@);
    if test.method.as_str().unicode_len() == 0 {
        let mut msg = String::from_str("Error: Test `");
        msg.append(test.name.as_str());
        msg.append("` is missing an HTTP method.");
        out.push(msg);
    }
    let ghost b = texts(out@);
    if test.endpoint.as_str().unicode_len() == 0 {
        let mut msg = String::from_str("Error: Test `");
        msg.append(test.name.as_str());
        msg.append("` is missing an endpoint.");
        out.push(msg);
    }
    let ghost c = texts(out@);
    if !is_known_method(test.method.as_str()) {
        let mut msg = String::from_str("Error: Test `");
        msg.append(test.name.as_str());
        msg.append("` has an invalid HTTP method `");
        msg.append(test.method.as_str());
        msg.append("`.");
        out.push(msg);
    }
    let ghost d = texts(out@);
    if test.body.is_some() && test.body_file.is_some() {
        let mut msg = String::from_str("Error: Test `");
        msg.append(test.name.as_str());
        msg.append("` cannot have both `body` and `body_file` specified.");
        out.push(msg);
    }
    assert(texts(out@) =~= field_findings(*test));
    out
}

/// What is wrong with the body file of a test, where something is.
///
/// The checks end at the first that fails: the path is empty, it leaves
/// the directory of the suite, it is absolute, nothing stands there,
/// what stands there is no file, or it is a JSON file that cannot be
/// read or holds no JSON.
pub open spec fn body_file_finding(test_name: Seq<char>, body_file: Seq<char>, facts: BodyFileFacts) -> Option<
    Seq<char>,
> {
    let head = "Error: Test `"@ + test_name;
    if body_file.len() == 0 {
        Some(head + "` has an empty `body_file` path."@)
    } else if escapes(body_file) {
        Some(
            head + "` has an invalid `body_file` path `"@ + body_file
                + "` - path traversal is not allowed."@,
        )
    } else if facts.absolute || facts.probe is Absolute {
        Some(
            head + "` has an invalid `body_file` path `"@ + body_file
                + "` - absolute paths are not allowed."@,
        )
    } else {
        match facts.probe {
            FileProbe::Absolute => None,
            FileProbe::Missing => Some(
                head + "` references a non-existent `body_file`: `"@ + body_file + "`"@,
            ),
            FileProbe::NotAFile => Some(
                head + "` references a `body_file` that is not a file: `"@ + body_file + "`"@,
            ),
            FileProbe::Unreadable(why) => if facts.json {
                Some(
                    head + "` references an invalid JSON file `"@ + body_file
                        + "`: Cannot read file: "@ + why@,
                )
            } else {
                None
            },
            FileProbe::Content(text) => if facts.json && parsed(text@) is None {
                Some(
                    head + "` references an invalid JSON file `"@ + body_file
                        + "`: Invalid JSON syntax: "@ + parse_failure(text@),
                )
            } else {
                None
            },
        }
    }
}

/// Says what is wrong with the body file of a test, where something is.
pub fn validate_body_file(test_name: &str, body_file: &str, facts: &BodyFileFacts) -> (r: Option<
    String,
>)
    ensures
        match r {
            Some(msg) => body_file_finding(test_name@, body_file@, *facts) == Some(msg@),
            None => body_file_finding(test_name@, body_file@, *facts) is None,
        },
{
    let mut msg = String::from_str("Error: Test `");
    msg.append(test_name);
    if body_file.unicode_len() == 0 {
        msg.append("` has an empty `body_file` path.");
        return Some(msg);
    }
    if escapes_directory(body_file) {
        msg.append("` has an invalid `body_file` path `");
        msg.append(body_file);
        msg.append("` - path traversal is not allowed.");
        return Some(msg);
    }
    let absolute = match &facts.probe {
        FileProbe::Absolute => true,
        _ => facts.absolute,
    };
    if absolute {
        msg.append("` has an invalid `body_file` path `");
        msg.append(body_file);
        msg.append("` - absolute paths are not allowed.");
        return Some(msg);
    }
    match &facts.probe {
        FileProbe::Absolute => None,
        FileProbe::Missing => {
            msg.append("` references a non-existent `body_file`: `");
            msg.append(body_file);
            msg.append("`");
            Some(msg)
        },
        FileProbe::NotAFile => {
            msg.append("` references a `body_file` that is not a file: `");
            msg.append(body_file);
            msg.append("`");
            Some(msg)
        },
        FileProbe::Unreadable(why) => {
            if facts.json {
                msg.append("` references an invalid JSON file `");
                msg.append(body_file);
                msg.append("`: Cannot read file: ");
                msg.append(why.as_str());
                Some(msg)
            } else {
                None
            }
        },
        FileProbe::Content(text) => {
            if facts.json {
                match Json::parse(text.as_str()) {
                    Ok(_) => None,
                    Err(detail) => {
                        msg.append("` references an invalid JSON file `");
                        msg.append(body_file);
                        msg.append("`: Invalid JSON syntax: ");
                        msg.append(detail.as_str());
                        Some(msg)
                    },
                }
            } else {
                None
            }
        },
    }
}

/// Whether `on` names an outcome: `success`, `failure` or `always`.
pub open spec fn known_outcome(on: Seq<char>) -> bool {
    on == "success"@ || on == "failure"@ || on == "always"@
}

/// The messages for the steps among the first `n` of an after-hook whose
/// `on` condition names no outcome.
pub open spec fn outcome_findings(test_name: Seq<char>, steps: Seq<CommandStep>, n: int) -> Seq<
    Seq<char>,
>
    decreases n,
{
    if n <= 0 || n > steps.len() {
        Seq::empty()
    } else {
        outcome_findings(test_name, steps, n - 1) + match steps[n - 1].on {
            Some(on) => if !known_outcome(on@) {
                seq![
                    "Error: Test `"@ + test_name + "` after hook has invalid 'on' condition '"@
                        + on@ + "'. Must be one of: success, failure, always"@,
                ]
            } else {
                Seq::empty()
            },
            None => Seq::empty(),
        }
    }
}

/// The messages for the steps of an after-hook whose `on` condition
/// names no outcome.
pub fn validate_outcomes(test_name: &str, steps: &Vec<CommandStep>) -> (r: Vec<String>)
    ensures
        texts(r@) == outcome_findings(test_name@, steps@, steps@.len() as int),
{
    let mut out: Vec<String> = Vec::new();
    let n: usize = steps.len();
    let mut i: usize = 0;
    assert(texts(out@) =~= Seq::<Seq<char>>::empty());
    while i < n
        invariant
            n == steps.len(),
            i <= n,
            texts(out@) == outcome_findings(test_name@, steps@, i as int),
        decreases n - i,
    {
        let ghost held = texts(out@);
        match &steps[i].on {
            Some(on) => {
                let known = same_text(on.as_str(), "success") || same_text(on.as_str(), "failure")
                    || same_text(on.as_str(), "always");
                if !known {
                    let mut msg = String::from_str("Error: Test `");
                    msg.append(test_name);
                    msg.append("` after hook has invalid 'on' condition '");
                    msg.append(on.as_str());
                    msg.append("'. Must be one of: success, failure, always");
                    out.push(msg);
                    assert(texts(out@) =~= held.push(msg@));
                }
            },
            None => {},
        }
        i += 1;
    }
    out
}

/// The first line of a validation: how many tests were found.
pub open spec fn summary_line(suite: TestSuite) -> Seq<char> {
    if suite.tests@.len() == 0 {
        "Validation failed: No tests found in `tests.toml`."@
    } else {
        "Validation successful: Found "@ + decimal(suite.tests@.len()) + " tests."@
    }
}

/// The first line of a validation.
pub fn summarize(suite: &TestSuite) -> (r: String)
    ensures
        r@ == summary_line(*suite),
{
    if suite.tests.len() == 0 {
        String::from_str("Validation failed: No tests found in `tests.toml`.")
    } else {
        let mut msg = String::from_str("Validation successful: Found ");
        push_decimal(&mut msg, suite.tests.len() as u64);
        msg.append(" tests.");
        msg
    }
}

/// How messages name a hook of a test.
pub open spec fn hook_label(test_name: Seq<char>, which: Seq<char>) -> Seq<char> {
    "test '"@ + test_name + "' "@ + which
}

/// What was found out about the directories of the before-hook.
pub open spec fn before_dirs_of(facts: Option<TestFacts>) -> Seq<bool> {
    match facts {
        Some(f) => f.before_dirs@,
        None => Seq::empty(),
    }
}

/// What was found out about the directories of the after-hook.
pub open spec fn after_dirs_of(facts: Option<TestFacts>) -> Seq<bool> {
    match facts {
        Some(f) => f.after_dirs@,
        None => Seq::empty(),
    }
}

/// What is found in the body file of a test.
pub open spec fn body_findings(test: Test, facts: Option<TestFacts>) -> Seq<Seq<char>> {
    match test.body_file {
        Some(path) => match facts {
            Some(f) => match f.body_file {
                Some(found) => match body_file_finding(test.name@, path@, found) {
                    Some(msg) => seq![msg],
                    None => Seq::empty(),
                },
                None => Seq::empty(),
            },
            None => Seq::empty(),
        },
        None => Seq::empty(),
    }
}

/// What is found in a test: in its fields, in its body file, in its
/// before-hook and in its after-hook.
pub open spec fn test_findings(test: Test, facts: Option<TestFacts>, allowed: Option<&Vec<String>>) -> Seq<
    Seq<char>,
> {
    field_findings(test) + body_findings(test, facts) + (match test.before {
        Some(steps) => steps_findings(
            steps@,
            steps@.len() as int,
            hook_label(test.name@, "before"@),
            allowed,
            before_dirs_of(facts),
        ),
        None => Seq::empty(),
    }) + (match test.after {
        Some(steps) => steps_findings(
            steps@,
            steps@.len() as int,
            hook_label(test.name@, "after"@),
            allowed,
            after_dirs_of(facts),
        ) + outcome_findings(test.name@, steps@, steps@.len() as int),
        None => Seq::empty(),
    })
}

/// What is found in a test. Where nothing was found out about the test,
/// its body file is not checked, and no directory counts as absolute.
pub fn validate_test(test: &Test, facts: Option<&TestFacts>, allowed_commands: Option<&Vec<String>>) -> (r:
    Vec<String>)
    ensures
        texts(r@) == test_findings(
            *test,
            match facts {
                Some(f) => Some(*f),
                None => None,
            },
            allowed_commands,
        ),
{
    let ghost known: Option<TestFacts> = match facts {
        Some(f) => Some(*f),
        None => None,
    };
    let mut out = validate_fields(test);
    let ghost a = texts(out@);
    match &test.body_file {
        Some(path) => match facts {
            Some(f) => match &f.body_file {
                Some(found) => match validate_body_file(test.name.as_str(), path.as_str(), found) {
                    Some(msg) => {
                        out.push(msg);
                    },
                    None => {},
                },
                None => {},
            },
            None => {},
        },
        None => {},
    }
    assert(texts(out@) =~= a + body_findings(*test, known));
    let ghost b = texts(out@);
    let none: Vec<bool> = Vec::new();
    assert(none@ =~= Seq::<bool>::empty());
    match &test.before {
        Some(steps) => {
            let mut label = String::from_str("test '");
            label.append(test.name.as_str());
            label.append("' ");
            label.append("before");
            let dirs: &Vec<bool> = match facts {
                Some(f) => &f.before_dirs,
                None => &none,
            };
            let mut found = validate_command_steps(steps, label.as_str(), allowed_commands, dirs);
            let ghost more = texts(found@);
            out.append(&mut found);
            assert(texts(out@) =~= b + more);
        },
        None => {
            assert(texts(out@) =~= b + Seq::<Seq<char>>::empty());
        },
    }
    let ghost c = texts(out@);
    match &test.after {
        Some(steps) => {
            let mut label = String::from_str("test '");
            label.append(test.name.as_str());
            label.append("' ");
            label.append("after");
            let dirs: &Vec<bool> = match facts {
                Some(f) => &f.after_dirs,
                None => &none,
            };
            let mut found = validate_command_steps(steps, label.as_str(), allowed_commands, dirs);
            let ghost more = texts(found@);
            out.append(&mut found);
            assert(texts(out@) =~= c + more);
            let mut found = validate_outcomes(test.name.as_str(), steps);
            let ghost last = texts(found@);
            out.append(&mut found);
            assert(texts(out@) =~= c + (more + last));
        },
        None => {
            assert(texts(out@) =~= c + Seq::<Seq<char>>::empty());
        },
    }
    out
}

/// The allowed commands of a suite.
pub open spec fn allowed_of(suite: &TestSuite) -> Option<&Vec<String>> {
    match &suite.config.allowed_commands {
        Some(list) => Some(list),
        None => None,
    }
}

/// The facts about the test of index `i`, as far as they were found
/// out.
pub open spec fn facts_of(facts: SuiteFacts, i: int) -> Option<TestFacts> {
    if 0 <= i < facts.tests@.len() {
        Some(facts.tests@[i])
    } else {
        None
    }
}

/// What is found in the first `n` tests of a suite, test by test.
pub open spec fn tests_findings(suite: TestSuite, facts: SuiteFacts, n: int) -> Seq<Seq<char>>
    decreases n,
{
    if n <= 0 || n > suite.tests@.len() {
        Seq::empty()
    } else {
        tests_findings(suite, facts, n - 1) + test_findings(
            suite.tests@[n - 1],
            facts_of(facts, n - 1),
            allowed_of(&suite),
        )
    }
}

/// Everything that a validation says of a suite: the summary line, what
/// is found in the setup and teardown hooks, and what is found in each
/// test.
pub open spec fn suite_findings(suite: TestSuite, facts: SuiteFacts) -> Seq<Seq<char>> {
    seq![summary_line(suite)] + (match suite.setup {
        Some(steps) => steps_findings(
            steps@,
            steps@.len() as int,
            "setup"@,
            allowed_of(&suite),
            facts.setup_dirs@,
        ),
        None => Seq::empty(),
    }) + (match suite.teardown {
        Some(steps) => steps_findings(
            steps@,
            steps@.len() as int,
            "teardown"@,
            allowed_of(&suite),
            facts.teardown_dirs@,
        ),
        None => Seq::empty(),
    }) + tests_findings(suite, facts, suite.tests@.len() as int)
}

/// Checks a suite, and says everything that is found. A test about
/// which nothing was found out is checked as one without a body file
/// and without absolute directories.
pub fn validate(suite: &TestSuite, facts: &SuiteFacts) -> (r: Vec<String>)
    ensures
        texts(r@) == suite_findings(*suite, *facts),
{
    let allowed: Option<&Vec<String>> = match &suite.config.allowed_commands {
        Some(list) => Some(list),
        None => None,
    };
    let mut out: Vec<String> = Vec::new();
    out.push(summarize(suite));
    assert(texts(out@) =~= seq![summary_line(*suite)]);
    let ghost a = texts(out@);
    match &suite.setup {
        Some(steps) => {
            let mut found = validate_command_steps(steps, "setup", allowed, &facts.setup_dirs);
            let ghost more = texts(found@);
            out.append(&mut found);
            assert(texts(out@) =~= a + more);
        },
        None => {
            assert(texts(out@) =~= a + Seq::<Seq<char>>::empty());
        },
    }
    let ghost b = texts(out@);
    match &suite.teardown {
        Some(steps) => {
            let mut found = validate_command_steps(steps, "teardown", allowed, &facts.teardown_dirs);
            let ghost more = texts(found@);
            out.append(&mut found);
            assert(texts(out@) =~= b + more);
        },
        None => {
            assert(texts(out@) =~= b + Seq::<Seq<char>>::empty());
        },
    }
    let ghost c = texts(out@);
    let n: usize = suite.tests.len();
    let mut i: usize = 0;
    assert(texts(out@) =~= c + tests_findings(*suite, *facts, 0));
    while i < n
        invariant
            n == suite.tests.len(),
            i <= n,
            allowed == allowed_of(suite),
            texts(out@) == c + tests_findings(*suite, *facts, i as int),
        decreases n - i,
    {
        let test_facts: Option<&TestFacts> = if i < facts.tests.len() {
            Some(&facts.tests[i])
        } else {
            None
        };
        let mut found = validate_test(&suite.tests[i], test_facts, allowed);
        let ghost held = texts(out@);
        let ghost more = texts(found@);
        out.append(&mut found);
        assert(texts(out@) =~= held + more);
        assert(held + more =~= c + (tests_findings(*suite, *facts, i as int) + more));
        i += 1;
    }
    out
}

} // verus!
