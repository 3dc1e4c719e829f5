//! The orchestrator: a test with its hooks, and a suite with its tests.
//!
//! A test runs its before-hook, then its request, then its after-hook.
//! The engine decides each step and the caller performs it: it launches
//! the process, looks up the body file or sends the request, and hands
//! back what came of it.

use crate::engine::commands::{
    advanced, execute_command_steps, resumed, CommandError, HookAction, HookContext, HookState,
    Selection,
};
use crate::engine::execution::{
    concluded, probed, run, started, ExecutionResult, RunAction, RunEvent,
};
use crate::engine::executor::{Invocation, Outcome, Platform, StepEvent};
use crate::engine::variables::Variables;
use crate::http::client::{Exchange, RequestData};
use crate::json::Json;
use crate::models::command::CommandStep;
use crate::models::suite::TestSuite;
use crate::models::test::Test;
use crate::text::{contains, contains_text, texts};
use crate::utils::file::FileProbe;
use vstd::prelude::*;

verus! {

/// The result of one test.
#[derive(Debug)]
pub struct TestResult {
    /// The name of the test.
    pub name: String,
    /// Whether the test passed.
    pub success: bool,
    /// The status that the test expects.
    pub expected_status: u16,
    /// The status of the response; 0 where there was none.
    pub actual_status: u16,
    /// The body of the response.
    pub response_body: Option<Json>,
    /// The headers of the response.
    pub headers: Vec<(String, String)>,
    /// Why the test failed, and what went wrong in its hooks.
    pub messages: Vec<String>,
    /// The HTTP method of the test.
    pub method: String,
    /// The endpoint of the test, as the suite gives it.
    pub endpoint: String,
}

/// What a run needs to know of its surroundings.
pub struct Surroundings<'a> {
    /// The environment that `${{NAME}}` markers resolve against.
    pub env: &'a Variables,
    /// The base directory of the suite.
    pub work_dir: &'a str,
    /// The commands that hooks may run, where the suite restricts them.
    pub allowed_commands: Option<&'a Vec<String>>,
    /// The kind of system that runs the processes.
    pub platform: Platform,
}

/// The context of a hook in these surroundings.
pub open spec fn hook_context<'a>(
    around: Surroundings<'a>,
    selection: Selection,
    phase_name: &'a str,
) -> HookContext<'a> {
    HookContext {
        env: around.env,
        work_dir: around.work_dir,
        allowed_commands: around.allowed_commands,
        platform: around.platform,
        selection,
        phase_name,
    }
}

/// The part of a test that is in progress.
#[derive(Debug, Clone, Copy, PartialEq, Eq, Structural)]
pub enum TestStage {
    /// The before-hook.
    Before,
    /// The request.
    Request,
    /// The after-hook.
    After,
}

/// Where a test stands.
#[derive(Debug)]
pub struct TestProgress {
    /// The part of the test that is in progress.
    pub stage: TestStage,
    /// Where the hook in progress stands.
    pub hook: HookState,
    /// What went wrong in the before-hook.
    pub failure: Option<String>,
    /// The result of the test before its after-hook.
    pub result: Option<TestResult>,
}

/// What happened to a test.
#[derive(Debug)]
pub enum Event {
    /// The test is to be started.
    Start,
    /// The process of a step of a hook ended.
    ProcessEnded(Outcome),
    /// The body file was looked up.
    Probed(FileProbe),
    /// The request was sent.
    Responded(Exchange),
}

/// What is to be done for a test.
#[derive(Debug)]
pub enum TestAction {
    /// Launch this process, and come back with how it ended.
    Launch(Invocation),
    /// Look up the body file at this path below the directory of the
    /// suite, and come back with what is there.
    Probe(String),
    /// Send this request, and come back with the response. The text,
    /// where there is one, says why the request goes without the body
    /// that the test names.
    Send(RequestData, Option<String>),
    /// The test is over.
    Done(TestResult),
}

/// The one text, or none.
pub open spec fn optional_text(t: Option<Seq<char>>) -> Seq<Seq<char>> {
    match t {
        Some(x) => seq![x],
        None => Seq::empty(),
    }
}

/// The text of a failure that was kept.
pub open spec fn kept(failure: Option<String>) -> Option<Seq<char>> {
    match failure {
        Some(s) => Some(s@),
        None => None,
    }
}

/// Whether `r` names `test`.
pub open spec fn names(r: TestResult, test: Test) -> bool {
    &&& r.name@ == test.name@
    &&& r.expected_status == test.expected_status
    &&& r.method@ == test.method@
    &&& r.endpoint@ == test.endpoint@
}

/// Whether `r` is the result of a test whose request was not sent: it
/// failed, with the actual status 0, for the reason `why`.
pub open spec fn unsent(r: TestResult, test: Test, why: Seq<char>) -> bool {
    &&& names(r, test)
    &&& !r.success
    &&& r.actual_status == 0
    &&& r.response_body is None
    &&& r.headers@.len() == 0
    &&& texts(r.messages@) == seq![why]
}

/// Whether `r` carries what the HTTP phase found.
pub open spec fn carries(r: TestResult, test: Test, found: ExecutionResult) -> bool {
    &&& names(r, test)
    &&& r.success == found.success
    &&& r.actual_status == found.status.1
    &&& r.response_body == found.body
    &&& r.headers == found.headers
    &&& r.messages == found.errors
}

/// Whether `r` is the result of the HTTP phase of `test` for
/// `exchange`, and `after` the store behind it.
pub open spec fn answered(
    r: TestResult,
    test: Test,
    exchange: Exchange,
    env: Map<Seq<char>, Seq<char>>,
    before: Map<Seq<char>, Seq<char>>,
    after: Map<Seq<char>, Seq<char>>,
) -> bool {
    exists|found: ExecutionResult| #[trigger]
        concluded(found, test, exchange, env, before, after) && carries(r, test, found)
}

/// Whether `r` is `base` with the failures of the hooks added to its
/// messages: that of the after-hook, then that of the before-hook.
/// Whether the test passed is not touched.
pub open spec fn completes(
    r: TestResult,
    base: TestResult,
    after_failure: Option<Seq<char>>,
    before_failure: Option<Seq<char>>,
) -> bool {
    &&& r.name == base.name
    &&& r.success == base.success
    &&& r.expected_status == base.expected_status
    &&& r.actual_status == base.actual_status
    &&& r.response_body == base.response_body
    &&& r.headers == base.headers
    &&& texts(r.messages@) == texts(base.messages@) + optional_text(after_failure)
        + optional_text(before_failure)
    &&& r.method == base.method
    &&& r.endpoint == base.endpoint
}

/// What is said of a before-hook that failed.
pub open spec fn before_failure(e: CommandError) -> Seq<char> {
    "Before hook failed: "@ + e.message()
}

/// What is said of an after-hook that failed.
pub open spec fn after_failure(e: CommandError) -> Seq<char> {
    "After hook failed: "@ + e.message()
}

/// Whether `action` is what follows from the after-hook doing
/// `hook_action`, the test having the result `base` so far.
pub open spec fn closed(
    action: TestAction,
    progress: TestProgress,
    hook_action: HookAction,
    hook: HookState,
    base: TestResult,
    failure: Option<Seq<char>>,
) -> bool {
    match hook_action {
        HookAction::Launch(inv) => {
            &&& action == TestAction::Launch(inv)
            &&& progress.stage == TestStage::After
            &&& progress.hook == hook
            &&& progress.result == Some(base)
            &&& kept(progress.failure) == failure
        },
        HookAction::Done(Ok(_)) => action matches TestAction::Done(r) && completes(
            r,
            base,
            None,
            failure,
        ),
        HookAction::Done(Err(e)) => action matches TestAction::Done(r) && completes(
            r,
            base,
            Some(after_failure(e)),
            failure,
        ),
    }
}

/// Whether `action` is the right start of the after-hook of `test`, the
/// test having the result `base` so far.
///
/// The steps that run are chosen by whether the test passed so far:
/// those for `success` where it did, those for `failure` where it did
/// not, and every other step. A test without an after-hook is over.
pub open spec fn closing(
    action: TestAction,
    progress: TestProgress,
    test: Test,
    base: TestResult,
    failure: Option<Seq<char>>,
    around: Surroundings,
    vars: Map<Seq<char>, Seq<char>>,
) -> bool {
    match test.after {
        Some(steps) => exists|hook_action: HookAction, hook: HookState| #[trigger]
            advanced(
                hook_action,
                hook,
                steps@,
                0,
                0,
                hook_context(around, Selection::Outcome(base.success), "after"),
                vars,
            ) && closed(action, progress, hook_action, hook, base, failure),
        None => action matches TestAction::Done(r) && completes(r, base, None, failure),
    }
}

/// Whether `action` hands on what the HTTP phase asks for.
pub open spec fn forwards(action: TestAction, asked: RunAction) -> bool {
    match asked {
        RunAction::Probe(p) => action == TestAction::Probe(p),
        RunAction::Send(req, warning) => action == TestAction::Send(req, warning),
        RunAction::Done(_) => false,
    }
}

/// Whether `action` is the right start of the request of `test`.
pub open spec fn requesting(
    action: TestAction,
    progress: TestProgress,
    test: Test,
    env: Map<Seq<char>, Seq<char>>,
    vars: Map<Seq<char>, Seq<char>>,
) -> bool {
    &&& progress.stage == TestStage::Request
    &&& exists|asked: RunAction| #[trigger] started(asked, test, env, vars) && forwards(action, asked)
}

/// Whether `action` is what follows from the before-hook doing
/// `hook_action`.
///
/// While the hook has a process to launch, the test waits for it. A hook
/// that ends well lets the request start. A hook that fails fails the
/// test: the request is not sent, and the after-hook starts on the
/// failure.
pub open spec fn opened(
    action: TestAction,
    progress: TestProgress,
    hook_action: HookAction,
    hook: HookState,
    test: Test,
    around: Surroundings,
    vars: Map<Seq<char>, Seq<char>>,
) -> bool {
    match hook_action {
        HookAction::Launch(inv) => action == TestAction::Launch(inv) && progress.stage
            == TestStage::Before && progress.hook == hook,
        HookAction::Done(Ok(_)) => requesting(action, progress, test, around.env@, vars),
        HookAction::Done(Err(e)) => exists|base: TestResult| #[trigger]
            unsent(base, test, before_failure(e)) && closing(
                action,
                progress,
                test,
                base,
                Some(before_failure(e)),
                around,
                vars,
            ),
    }
}

/// Whether a hook in progress stands at one of `steps`.
pub open spec fn stands_in(hook: HookState, steps: Option<Vec<CommandStep>>) -> bool {
    steps matches Some(s) && hook.index < s@.len() && 0 < hook.number <= hook.index + 1
}

/// Whether a test in progress waits for the process of a hook.
pub open spec fn awaits_process(progress: TestProgress, test: Test) -> bool {
    match progress.stage {
        TestStage::Before => stands_in(progress.hook, test.before),
        TestStage::After => stands_in(progress.hook, test.after) && progress.result is Some,
        TestStage::Request => false,
    }
}

/// Whether `action` is the right start of `test`: its before-hook starts,
/// or its request where it has no before-hook.
pub open spec fn test_started(
    action: TestAction,
    progress: TestProgress,
    test: Test,
    around: Surroundings,
    before: Map<Seq<char>, Seq<char>>,
    after: Map<Seq<char>, Seq<char>>,
) -> bool {
    after == before && match test.before {
        Some(steps) => exists|hook_action: HookAction, hook: HookState| #[trigger]
            advanced(
                hook_action,
                hook,
                steps@,
                0,
                0,
                hook_context(around, Selection::All, "before"),
                before,
            ) && opened(action, progress, hook_action, hook, test, around, before),
        None => requesting(action, progress, test, around.env@, before),
    }
}

/// Whether `action` is the right answer to `event` for `test`, `after`
/// being the store and `progress` the state of the test behind it.
pub open spec fn stepped(
    action: TestAction,
    progress: TestProgress,
    test: Test,
    was: TestProgress,
    event: Event,
    around: Surroundings,
    before: Map<Seq<char>, Seq<char>>,
    after: Map<Seq<char>, Seq<char>>,
) -> bool {
    match event {
        Event::Start => test_started(action, progress, test, around, before, after),
        Event::ProcessEnded(outcome) => match was.stage {
            TestStage::Before => exists|hook_action: HookAction, hook: HookState| #[trigger]
                resumed(
                    hook_action,
                    hook,
                    test.before->0@,
                    was.hook,
                    outcome,
                    hook_context(around, Selection::All, "before"),
                    before,
                    after,
                ) && opened(action, progress, hook_action, hook, test, around, after),
            TestStage::After => exists|hook_action: HookAction, hook: HookState| #[trigger]
                resumed(
                    hook_action,
                    hook,
                    test.after->0@,
                    was.hook,
                    outcome,
                    hook_context(around, Selection::Outcome(was.result->0.success), "after"),
                    before,
                    after,
                ) && closed(action, progress, hook_action, hook, was.result->0, kept(was.failure)),
            TestStage::Request => true,
        },
        Event::Probed(probe) => after == before && progress.stage == TestStage::Request
            && exists|asked: RunAction| #[trigger]
            probed(asked, test, probe, around.env@, before) && forwards(action, asked),
        Event::Responded(exchange) => exists|base: TestResult| #[trigger]
            answered(base, test, exchange, around.env@, before, after) && closing(
                action,
                progress,
                test,
                base,
                None,
                around,
                after,
            ),
    }
}

/// The context of a hook in these surroundings.
fn make_context<'a>(around: &Surroundings<'a>, selection: Selection, phase_name: &'a str) -> (r:
    HookContext<'a>)
    ensures
        r == hook_context(*around, selection, phase_name),
{
    HookContext {
        env: around.env,
        work_dir: around.work_dir,
        allowed_commands: around.allowed_commands,
        platform: around.platform,
        selection,
        phase_name,
    }
}

impl TestProgress {
    /// The state of a test that has not started.
    pub fn new() -> (r: Self)
        ensures
            r.stage == TestStage::Before,
            r.hook == (HookState { index: 0, number: 0 }),
            r.failure is None && r.result is None,
    {
        TestProgress {
            stage: TestStage::Before,
            hook: HookState { index: 0, number: 0 },
            failure: None,
            result: None,
        }
    }
}

/// Ends a test: adds the failures of its hooks to the messages of its
/// result.
fn complete(base: TestResult, after: Option<String>, before: Option<String>) -> (r: TestResult)
    ensures
        completes(r, base, kept(after), kept(before)),
{
    let mut result = base;
    let ghost start = texts(result.messages@);
    match after {
        Some(msg) => {
            result.messages.push(msg);
            assert(texts(result.messages@) =~= start + optional_text(kept(after)));
        },
        None => {
            assert(texts(result.messages@) =~= start + optional_text(kept(after)));
        },
    }
    let ghost middle = texts(result.messages@);
    match before {
        Some(msg) => {
            result.messages.push(msg);
            assert(texts(result.messages@) =~= middle + optional_text(kept(before)));
        },
        None => {
            assert(texts(result.messages@) =~= middle + optional_text(kept(before)));
        },
    }
    result
}

/// Goes on from what the after-hook does.
fn close(
    progress: &mut TestProgress,
    hook_action: HookAction,
    hook: HookState,
    base: TestResult,
) -> (r: TestAction)
    ensures
        closed(r, *final(progress), hook_action, hook, base, kept(old(progress).failure)),
        r is Launch ==> final(progress).stage == TestStage::After && final(progress).result is Some
            && final(progress).hook == hook && hook_action is Launch,
        !(r is Probe) && !(r is Send),
{
    match hook_action {
        HookAction::Launch(inv) => {
            progress.stage = TestStage::After;
            progress.hook = hook;
            progress.result = Some(base);
            TestAction::Launch(inv)
        },
        HookAction::Done(Ok(_)) => {
            let failure = progress.failure.take();
            TestAction::Done(complete(base, None, failure))
        },
        HookAction::Done(Err(e)) => {
            let failure = progress.failure.take();
            let mut msg = String::from_str("After hook failed: ");
            msg.append(e.to_string().as_str());
            TestAction::Done(complete(base, Some(msg), failure))
        },
    }
}

/// Starts the after-hook of `test`.
fn start_closing(
    test: &Test,
    progress: &mut TestProgress,
    base: TestResult,
    around: &Surroundings,
    variables: &mut Variables,
) -> (r: TestAction)
    ensures
        final(variables)@ == old(variables)@,
        closing(
            r,
            *final(progress),
            *test,
            base,
            kept(old(progress).failure),
            *around,
            old(variables)@,
        ),
        r is Launch ==> awaits_process(*final(progress), *test),
        !(r is Probe) && !(r is Send),
{
    match &test.after {
        Some(steps) => {
            let context = make_context(around, Selection::Outcome(base.success), "after");
            let mut hook = HookState { index: 0, number: 0 };
            let hook_action = execute_command_steps(
                steps,
                &mut hook,
                StepEvent::Start,
                &context,
                variables,
            );
            close(progress, hook_action, hook, base)
        },
        None => {
            let failure = progress.failure.take();
            TestAction::Done(complete(base, None, failure))
        },
    }
}

/// Starts the request of `test`.
fn start_request(test: &Test, progress: &mut TestProgress, around: &Surroundings, variables: &mut Variables) -> (r:
    TestAction)
    ensures
        final(variables)@ == old(variables)@,
        requesting(r, *final(progress), *test, around.env@, old(variables)@),
        final(progress).failure == old(progress).failure,
        r is Probe || r is Send,
{
    progress.stage = TestStage::Request;
    let asked = run(test, RunEvent::Start, around.env, variables);
    forward(test, asked)
}

/// The result of `test` from what its HTTP phase found.
fn result_of(test: &Test, found: ExecutionResult) -> (r: TestResult)
    ensures
        carries(r, *test, found),
{
    TestResult {
        name: test.name.clone(),
        success: found.success,
        expected_status: test.expected_status,
        actual_status: found.status.1,
        response_body: found.body,
        headers: found.headers,
        messages: found.errors,
        method: test.method.clone(),
        endpoint: test.endpoint.clone(),
    }
}

/// Hands on what the HTTP phase of `test` asks for.
fn forward(test: &Test, asked: RunAction) -> (r: TestAction)
    ensures
        forwards(r, asked) || asked is Done,
        (r is Probe || r is Send) == !(asked is Done),
{
    match asked {
        RunAction::Probe(p) => TestAction::Probe(p),
        RunAction::Send(req, warning) => TestAction::Send(req, warning),
        RunAction::Done(found) => TestAction::Done(result_of(test, found)),
    }
}

/// Goes on from what the before-hook does.
fn open(
    test: &Test,
    progress: &mut TestProgress,
    hook_action: HookAction,
    hook: HookState,
    around: &Surroundings,
    variables: &mut Variables,
) -> (r: TestAction)
    requires
        old(progress).failure is None,
        hook_action is Launch ==> stands_in(hook, test.before),
    ensures
        final(variables)@ == old(variables)@,
        opened(r, *final(progress), hook_action, hook, *test, *around, old(variables)@),
        r is Launch ==> awaits_process(*final(progress), *test),
        r is Probe || r is Send ==> final(progress).stage == TestStage::Request,
{
    match hook_action {
        HookAction::Launch(inv) => {
            progress.stage = TestStage::Before;
            progress.hook = hook;
            TestAction::Launch(inv)
        },
        HookAction::Done(Ok(_)) => start_request(test, progress, around, variables),
        HookAction::Done(Err(e)) => {
            let mut msg = String::from_str("Before hook failed: ");
            msg.append(e.to_string().as_str());
            let mut messages: Vec<String> = Vec::new();
            messages.push(msg.clone());
            assert(texts(messages@) =~= seq![before_failure(e)]);
            let base = TestResult {
                name: test.name.clone(),
                success: false,
                expected_status: test.expected_status,
                actual_status: 0,
                response_body: None,
                headers: Vec::new(),
                messages,
                method: test.method.clone(),
                endpoint: test.endpoint.clone(),
            };
            progress.failure = Some(msg);
            let r = start_closing(test, progress, base, around, variables);
            assert(unsent(base, *test, before_failure(e)));
            r
        },
    }
}

/// Starts a test with its hooks, or goes on with it.
///
/// The before-hook runs first; where it fails the request is not sent
/// and the test fails with the actual status 0. The after-hook runs in
/// any case, its steps chosen by whether the test passed so far; what
/// goes wrong in it is added to the messages of the result and does not
/// change whether the test passed.
pub fn execute_test_with_hooks(
    test: &Test,
    progress: &mut TestProgress,
    event: Event,
    around: &Surroundings,
    variables: &mut Variables,
) -> (r: TestAction)
    requires
        event is ProcessEnded ==> awaits_process(*old(progress), *test),
        event is Probed || event is Responded ==> old(progress).stage == TestStage::Request,
    ensures
        stepped(
            r,
            *final(progress),
            *test,
            *old(progress),
            event,
            *around,
            old(variables)@,
            final(variables)@,
        ),
        r is Launch ==> awaits_process(*final(progress), *test),
        r is Probe || r is Send ==> final(progress).stage == TestStage::Request,
{
    match event {
        Event::Start => {
            progress.stage = TestStage::Before;
            progress.failure = None;
            progress.result = None;
            match &test.before {
                Some(steps) => {
                    let context = make_context(around, Selection::All, "before");
                    let mut hook = HookState { index: 0, number: 0 };
                    let hook_action = execute_command_steps(
                        steps,
                        &mut hook,
                        StepEvent::Start,
                        &context,
                        variables,
                    );
                    let r = open(test, progress, hook_action, hook, around, variables);
                    assert(advanced(
                        hook_action,
                        hook,
                        steps@,
                        0,
                        0,
                        hook_context(*around, Selection::All, "before"),
                        old(variables)@,
                    ));
                    r
                },
                None => start_request(test, progress, around, variables),
            }
        },
        Event::ProcessEnded(outcome) => {
            match progress.stage {
                TestStage::Before => {
                    match &test.before {
                        Some(steps) => {
                            let context = make_context(around, Selection::All, "before");
                            let mut hook = progress.hook;
                            let hook_action = execute_command_steps(
                                steps,
                                &mut hook,
                                StepEvent::Ended(outcome),
                                &context,
                                variables,
                            );
                            progress.failure = None;
                            let ghost middle = variables@;
                            let r = open(test, progress, hook_action, hook, around, variables);
                            assert(resumed(
                                hook_action,
                                hook,
                                steps@,
                                old(progress).hook,
                                outcome,
                                hook_context(*around, Selection::All, "before"),
                                old(variables)@,
                                middle,
                            ));
                            r
                        },
                        None => start_request(test, progress, around, variables),
                    }
                },
                TestStage::After => {
                    match &test.after {
                        Some(steps) => {
                            let base = progress.result.take().unwrap();
                            let context = make_context(
                                around,
                                Selection::Outcome(base.success),
                                "after",
                            );
                            let mut hook = progress.hook;
                            let hook_action = execute_command_steps(
                                steps,
                                &mut hook,
                                StepEvent::Ended(outcome),
                                &context,
                                variables,
                            );
                            let r = close(progress, hook_action, hook, base);
                            assert(resumed(
                                hook_action,
                                hook,
                                steps@,
                                old(progress).hook,
                                outcome,
                                hook_context(
                                    *around,
                                    Selection::Outcome(old(progress).result->0.success),
                                    "after",
                                ),
                                old(variables)@,
                                variables@,
                            ));
                            r
                        },
                        None => start_request(test, progress, around, variables),
                    }
                },
                TestStage::Request => start_request(test, progress, around, variables),
            }
        },
        Event::Probed(probe) => {
            let asked = run(test, RunEvent::Probed(probe), around.env, variables);
            proof {
                assert(probed(asked, *test, probe, around.env@, old(variables)@));
            }
            forward(test, asked)
        },
        Event::Responded(exchange) => {
            let asked = run(test, RunEvent::Responded(exchange), around.env, variables);
            match asked {
                RunAction::Done(found) => {
                    let base = result_of(test, found);
                    progress.failure = None;
                    let ghost middle = variables@;
                    let r = start_closing(test, progress, base, around, variables);
                    assert(concluded(found, *test, exchange, around.env@, old(variables)@, middle));
                    assert(carries(base, *test, found));
                    assert(answered(base, *test, exchange, around.env@, old(variables)@, middle));
                    r
                },
                RunAction::Probe(p) => TestAction::Probe(p),
                RunAction::Send(req, warning) => TestAction::Send(req, warning),
            }
        },
    }
}

/// Runs the tests of a suite and keeps their results.
pub struct TestRunner {
    /// The variable store of the run.
    pub variables: Variables,
    /// The results of the tests that ran, in order.
    pub results: Vec<TestResult>,
    /// Whether output goes without colour.
    pub disable_color: bool,
    /// Whether the details of failures are left out of the summary.
    pub no_fail_summary: bool,
}

/// The part of a run that is in progress.
#[derive(Debug, Clone, Copy, PartialEq, Eq, Structural)]
pub enum Phase {
    /// The setup hook of the suite.
    Setup,
    /// A test.
    Running,
    /// Between two tests, after one was skipped or ended.
    Pausing,
    /// After the last test, before the teardown hook.
    Summarized,
    /// The teardown hook of the suite.
    Teardown,
    /// The run is over.
    Finished,
}

/// Where a run stands.
#[derive(Debug)]
pub struct RunProgress {
    /// The part of the run that is in progress.
    pub phase: Phase,
    /// Where the hook of the suite that is in progress stands.
    pub hook: HookState,
    /// The index of the test in progress, or of the next test.
    pub index: usize,
    /// Where the test in progress stands.
    pub test: TestProgress,
    /// The number of tests that the filter left out.
    pub skipped: usize,
}

/// What happened to a run.
#[derive(Debug)]
pub enum SuiteEvent {
    /// The run is to be started.
    Start,
    /// The process of a step of a hook ended.
    ProcessEnded(Outcome),
    /// The body file was looked up.
    Probed(FileProbe),
    /// The request was sent.
    Responded(Exchange),
    /// What was reported has been taken note of.
    Resume,
}

/// What is to be done for a run.
#[derive(Debug)]
pub enum SuiteAction {
    /// Launch this process, and come back with how it ended.
    Launch(Invocation),
    /// Look up the body file at this path below the directory of the
    /// suite, and come back with what is there.
    Probe(String),
    /// Send this request, and come back with the response. The text,
    /// where there is one, says why the request goes without the body
    /// that the test names.
    Send(RequestData, Option<String>),
    /// The test of this index was left out by the filter. Come back to
    /// go on.
    Skipped(usize),
    /// A test ended; its result has this index among the results. Come
    /// back to go on.
    Completed(usize),
    /// All tests are through. Come back to go on with the teardown.
    Summarize,
    /// The setup hook failed, and the run is over: no test ran, and the
    /// teardown hook does not run.
    SetupFailed(String),
    /// The teardown hook failed, and the run is over.
    TeardownFailed(String),
    /// The run is over.
    Finished,
}

/// Whether the filter leaves a test out: there is a filter, and the name
/// of the test does not hold it.
pub open spec fn filtered_out(test: Test, filter: Option<String>) -> bool {
    filter matches Some(f) && !contains(test.name@, f@)
}

/// What is said of a setup hook that failed.
pub open spec fn setup_failure(e: CommandError) -> Seq<char> {
    "Setup failed: "@ + e.message()
}

/// What is said of a teardown hook that failed.
pub open spec fn teardown_failure(e: CommandError) -> Seq<char> {
    "Teardown failed: "@ + e.message()
}

/// Whether a run in progress is in order.
pub open spec fn in_order(progress: RunProgress, suite: TestSuite) -> bool {
    &&& progress.index <= suite.tests@.len()
    &&& progress.skipped <= progress.index
    &&& match progress.phase {
        Phase::Setup => stands_in(progress.hook, suite.setup),
        Phase::Teardown => stands_in(progress.hook, suite.teardown),
        Phase::Running => progress.index < suite.tests@.len() && progress.skipped
            < suite.tests@.len() && (awaits_process(progress.test, suite.tests@[progress.index as int])
            || progress.test.stage == TestStage::Request),
        _ => true,
    }
}

/// Whether `event` is one that a run in this state waits for.
pub open spec fn expects(progress: RunProgress, suite: TestSuite, event: SuiteEvent) -> bool {
    match event {
        SuiteEvent::Start => true,
        SuiteEvent::ProcessEnded(_) => in_order(progress, suite) && match progress.phase {
            Phase::Setup => true,
            Phase::Teardown => true,
            Phase::Running => awaits_process(progress.test, suite.tests@[progress.index as int]),
            _ => false,
        },
        SuiteEvent::Probed(_) => in_order(progress, suite) && progress.phase == Phase::Running
            && progress.test.stage == TestStage::Request,
        SuiteEvent::Responded(_) => in_order(progress, suite) && progress.phase == Phase::Running
            && progress.test.stage == TestStage::Request,
        SuiteEvent::Resume => in_order(progress, suite) && (progress.phase == Phase::Pausing
            || progress.phase == Phase::Summarized),
    }
}

/// Whether `action` is what follows from the test of index `i` doing
/// `test_action`.
///
/// While the test has something to be done, the run waits for it. A
/// test that is over adds its result to the results, whether it passed
/// or not, and the run pauses before the next test.
pub open spec fn followed(
    action: SuiteAction,
    progress: RunProgress,
    results: Seq<TestResult>,
    test_action: TestAction,
    test_progress: TestProgress,
    i: int,
    skipped: int,
    had: Seq<TestResult>,
) -> bool {
    &&& progress.skipped == skipped
    &&& match test_action {
        TestAction::Launch(inv) => action == SuiteAction::Launch(inv) && progress.phase
            == Phase::Running && progress.index == i && progress.test == test_progress && results
            == had,
        TestAction::Probe(p) => action == SuiteAction::Probe(p) && progress.phase == Phase::Running
            && progress.index == i && progress.test == test_progress && results == had,
        TestAction::Send(req, warning) => action == SuiteAction::Send(req, warning)
            && progress.phase == Phase::Running && progress.index == i && progress.test
            == test_progress && results == had,
        TestAction::Done(r) => action == SuiteAction::Completed(had.len() as usize)
            && progress.phase == Phase::Pausing && progress.index == i + 1 && results == had.push(
            r,
        ),
    }
}

/// Whether `action` is what the run does when it comes to the test of
/// index `i`.
///
/// Behind the last test the run asks for the summary. A test that the
/// filter leaves out is counted and reported; it does not run, and none
/// of its hooks does. Any other test is started.
pub open spec fn proceeded(
    action: SuiteAction,
    progress: RunProgress,
    results: Seq<TestResult>,
    suite: TestSuite,
    i: int,
    skipped: int,
    filter: Option<String>,
    around: Surroundings,
    had: Seq<TestResult>,
    before: Map<Seq<char>, Seq<char>>,
    after: Map<Seq<char>, Seq<char>>,
) -> bool {
    if i < 0 || i >= suite.tests@.len() {
        &&& action == SuiteAction::Summarize
        &&& progress.phase == Phase::Summarized
        &&& progress.index == i
        &&& progress.skipped == skipped
        &&& results == had
        &&& after == before
    } else if filtered_out(suite.tests@[i], filter) {
        &&& action == SuiteAction::Skipped(i as usize)
        &&& progress.phase == Phase::Pausing
        &&& progress.index == i + 1
        &&& progress.skipped == skipped + 1
        &&& results == had
        &&& after == before
    } else {
        exists|test_action: TestAction, test_progress: TestProgress| #[trigger]
            test_started(test_action, test_progress, suite.tests@[i], around, before, after)
                && followed(action, progress, results, test_action, test_progress, i, skipped, had)
    }
}

/// Whether `action` is what follows from the setup hook doing
/// `hook_action`.
///
/// A setup hook that fails ends the run: no test runs, and neither does
/// the teardown hook. One that ends well lets the first test start.
pub open spec fn set_up(
    action: SuiteAction,
    progress: RunProgress,
    results: Seq<TestResult>,
    hook_action: HookAction,
    hook: HookState,
    suite: TestSuite,
    filter: Option<String>,
    around: Surroundings,
    had: Seq<TestResult>,
    middle: Map<Seq<char>, Seq<char>>,
    after: Map<Seq<char>, Seq<char>>,
) -> bool {
    match hook_action {
        HookAction::Launch(inv) => {
            &&& action == SuiteAction::Launch(inv)
            &&& progress.phase == Phase::Setup
            &&& progress.hook == hook
            &&& progress.index == 0
            &&& progress.skipped == 0
            &&& results == had
            &&& after == middle
        },
        HookAction::Done(Ok(_)) => proceeded(
            action,
            progress,
            results,
            suite,
            0,
            0,
            filter,
            around,
            had,
            middle,
            after,
        ),
        HookAction::Done(Err(e)) => {
            &&& action matches SuiteAction::SetupFailed(msg)
            &&& msg@ == setup_failure(e)
            &&& progress.phase == Phase::Finished
            &&& results == had
            &&& after == middle
        },
    }
}

/// Whether `action` is what follows from the teardown hook doing
/// `hook_action`. Whatever the hook does, the results stay as they are.
pub open spec fn torn_down(
    action: SuiteAction,
    progress: RunProgress,
    hook_action: HookAction,
    hook: HookState,
) -> bool {
    match hook_action {
        HookAction::Launch(inv) => action == SuiteAction::Launch(inv) && progress.phase
            == Phase::Teardown && progress.hook == hook,
        HookAction::Done(Ok(_)) => action == SuiteAction::Finished && progress.phase
            == Phase::Finished,
        HookAction::Done(Err(e)) => action matches SuiteAction::TeardownFailed(msg) && msg@
            == teardown_failure(e) && progress.phase == Phase::Finished,
    }
}

/// Whether `action` is the right answer to `event` in a run of `suite`.
///
/// The run starts with the setup hook. The tests follow in the order of
/// the suite, one at a time, each seeing what the tests before it
/// stored. The teardown hook runs behind the last test, whatever the
/// tests did and whether or not any test ran.
pub open spec fn suite_stepped(
    action: SuiteAction,
    progress: RunProgress,
    results: Seq<TestResult>,
    suite: TestSuite,
    was: RunProgress,
    had: Seq<TestResult>,
    event: SuiteEvent,
    filter: Option<String>,
    around: Surroundings,
    before: Map<Seq<char>, Seq<char>>,
    after: Map<Seq<char>, Seq<char>>,
) -> bool {
    match event {
        SuiteEvent::Start => match suite.setup {
            Some(steps) => exists|hook_action: HookAction, hook: HookState| #[trigger]
                advanced(
                    hook_action,
                    hook,
                    steps@,
                    0,
                    0,
                    hook_context(around, Selection::All, "setup"),
                    before,
                ) && set_up(
                    action,
                    progress,
                    results,
                    hook_action,
                    hook,
                    suite,
                    filter,
                    around,
                    had,
                    before,
                    after,
                ),
            None => proceeded(
                action,
                progress,
                results,
                suite,
                0,
                0,
                filter,
                around,
                had,
                before,
                after,
            ),
        },
        SuiteEvent::ProcessEnded(outcome) => match was.phase {
            Phase::Setup => exists|
                hook_action: HookAction,
                hook: HookState,
                middle: Map<Seq<char>, Seq<char>>,
            | #[trigger]
                resumed(
                    hook_action,
                    hook,
                    suite.setup->0@,
                    was.hook,
                    outcome,
                    hook_context(around, Selection::All, "setup"),
                    before,
                    middle,
                ) && set_up(
                    action,
                    progress,
                    results,
                    hook_action,
                    hook,
                    suite,
                    filter,
                    around,
                    had,
                    middle,
                    after,
                ),
            Phase::Teardown => results == had && exists|hook_action: HookAction, hook: HookState| #[trigger]
                resumed(
                    hook_action,
                    hook,
                    suite.teardown->0@,
                    was.hook,
                    outcome,
                    hook_context(around, Selection::All, "teardown"),
                    before,
                    after,
                ) && torn_down(action, progress, hook_action, hook),
            _ => in_test(action, progress, results, suite, was, had, Event::ProcessEnded(outcome), around, before, after),
        },
        SuiteEvent::Probed(probe) => in_test(
            action,
            progress,
            results,
            suite,
            was,
            had,
            Event::Probed(probe),
            around,
            before,
            after,
        ),
        SuiteEvent::Responded(exchange) => in_test(
            action,
            progress,
            results,
            suite,
            was,
            had,
            Event::Responded(exchange),
            around,
            before,
            after,
        ),
        SuiteEvent::Resume => match was.phase {
            Phase::Summarized => results == had && after == before && match suite.teardown {
                Some(steps) => exists|hook_action: HookAction, hook: HookState| #[trigger]
                    advanced(
                        hook_action,
                        hook,
                        steps@,
                        0,
                        0,
                        hook_context(around, Selection::All, "teardown"),
                        before,
                    ) && torn_down(action, progress, hook_action, hook),
                None => action == SuiteAction::Finished && progress.phase == Phase::Finished,
            },
            _ => proceeded(
                action,
                progress,
                results,
                suite,
                was.index as int,
                was.skipped as int,
                filter,
                around,
                had,
                before,
                after,
            ),
        },
    }
}

/// Whether `action` is what follows from handing `event` to the test in
/// progress.
pub open spec fn in_test(
    action: SuiteAction,
    progress: RunProgress,
    results: Seq<TestResult>,
    suite: TestSuite,
    was: RunProgress,
    had: Seq<TestResult>,
    event: Event,
    around: Surroundings,
    before: Map<Seq<char>, Seq<char>>,
    after: Map<Seq<char>, Seq<char>>,
) -> bool {
    exists|test_action: TestAction, test_progress: TestProgress| #[trigger]
        stepped(
            test_action,
            test_progress,
            suite.tests@[was.index as int],
            was.test,
            event,
            around,
            before,
            after,
        ) && followed(
            action,
            progress,
            results,
            test_action,
            test_progress,
            was.index as int,
            was.skipped as int,
            had,
        )
}

impl RunProgress {
    /// The state of a run that has not started.
    pub fn new() -> (r: Self)
        ensures
            r.phase == Phase::Setup,
            r.hook == (HookState { index: 0, number: 0 }),
            r.index == 0,
            r.skipped == 0,
            r.test.stage == TestStage::Before,
            r.test.hook == (HookState { index: 0, number: 0 }),
            r.test.failure is None && r.test.result is None,
    {
        RunProgress {
            phase: Phase::Setup,
            hook: HookState { index: 0, number: 0 },
            index: 0,
            test: TestProgress::new(),
            skipped: 0,
        }
    }
}

impl TestRunner {
    /// The number of bytes of a response body that the details of a
    /// failure show at most.
    pub const MAX_SUMMARY_BODY_BYTES: usize = 8192;

    /// The text of a response body in the details of a failure.
    pub fn format_response_body(&self, body: &Json) -> (r: String)
        ensures
            r@ == crate::output::summary::body_text(body@),
    {
        let formatter = crate::output::summary::TestSummaryFormatter::new(self.disable_color);
        formatter.format_response_body(body)
    }

    /// A runner with an empty store and no results.
    pub fn new(disable_color: bool) -> (r: Self)
        ensures
            r.variables@ == Map::<Seq<char>, Seq<char>>::empty(),
            r.results@.len() == 0,
            r.disable_color == disable_color,
            !r.no_fail_summary,
    {
        TestRunner {
            variables: Variables::new(),
            results: Vec::new(),
            disable_color,
            no_fail_summary: false,
        }
    }

    /// Hands on what the test in progress does.
    fn follow(
        &mut self,
        progress: &mut RunProgress,
        test_action: TestAction,
        test_progress: TestProgress,
        i: usize,
    ) -> (r: SuiteAction)
        requires
            i < usize::MAX,
        ensures
            followed(
                r,
                *final(progress),
                final(self).results@,
                test_action,
                test_progress,
                i as int,
                old(progress).skipped as int,
                old(self).results@,
            ),
            final(self).variables == old(self).variables,
            final(self).disable_color == old(self).disable_color,
            final(self).no_fail_summary == old(self).no_fail_summary,
            final(progress).hook == old(progress).hook,
            final(progress).phase == Phase::Running || final(progress).phase == Phase::Pausing,
            final(progress).phase == Phase::Running ==> final(progress).index == i && final(progress).test == test_progress && !(test_action is Done),
            final(progress).phase == Phase::Pausing ==> final(progress).index == i + 1,
    {
        match test_action {
            TestAction::Launch(inv) => {
                progress.phase = Phase::Running;
                progress.index = i;
                progress.test = test_progress;
                SuiteAction::Launch(inv)
            },
            TestAction::Probe(p) => {
                progress.phase = Phase::Running;
                progress.index = i;
                progress.test = test_progress;
                SuiteAction::Probe(p)
            },
            TestAction::Send(req, warning) => {
                progress.phase = Phase::Running;
                progress.index = i;
                progress.test = test_progress;
                SuiteAction::Send(req, warning)
            },
            TestAction::Done(result) => {
                let at = self.results.len();
                self.results.push(result);
                progress.phase = Phase::Pausing;
                progress.index = i + 1;
                SuiteAction::Completed(at)
            },
        }
    }

    /// Comes to the test of index `i`.
    fn proceed(
        &mut self,
        suite: &TestSuite,
        progress: &mut RunProgress,
        i: usize,
        filter: &Option<String>,
        around: &Surroundings,
    ) -> (r: SuiteAction)
        requires
            i <= suite.tests@.len(),
            old(progress).skipped <= i,
        ensures
            proceeded(
                r,
                *final(progress),
                final(self).results@,
                *suite,
                i as int,
                old(progress).skipped as int,
                *filter,
                *around,
                old(self).results@,
                old(self).variables@,
                final(self).variables@,
            ),
            in_order(*final(progress), *suite),
            final(self).disable_color == old(self).disable_color,
            final(self).no_fail_summary == old(self).no_fail_summary,
            final(progress).phase != Phase::Setup && final(progress).phase != Phase::Teardown
                && final(progress).phase != Phase::Finished,
            r is Launch ==> expects(*final(progress), *suite, SuiteEvent::ProcessEnded(Outcome::TimedOut)),
            r is Probe || r is Send ==> final(progress).phase == Phase::Running && final(progress).test.stage == TestStage::Request,
    {
        if i >= suite.tests.len() {
            progress.phase = Phase::Summarized;
            progress.index = i;
            return SuiteAction::Summarize;
        }
        let test = &suite.tests[i];
        let skip = match filter {
            Some(f) => !contains_text(test.name.as_str(), f.as_str()),
            None => false,
        };
        if skip {
            progress.phase = Phase::Pausing;
            progress.index = i + 1;
            progress.skipped = progress.skipped + 1;
            return SuiteAction::Skipped(i);
        }
        let mut test_progress = TestProgress::new();
        let test_action = execute_test_with_hooks(
            test,
            &mut test_progress,
            Event::Start,
            around,
            &mut self.variables,
        );
        proof {
            assert(test_started(
                test_action,
                test_progress,
                suite.tests@[i as int],
                *around,
                old(self).variables@,
                self.variables@,
            ));
        }
        self.follow(progress, test_action, test_progress, i)
    }

    /// Goes on from what the setup hook does.
    fn after_setup(
        &mut self,
        suite: &TestSuite,
        progress: &mut RunProgress,
        hook_action: HookAction,
        hook: HookState,
        filter: &Option<String>,
        around: &Surroundings,
    ) -> (r: SuiteAction)
        requires
            hook_action is Launch ==> stands_in(hook, suite.setup),
        ensures
            set_up(
                r,
                *final(progress),
                final(self).results@,
                hook_action,
                hook,
                *suite,
                *filter,
                *around,
                old(self).results@,
                old(self).variables@,
                final(self).variables@,
            ),
            in_order(*final(progress), *suite),
            final(self).disable_color == old(self).disable_color,
            final(self).no_fail_summary == old(self).no_fail_summary,
            r is Launch ==> expects(*final(progress), *suite, SuiteEvent::ProcessEnded(Outcome::TimedOut)),
            r is Probe || r is Send ==> final(progress).phase == Phase::Running && final(progress).test.stage == TestStage::Request,
    {
        match hook_action {
            HookAction::Launch(inv) => {
                progress.phase = Phase::Setup;
                progress.hook = hook;
                progress.index = 0;
                progress.skipped = 0;
                SuiteAction::Launch(inv)
            },
            HookAction::Done(Ok(_)) => {
                progress.skipped = 0;
                self.proceed(suite, progress, 0, filter, around)
            },
            HookAction::Done(Err(e)) => {
                progress.phase = Phase::Finished;
                progress.index = 0;
                progress.skipped = 0;
                let mut msg = String::from_str("Setup failed: ");
                msg.append(e.to_string().as_str());
                SuiteAction::SetupFailed(msg)
            },
        }
    }

    /// Goes on from what the teardown hook does.
    fn after_teardown(progress: &mut RunProgress, hook_action: HookAction, hook: HookState) -> (r:
        SuiteAction)
        ensures
            torn_down(r, *final(progress), hook_action, hook),
            final(progress).index == old(progress).index,
            final(progress).skipped == old(progress).skipped,
            !(r is Probe) && !(r is Send),
            r is Launch ==> final(progress).phase == Phase::Teardown && final(progress).hook == hook
                && hook_action is Launch,
            !(r is Launch) ==> final(progress).phase == Phase::Finished,
    {
        match hook_action {
            HookAction::Launch(inv) => {
                progress.phase = Phase::Teardown;
                progress.hook = hook;
                SuiteAction::Launch(inv)
            },
            HookAction::Done(Ok(_)) => {
                progress.phase = Phase::Finished;
                SuiteAction::Finished
            },
            HookAction::Done(Err(e)) => {
                progress.phase = Phase::Finished;
                let mut msg = String::from_str("Teardown failed: ");
                msg.append(e.to_string().as_str());
                SuiteAction::TeardownFailed(msg)
            },
        }
    }

    /// Starts a run of `suite`, or goes on with it.
    pub fn execute_tests(
        &mut self,
        suite: &TestSuite,
        progress: &mut RunProgress,
        event: SuiteEvent,
        filter: &Option<String>,
        around: &Surroundings,
    ) -> (r: SuiteAction)
        requires
            expects(*old(progress), *suite, event),
        ensures
            suite_stepped(
                r,
                *final(progress),
                final(self).results@,
                *suite,
                *old(progress),
                old(self).results@,
                event,
                *filter,
                *around,
                old(self).variables@,
                final(self).variables@,
            ),
            in_order(*final(progress), *suite),
            final(self).disable_color == old(self).disable_color,
            final(self).no_fail_summary == old(self).no_fail_summary,
            r is Launch ==> expects(*final(progress), *suite, SuiteEvent::ProcessEnded(Outcome::TimedOut)),
            r is Probe || r is Send ==> final(progress).phase == Phase::Running && final(progress).test.stage == TestStage::Request,
            r is Skipped || r is Completed || r is Summarize ==> expects(
                *final(progress),
                *suite,
                SuiteEvent::Resume,
            ),
    {
        match event {
            SuiteEvent::Start => {
                progress.index = 0;
                progress.skipped = 0;
                match &suite.setup {
                    Some(steps) => {
                        let context = make_context(around, Selection::All, "setup");
                        let mut hook = HookState { index: 0, number: 0 };
                        let hook_action = execute_command_steps(
                            steps,
                            &mut hook,
                            StepEvent::Start,
                            &context,
                            &mut self.variables,
                        );
                        let r = self.after_setup(suite, progress, hook_action, hook, filter, around);
                        assert(advanced(
                            hook_action,
                            hook,
                            steps@,
                            0,
                            0,
                            hook_context(*around, Selection::All, "setup"),
                            old(self).variables@,
                        ));
                        r
                    },
                    None => self.proceed(suite, progress, 0, filter, around),
                }
            },
            SuiteEvent::ProcessEnded(outcome) => {
                match progress.phase {
                    Phase::Setup => {
                        match &suite.setup {
                            Some(steps) => {
                                let context = make_context(around, Selection::All, "setup");
                                let mut hook = progress.hook;
                                let hook_action = execute_command_steps(
                                    steps,
                                    &mut hook,
                                    StepEvent::Ended(outcome),
                                    &context,
                                    &mut self.variables,
                                );
                                let ghost middle = self.variables@;
                                let r = self.after_setup(
                                    suite,
                                    progress,
                                    hook_action,
                                    hook,
                                    filter,
                                    around,
                                );
                                assert(resumed(
                                    hook_action,
                                    hook,
                                    steps@,
                                    old(progress).hook,
                                    outcome,
                                    hook_context(*around, Selection::All, "setup"),
                                    old(self).variables@,
                                    middle,
                                ));
                                r
                            },
                            None => {
                                progress.phase = Phase::Finished;
                                SuiteAction::Finished
                            },
                        }
                    },
                    Phase::Teardown => {
                        match &suite.teardown {
                            Some(steps) => {
                                let context = make_context(around, Selection::All, "teardown");
                                let mut hook = progress.hook;
                                let hook_action = execute_command_steps(
                                    steps,
                                    &mut hook,
                                    StepEvent::Ended(outcome),
                                    &context,
                                    &mut self.variables,
                                );
                                let r = Self::after_teardown(progress, hook_action, hook);
                                assert(resumed(
                                    hook_action,
                                    hook,
                                    steps@,
                                    old(progress).hook,
                                    outcome,
                                    hook_context(*around, Selection::All, "teardown"),
                                    old(self).variables@,
                                    self.variables@,
                                ));
                                r
                            },
                            None => {
                                progress.phase = Phase::Finished;
                                SuiteAction::Finished
                            },
                        }
                    },
                    _ => self.hand_to_test(suite, progress, Event::ProcessEnded(outcome), around),
                }
            },
            SuiteEvent::Probed(probe) => self.hand_to_test(
                suite,
                progress,
                Event::Probed(probe),
                around,
            ),
            SuiteEvent::Responded(exchange) => self.hand_to_test(
                suite,
                progress,
                Event::Responded(exchange),
                around,
            ),
            SuiteEvent::Resume => {
                match progress.phase {
                    Phase::Summarized => {
                        match &suite.teardown {
                            Some(steps) => {
                                let context = make_context(around, Selection::All, "teardown");
                                let mut hook = HookState { index: 0, number: 0 };
                                let hook_action = execute_command_steps(
                                    steps,
                                    &mut hook,
                                    StepEvent::Start,
                                    &context,
                                    &mut self.variables,
                                );
                                let r = Self::after_teardown(progress, hook_action, hook);
                                assert(advanced(
                                    hook_action,
                                    hook,
                                    steps@,
                                    0,
                                    0,
                                    hook_context(*around, Selection::All, "teardown"),
                                    old(self).variables@,
                                ));
                                r
                            },
                            None => {
                                progress.phase = Phase::Finished;
                                SuiteAction::Finished
                            },
                        }
                    },
                    _ => {
                        let i = progress.index;
                        self.proceed(suite, progress, i, filter, around)
                    },
                }
            },
        }
    }

    /// Hands `event` to the test in progress.
    fn hand_to_test(
        &mut self,
        suite: &TestSuite,
        progress: &mut RunProgress,
        event: Event,
        around: &Surroundings,
    ) -> (r: SuiteAction)
        requires
            in_order(*old(progress), *suite),
            old(progress).phase == Phase::Running,
            event is ProcessEnded ==> awaits_process(
                old(progress).test,
                suite.tests@[old(progress).index as int],
            ),
            event is Probed || event is Responded ==> old(progress).test.stage
                == TestStage::Request,
            !(event is Start),
        ensures
            in_test(
                r,
                *final(progress),
                final(self).results@,
                *suite,
                *old(progress),
                old(self).results@,
                event,
                *around,
                old(self).variables@,
                final(self).variables@,
            ),
            in_order(*final(progress), *suite),
            final(self).disable_color == old(self).disable_color,
            final(self).no_fail_summary == old(self).no_fail_summary,
            r is Launch ==> expects(*final(progress), *suite, SuiteEvent::ProcessEnded(Outcome::TimedOut)),
            r is Probe || r is Send ==> final(progress).phase == Phase::Running && final(progress).test.stage == TestStage::Request,
            r is Launch || r is Probe || r is Send || r is Completed,
    {
        let i = progress.index;
        let n = suite.tests.len();
        let test = &suite.tests[i];
        let mut test_progress = TestProgress {
            stage: progress.test.stage,
            hook: progress.test.hook,
            failure: progress.test.failure.take(),
            result: progress.test.result.take(),
        };
        let test_action = execute_test_with_hooks(
            test,
            &mut test_progress,
            event,
            around,
            &mut self.variables,
        );
        proof {
            assert(stepped(
                test_action,
                test_progress,
                suite.tests@[i as int],
                old(progress).test,
                event,
                *around,
                old(self).variables@,
                self.variables@,
            ));
        }
        self.follow(progress, test_action, test_progress, i)
    }
}

/// Tests whether a hook in progress stands at one of `steps`.
fn hook_stands_in(hook: &HookState, steps: &Option<Vec<CommandStep>>) -> (r: bool)
    ensures
        r == stands_in(*hook, *steps),
{
    match steps {
        Some(s) => hook.index < s.len() && 0 < hook.number && hook.number <= hook.index + 1,
        None => false,
    }
}

impl TestProgress {
    /// Whether the test waits for the process of a hook.
    pub fn awaits_process(&self, test: &Test) -> (r: bool)
        ensures
            r == awaits_process(*self, *test),
    {
        match self.stage {
            TestStage::Before => hook_stands_in(&self.hook, &test.before),
            TestStage::After => hook_stands_in(&self.hook, &test.after) && self.result.is_some(),
            TestStage::Request => false,
        }
    }

    /// Whether `event` is one that the test waits for.
    pub fn expects(&self, test: &Test, event: &Event) -> (r: bool)
        ensures
            r == ((*event is ProcessEnded ==> awaits_process(*self, *test)) && (*event is Probed
                || *event is Responded ==> self.stage == TestStage::Request)),
    {
        match event {
            Event::Start => true,
            Event::ProcessEnded(_) => self.awaits_process(test),
            Event::Probed(_) => self.stage == TestStage::Request,
            Event::Responded(_) => self.stage == TestStage::Request,
        }
    }
}

impl RunProgress {
    /// Whether the run is in order.
    pub fn in_order(&self, suite: &TestSuite) -> (r: bool)
        ensures
            r == in_order(*self, *suite),
    {
        if self.index > suite.tests.len() || self.skipped > self.index {
            return false;
        }
        match self.phase {
            Phase::Setup => hook_stands_in(&self.hook, &suite.setup),
            Phase::Teardown => hook_stands_in(&self.hook, &suite.teardown),
            Phase::Running => self.index < suite.tests.len() && self.skipped < suite.tests.len()
                && (self.test.awaits_process(&suite.tests[self.index]) || self.test.stage
                == TestStage::Request),
            _ => true,
        }
    }

    /// Whether `event` is one that the run waits for.
    pub fn expects(&self, suite: &TestSuite, event: &SuiteEvent) -> (r: bool)
        ensures
            r == expects(*self, *suite, *event),
    {
        match event {
            SuiteEvent::Start => true,
            SuiteEvent::ProcessEnded(_) => self.in_order(suite) && match self.phase {
                Phase::Setup => true,
                Phase::Teardown => true,
                Phase::Running => self.test.awaits_process(&suite.tests[self.index]),
                _ => false,
            },
            SuiteEvent::Probed(_) => self.in_order(suite) && self.phase == Phase::Running
                && self.test.stage == TestStage::Request,
            SuiteEvent::Responded(_) => self.in_order(suite) && self.phase == Phase::Running
                && self.test.stage == TestStage::Request,
            SuiteEvent::Resume => self.in_order(suite) && (self.phase == Phase::Pausing
                || self.phase == Phase::Summarized),
        }
    }
}

} // verus!
