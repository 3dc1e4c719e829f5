use catalyst::engine::executor::{Outcome, Platform};
use catalyst::engine::variables::Variables;
use catalyst::http::client::Exchange;
use catalyst::json::Json;
use catalyst::models::command::{CaptureConfig, CommandStep};
use catalyst::models::config::Config;
use catalyst::models::suite::TestSuite;
use catalyst::models::test::{JsonAssertion, Test};
use catalyst::runner::{
    execute_test_with_hooks, Event, Phase, RunProgress, SuiteAction, SuiteEvent, Surroundings,
    TestAction, TestProgress, TestRunner,
};
use catalyst::utils::file::FileProbe;

fn step(run: &str, arg: &str) -> CommandStep {
    CommandStep {
        run: run.to_string(),
        args: Some(vec![arg.to_string()]),
        shell: None,
        dir: None,
        env: None,
        timeout_ms: None,
        ignore_error: None,
        capture: None,
        export: None,
        when: None,
        on: None,
    }
}

fn test_named(name: &str) -> Test {
    Test {
        name: name.to_string(),
        method: "GET".to_string(),
        endpoint: "/items".to_string(),
        query_params: None,
        headers: None,
        body: None,
        body_file: None,
        expected_status: 200,
        expected_body: None,
        assertions: None,
        expected_headers: None,
        store: None,
        get_cookie: None,
        max_response_time: None,
        before: None,
        after: None,
    }
}

fn suite_of(tests: Vec<Test>) -> TestSuite {
    TestSuite {
        config: Config {
            base_url: "http://localhost".to_string(),
            auth_method: None,
            auth_token: None,
            default_headers: None,
            env: None,
            allowed_commands: None,
        },
        tests,
        setup: None,
        teardown: None,
    }
}

fn received(status: u16, body: &str) -> Exchange {
    Exchange::Received {
        status,
        body: Json::parse(body).unwrap(),
        headers: vec![("Content-Type".to_string(), "application/json".to_string())],
        time_ms: 12,
    }
}

fn succeeded(stdout: &str) -> Outcome {
    Outcome::Exited {
        stdout: stdout.to_string(),
        stderr: String::new(),
        exit_code: Some(0),
        elapsed_ms: 1,
    }
}

fn failed(stderr: &str) -> Outcome {
    Outcome::Exited {
        stdout: String::new(),
        stderr: stderr.to_string(),
        exit_code: Some(1),
        elapsed_ms: 1,
    }
}

#[test]
fn stored_token_reaches_the_header_of_the_next_test() {
    let mut login = test_named("A login");
    login.method = "POST".to_string();
    login.endpoint = "/login".to_string();
    login.store = Some(vec![("token".to_string(), "$.data.token".to_string())]);
    let mut profile = test_named("B profile");
    profile.headers = Some(vec![("Authorization".to_string(), "Bearer {{token}}".to_string())]);
    profile.endpoint = "/users/{{token}}".to_string();
    profile.query_params = Some(vec![("t".to_string(), "{{response_time_ms}}".to_string())]);
    let suite = suite_of(vec![login, profile]);

    let env = Variables::new();
    let around = Surroundings { env: &env, work_dir: ".", allowed_commands: None, platform: Platform::Unix };
    let mut runner = TestRunner::new(true);
    let mut progress = RunProgress::new();

    match runner.execute_tests(&suite, &mut progress, SuiteEvent::Start, &None, &around) {
        SuiteAction::Send(request, warning) => {
            assert_eq!(request.method, "POST");
            assert_eq!(request.url, "/login");
            assert!(request.headers.is_empty());
            assert!(request.body.is_none());
            assert!(warning.is_none());
        }
        other => panic!("unexpected action: {:?}", other),
    }
    let response = received(200, r#"{"data":{"token":"abc"}}"#);
    assert!(matches!(
        runner.execute_tests(&suite, &mut progress, SuiteEvent::Responded(response), &None, &around),
        SuiteAction::Completed(0)
    ));
    assert_eq!(runner.variables.get("token").unwrap(), "abc");
    assert_eq!(runner.variables.get("response_time_ms").unwrap(), "12");
    assert_eq!(runner.variables.get("header_content-type").unwrap(), "application/json");

    match runner.execute_tests(&suite, &mut progress, SuiteEvent::Resume, &None, &around) {
        SuiteAction::Send(request, _) => {
            assert_eq!(
                request.headers,
                vec![("Authorization".to_string(), "Bearer abc".to_string())]
            );
            assert_eq!(request.url, "/users/abc");
            assert_eq!(request.params, vec![("t".to_string(), "12".to_string())]);
        }
        other => panic!("unexpected action: {:?}", other),
    }
    let response = received(404, r#"{"error":"none"}"#);
    assert!(matches!(
        runner.execute_tests(&suite, &mut progress, SuiteEvent::Responded(response), &None, &around),
        SuiteAction::Completed(1)
    ));
    assert!(matches!(
        runner.execute_tests(&suite, &mut progress, SuiteEvent::Resume, &None, &around),
        SuiteAction::Summarize
    ));
    assert!(matches!(
        runner.execute_tests(&suite, &mut progress, SuiteEvent::Resume, &None, &around),
        SuiteAction::Finished
    ));
    assert_eq!(progress.phase, Phase::Finished);

    assert_eq!(runner.results.len(), 2);
    assert!(runner.results[0].success);
    assert_eq!(runner.results[0].name, "A login");
    assert_eq!((runner.results[0].expected_status, runner.results[0].actual_status), (200, 200));
    assert!(runner.results[0].messages.is_empty());
    assert!(!runner.results[1].success);
    assert_eq!(runner.results[1].actual_status, 404);
    assert_eq!(runner.results[1].messages, vec!["Status 404, expected 200"]);
    assert_eq!(runner.results[1].endpoint, "/users/{{token}}");
}

#[test]
fn after_hook_for_failure_does_not_run_when_the_test_passes() {
    let mut test = test_named("with hook");
    let mut hook = step("echo", "42");
    hook.on = Some("failure".to_string());
    test.after = Some(vec![hook]);
    let env = Variables::new();
    let around = Surroundings { env: &env, work_dir: ".", allowed_commands: None, platform: Platform::Unix };

    let mut variables = Variables::new();
    let mut progress = TestProgress::new();
    assert!(matches!(
        execute_test_with_hooks(&test, &mut progress, Event::Start, &around, &mut variables),
        TestAction::Send(_, None)
    ));
    match execute_test_with_hooks(
        &test,
        &mut progress,
        Event::Responded(received(200, "{}")),
        &around,
        &mut variables,
    ) {
        TestAction::Done(result) => {
            assert!(result.success);
            assert!(result.messages.is_empty());
        }
        other => panic!("unexpected action: {:?}", other),
    }

    // The same hook runs when the test fails, and its failure does not
    // change the result of the test.
    let mut progress = TestProgress::new();
    assert!(matches!(
        execute_test_with_hooks(&test, &mut progress, Event::Start, &around, &mut variables),
        TestAction::Send(_, None)
    ));
    match execute_test_with_hooks(
        &test,
        &mut progress,
        Event::Responded(received(500, "{}")),
        &around,
        &mut variables,
    ) {
        TestAction::Launch(inv) => {
            assert_eq!(inv.program, "echo");
            assert_eq!(inv.args, vec!["42"]);
        }
        other => panic!("unexpected action: {:?}", other),
    }
    match execute_test_with_hooks(
        &test,
        &mut progress,
        Event::ProcessEnded(succeeded("42\n")),
        &around,
        &mut variables,
    ) {
        TestAction::Done(result) => {
            assert!(!result.success);
            assert_eq!(result.actual_status, 500);
            assert_eq!(result.messages, vec!["Status 500, expected 200"]);
        }
        other => panic!("unexpected action: {:?}", other),
    }
}

#[test]
fn after_hook_failure_is_reported_but_keeps_the_verdict() {
    let mut test = test_named("passing");
    let mut on_success = step("notify", "ok");
    on_success.on = Some("success".to_string());
    let mut on_failure = step("notify", "bad");
    on_failure.on = Some("failure".to_string());
    test.after = Some(vec![on_failure, on_success, step("cleanup", "x")]);
    let env = Variables::new();
    let around = Surroundings { env: &env, work_dir: ".", allowed_commands: None, platform: Platform::Unix };
    let mut variables = Variables::new();
    let mut progress = TestProgress::new();
    execute_test_with_hooks(&test, &mut progress, Event::Start, &around, &mut variables);
    match execute_test_with_hooks(
        &test,
        &mut progress,
        Event::Responded(received(200, "{}")),
        &around,
        &mut variables,
    ) {
        TestAction::Launch(inv) => assert_eq!(inv.args, vec!["ok"]),
        other => panic!("unexpected action: {:?}", other),
    }
    match execute_test_with_hooks(
        &test,
        &mut progress,
        Event::ProcessEnded(succeeded("")),
        &around,
        &mut variables,
    ) {
        TestAction::Launch(inv) => assert_eq!(inv.program, "cleanup"),
        other => panic!("unexpected action: {:?}", other),
    }
    match execute_test_with_hooks(
        &test,
        &mut progress,
        Event::ProcessEnded(failed("no disk")),
        &around,
        &mut variables,
    ) {
        TestAction::Done(result) => {
            assert!(result.success);
            assert_eq!(
                result.messages,
                vec!["After hook failed: Command execution failed: after step 2 failed with exit code Some(1): no disk"]
            );
        }
        other => panic!("unexpected action: {:?}", other),
    }
}

#[test]
fn before_hook_failure_fails_the_test_without_a_request() {
    let mut test = test_named("guarded");
    test.expected_status = 201;
    test.before = Some(vec![step("prepare", "db")]);
    let mut always = step("cleanup", "x");
    always.capture = Some(CaptureConfig { var: "cleaned".to_string() });
    let mut on_success = step("notify", "ok");
    on_success.on = Some("success".to_string());
    test.after = Some(vec![on_success, always]);
    let env = Variables::new();
    let around = Surroundings { env: &env, work_dir: ".", allowed_commands: None, platform: Platform::Unix };
    let mut variables = Variables::new();
    let mut progress = TestProgress::new();
    match execute_test_with_hooks(&test, &mut progress, Event::Start, &around, &mut variables) {
        TestAction::Launch(inv) => assert_eq!(inv.program, "prepare"),
        other => panic!("unexpected action: {:?}", other),
    }
    match execute_test_with_hooks(
        &test,
        &mut progress,
        Event::ProcessEnded(Outcome::TimedOut),
        &around,
        &mut variables,
    ) {
        TestAction::Launch(inv) => assert_eq!(inv.program, "cleanup"),
        other => panic!("unexpected action: {:?}", other),
    }
    match execute_test_with_hooks(
        &test,
        &mut progress,
        Event::ProcessEnded(succeeded("done")),
        &around,
        &mut variables,
    ) {
        TestAction::Done(result) => {
            assert!(!result.success);
            assert_eq!((result.expected_status, result.actual_status), (201, 0));
            assert!(result.response_body.is_none());
            assert!(result.headers.is_empty());
            assert_eq!(
                result.messages,
                vec![
                    "Before hook failed: Command timed out",
                    "Before hook failed: Command timed out"
                ]
            );
            assert_eq!(result.method, "GET");
            assert_eq!(result.endpoint, "/items");
        }
        other => panic!("unexpected action: {:?}", other),
    }
    assert_eq!(variables.get("cleaned").unwrap(), "done");
}

#[test]
fn transport_failure_fails_the_test() {
    let test = test_named("down");
    let env = Variables::new();
    let around = Surroundings { env: &env, work_dir: ".", allowed_commands: None, platform: Platform::Unix };
    let mut variables = Variables::new();
    let mut progress = TestProgress::new();
    execute_test_with_hooks(&test, &mut progress, Event::Start, &around, &mut variables);
    match execute_test_with_hooks(
        &test,
        &mut progress,
        Event::Responded(Exchange::Failed("connection refused".to_string())),
        &around,
        &mut variables,
    ) {
        TestAction::Done(result) => {
            assert!(!result.success);
            assert_eq!(result.actual_status, 0);
            assert_eq!(result.messages, vec!["connection refused"]);
        }
        other => panic!("unexpected action: {:?}", other),
    }
    assert!(variables.is_empty());
}

#[test]
fn response_can_fail_for_several_reasons_at_once() {
    let mut test = test_named("strict");
    test.max_response_time = Some(10);
    test.expected_body = Some(Json::parse(r#"{"ok": "{{want}}"}"#).unwrap());
    test.assertions = Some(vec![
        JsonAssertion::Contains(Json::parse(r#"{"ok": "yes"}"#).unwrap()),
        JsonAssertion::Regex("^\\{".to_string()),
        JsonAssertion::PathRegex("$.{{field}}".to_string(), "^{{want}}$".to_string()),
        JsonAssertion::Exact(Json::parse(r#"[1]"#).unwrap()),
    ]);
    test.store = Some(vec![("kept".to_string(), "$.ok".to_string())]);
    test.get_cookie = Some(vec![("sid".to_string(), "session".to_string())]);
    let env = Variables::new();
    let around = Surroundings { env: &env, work_dir: ".", allowed_commands: None, platform: Platform::Unix };
    let mut variables = Variables::new();
    variables.insert("want".to_string(), "yes".to_string());
    variables.insert("field".to_string(), "ok".to_string());
    let mut progress = TestProgress::new();
    execute_test_with_hooks(&test, &mut progress, Event::Start, &around, &mut variables);
    match execute_test_with_hooks(
        &test,
        &mut progress,
        Event::Responded(received(201, r#"{"ok": "no"}"#)),
        &around,
        &mut variables,
    ) {
        TestAction::Done(result) => {
            assert!(!result.success);
            assert_eq!(
                result.messages,
                vec![
                    "Status 201, expected 200",
                    "Time 12ms > 10ms",
                    "Body mismatch",
                    "Failed: Contains({\"ok\":\"yes\"})",
                    "Failed: PathRegex(\"$.{{field}}\", \"^{{want}}$\")",
                    "Failed: Exact([1])",
                ]
            );
            assert_eq!(result.response_body.unwrap().to_compact(), r#"{"ok":"no"}"#);
            assert_eq!(
                result.headers,
                vec![
                    ("Content-Type".to_string(), "application/json".to_string()),
                    ("content-type".to_string(), "application/json".to_string()),
                ]
            );
        }
        other => panic!("unexpected action: {:?}", other),
    }
    // Nothing is captured from a response that fails, but its time is kept.
    assert!(!variables.contains_key("kept"));
    assert!(!variables.contains_key("header_content-type"));
    assert_eq!(variables.get("response_time_ms").unwrap(), "12");

    let mut progress = TestProgress::new();
    test.max_response_time = Some(12);
    test.assertions.as_mut().unwrap().pop();
    execute_test_with_hooks(&test, &mut progress, Event::Start, &around, &mut variables);
    let response = Exchange::Received {
        status: 200,
        body: Json::parse(r#"{"ok": "yes", "more": 1}"#).unwrap(),
        headers: vec![
            ("X-Id".to_string(), "7".to_string()),
            ("SET-COOKIE".to_string(), "lang=en; sid= s-1 =x; Path=/".to_string()),
        ],
        time_ms: 12,
    };
    match execute_test_with_hooks(&test, &mut progress, Event::Responded(response), &around, &mut variables) {
        TestAction::Done(result) => {
            assert!(result.success);
            assert!(result.messages.is_empty());
        }
        other => panic!("unexpected action: {:?}", other),
    }
    assert_eq!(variables.get("kept").unwrap(), "yes");
    assert_eq!(variables.get("header_x-id").unwrap(), "7");
    assert_eq!(variables.get("session").unwrap(), "s-1");
    assert_eq!(variables.get("header_set-cookie").unwrap(), "lang=en; sid= s-1 =x; Path=/");
}

#[test]
fn body_comes_inline_or_from_a_file() {
    let env = Variables::new();
    let around = Surroundings { env: &env, work_dir: ".", allowed_commands: None, platform: Platform::Unix };
    let mut variables = Variables::new();
    variables.insert("id".to_string(), "7".to_string());

    let mut inline = test_named("inline");
    inline.body = Some(Json::parse(r#"{"id": "{{id}}", "n": 1, "list": ["{{id}}", true, null]}"#).unwrap());
    inline.body_file = Some("ignored.json".to_string());
    let mut progress = TestProgress::new();
    match execute_test_with_hooks(&inline, &mut progress, Event::Start, &around, &mut variables) {
        TestAction::Send(request, None) => {
            assert_eq!(
                request.body.unwrap().to_compact(),
                r#"{"id":"7","list":["7",true,null],"n":1}"#
            );
        }
        other => panic!("unexpected action: {:?}", other),
    }

    let mut from_file = test_named("file");
    from_file.body_file = Some("bodies/user.json".to_string());
    let mut progress = TestProgress::new();
    match execute_test_with_hooks(&from_file, &mut progress, Event::Start, &around, &mut variables) {
        TestAction::Probe(path) => assert_eq!(path, "bodies/user.json"),
        other => panic!("unexpected action: {:?}", other),
    }
    let probe = FileProbe::Content(r#"{"id": {{id}}}"#.to_string());
    match execute_test_with_hooks(&from_file, &mut progress, Event::Probed(probe), &around, &mut variables) {
        TestAction::Send(request, None) => {
            assert_eq!(request.body.unwrap().to_compact(), r#"{"id":7}"#);
        }
        other => panic!("unexpected action: {:?}", other),
    }
    let mut progress = TestProgress::new();
    execute_test_with_hooks(&from_file, &mut progress, Event::Start, &around, &mut variables);
    match execute_test_with_hooks(
        &from_file,
        &mut progress,
        Event::Probed(FileProbe::Missing),
        &around,
        &mut variables,
    ) {
        TestAction::Send(request, Some(warning)) => {
            assert!(request.body.is_none());
            assert_eq!(
                warning,
                "Error loading body file 'bodies/user.json': File operation failed: File 'bodies/user.json' does not exist"
            );
        }
        other => panic!("unexpected action: {:?}", other),
    }

    let mut escaping = test_named("escaping");
    escaping.body_file = Some("../secret.txt".to_string());
    let mut progress = TestProgress::new();
    match execute_test_with_hooks(&escaping, &mut progress, Event::Start, &around, &mut variables) {
        TestAction::Send(request, Some(warning)) => {
            assert!(request.body.is_none());
            assert!(warning.contains("cannot escape test directory"));
        }
        other => panic!("unexpected action: {:?}", other),
    }
}

#[test]
fn setup_failure_ends_the_run_without_tests_and_teardown() {
    let mut suite = suite_of(vec![test_named("never")]);
    suite.setup = Some(vec![step("migrate", "up")]);
    suite.teardown = Some(vec![step("migrate", "down")]);
    let env = Variables::new();
    let around = Surroundings { env: &env, work_dir: ".", allowed_commands: None, platform: Platform::Unix };
    let mut runner = TestRunner::new(false);
    let mut progress = RunProgress::new();
    match runner.execute_tests(&suite, &mut progress, SuiteEvent::Start, &None, &around) {
        SuiteAction::Launch(inv) => assert_eq!(inv.args, vec!["up"]),
        other => panic!("unexpected action: {:?}", other),
    }
    match runner.execute_tests(
        &suite,
        &mut progress,
        SuiteEvent::ProcessEnded(failed("locked")),
        &None,
        &around,
    ) {
        SuiteAction::SetupFailed(msg) => assert_eq!(
            msg,
            "Setup failed: Command execution failed: setup step 1 failed with exit code Some(1): locked"
        ),
        other => panic!("unexpected action: {:?}", other),
    }
    assert_eq!(progress.phase, Phase::Finished);
    assert!(runner.results.is_empty());
}

#[test]
fn filter_skips_tests_and_teardown_runs_anyway() {
    let mut hooked = test_named("users list");
    hooked.before = Some(vec![step("never", "runs")]);
    let mut suite = suite_of(vec![hooked, test_named("orders list"), test_named("users get")]);
    suite.teardown = Some(vec![step("cleanup", "all")]);
    let allowed = vec!["cleanup".to_string()];
    let env = Variables::new();
    let around = Surroundings {
        env: &env,
        work_dir: ".",
        allowed_commands: Some(&allowed),
        platform: Platform::Unix,
    };
    let filter = Some("orders".to_string());
    let mut runner = TestRunner::new(false);
    let mut progress = RunProgress::new();
    assert!(matches!(
        runner.execute_tests(&suite, &mut progress, SuiteEvent::Start, &filter, &around),
        SuiteAction::Skipped(0)
    ));
    assert!(matches!(
        runner.execute_tests(&suite, &mut progress, SuiteEvent::Resume, &filter, &around),
        SuiteAction::Send(_, None)
    ));
    assert!(matches!(
        runner.execute_tests(
            &suite,
            &mut progress,
            SuiteEvent::Responded(received(200, "[]")),
            &filter,
            &around
        ),
        SuiteAction::Completed(0)
    ));
    assert!(matches!(
        runner.execute_tests(&suite, &mut progress, SuiteEvent::Resume, &filter, &around),
        SuiteAction::Skipped(2)
    ));
    assert!(matches!(
        runner.execute_tests(&suite, &mut progress, SuiteEvent::Resume, &filter, &around),
        SuiteAction::Summarize
    ));
    assert_eq!(progress.skipped, 2);
    assert_eq!(runner.results.len(), 1);
    assert!(matches!(
        runner.execute_tests(&suite, &mut progress, SuiteEvent::Resume, &filter, &around),
        SuiteAction::Launch(_)
    ));
    match runner.execute_tests(
        &suite,
        &mut progress,
        SuiteEvent::ProcessEnded(Outcome::Failed("Failed to spawn process: gone".to_string())),
        &filter,
        &around,
    ) {
        SuiteAction::TeardownFailed(msg) => assert_eq!(
            msg,
            "Teardown failed: Command execution failed: Failed to spawn process: gone"
        ),
        other => panic!("unexpected action: {:?}", other),
    }
    assert_eq!(runner.results.len(), 1);
    assert!(runner.results[0].success);

    // A filter that leaves every test out still leads to the teardown.
    let filter = Some("nothing".to_string());
    let mut runner = TestRunner::new(false);
    let mut progress = RunProgress::new();
    let mut actions = vec![runner.execute_tests(&suite, &mut progress, SuiteEvent::Start, &filter, &around)];
    for _ in 0..3 {
        actions.push(runner.execute_tests(&suite, &mut progress, SuiteEvent::Resume, &filter, &around));
    }
    assert!(matches!(actions[0], SuiteAction::Skipped(0)));
    assert!(matches!(actions[1], SuiteAction::Skipped(1)));
    assert!(matches!(actions[2], SuiteAction::Skipped(2)));
    assert!(matches!(actions[3], SuiteAction::Summarize));
    assert!(matches!(
        runner.execute_tests(&suite, &mut progress, SuiteEvent::Resume, &filter, &around),
        SuiteAction::Launch(_)
    ));
    assert!(matches!(
        runner.execute_tests(
            &suite,
            &mut progress,
            SuiteEvent::ProcessEnded(succeeded("")),
            &filter,
            &around
        ),
        SuiteAction::Finished
    ));
    assert!(runner.results.is_empty());
}
