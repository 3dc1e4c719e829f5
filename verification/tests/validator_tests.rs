use catalyst::checker::validator::{
    is_known_method, validate, validate_body_file, validate_command_steps, BodyFileFacts,
    SuiteFacts, TestFacts,
};
use catalyst::json::Json;
use catalyst::models::command::{CaptureConfig, CommandStep};
use catalyst::models::config::Config;
use catalyst::models::suite::TestSuite;
use catalyst::models::test::Test;
use catalyst::utils::file::FileProbe;

fn hook_step(run: &str, args: &[&str]) -> CommandStep {
    CommandStep {
        run: run.to_string(),
        args: Some(args.iter().map(|a| a.to_string()).collect()),
        shell: None,
        dir: None,
        env: None,
        timeout_ms: None,
        ignore_error: None,
        capture: None,
        export: None,
        when: None,
        on: None,
    }
}

fn plain_test(name: &str) -> Test {
    Test {
        name: name.to_string(),
        method: "GET".to_string(),
        endpoint: "/test".to_string(),
        query_params: None,
        headers: None,
        body: None,
        body_file: None,
        expected_status: 200,
        expected_body: None,
        assertions: None,
        expected_headers: None,
        store: None,
        get_cookie: None,
        max_response_time: None,
        before: None,
        after: None,
    }
}

fn suite_with(tests: Vec<Test>, allowed: Option<Vec<&str>>) -> TestSuite {
    TestSuite {
        config: Config {
            base_url: "http://localhost:8080".to_string(),
            auth_method: None,
            auth_token: None,
            default_headers: None,
            env: None,
            allowed_commands: allowed.map(|l| l.into_iter().map(|c| c.to_string()).collect()),
        },
        tests,
        setup: None,
        teardown: None,
    }
}

fn no_facts() -> SuiteFacts {
    SuiteFacts { setup_dirs: Vec::new(), teardown_dirs: Vec::new(), tests: Vec::new() }
}

#[test]
fn test_validation_with_command_hooks() {
    let mut test = plain_test("Test with hooks");
    test.before = Some(vec![hook_step("echo", &["Before test"])]);
    let mut after = hook_step("echo", &["After test"]);
    after.on = Some("always".to_string());
    test.after = Some(vec![after]);
    let mut suite = suite_with(vec![test], Some(vec!["echo", "ls"]));
    suite.setup = Some(vec![hook_step("echo", &["Setting up tests"])]);
    let mut teardown = hook_step("echo", &["Cleaning up"]);
    teardown.ignore_error = Some(true);
    suite.teardown = Some(vec![teardown]);

    // This should validate successfully
    let lines = validate(&suite, &no_facts());
    assert_eq!(lines, vec!["Validation successful: Found 1 tests."]);
}

#[test]
fn validation_says_everything_that_is_found() {
    let mut broken = plain_test("");
    broken.method = "fetch".to_string();
    broken.endpoint = String::new();
    let mut both = plain_test("both");
    both.method = "post".to_string();
    both.body = Some(Json::Null);
    both.body_file = Some("body.json".to_string());
    let mut hooks = plain_test("hooks");
    hooks.method = String::new();
    let mut before = hook_step("", &[]);
    before.on = Some("success".to_string());
    before.dir = Some("/tmp/../x".to_string());
    before.timeout_ms = Some(0);
    before.export = Some(vec![("a".to_string(), "$.a".to_string())]);
    hooks.before = Some(vec![hook_step("echo", &["fine"]), before]);
    let mut after = hook_step("rm -rf", &["x"]);
    after.on = Some("sometimes".to_string());
    after.timeout_ms = Some(600001);
    after.export = Some(vec![]);
    after.capture = Some(CaptureConfig { var: "out".to_string() });
    let mut limit = hook_step("echo", &[]);
    limit.timeout_ms = Some(600000);
    limit.on = Some("failure".to_string());
    hooks.after = Some(vec![after, limit]);
    let suite = suite_with(vec![broken, both, hooks], Some(vec!["echo"]));
    let facts = SuiteFacts {
        setup_dirs: Vec::new(),
        teardown_dirs: Vec::new(),
        tests: vec![
            TestFacts { body_file: None, before_dirs: Vec::new(), after_dirs: Vec::new() },
            TestFacts {
                body_file: Some(BodyFileFacts { absolute: false, json: true, probe: FileProbe::Missing }),
                before_dirs: Vec::new(),
                after_dirs: Vec::new(),
            },
            TestFacts { body_file: None, before_dirs: vec![false, true], after_dirs: Vec::new() },
        ],
    };
    assert_eq!(
        validate(&suite, &facts),
        vec![
            "Validation successful: Found 3 tests.",
            "Error: A test is missing a name.",
            "Error: Test `` is missing an endpoint.",
            "Error: Test `` has an invalid HTTP method `fetch`.",
            "Error: Test `both` cannot have both `body` and `body_file` specified.",
            "Error: Test `both` references a non-existent `body_file`: `body.json`",
            "Error: Test `hooks` is missing an HTTP method.",
            "Error: Test `hooks` has an invalid HTTP method ``.",
            "Error: test 'hooks' before step 2 has empty 'run' field.",
            "Error: test 'hooks' before step 2 uses command '' which is not in allowed_commands list.",
            "Error: test 'hooks' before step 2 has invalid 'dir' path '/tmp/../x' - path traversal is not allowed.",
            "Warning: test 'hooks' before step 2 uses absolute path '/tmp/../x' - consider using relative paths for portability.",
            "Warning: test 'hooks' before step 2 has timeout_ms set to 0, which may cause immediate timeout.",
            "Warning: test 'hooks' before step 2 uses 'export' without 'capture'. Export requires JSON stdout which may not be captured.",
            "Error: test 'hooks' before step 2 uses 'on' field which is only valid for 'after' hooks.",
            "Error: test 'hooks' after step 1 uses command 'rm' which is not in allowed_commands list.",
            "Warning: test 'hooks' after step 1 has very large timeout_ms (600001ms), consider reducing it.",
            "Error: Test `hooks` after hook has invalid 'on' condition 'sometimes'. Must be one of: success, failure, always",
        ]
    );

    let mut empty = suite_with(Vec::new(), None);
    let mut setup = hook_step("anything", &[]);
    setup.on = Some("always".to_string());
    empty.setup = Some(vec![setup]);
    assert_eq!(
        validate(&empty, &no_facts()),
        vec![
            "Validation failed: No tests found in `tests.toml`.",
            "Error: setup step 1 uses 'on' field which is only valid for 'after' hooks.",
        ]
    );
    assert!(validate_command_steps(&Vec::new(), "setup", None, &Vec::new()).is_empty());
}

#[test]
fn body_file_checks_end_at_the_first_that_fails() {
    let facts = |absolute: bool, json: bool, probe: FileProbe| BodyFileFacts { absolute, json, probe };
    let check = |path: &str, f: BodyFileFacts| validate_body_file("t", path, &f);
    assert_eq!(
        check("", facts(true, true, FileProbe::Missing)),
        Some("Error: Test `t` has an empty `body_file` path.".to_string())
    );
    assert_eq!(
        check("../x", facts(true, true, FileProbe::Missing)),
        Some("Error: Test `t` has an invalid `body_file` path `../x` - path traversal is not allowed.".to_string())
    );
    assert_eq!(
        check("/x", facts(true, true, FileProbe::Missing)),
        Some("Error: Test `t` has an invalid `body_file` path `/x` - absolute paths are not allowed.".to_string())
    );
    assert_eq!(
        check("x", facts(false, false, FileProbe::NotAFile)),
        Some("Error: Test `t` references a `body_file` that is not a file: `x`".to_string())
    );
    assert_eq!(check("x.txt", facts(false, false, FileProbe::Content("{".to_string()))), None);
    assert_eq!(check("x.json", facts(false, true, FileProbe::Content("{}".to_string()))), None);
    assert_eq!(check("x.txt", facts(false, false, FileProbe::Unreadable("no".to_string()))), None);
    assert_eq!(
        check("x.json", facts(false, true, FileProbe::Unreadable("no".to_string()))),
        Some("Error: Test `t` references an invalid JSON file `x.json`: Cannot read file: no".to_string())
    );
    let invalid = check("x.json", facts(false, true, FileProbe::Content("{".to_string()))).unwrap();
    assert!(
        invalid.starts_with("Error: Test `t` references an invalid JSON file `x.json`: Invalid JSON syntax: "),
        "{}",
        invalid
    );
    for method in ["GET", "post", "Put", "DELETE", "patch", "HEAD", "options"] {
        assert!(is_known_method(method), "{}", method);
    }
    for method in ["", "FETCH", "GET ", "TRACE"] {
        assert!(!is_known_method(method), "{}", method);
    }
}
