use catalyst::engine::commands::{
    evaluate_condition, execute_command_step, execute_command_steps, CommandError, HookAction,
    HookContext, HookState, Selection,
};
use catalyst::engine::executor::{
    is_sensitive, shown_value, Outcome, Platform, StepAction, StepEvent,
};
use catalyst::engine::variables::Variables;
use catalyst::models::command::{CaptureConfig, CommandStep};

fn echo_step() -> CommandStep {
    CommandStep {
        run: "echo".to_string(),
        args: None,
        shell: None,
        dir: None,
        env: None,
        timeout_ms: None,
        ignore_error: None,
        capture: None,
        export: None,
        when: None,
        on: None,
    }
}

fn exited(stdout: &str, stderr: &str, code: i32) -> Outcome {
    Outcome::Exited {
        stdout: stdout.to_string(),
        stderr: stderr.to_string(),
        exit_code: Some(code),
        elapsed_ms: 5,
    }
}

fn start(step: &CommandStep, variables: &mut Variables, allowed: Option<&Vec<String>>) -> StepAction {
    execute_command_step(
        step,
        StepEvent::Start,
        &Variables::new(),
        variables,
        ".",
        allowed,
        Platform::Unix,
    )
}

fn finish(step: &CommandStep, variables: &mut Variables, outcome: Outcome) -> StepAction {
    execute_command_step(
        step,
        StepEvent::Ended(outcome),
        &Variables::new(),
        variables,
        ".",
        None,
        Platform::Unix,
    )
}

#[test]
fn test_command_step_defaults() {
    let step = CommandStep {
        run: "echo".to_string(),
        args: None,
        shell: None,
        dir: None,
        env: None,
        timeout_ms: None,
        ignore_error: None,
        capture: None,
        export: None,
        when: None,
        on: None,
    };

    assert!(!step.should_ignore_error());
    assert!(!step.should_use_shell());
    assert_eq!(step.get_timeout_ms(), 30000);
    assert_eq!(step.get_on_condition(), "always");
}

#[test]
fn test_command_step_with_values() {
    let step = CommandStep {
        run: "echo".to_string(),
        args: Some(vec!["hello".to_string()]),
        shell: Some(true),
        dir: Some("./test".to_string()),
        env: None,
        timeout_ms: Some(5000),
        ignore_error: Some(true),
        capture: Some(CaptureConfig { var: "output".to_string() }),
        export: None,
        when: Some("{{condition}} == \"true\"".to_string()),
        on: Some("success".to_string()),
    };

    assert!(step.should_ignore_error());
    assert!(step.should_use_shell());
    assert_eq!(step.get_timeout_ms(), 5000);
    assert_eq!(step.get_on_condition(), "success");
}

#[test]
fn test_condition_evaluation() {
    assert!(evaluate_condition("\"true\" == \"true\""));
    assert!(!evaluate_condition("\"true\" == \"false\""));
    assert!(!evaluate_condition("\"false\" == \"true\""));
    assert!(evaluate_condition("\"test\" != \"other\""));
    assert!(!evaluate_condition("\"test\" != \"test\""));
    assert!(evaluate_condition("non-empty-string"));
    assert!(!evaluate_condition(""));
    assert!(!evaluate_condition("false"));
}

#[test]
fn condition_edge_cases() {
    assert!(!evaluate_condition("   "));
    assert!(!evaluate_condition("  false\t"));
    assert!(evaluate_condition("False"));
    assert!(evaluate_condition("0"));
    assert!(evaluate_condition(" a == a "));
    assert!(evaluate_condition("\"\"a\"\" == a"));
    assert!(evaluate_condition("a != b == a != b"));
    assert!(!evaluate_condition("a == b != c"));
    assert!(evaluate_condition("=="));
    assert!(!evaluate_condition("!="));
    assert!(evaluate_condition("x!="));
    assert!(evaluate_condition("\" a\" != \"a\""));
}

#[test]
fn direct_step_is_built_with_substitution() {
    let mut step = echo_step();
    step.run = "{{tool}}".to_string();
    step.args = Some(vec!["hello".to_string(), "{{who}}".to_string(), "${{HOME}}".to_string()]);
    step.dir = Some("work/{{who}}".to_string());
    step.env = Some(vec![("API_TOKEN".to_string(), "t-{{who}}".to_string())]);
    step.timeout_ms = Some(5000);
    let mut env = Variables::new();
    env.insert("HOME".to_string(), "/home/me".to_string());
    let mut variables = Variables::new();
    variables.insert("tool".to_string(), "echo".to_string());
    variables.insert("who".to_string(), "world".to_string());

    let action = execute_command_step(
        &step,
        StepEvent::Start,
        &env,
        &mut variables,
        "base",
        None,
        Platform::Unix,
    );
    match action {
        StepAction::Launch(inv) => {
            assert_eq!(inv.program, "echo");
            assert_eq!(inv.args, vec!["hello", "world", "/home/me"]);
            assert_eq!(inv.dir, "work/world");
            assert_eq!(inv.env, vec![("API_TOKEN".to_string(), "t-world".to_string())]);
            assert_eq!(inv.timeout_ms, 5000);
        }
        other => panic!("unexpected action: {:?}", other),
    }
}

#[test]
fn shell_step_is_wrapped_for_the_platform() {
    let mut step = echo_step();
    step.run = "echo {{x}} | wc".to_string();
    step.shell = Some(true);
    let mut variables = Variables::new();
    variables.insert("x".to_string(), "1".to_string());
    match execute_command_step(
        &step,
        StepEvent::Start,
        &Variables::new(),
        &mut variables,
        "base",
        None,
        Platform::Unix,
    ) {
        StepAction::Launch(inv) => {
            assert_eq!(inv.program, "sh");
            assert_eq!(inv.args, vec!["-lc", "echo 1 | wc"]);
            assert_eq!(inv.dir, "base");
            assert!(inv.env.is_empty());
            assert_eq!(inv.timeout_ms, 30000);
        }
        other => panic!("unexpected action: {:?}", other),
    }
    step.args = Some(vec!["a".to_string(), "b {{x}}".to_string()]);
    match execute_command_step(
        &step,
        StepEvent::Start,
        &Variables::new(),
        &mut variables,
        "base",
        None,
        Platform::Windows,
    ) {
        StepAction::Launch(inv) => {
            assert_eq!(inv.program, "cmd");
            assert_eq!(inv.args, vec!["/C", "a", "b 1"]);
        }
        other => panic!("unexpected action: {:?}", other),
    }
}

#[test]
fn step_whose_condition_fails_is_skipped_and_never_fails() {
    let mut step = echo_step();
    step.run = "forbidden_command".to_string();
    step.args = Some(vec!["conditional".to_string()]);
    step.when = Some("{{run_test}} == \"true\"".to_string());
    let allowed = vec!["echo".to_string()];

    let mut variables = Variables::new();
    variables.insert("run_test".to_string(), "false".to_string());
    match start(&step, &mut variables, Some(&allowed)) {
        StepAction::Done(Ok(result)) => {
            assert!(result.success);
            assert!(result.stdout.is_empty());
            assert!(result.stderr.is_empty());
            assert_eq!(result.exit_code, Some(0));
            assert!(result.captured_vars.is_empty());
        }
        other => panic!("unexpected action: {:?}", other),
    }

    variables.insert("run_test".to_string(), "true".to_string());
    match start(&step, &mut variables, Some(&allowed)) {
        StepAction::Done(Err(CommandError::Validation(msg))) => {
            assert_eq!(msg, "Command 'forbidden_command' is not in allowed_commands list");
        }
        other => panic!("unexpected action: {:?}", other),
    }
    match start(&step, &mut variables, None) {
        StepAction::Launch(inv) => assert_eq!(inv.program, "forbidden_command"),
        other => panic!("unexpected action: {:?}", other),
    }
}

#[test]
fn allowed_commands_look_at_the_first_word() {
    let allowed = vec!["echo".to_string(), "ls".to_string()];
    let mut variables = Variables::new();

    let mut step = echo_step();
    step.run = "  echo   hello".to_string();
    assert!(matches!(start(&step, &mut variables, Some(&allowed)), StepAction::Launch(_)));

    step.run = "forbidden_command".to_string();
    match start(&step, &mut variables, Some(&allowed)) {
        StepAction::Done(Err(e)) => {
            assert!(e.to_string().contains("not in allowed_commands list"));
            assert_eq!(
                e.to_string(),
                "Validation error: Command 'forbidden_command' is not in allowed_commands list"
            );
        }
        other => panic!("unexpected action: {:?}", other),
    }

    // A shell step is judged by its second argument.
    step.run = "rm -rf /".to_string();
    step.shell = Some(true);
    step.args = Some(vec!["-c".to_string(), "ls -la".to_string()]);
    assert!(matches!(start(&step, &mut variables, Some(&allowed)), StepAction::Launch(_)));
    step.args = Some(vec!["ls".to_string()]);
    assert!(matches!(
        start(&step, &mut variables, Some(&allowed)),
        StepAction::Done(Err(CommandError::Validation(_)))
    ));
    step.run = "   ".to_string();
    step.args = None;
    match start(&step, &mut variables, Some(&allowed)) {
        StepAction::Done(Err(CommandError::Validation(msg))) => {
            assert_eq!(msg, "Command '   ' is not in allowed_commands list");
        }
        other => panic!("unexpected action: {:?}", other),
    }
}

#[test]
fn output_is_captured_and_exported() {
    let mut step = echo_step();
    step.capture = Some(CaptureConfig { var: "json_output".to_string() });
    step.export = Some(vec![
        ("extracted_name".to_string(), "$.name".to_string()),
        ("extracted_id".to_string(), "$.id".to_string()),
        ("missing".to_string(), "$.nothing".to_string()),
    ]);
    let mut variables = Variables::new();
    let stdout = "{\"name\": \"test\", \"id\": 123}\n";
    match finish(&step, &mut variables, exited(stdout, "warn", 3)) {
        StepAction::Done(Ok(result)) => {
            assert!(!result.success);
            assert_eq!(result.exit_code, Some(3));
            assert_eq!(result.stdout, stdout);
            assert_eq!(result.stderr, "warn");
            assert_eq!(
                result.captured_vars,
                vec![
                    ("json_output".to_string(), stdout.to_string()),
                    ("json_output_stderr".to_string(), "warn".to_string()),
                    ("extracted_name".to_string(), "test".to_string()),
                    ("extracted_id".to_string(), "123".to_string()),
                ]
            );
        }
        other => panic!("unexpected action: {:?}", other),
    }
    assert_eq!(variables.get("extracted_name").unwrap(), "test");
    assert_eq!(variables.get("extracted_id").unwrap(), "123");
    assert_eq!(variables.get("json_output").unwrap(), stdout);
    assert_eq!(variables.get("json_output_stderr").unwrap(), "warn");
    assert!(!variables.contains_key("missing"));
    assert_eq!(variables.len(), 4);
}

#[test]
fn output_that_is_no_json_fails_the_export() {
    let mut step = echo_step();
    step.capture = Some(CaptureConfig { var: "out".to_string() });
    step.export = Some(vec![("x".to_string(), "$.x".to_string())]);
    let mut variables = Variables::new();
    match finish(&step, &mut variables, exited("not json", "", 0)) {
        StepAction::Done(Err(CommandError::JsonParsingFailed(msg))) => {
            assert!(msg.starts_with("Failed to parse stdout as JSON: "), "{}", msg);
            assert!(msg.len() > "Failed to parse stdout as JSON: ".len());
        }
        other => panic!("unexpected action: {:?}", other),
    }
    assert!(variables.is_empty());

    step.ignore_error = Some(true);
    match finish(&step, &mut variables, exited("not json", "", 0)) {
        StepAction::Done(Ok(result)) => {
            assert!(result.success);
            assert_eq!(result.captured_vars.len(), 2);
        }
        other => panic!("unexpected action: {:?}", other),
    }
    assert_eq!(variables.get("out").unwrap(), "not json");

    // Blank output is not read as JSON at all.
    step.ignore_error = None;
    let mut variables = Variables::new();
    assert!(matches!(
        finish(&step, &mut variables, exited("  \n", "", 0)),
        StepAction::Done(Ok(_))
    ));
}

#[test]
fn overtime_is_a_timeout_whatever_the_step_says() {
    let mut step = echo_step();
    step.timeout_ms = Some(100);
    step.ignore_error = Some(true);
    step.capture = Some(CaptureConfig { var: "out".to_string() });
    let mut variables = Variables::new();
    assert!(matches!(
        finish(&step, &mut variables, Outcome::TimedOut),
        StepAction::Done(Err(CommandError::Timeout))
    ));
    let late = Outcome::Exited {
        stdout: "done".to_string(),
        stderr: String::new(),
        exit_code: Some(0),
        elapsed_ms: 101,
    };
    assert!(matches!(
        finish(&step, &mut variables, late),
        StepAction::Done(Err(CommandError::Timeout))
    ));
    assert!(variables.is_empty());
    let in_time = Outcome::Exited {
        stdout: "done".to_string(),
        stderr: String::new(),
        exit_code: Some(0),
        elapsed_ms: 100,
    };
    assert!(matches!(finish(&step, &mut variables, in_time), StepAction::Done(Ok(_))));
    match finish(&step, &mut variables, Outcome::Failed("Failed to spawn process: no".to_string())) {
        StepAction::Done(Err(e)) => {
            assert_eq!(e.to_string(), "Command execution failed: Failed to spawn process: no");
        }
        other => panic!("unexpected action: {:?}", other),
    }
    assert_eq!(CommandError::Timeout.to_string(), "Command timed out");
}

fn context<'a>(env: &'a Variables, selection: Selection, allowed: Option<&'a Vec<String>>) -> HookContext<'a> {
    HookContext {
        env,
        work_dir: ".",
        allowed_commands: allowed,
        platform: Platform::Unix,
        selection,
        phase_name: "setup",
    }
}

#[test]
fn hook_runs_its_steps_in_order_and_stops_at_a_failure() {
    let mut first = echo_step();
    first.args = Some(vec!["one".to_string()]);
    first.capture = Some(CaptureConfig { var: "first".to_string() });
    let mut conditional = echo_step();
    conditional.when = Some("{{first}} == \"nope\"".to_string());
    let mut second = echo_step();
    second.args = Some(vec!["{{first}}".to_string()]);
    let third = echo_step();
    let steps = vec![first, conditional, second, third];

    let env = Variables::new();
    let ctx = context(&env, Selection::All, None);
    let mut variables = Variables::new();
    let mut state = HookState { index: 0, number: 0 };

    match execute_command_steps(&steps, &mut state, StepEvent::Start, &ctx, &mut variables) {
        HookAction::Launch(inv) => assert_eq!(inv.args, vec!["one"]),
        other => panic!("unexpected action: {:?}", other),
    }
    assert_eq!((state.index, state.number), (0, 1));

    // The conditional step is skipped; the next one sees what the first captured.
    match execute_command_steps(
        &steps,
        &mut state,
        StepEvent::Ended(exited("ONE", "", 0)),
        &ctx,
        &mut variables,
    ) {
        HookAction::Launch(inv) => assert_eq!(inv.args, vec!["ONE"]),
        other => panic!("unexpected action: {:?}", other),
    }
    assert_eq!((state.index, state.number), (2, 3));

    match execute_command_steps(
        &steps,
        &mut state,
        StepEvent::Ended(exited("", "boom", 2)),
        &ctx,
        &mut variables,
    ) {
        HookAction::Done(Err(CommandError::ExecutionFailed(msg))) => {
            assert_eq!(msg, "setup step 3 failed with exit code Some(2): boom");
        }
        other => panic!("unexpected action: {:?}", other),
    }
}

#[test]
fn hook_goes_on_after_a_failure_that_is_ignored() {
    let mut first = echo_step();
    first.ignore_error = Some(true);
    let mut refused = echo_step();
    refused.run = "rm".to_string();
    refused.ignore_error = Some(true);
    let last = echo_step();
    let steps = vec![first, refused, last];
    let allowed = vec!["echo".to_string()];

    let env = Variables::new();
    let ctx = context(&env, Selection::All, Some(&allowed));
    let mut variables = Variables::new();
    let mut state = HookState { index: 0, number: 0 };
    assert!(matches!(
        execute_command_steps(&steps, &mut state, StepEvent::Start, &ctx, &mut variables),
        HookAction::Launch(_)
    ));
    assert!(matches!(
        execute_command_steps(
            &steps,
            &mut state,
            StepEvent::Ended(Outcome::TimedOut),
            &ctx,
            &mut variables
        ),
        HookAction::Launch(_)
    ));
    assert_eq!((state.index, state.number), (2, 3));
    assert!(matches!(
        execute_command_steps(
            &steps,
            &mut state,
            StepEvent::Ended(Outcome::Exited {
                stdout: String::new(),
                stderr: String::new(),
                exit_code: None,
                elapsed_ms: 1,
            }),
            &ctx,
            &mut variables
        ),
        HookAction::Done(Err(CommandError::ExecutionFailed(_)))
    ));
}

#[test]
fn hook_without_steps_that_run_ends_well() {
    let mut on_failure = echo_step();
    on_failure.args = Some(vec!["42".to_string()]);
    on_failure.on = Some("failure".to_string());
    let steps = vec![on_failure];
    let env = Variables::new();
    let mut variables = Variables::new();
    let mut state = HookState { index: 0, number: 0 };

    let ctx = context(&env, Selection::Outcome(true), None);
    assert!(matches!(
        execute_command_steps(&steps, &mut state, StepEvent::Start, &ctx, &mut variables),
        HookAction::Done(Ok(()))
    ));
    let ctx = context(&env, Selection::Outcome(false), None);
    assert!(matches!(
        execute_command_steps(&steps, &mut state, StepEvent::Start, &ctx, &mut variables),
        HookAction::Launch(_)
    ));
    let none: Vec<CommandStep> = Vec::new();
    assert!(matches!(
        execute_command_steps(&none, &mut state, StepEvent::Start, &ctx, &mut variables),
        HookAction::Done(Ok(()))
    ));
}

#[test]
fn values_of_sensitive_variables_are_not_shown() {
    for key in ["API_TOKEN", "password", "MySecret", "SSH_KEY", "monkey"] {
        assert!(is_sensitive(key), "{}", key);
        assert_eq!(shown_value(key, "v"), "[REDACTED]");
    }
    for key in ["PATH", "HOME", "tok_en", ""] {
        assert!(!is_sensitive(key), "{}", key);
        assert_eq!(shown_value(key, "v"), "v");
    }
}
