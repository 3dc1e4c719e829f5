use catalyst::engine::commands::CommandError;
use catalyst::engine::prep::build;
use catalyst::engine::test_validator::{process_assertion_with_variables, validate_test};
use catalyst::engine::variables::{
    extract_cookie_value, replace_variables_in_json, store_variables, Variables,
};
use catalyst::engine::verify::{check, describe};
use catalyst::error::{CatalystError, StringResultExt};
use catalyst::http::response::process_response;
use catalyst::json::Json;
use catalyst::models::config::Config;
use catalyst::models::suite::TestSuite;
use catalyst::models::test::{JsonAssertion, Test};
use catalyst::utils::file::FileProbe;

fn request_test() -> Test {
    Test {
        name: "t".to_string(),
        method: "GET".to_string(),
        endpoint: "/users/{{id}}".to_string(),
        query_params: Some(vec![("page".to_string(), "{{page}}".to_string())]),
        headers: Some(vec![("X-Trace".to_string(), "${{TRACE}}".to_string())]),
        body: None,
        body_file: None,
        expected_status: 200,
        expected_body: None,
        assertions: None,
        expected_headers: None,
        store: None,
        get_cookie: None,
        max_response_time: None,
        before: None,
        after: None,
    }
}

fn configured(method: Option<&str>, token: Option<&str>) -> TestSuite {
    TestSuite {
        config: Config {
            base_url: "http://api".to_string(),
            auth_method: method.map(|m| m.to_string()),
            auth_token: token.map(|t| t.to_string()),
            default_headers: Some(vec![("Accept".to_string(), "{{accept}}".to_string())]),
            env: None,
            allowed_commands: None,
        },
        tests: Vec::new(),
        setup: None,
        teardown: None,
    }
}

#[test]
fn request_is_built_from_suite_and_test() {
    let mut env = Variables::new();
    env.insert("TRACE".to_string(), "on".to_string());
    let mut vars = Variables::new();
    vars.insert("id".to_string(), "7".to_string());
    vars.insert("accept".to_string(), "application/json".to_string());
    vars.insert("token".to_string(), "abc".to_string());
    let test = request_test();

    let request = build(&test, &configured(Some("BEARER"), Some("{{token}}")), &env, &vars, &FileProbe::Missing);
    assert_eq!(request.url, "http://api/users/7");
    assert_eq!(
        request.headers.unwrap(),
        vec![
            ("Accept".to_string(), "application/json".to_string()),
            ("X-Trace".to_string(), "on".to_string()),
            ("Authorization".to_string(), "Bearer abc".to_string()),
        ]
    );
    assert_eq!(request.params.unwrap(), vec![("page".to_string(), "{{page}}".to_string())]);
    assert!(request.body.is_none());

    let request = build(&test, &configured(Some("Basic"), Some("dXNlcg==")), &env, &vars, &FileProbe::Missing);
    assert_eq!(request.headers.unwrap()[2].1, "Basic dXNlcg==");
    let request = build(&test, &configured(Some("digest"), Some("raw")), &env, &vars, &FileProbe::Missing);
    assert_eq!(request.headers.unwrap()[2].1, "raw");
    let request = build(&test, &configured(Some("bearer"), None), &env, &vars, &FileProbe::Missing);
    assert_eq!(request.headers.unwrap().len(), 2);

    let mut bare = request_test();
    bare.headers = None;
    bare.query_params = None;
    bare.body_file = Some("b.txt".to_string());
    let mut suite = configured(None, None);
    suite.config.default_headers = None;
    let request = build(&bare, &suite, &env, &vars, &FileProbe::Content("id {{id}}".to_string()));
    assert!(request.headers.is_none());
    assert!(request.params.is_none());
    assert!(matches!(request.body, Some(Json::String(ref s)) if s == "id 7"));
    let request = build(&bare, &suite, &env, &vars, &FileProbe::NotAFile);
    assert!(request.body.is_none());
}

#[test]
fn substitution_reaches_every_string_of_a_value() {
    let mut vars = Variables::new();
    vars.insert("a".to_string(), "A".to_string());
    let json = Json::parse(r#"{"{{a}}": ["{{a}}", 1, {"k": "x{{a}}", "n": null, "t": true}], "s": "{{b}}"}"#).unwrap();
    let made = replace_variables_in_json(&json, &Variables::new(), &vars);
    assert_eq!(
        made.to_compact(),
        r#"{"s":"{{b}}","{{a}}":["A",1,{"k":"xA","n":null,"t":true}]}"#
    );
}

#[test]
fn checks_and_verdict_agree() {
    let mut test = request_test();
    test.max_response_time = Some(5);
    test.assertions = Some(vec![JsonAssertion::Regex("{{word}}".to_string())]);
    let mut vars = Variables::new();
    vars.insert("word".to_string(), "ok".to_string());
    let env = Variables::new();
    let body = Json::parse(r#"{"state": "ok"}"#).unwrap();

    let found = check(&test, 200, &body, 5, &env, &vars);
    assert!(found.ok);
    assert!(found.errors.is_empty());
    assert_eq!(found.status, (200, 200));
    assert_eq!(found.time_ms, 5);
    let verdict = validate_test(&test, 200, &body, 5, &env, &vars);
    assert!(verdict.success);
    assert_eq!(
        (verdict.expected_status, verdict.actual_status, verdict.response_time_ms),
        (200, 200, 5)
    );

    let found = check(&test, 200, &body, 6, &env, &Variables::new());
    assert!(!found.ok);
    assert_eq!(found.errors, vec!["Time 6ms > 5ms", "Failed: Regex(\"{{word}}\")"]);
    assert!(!validate_test(&test, 200, &body, 6, &env, &Variables::new()).success);
    assert!(!validate_test(&test, 201, &body, 5, &env, &vars).success);

    match process_assertion_with_variables(
        &JsonAssertion::PathRegex("$.{{word}}".to_string(), "^{{word}}$".to_string()),
        &env,
        &vars,
    ) {
        JsonAssertion::PathRegex(path, pattern) => {
            assert_eq!(path, "$.ok");
            assert_eq!(pattern, "^ok$");
        }
        other => panic!("unexpected assertion: {:?}", other),
    }
    assert_eq!(describe(&JsonAssertion::Exact(body)), "Exact({\"state\":\"ok\"})");
}

#[test]
fn response_stores_time_body_headers_and_cookies() {
    let body = Json::parse(r#"{"data": {"token": "\"quoted\"", "n": 5, "list": [1]}}"#).unwrap();
    let store = vec![
        ("token".to_string(), "$.data.token".to_string()),
        ("missing".to_string(), "$.data.nothing".to_string()),
        ("n".to_string(), "$.data.n".to_string()),
        ("unrooted".to_string(), "data.n".to_string()),
        ("list".to_string(), "$.data.list".to_string()),
    ];
    let headers = vec![
        ("X-Request-Id".to_string(), "r1".to_string()),
        ("Set-Cookie".to_string(), "first=1; session = no; session=abc; Path=/".to_string()),
        ("set-cookie".to_string(), "session=second".to_string()),
    ];
    let cookies = Some(vec![
        ("session".to_string(), "sid".to_string()),
        ("Path".to_string(), "path".to_string()),
        ("absent".to_string(), "none".to_string()),
    ]);
    let mut vars = Variables::new();
    vars.insert("response_time_ms".to_string(), "1".to_string());
    store_variables(&body, &store, &headers, &cookies, 250, &mut vars);
    assert_eq!(vars.get("response_time_ms").unwrap(), "250");
    assert_eq!(vars.get("token").unwrap(), "quoted");
    assert_eq!(vars.get("n").unwrap(), "5");
    assert_eq!(vars.get("list").unwrap(), "[1]");
    assert!(!vars.contains_key("missing"));
    assert!(!vars.contains_key("unrooted"));
    assert_eq!(vars.get("header_x-request-id").unwrap(), "r1");
    assert_eq!(vars.get("header_set-cookie").unwrap(), "session=second");
    assert_eq!(vars.get("sid").unwrap(), "abc");
    assert_eq!(vars.get("path").unwrap(), "/");
    assert!(!vars.contains_key("none"));
    assert_eq!(vars.len(), 8);

    assert_eq!(extract_cookie_value("a=1; b=2", "b"), Some("2".to_string()));
    assert_eq!(extract_cookie_value("a=1; b=2=3", "b"), Some("2".to_string()));
    assert_eq!(extract_cookie_value("ab=1", "a"), None);
    assert_eq!(extract_cookie_value("theme=dark, a=1", "a"), None);
    assert_eq!(extract_cookie_value("x; a= v ;", "a"), Some("v".to_string()));

    let mut test = request_test();
    test.store = Some(vec![("kept".to_string(), "$.data.n".to_string())]);
    let mut vars = Variables::new();
    let made = process_response(200, body, headers, 9, &test, &Variables::new(), &mut vars);
    assert!(made.success);
    assert_eq!((made.expected_status, made.actual_status), (200, 200));
    assert!(made.body.is_some());
    assert_eq!(made.headers.len(), 6);
    assert_eq!(vars.get("kept").unwrap(), "5");
}

#[test]
fn errors_describe_themselves() {
    assert_eq!(CatalystError::file_error("f").to_string(), "File operation failed: f");
    assert_eq!(CatalystError::http_error("h").to_string(), "HTTP request failed: h");
    assert_eq!(CatalystError::json_error("j").to_string(), "JSON processing failed: j");
    assert_eq!(CatalystError::validation_error("v").to_string(), "Validation failed: v");
    assert_eq!(CatalystError::config_error("c").to_string(), "Configuration error: c");
    assert_eq!(CatalystError::variable_error("x").to_string(), "Variable substitution failed: x");
    assert_eq!(CatalystError::test_error("t").to_string(), "Test execution failed: t");
    assert_eq!(CatalystError::IoError("i".to_string()).to_string(), "IO operation failed: i");
    assert_eq!(
        CatalystError::SerdeError("s".to_string()).to_string(),
        "JSON serialization/deserialization failed: s"
    );
    assert_eq!(
        CatalystError::from_command(CommandError::Validation("no".to_string())).to_string(),
        "Command execution failed: Validation error: no"
    );
    assert_eq!(
        CommandError::JsonParsingFailed("bad".to_string()).to_string(),
        "JSON parsing failed: bad"
    );
    let failed: Result<u8, String> = Err("why".to_string());
    assert!(matches!(failed.clone().map_file_err(), Err(CatalystError::FileError(m)) if m == "why"));
    assert!(matches!(failed.clone().map_http_err(), Err(CatalystError::HttpError(_))));
    assert!(matches!(failed.clone().map_json_err(), Err(CatalystError::JsonError(_))));
    assert!(matches!(failed.clone().map_validation_err(), Err(CatalystError::ValidationError(_))));
    assert!(matches!(failed.clone().map_config_err(), Err(CatalystError::ConfigError(_))));
    assert!(matches!(failed.clone().map_variable_err(), Err(CatalystError::VariableError(_))));
    assert!(matches!(failed.map_test_err(), Err(CatalystError::TestError(_))));
    let fine: Result<u8, String> = Ok(3);
    assert!(matches!(fine.map_file_err(), Ok(3)));
}
