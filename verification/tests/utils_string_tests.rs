use catalyst::engine::variables::Variables;
use catalyst::utils::string::replace_variables;

fn environment_with(key: &str, value: &str) -> Variables {
    let mut env = Variables::new();
    env.insert(key.to_string(), value.to_string());
    env
}

#[test]
fn utils_string_tests_test_replace_variables_single() {
    let mut variables = Variables::new();
    variables.insert("name".to_string(), "John".to_string());
    let result = replace_variables("Hello {{name}}!", &Variables::new(), &variables);
    assert_eq!(result, "Hello John!");
}

#[test]
fn utils_string_tests_test_replace_variables_multiple() {
    let mut variables = Variables::new();
    variables.insert("name".to_string(), "John".to_string());
    variables.insert("age".to_string(), "30".to_string());
    let result = replace_variables("{{name}} is {{age}} years old.", &Variables::new(), &variables);
    assert_eq!(result, "John is 30 years old.");
}

#[test]
fn utils_string_tests_test_replace_variables_no_match() {
    let mut variables = Variables::new();
    variables.insert("name".to_string(), "John".to_string());
    let result = replace_variables("Hello world!", &Variables::new(), &variables);
    assert_eq!(result, "Hello world!");
}

#[test]
fn utils_string_tests_test_replace_variables_partial_match() {
    let mut variables = Variables::new();
    variables.insert("name".to_string(), "John".to_string());
    let result = replace_variables(
        "Hello {{name}}, welcome to {{city}}!",
        &Variables::new(),
        &variables,
    );
    assert_eq!(result, "Hello John, welcome to {{city}}!");
}

#[test]
fn test_replace_env_var() {
    let env = environment_with("TEST_USER", "Alice");
    let variables = Variables::new();
    let result = replace_variables("Hello ${{TEST_USER}}!", &env, &variables);
    assert_eq!(result, "Hello Alice!");
}

#[test]
fn test_replace_env_and_test_vars() {
    let env = environment_with("API_KEY", "secret123");
    let mut variables = Variables::new();
    variables.insert("username".to_string(), "john_doe".to_string());

    let result = replace_variables(
        "Auth: Bearer ${{API_KEY}}, User: {{username}}",
        &env,
        &variables,
    );
    assert_eq!(result, "Auth: Bearer secret123, User: john_doe");
}

#[test]
fn utils_string_tests_test_replace_variables_json() {
    let env = environment_with("TOKEN", "xyz789");
    let mut variables = Variables::new();
    variables.insert("user_id".to_string(), "42".to_string());

    let result = replace_variables(
        r#"{
                    "authorization": "Bearer ${{TOKEN}}",
                    "user": {
                        "id": {{user_id}}
                    }
                }"#,
        &env,
        &variables,
    );

    let expected = r#"{"authorization":"Bearer xyz789","user":{"id":42}}"#;
    assert_eq!(
        result.replace([' ', '\n'], ""),
        expected.replace([' ', '\n'], "")
    );
}
