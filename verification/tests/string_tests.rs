use catalyst::engine::variables::Variables;
use catalyst::utils::string::replace_variables;

#[test]
fn string_tests_test_replace_variables_single() {
    // Arrange
    let mut variables = Variables::new();
    variables.insert("name".to_string(), "John".to_string());

    // Act
    let result = replace_variables("Hello {{name}}!", &Variables::new(), &variables);

    // Assert
    assert_eq!(result, "Hello John!");
}

#[test]
fn string_tests_test_replace_variables_multiple() {
    // Arrange
    let mut variables = Variables::new();
    variables.insert("name".to_string(), "John".to_string());
    variables.insert("age".to_string(), "30".to_string());

    // Act
    let result = replace_variables("{{name}} is {{age}} years old.", &Variables::new(), &variables);

    // Assert
    assert_eq!(result, "John is 30 years old.");
}

#[test]
fn string_tests_test_replace_variables_no_match() {
    // Arrange
    let mut variables = Variables::new();
    variables.insert("name".to_string(), "John".to_string());

    // Act
    let result = replace_variables("Hello world!", &Variables::new(), &variables);

    // Assert
    assert_eq!(result, "Hello world!");
}

#[test]
fn string_tests_test_replace_variables_partial_match() {
    // Arrange
    let mut variables = Variables::new();
    variables.insert("name".to_string(), "John".to_string());

    // Act
    let result = replace_variables(
        "Hello {{name}}, welcome to {{city}}!",
        &Variables::new(),
        &variables,
    );

    // Assert
    assert_eq!(result, "Hello John, welcome to {{city}}!");
}

#[test]
fn string_tests_test_replace_variables_json() {
    // Arrange
    let mut variables = Variables::new();
    variables.insert("token".to_string(), "abc123".to_string());
    variables.insert("user_id".to_string(), "42".to_string());

    // Act
    let result = replace_variables(
        r#"{"authorization": "Bearer {{token}}", "user": {"id": {{user_id}}}}"#,
        &Variables::new(),
        &variables,
    );

    // Assert
    assert_eq!(
        result,
        r#"{"authorization": "Bearer abc123", "user": {"id": 42}}"#
    );
}
