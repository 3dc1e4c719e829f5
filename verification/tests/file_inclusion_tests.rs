use catalyst::engine::variables::Variables;
use catalyst::utils::string::{file_references, replace_variables_with_files};

fn test_files() -> Variables {
    let mut files = Variables::new();
    files.insert(
        "test.txt".to_string(),
        "Hello from file!\nLine 2 with \"quotes\"".to_string(),
    );
    files.insert("data.json".to_string(), r#"{"nested": "value"}"#.to_string());
    files.insert("sub/nested.txt".to_string(), "Nested content".to_string());
    files.insert("../../../etc/passwd".to_string(), "root".to_string());
    files
}

#[test]
fn test_replace_variables_with_files_simple() {
    let files = test_files();
    let vars = Variables::new();

    let input = "Content: {{file:test.txt}}";
    let result = replace_variables_with_files(input, &Variables::new(), &vars, &files).unwrap();

    assert_eq!(
        result,
        "Content: Hello from file!\\nLine 2 with \\\"quotes\\\""
    );
}

#[test]
fn test_replace_variables_with_files_multiple() {
    let files = test_files();
    let vars = Variables::new();

    let input = "Text: {{file:test.txt}} and JSON: {{file:data.json}}";
    let result = replace_variables_with_files(input, &Variables::new(), &vars, &files).unwrap();

    assert!(result.contains("Hello from file!"));
    assert!(result.contains("{\\\"nested\\\": \\\"value\\\"}"));
}

#[test]
fn test_replace_variables_with_files_subdirectory() {
    let files = test_files();
    let vars = Variables::new();

    let input = "{{file:sub/nested.txt}}";
    let result = replace_variables_with_files(input, &Variables::new(), &vars, &files).unwrap();

    assert_eq!(result, "Nested content");
}

#[test]
fn test_replace_variables_with_files_combined_with_vars() {
    let files = test_files();
    let mut vars = Variables::new();
    vars.insert("username".to_string(), "john".to_string());

    let input = "User: {{username}}, Content: {{file:test.txt}}";
    let result = replace_variables_with_files(input, &Variables::new(), &vars, &files).unwrap();

    assert!(result.starts_with("User: john, Content: Hello from file!"));
}

#[test]
fn test_replace_variables_with_files_nonexistent() {
    let files = test_files();
    let vars = Variables::new();

    let input = "{{file:nonexistent.txt}}";
    let result = replace_variables_with_files(input, &Variables::new(), &vars, &files).unwrap();

    // The marker stays where the file does not exist
    assert_eq!(result, "{{file:nonexistent.txt}}");
}

#[test]
fn test_replace_variables_with_files_path_traversal() {
    let files = test_files();
    let vars = Variables::new();

    let input = "{{file:../../../etc/passwd}}";
    let result = replace_variables_with_files(input, &Variables::new(), &vars, &files).unwrap();

    // The marker stays where the path leaves the directory
    assert_eq!(result, "{{file:../../../etc/passwd}}");
}

#[test]
fn file_markers_are_found_from_left_to_right() {
    assert_eq!(
        file_references("a {{file:x.txt}} {{y}} {{file:}} {{a{{file:z/w}} {{file:x.txt}}"),
        vec!["x.txt", "z/w", "x.txt"]
    );
    assert!(file_references("{{ file:x}} {{File:x}} {{file:x}").is_empty());
    let mut files = Variables::new();
    files.insert("a".to_string(), "{{v}}\t${{E}}".to_string());
    let mut vars = Variables::new();
    vars.insert("v".to_string(), "V".to_string());
    vars.insert("file:b".to_string(), "from store".to_string());
    let mut env = Variables::new();
    env.insert("E".to_string(), "{{file:a}}".to_string());
    // The text of a file is escaped, and then read by both passes.
    assert_eq!(
        replace_variables_with_files("{{file:a}}|{{file:b}}|${{E}}", &env, &vars, &files).unwrap(),
        "V\\t{{file:a}}|from store|{{file:a}}"
    );
}
