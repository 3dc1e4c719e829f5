use catalyst::engine::variables::Variables;
use catalyst::error::CatalystError;
use catalyst::json::Json;
use catalyst::utils::file::{escapes_directory, load_body_from_file, FileProbe};
use catalyst::utils::string::escape_json_string;

#[test]
fn test_load_json_file() {
    let probe = FileProbe::Content(r#"{"name": "test", "value": 42}"#.to_string());
    let vars = Variables::new();
    let result = load_body_from_file("test.json", &probe, &Variables::new(), &vars).unwrap();

    assert_eq!(result.get("name").unwrap().to_compact(), "\"test\"");
    assert_eq!(result.get("value").unwrap().to_compact(), "42");
}

#[test]
fn test_load_text_file() {
    let probe = FileProbe::Content("Hello, World!".to_string());
    let vars = Variables::new();
    let result = load_body_from_file("test.txt", &probe, &Variables::new(), &vars).unwrap();

    assert!(matches!(result, Json::String(ref s) if s == "Hello, World!"));
}

#[test]
fn test_variable_substitution() {
    let probe = FileProbe::Content(r#"{"user": "{{username}}", "id": {{user_id}}}"#.to_string());
    let mut vars = Variables::new();
    vars.insert("username".to_string(), "john_doe".to_string());
    vars.insert("user_id".to_string(), "123".to_string());

    let result = load_body_from_file("test_vars.json", &probe, &Variables::new(), &vars).unwrap();

    assert_eq!(result.get("user").unwrap().to_compact(), "\"john_doe\"");
    assert_eq!(result.get("id").unwrap().to_compact(), "123");
}

#[test]
fn test_security_path_traversal() {
    let vars = Variables::new();
    let result = load_body_from_file(
        "../secret.json",
        &FileProbe::Content("{}".to_string()),
        &Variables::new(),
        &vars,
    );

    assert!(result.is_err());
    assert!(result.unwrap_err().to_string().contains("escape test directory"));
}

#[test]
fn test_file_not_found() {
    let vars = Variables::new();
    let result = load_body_from_file("nonexistent.json", &FileProbe::Missing, &Variables::new(), &vars);

    assert!(result.is_err());
    assert!(result.unwrap_err().to_string().contains("does not exist"));
}

#[test]
fn body_file_errors_say_what_is_wrong() {
    let none = Variables::new();
    let message = |probe: FileProbe, path: &str| {
        load_body_from_file(path, &probe, &none, &none).unwrap_err().to_string()
    };
    assert_eq!(
        message(FileProbe::Missing, "a.json"),
        "File operation failed: File 'a.json' does not exist"
    );
    assert_eq!(message(FileProbe::NotAFile, "dir"), "File operation failed: 'dir' is not a file");
    assert_eq!(
        message(FileProbe::Absolute, "/etc/passwd"),
        "File operation failed: File path cannot be absolute"
    );
    assert_eq!(
        message(FileProbe::Unreadable("denied".to_string()), "a.txt"),
        "File operation failed: Cannot read file 'a.txt': denied"
    );
    assert_eq!(
        message(FileProbe::Missing, "a/../b"),
        "File operation failed: File path cannot escape test directory"
    );
    let invalid = message(FileProbe::Content("{".to_string()), "a.json");
    assert!(invalid.starts_with("JSON processing failed: Invalid JSON in file 'a.json': "), "{}", invalid);
    assert!(matches!(
        load_body_from_file("a.json", &FileProbe::Content("{".to_string()), &none, &none),
        Err(CatalystError::JsonError(_))
    ));
    assert!(matches!(
        load_body_from_file("a.JSON", &FileProbe::Content("{".to_string()), &none, &none),
        Ok(Json::String(_))
    ));
    assert!(escapes_directory(".."));
    assert!(escapes_directory("a/..b"));
    assert!(!escapes_directory("a/.b/."));
}

#[test]
fn test_escape_json_string() {
    let input = "Hello \"world\"\nNew line\tTab\\Backslash";
    let expected = "Hello \\\"world\\\"\\nNew line\\tTab\\\\Backslash";
    assert_eq!(escape_json_string(input), expected);
}

#[test]
fn escape_json_string_leaves_other_characters() {
    assert_eq!(escape_json_string(""), "");
    assert_eq!(escape_json_string("a\rb/é\u{1F600}"), "a\\rb/é\u{1F600}");
    assert_eq!(escape_json_string("\\n"), "\\\\n");
}
