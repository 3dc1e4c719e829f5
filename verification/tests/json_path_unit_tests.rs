use catalyst::json::Json;
use catalyst::utils::json_path::JsonPath;

fn parse_document(text: &str) -> Json {
    Json::parse(text).unwrap()
}

#[test]
fn test_simple_field_access() {
    let json = parse_document(r#"{"name": "test", "value": 42}"#);
    let path = JsonPath::new("$.name");
    assert_eq!(path.extract_from(&json), Some("test".to_string()));
}

#[test]
fn test_nested_field_access() {
    let json = parse_document(r#"{"user": {"name": "test", "id": 123}}"#);
    let path = JsonPath::new("$.user.name");
    assert_eq!(path.extract_from(&json), Some("test".to_string()));
}

#[test]
fn test_array_access() {
    let json = parse_document(r#"{"items": ["first", "second", "third"]}"#);
    let path = JsonPath::new("$.items[1]");
    assert_eq!(path.extract_from(&json), Some("second".to_string()));
}

#[test]
fn test_combined_array_field_access() {
    let json = parse_document(r#"{"users": [{"name": "alice"}, {"name": "bob"}]}"#);
    let path = JsonPath::new("$.users[0].name");
    assert_eq!(path.extract_from(&json), Some("alice".to_string()));
}

#[test]
fn test_missing_path() {
    let json = parse_document(r#"{"name": "test"}"#);
    let path = JsonPath::new("$.missing");
    assert_eq!(path.extract_from(&json), None);
}

#[test]
fn test_invalid_array_index() {
    let json = parse_document(r#"{"items": ["first"]}"#);
    let path = JsonPath::new("$.items[5]");
    assert_eq!(path.extract_from(&json), None);
}

#[test]
fn test_number_extraction() {
    let json = parse_document(r#"{"count": 42}"#);
    let path = JsonPath::new("$.count");
    assert_eq!(path.extract_from(&json), Some("42".to_string()));
}

#[test]
fn test_boolean_extraction() {
    let json = parse_document(r#"{"active": true}"#);
    let path = JsonPath::new("$.active");
    assert_eq!(path.extract_from(&json), Some("true".to_string()));
}

#[test]
fn extraction_stops_at_null() {
    let json = parse_document(r#"{"a": null, "b": {"c": null}}"#);
    assert_eq!(JsonPath::new("$.a").extract_from(&json), None);
    assert_eq!(JsonPath::new("$.b.c").extract_from(&json), None);
    assert_eq!(JsonPath::new("$.a.x").extract_from(&json), None);
}

#[test]
fn extraction_of_object_and_array_gives_compact_text() {
    let json = parse_document(r#"{"a": {"k": [1, "x", true, null]}, "s": "\"q\""}"#);
    assert_eq!(
        JsonPath::new("$.a").extract_from(&json),
        Some(r#"{"k":[1,"x",true,null]}"#.to_string())
    );
    assert_eq!(JsonPath::new("$.a.k").extract_from(&json), Some(r#"[1,"x",true,null]"#.to_string()));
    assert_eq!(JsonPath::new("$.s").extract_from(&json), Some("\"q\"".to_string()));
}

#[test]
fn extraction_reads_segment_forms() {
    let json = parse_document(r#"{"a": [[10, 20], {"7": "seven"}], "7": "top"}"#);
    assert_eq!(JsonPath::new("$.a[0].1").extract_from(&json), Some("20".to_string()));
    assert_eq!(JsonPath::new("$.a.1.7").extract_from(&json), None);
    assert_eq!(JsonPath::new("$.7").extract_from(&json), None);
    assert_eq!(JsonPath::new("$.a[0][1]").extract_from(&json), Some("[10,20]".to_string()));
    assert_eq!(JsonPath::new("$.a]0[").extract_from(&json), None);
    assert_eq!(JsonPath::new("$.a[x]").extract_from(&json), None);
    assert_eq!(JsonPath::new("$.a[+1].7").extract_from(&json), None);
    assert_eq!(JsonPath::new("$.a[+1]").extract_from(&json), Some("{\"7\":\"seven\"}".to_string()));
    assert_eq!(JsonPath::new("$.a[-0]").extract_from(&json), None);
    assert_eq!(JsonPath::new("$.a[ 0]").extract_from(&json), None);
    assert_eq!(JsonPath::new("$.a[99999999999999999999999]").extract_from(&json), None);
    assert_eq!(JsonPath::new("$.$.a[0][0]").extract_from(&json), Some("[10,20]".to_string()));
    assert_eq!(JsonPath::new("a[0].0").extract_from(&json), Some("10".to_string()));
    assert_eq!(JsonPath::new("$.").extract_from(&json), None);
}

#[test]
fn extractor_round_trip_on_built_documents() {
    let leaf = Json::String("v".to_string());
    let inner = Json::Object(vec![("token".to_string(), leaf)]);
    let doc = Json::Object(vec![("data".to_string(), Json::Array(vec![Json::Null, inner]))]);
    assert_eq!(JsonPath::new("$.data[1].token").extract_from(&doc), Some("v".to_string()));
    let doc = Json::Object(vec![(
        "a".to_string(),
        Json::Object(vec![("b".to_string(), Json::Number("12.5".to_string()))]),
    )]);
    assert_eq!(JsonPath::new("$.a.b").extract_from(&doc), Some("12.5".to_string()));
}

#[test]
fn of_two_members_with_one_key_the_first_counts() {
    let doc = Json::Object(vec![
        ("k".to_string(), Json::String("first".to_string())),
        ("a".to_string(), Json::Bool(false)),
        ("k".to_string(), Json::String("second".to_string())),
    ]);
    assert_eq!(JsonPath::new("$.k").extract_from(&doc), Some("first".to_string()));
    assert_eq!(doc.to_compact(), r#"{"a":false,"k":"first"}"#);
    assert_eq!(doc.to_pretty(), "{\n  \"a\": false,\n  \"k\": \"first\"\n}");
    assert!(doc.get("missing").is_none());
    assert!(doc.at(0).is_none());
    assert_eq!(Json::Number("not a number".to_string()).to_compact(), "null");
    assert_eq!(Json::Number("-1.5e3".to_string()).to_compact(), "-1500.0");
    assert_eq!(Json::parse("[1, 2.50, 1e2, -0]").unwrap().to_compact(), "[1,2.5,100.0,-0.0]");
    assert!(Json::parse("{\"a\": 1,}").is_err());
}
