use mcp_ast_grep::json::{parse_json, to_string_pretty, JsonNumber, JsonValue};

#[test]
fn parse_json_builds_the_tree() {
    let value = parse_json(r#"{"b": [1, -2, 1.5, "x", null, true], "a": {"k": "v"}}"#).unwrap();
    // members come in the order of their names
    match &value {
        JsonValue::Object(members) => {
            assert_eq!(members.iter().map(|m| m.0.as_str()).collect::<Vec<_>>(), vec!["a", "b"]);
        }
        _ => panic!("expected an object"),
    }
    assert_eq!(value.get("a").unwrap().get_str("k"), Some("v"));
    let items = value.get_array("b").unwrap();
    assert!(matches!(&items[0], JsonValue::Number(JsonNumber::PosInt(1))));
    assert!(matches!(&items[1], JsonValue::Number(JsonNumber::NegInt(-2))));
    assert!(matches!(&items[2], JsonValue::Number(JsonNumber::Float(t)) if t == "1.5"));
    assert!(matches!(&items[3], JsonValue::String(s) if s == "x"));
    assert!(matches!(&items[4], JsonValue::Null));
    assert!(matches!(&items[5], JsonValue::Bool(true)));
    assert_eq!(items[0].as_u64(), Some(1));
    assert_eq!(items[1].as_u64(), None);
    assert_eq!(items[5].as_bool(), Some(true));
    assert_eq!(value.get_u64("b"), None);
    assert!(value.get("c").is_none());
    assert!(items[0].get("a").is_none());
}

#[test]
fn parse_json_reports_the_parser_message() {
    let text = "{\"a\": ";
    let expected = serde_json::from_str::<serde_json::Value>(text).unwrap_err().to_string();
    assert_eq!(parse_json(text).unwrap_err(), expected);
}

#[test]
fn to_string_pretty_prints_like_serde_json() {
    let text = r#"{"z": [1, -2, 2.5e3, "x", null, false], "a": {"k": "v", "empty": {}}, "list": []}"#;
    let value = parse_json(text).unwrap();
    let expected = serde_json::to_string_pretty(&serde_json::from_str::<serde_json::Value>(text).unwrap()).unwrap();
    assert_eq!(to_string_pretty(&value).unwrap(), expected);
    let built = JsonValue::Object(vec![
        ("b".to_string(), JsonValue::from_u64(2)),
        ("a".to_string(), JsonValue::from_text("x")),
    ]);
    assert_eq!(to_string_pretty(&built).unwrap(), "{\n  \"a\": \"x\",\n  \"b\": 2\n}");
}

#[test]
fn duplicate_gives_an_equal_tree() {
    let text = r#"{"a": [1, {"b": [true, null, "s", -7, 0.25]}]}"#;
    let value = parse_json(text).unwrap();
    let copy = value.duplicate();
    assert_eq!(to_string_pretty(&copy).unwrap(), to_string_pretty(&value).unwrap());
    let clone = value.clone();
    assert_eq!(to_string_pretty(&clone).unwrap(), to_string_pretty(&value).unwrap());
}

#[test]
fn get_returns_the_first_member_of_a_name() {
    let value = JsonValue::Object(vec![
        ("k".to_string(), JsonValue::from_u64(1)),
        ("k".to_string(), JsonValue::from_u64(2)),
    ]);
    assert_eq!(value.get_u64("k"), Some(1));
}
