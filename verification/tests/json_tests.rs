use serde_json::Value;
use web_browser::js::json::{json_parse_result, json_serialize_result, parse_json_text, JsonError, JSON};
use web_browser::js::response::Response;

#[test]
fn parse_accepts_json() {
    let v = JSON::try_parse(Some("{\"a\": [1, 2]}")).ok().unwrap();
    assert_eq!(v["a"][1], Value::from(2));
    assert_eq!(JSON::try_parse(Some("null")).ok().unwrap(), Value::Null);
}

#[test]
fn parse_refuses_missing_or_invalid_text() {
    assert!(matches!(JSON::try_parse(None), Err(JsonError::NotAString)));
    assert!(matches!(JSON::try_parse(Some("{")), Err(JsonError::Syntax(_))));
    assert!(matches!(parse_json_text(""), Err(JsonError::Syntax(_))));
}

#[test]
fn stringify_writes_json() {
    let v = parse_json_text("{\"b\": true, \"c\": \"x\"}").ok().unwrap();
    let text = JSON::stringify(&v).ok().unwrap();
    assert_eq!(text, "{\"b\":true,\"c\":\"x\"}");
    assert_eq!(JSON::stringify(&Value::from(3)).ok().unwrap(), "3");
}

#[test]
fn a_new_response_is_ok_and_unused() {
    let r = Response::new(String::from("[1]"));
    assert_eq!(r.status, 200);
    assert!(r.ok);
    assert!(!r.body_used);
    assert_eq!(r.text(), "[1]");
}

#[test]
fn response_json_parses_the_body() {
    let r = Response::new(String::from("[1, \"two\"]"));
    let v = r.json();
    assert_eq!(r.try_json().ok().unwrap()[1], Value::from("two"));
    assert_eq!(v[1], Value::from("two"));
    let bad = Response::new(String::from("not json"));
    assert!(matches!(bad.try_json(), Err(JsonError::Syntax(_))));
}

#[test]
fn syntax_errors_carry_serde_json_message() {
    let expected = serde_json::from_str::<Value>("{").unwrap_err().to_string();
    match JSON::try_parse(Some("{")) {
        Err(JsonError::Syntax(message)) => assert_eq!(message, expected),
        _ => panic!("expected a syntax error"),
    }
}

#[test]
fn parse_of_json_text_gives_its_value() {
    let v = JSON::parse("[true, null]");
    assert_eq!(v[0], Value::Bool(true));
    assert_eq!(v[1], Value::Null);
}

#[test]
fn serde_results_are_read_as_they_come() {
    let err = serde_json::from_str::<Value>("nope").unwrap_err();
    let message = err.to_string();
    match json_parse_result(Err(err)) {
        Err(JsonError::Syntax(m)) => assert_eq!(m, message),
        _ => panic!("expected a syntax error"),
    }
    assert_eq!(json_parse_result(Ok(Value::from(1))).ok().unwrap(), Value::from(1));
    assert_eq!(json_serialize_result(Ok(String::from("[]"))).ok().unwrap(), "[]");
    let err = serde_json::from_str::<Value>("{").unwrap_err();
    let message = err.to_string();
    match json_serialize_result(Err(err)) {
        Err(JsonError::Serialize(m)) => assert_eq!(m, message),
        _ => panic!("expected a serialization error"),
    }
}
