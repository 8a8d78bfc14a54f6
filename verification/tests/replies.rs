use audit_agent::actual_work::{closest_texts, gemini_answer, gemini_context, ReplyFailure};
use audit_agent::json::JsonValue;

fn to_json(v: &serde_json::Value) -> JsonValue {
    match v {
        serde_json::Value::Null => JsonValue::Null,
        serde_json::Value::Bool(b) => JsonValue::Bool(*b),
        serde_json::Value::Number(n) => JsonValue::Number(n.to_string()),
        serde_json::Value::String(s) => JsonValue::Str(s.clone()),
        serde_json::Value::Array(items) => JsonValue::Array(items.iter().map(to_json).collect()),
        serde_json::Value::Object(m) => JsonValue::Object(m.iter().map(|(k, v)| (k.clone(), to_json(v))).collect()),
    }
}

fn reply(text: &str) -> JsonValue {
    to_json(&serde_json::from_str(text).unwrap())
}

#[test]
fn closest_texts_keeps_string_descriptions_in_order() {
    let r = reply(r#"{"data":[{"Scaler":"validation: a","distance":0.1},{"id":3},{"Scaler":7},{"Scaler":"validation: b"}]}"#);
    assert_eq!(closest_texts(&r), vec!["validation: a".to_string(), "validation: b".to_string()]);
}

#[test]
fn closest_texts_without_data_array() {
    assert!(closest_texts(&reply(r#"{"code":0}"#)).is_empty());
    assert!(closest_texts(&reply(r#"{"data":{"Scaler":"x"}}"#)).is_empty());
    assert!(closest_texts(&reply(r#"[1,2]"#)).is_empty());
}

#[test]
fn gemini_context_lines() {
    let context = vec!["validation: a".to_string(), "validation: b".to_string()];
    assert_eq!(gemini_context(&context), "validation: a\nvalidation: b\n");
    assert_eq!(gemini_context(&Vec::new()), "");
}

#[test]
fn gemini_answer_reads_first_part() {
    let r = reply(r#"{"candidates":[{"content":{"parts":[{"text":"img-alt fits"},{"text":"second"}]}},{"content":{}}]}"#);
    assert_eq!(gemini_answer(&r), Ok("img-alt fits".to_string()));
}

#[test]
fn gemini_answer_refuses_error_reply() {
    let r = reply(r#"{"error":{"code":429,"message":"quota"},"candidates":[{"content":{"parts":[{"text":"x"}]}}]}"#);
    assert_eq!(gemini_answer(&r), Err(ReplyFailure::ServiceError(Some("quota".to_string()))));
    let r = reply(r#"{"error":"bad"}"#);
    assert_eq!(gemini_answer(&r), Err(ReplyFailure::ServiceError(None)));
}

#[test]
fn gemini_answer_without_text() {
    assert_eq!(gemini_answer(&reply(r#"{}"#)), Err(ReplyFailure::NoText));
    assert_eq!(gemini_answer(&reply(r#"{"candidates":[]}"#)), Err(ReplyFailure::NoText));
    assert_eq!(gemini_answer(&reply(r#"{"candidates":[{"content":{"parts":[{}]}}]}"#)), Err(ReplyFailure::NoText));
}

#[test]
fn gemini_answer_text_not_string() {
    let r = reply(r#"{"candidates":[{"content":{"parts":[{"text":5}]}}]}"#);
    assert_eq!(gemini_answer(&r), Err(ReplyFailure::TextNotString));
}

#[test]
fn reply_failure_messages() {
    assert_eq!(
        ReplyFailure::ServiceError(None).message(),
        "we got an error code in the gemini request, try again"
    );
    assert_eq!(
        ReplyFailure::NoText.message(),
        "error while parsing the gemini response json. It should work so try again"
    );
    assert_eq!(ReplyFailure::TextNotString.message(), "");
}

#[test]
fn member_finds_first_occurrence() {
    let v = JsonValue::Object(vec![
        ("k".to_string(), JsonValue::Str("first".to_string())),
        ("k".to_string(), JsonValue::Str("second".to_string())),
    ]);
    match v.member("k") {
        Some(JsonValue::Str(s)) => assert_eq!(s, "first"),
        other => panic!("unexpected {:?}", other),
    }
    assert!(v.member("absent").is_none());
    assert!(JsonValue::Null.member("k").is_none());
    assert!(v.element(0).is_none());
}
