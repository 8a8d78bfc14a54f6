use audit_agent::clients_connection::{embedding_body, upsert_body};
use audit_agent::json::JsonValue;
use audit_agent::upload::{start_upload, UploadAction, UploadEvent, UploadStage};

fn records(rows: &[(&str, &str)]) -> Vec<Vec<String>> {
    rows.iter().map(|(a, b)| vec![a.to_string(), b.to_string()]).collect()
}

fn embedding_reply(values: &[&str]) -> JsonValue {
    let numbers = values.iter().map(|v| JsonValue::Number(v.to_string())).collect();
    let inner = JsonValue::Object(vec![("values".to_string(), JsonValue::Array(numbers))]);
    JsonValue::Object(vec![("embedding".to_string(), inner)])
}

#[derive(Debug, PartialEq)]
enum Seen {
    Embed(String, String),
    Encode(usize),
    Upsert(String),
    Report(String),
    Abort(String),
}

/// Runs the upload; storing fails for the rule positions in `failing`.
fn simulate(rows: &[(&str, &str)], failing: &[usize]) -> (Vec<Seen>, Option<Result<(), String>>) {
    let table = records(rows);
    let (mut run, mut action) = start_upload(&table);
    let mut seen = Vec::new();
    loop {
        let event = match action {
            UploadAction::Embed(t, b) => {
                seen.push(Seen::Embed(t, b));
                UploadEvent::Embedded(embedding_reply(&["0.5", "-1"]))
            }
            UploadAction::Encode(v) => {
                seen.push(Seen::Encode(v.len()));
                UploadEvent::Encoded("[0.5,-1.0]".to_string())
            }
            UploadAction::Upsert(b) => {
                seen.push(Seen::Upsert(b));
                if failing.contains(&run.index()) {
                    UploadEvent::Failed("503".to_string())
                } else {
                    UploadEvent::Succeeded
                }
            }
            UploadAction::Report(m) => {
                seen.push(Seen::Report(m));
                UploadEvent::Succeeded
            }
            UploadAction::Abort(m) => {
                seen.push(Seen::Abort(m));
                return (seen, None);
            }
            UploadAction::Finish(outcome) => return (seen, Some(outcome)),
        };
        action = run.step(event);
    }
}

#[test]
fn rules_are_stored_under_their_position() {
    let (seen, outcome) = simulate(&[("img-alt", "alt text"), ("contrast", "4.5:1")], &[]);
    assert_eq!(outcome, Some(Ok(())));
    let t0 = "validation: img-alt\nvalue: alt text".to_string();
    let t1 = "validation: contrast\nvalue: 4.5:1".to_string();
    assert_eq!(
        seen,
        vec![
            Seen::Embed(t0.clone(), embedding_body(&t0)),
            Seen::Encode(2),
            Seen::Upsert(upsert_body(0, &t0, "[0.5,-1.0]")),
            Seen::Embed(t1.clone(), embedding_body(&t1)),
            Seen::Encode(2),
            Seen::Upsert(upsert_body(1, &t1, "[0.5,-1.0]")),
        ]
    );
}

#[test]
fn failed_upload_is_reported_and_run_goes_on() {
    let (seen, outcome) = simulate(&[("a", "1"), ("b", "2"), ("c", "3")], &[0, 2]);
    assert_eq!(outcome, Some(Ok(())));
    let reports: Vec<&Seen> = seen.iter().filter(|s| matches!(s, Seen::Report(_))).collect();
    assert_eq!(reports, vec![&Seen::Report("error occurred while uploading 503".to_string()); 2]);
    let upserts = seen.iter().filter(|s| matches!(s, Seen::Upsert(_))).count();
    assert_eq!(upserts, 3);
}

#[test]
fn empty_table_finishes_at_once() {
    let (seen, outcome) = simulate(&[], &[]);
    assert_eq!(outcome, Some(Ok(())));
    assert!(seen.is_empty());
}

#[test]
fn reply_without_vector_stops_the_run() {
    let table = records(&[("a", "1"), ("b", "2")]);
    let (mut run, _) = start_upload(&table);
    let reply = JsonValue::Object(vec![("error".to_string(), JsonValue::Null)]);
    match run.step(UploadEvent::Embedded(reply)) {
        UploadAction::Abort(m) => assert_eq!(m, "Error parsing the the embbedded vector, probably ai studio is down"),
        other => panic!("unexpected {:?}", other),
    }
    assert_eq!(run.stage(), UploadStage::Finished);
}

#[test]
fn values_not_an_array_stops_the_run() {
    let table = records(&[("a", "1")]);
    let (mut run, _) = start_upload(&table);
    let inner = JsonValue::Object(vec![("values".to_string(), JsonValue::Str("x".to_string()))]);
    let reply = JsonValue::Object(vec![("embedding".to_string(), inner)]);
    assert!(matches!(run.step(UploadEvent::Embedded(reply)), UploadAction::Abort(_)));
}

#[test]
fn failed_embedding_request_ends_with_error() {
    let table = records(&[("a", "1")]);
    let (mut run, _) = start_upload(&table);
    match run.step(UploadEvent::Failed("connection refused".to_string())) {
        UploadAction::Finish(Err(m)) => assert_eq!(m, "connection refused"),
        other => panic!("unexpected {:?}", other),
    }
}
