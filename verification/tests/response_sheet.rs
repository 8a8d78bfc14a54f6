use audit_agent::actual_work::{closest_texts, gemini_context};
use audit_agent::clients_connection::create_body;
use audit_agent::json::JsonValue;
use audit_agent::response_sheet::{create_response_sheet, Output, SheetAction, SheetEvent, SheetStage};

fn found(rule: &str) -> JsonValue {
    JsonValue::Object(vec![(
        "data".to_string(),
        JsonValue::Array(vec![JsonValue::Object(vec![("Scaler".to_string(), JsonValue::Str(rule.to_string()))])]),
    )])
}

fn answered(text: &str) -> JsonValue {
    let part = JsonValue::Object(vec![("text".to_string(), JsonValue::Str(text.to_string()))]);
    let content = JsonValue::Object(vec![("parts".to_string(), JsonValue::Array(vec![part]))]);
    let candidate = JsonValue::Object(vec![("content".to_string(), content)]);
    JsonValue::Object(vec![("candidates".to_string(), JsonValue::Array(vec![candidate]))])
}

#[derive(Debug, PartialEq)]
enum Seen {
    Open,
    Write(Vec<String>),
    Search(String),
    Ask(String),
    Flush,
}

/// Runs the sheet over `issues`; row writes fail for the issue numbers (from 1)
/// in `failing_rows`, flushes for those in `failing_flushes`.
fn simulate(issues: &[&str], failing_rows: &[usize], failing_flushes: &[usize]) -> (Vec<Seen>, bool) {
    let (mut run, mut action) = create_response_sheet(issues.iter().map(|s| s.to_string()).collect());
    let mut seen = Vec::new();
    loop {
        let event = match action {
            SheetAction::OpenWriter => {
                seen.push(Seen::Open);
                SheetEvent::Succeeded
            }
            SheetAction::WriteRecord(r) => {
                seen.push(Seen::Write(r));
                if run.stage() == SheetStage::WritingRow && failing_rows.contains(&run.taken()) {
                    SheetEvent::Failed("disk full".to_string())
                } else {
                    SheetEvent::Succeeded
                }
            }
            SheetAction::Search(q) => {
                let reply = found(&format!("rule for {q}"));
                seen.push(Seen::Search(q));
                SheetEvent::Found(reply)
            }
            SheetAction::Ask(body) => {
                seen.push(Seen::Ask(body));
                SheetEvent::Answered(answered(&format!("answer {}", run.taken())))
            }
            SheetAction::Flush => {
                seen.push(Seen::Flush);
                if failing_flushes.contains(&run.taken()) {
                    SheetEvent::Failed("flush".to_string())
                } else {
                    SheetEvent::Succeeded
                }
            }
            SheetAction::Finish => return (seen, true),
            SheetAction::Exit(_) => return (seen, false),
        };
        action = run.step(event);
    }
}

fn searches(seen: &[Seen]) -> Vec<String> {
    seen.iter()
        .filter_map(|s| match s {
            Seen::Search(q) => Some(q.clone()),
            _ => None,
        })
        .collect()
}

#[test]
fn stops_after_three_issues() {
    let (seen, outcome) = simulate(&["i1", "i2", "i3", "i4", "i5"], &[], &[]);
    assert!(outcome);
    assert_eq!(searches(&seen), vec!["i1", "i2", "i3"]);
}

#[test]
fn whole_sequence_for_one_issue() {
    let (seen, outcome) = simulate(&["missing alt"], &[], &[]);
    assert!(outcome);
    let context = gemini_context(&closest_texts(&found("rule for missing alt")));
    assert_eq!(context, "rule for missing alt\n");
    let body = create_body(&"missing alt".to_string(), &context);
    assert_eq!(
        seen,
        vec![
            Seen::Open,
            Seen::Write(vec!["response".to_string()]),
            Seen::Search("missing alt".to_string()),
            Seen::Ask(body),
            Seen::Write(vec!["answer 1".to_string()]),
            Seen::Flush,
        ]
    );
}

#[test]
fn no_issues_writes_only_the_header() {
    let (seen, outcome) = simulate(&[], &[], &[]);
    assert!(outcome);
    assert_eq!(seen, vec![Seen::Open, Seen::Write(vec!["response".to_string()])]);
}

#[test]
fn failed_row_skips_flush_and_goes_on() {
    let (seen, outcome) = simulate(&["i1", "i2"], &[1], &[]);
    assert!(outcome);
    assert_eq!(searches(&seen), vec!["i1", "i2"]);
    let flushes = seen.iter().filter(|s| **s == Seen::Flush).count();
    assert_eq!(flushes, 1);
}

#[test]
fn failed_third_row_lets_the_run_go_past_three() {
    let (seen, outcome) = simulate(&["i1", "i2", "i3", "i4", "i5"], &[3], &[]);
    assert!(outcome);
    assert_eq!(searches(&seen), vec!["i1", "i2", "i3", "i4", "i5"]);
}

#[test]
fn failed_third_flush_lets_the_run_go_past_three() {
    let (seen, outcome) = simulate(&["i1", "i2", "i3", "i4"], &[], &[3]);
    assert!(outcome);
    assert_eq!(searches(&seen), vec!["i1", "i2", "i3", "i4"]);
}

fn exit_lines(action: SheetAction) -> Vec<Output> {
    match action {
        SheetAction::Exit(lines) => lines,
        other => panic!("unexpected {:?}", other),
    }
}

fn one_line(action: SheetAction) -> Output {
    let mut lines = exit_lines(action);
    assert_eq!(lines.len(), 1);
    lines.remove(0)
}

#[test]
fn writer_failure_stops_the_process() {
    let (mut run, action) = create_response_sheet(vec!["i1".to_string()]);
    assert!(matches!(action, SheetAction::OpenWriter));
    match one_line(run.step(SheetEvent::Failed("permission denied".to_string()))) {
        Output::Stderr(m) => assert_eq!(m, "Error creating csv  permission denied"),
        other => panic!("unexpected {:?}", other),
    }
    assert_eq!(run.stage(), SheetStage::Finished);
}

#[test]
fn header_failure_stops_the_process() {
    let (mut run, _) = create_response_sheet(vec!["i1".to_string()]);
    run.step(SheetEvent::Succeeded);
    match one_line(run.step(SheetEvent::Failed("io".to_string()))) {
        Output::Stderr(m) => assert_eq!(m, "failed to create header row io"),
        other => panic!("unexpected {:?}", other),
    }
}

#[test]
fn search_failure_stops_the_process_on_stdout() {
    let (mut run, _) = create_response_sheet(vec!["i1".to_string()]);
    run.step(SheetEvent::Succeeded);
    run.step(SheetEvent::Succeeded);
    assert_eq!(run.taken(), 1);
    match one_line(run.step(SheetEvent::Failed("timeout".to_string()))) {
        Output::Stdout(m) => assert_eq!(m, "Error finding closests, timeout"),
        other => panic!("unexpected {:?}", other),
    }
}

fn asking_run() -> audit_agent::response_sheet::SheetRun {
    let (mut run, _) = create_response_sheet(vec!["i1".to_string()]);
    run.step(SheetEvent::Succeeded);
    run.step(SheetEvent::Succeeded);
    run.step(SheetEvent::Found(found("r")));
    run
}

#[test]
fn error_reply_stops_with_its_message() {
    let mut run = asking_run();
    let error = JsonValue::Object(vec![(
        "error".to_string(),
        JsonValue::Object(vec![("message".to_string(), JsonValue::Str("quota".to_string()))]),
    )]);
    let lines = exit_lines(run.step(SheetEvent::Answered(error)));
    assert_eq!(lines.len(), 2);
    match &lines[0] {
        Output::Stderr(m) => assert_eq!(m, "we got an error code in the gemini request, try again"),
        other => panic!("unexpected {:?}", other),
    }
    match &lines[1] {
        Output::StdoutDebug(m) => assert_eq!(m.as_deref(), Some("quota")),
        other => panic!("unexpected {:?}", other),
    }
}

#[test]
fn reply_without_text_stops_with_a_line() {
    let mut run = asking_run();
    match one_line(run.step(SheetEvent::Answered(JsonValue::Object(vec![])))) {
        Output::Stderr(m) => {
            assert_eq!(m, "error while parsing the gemini response json. It should work so try again")
        }
        other => panic!("unexpected {:?}", other),
    }
}

#[test]
fn answer_not_a_string_stops_silently() {
    let mut run = asking_run();
    let part = JsonValue::Object(vec![("text".to_string(), JsonValue::Number("5".to_string()))]);
    let content = JsonValue::Object(vec![("parts".to_string(), JsonValue::Array(vec![part]))]);
    let candidate = JsonValue::Object(vec![("content".to_string(), content)]);
    let reply = JsonValue::Object(vec![("candidates".to_string(), JsonValue::Array(vec![candidate]))]);
    assert!(exit_lines(run.step(SheetEvent::Answered(reply))).is_empty());
}

#[test]
fn failed_question_stops_with_its_message() {
    let mut run = asking_run();
    match one_line(run.step(SheetEvent::Failed("could not send request to google x".to_string()))) {
        Output::Stderr(m) => assert_eq!(m, "could not send request to google x"),
        other => panic!("unexpected {:?}", other),
    }
}
