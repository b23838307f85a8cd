use openbatrangs::ollama::{
    classify_pull_line, classify_stream_line, drain_complete_lines, drain_pull_line,
    parse_pull_line, parse_stream_line, JsonField, LineDrain, PullLine, Role, StreamLine,
};

#[test]
fn drains_multiple_lines_in_order() {
    let mut buffer = String::from(
        r#"{"message":{"content":"a"},"done":false}
{"message":{"content":"b"},"done":false}
{"done":true}
"#,
    );
    assert!(matches!(
        drain_complete_lines(&mut buffer),
        LineDrain::Content(content) if content == "a"
    ));
    assert!(matches!(
        drain_complete_lines(&mut buffer),
        LineDrain::Content(content) if content == "b"
    ));
    assert!(matches!(drain_complete_lines(&mut buffer), LineDrain::Done));
    assert!(matches!(
        drain_complete_lines(&mut buffer),
        LineDrain::NeedMore
    ));
}

#[test]
fn skips_blank_and_non_payload_lines() {
    let mut buffer = String::from("\n\nnot json\n{\"message\":{\"content\":\"ok\"}}\n");
    assert!(matches!(
        drain_complete_lines(&mut buffer),
        LineDrain::Content(content) if content == "ok"
    ));
}

#[test]
fn returns_need_more_for_partial_line() {
    let mut buffer = String::from(r#"{"message":{"content":"par"#);
    assert!(matches!(
        drain_complete_lines(&mut buffer),
        LineDrain::NeedMore
    ));
}

#[test]
fn drains_pull_lines_in_order_and_skips_garbage() {
    let mut buffer = String::from(
        "not json\n{\"status\":\"pulling manifest\"}\n{\"status\":\"downloading\",\"total\":10,\"completed\":5}\n{\"status\":\"success\"}\n",
    );
    assert!(matches!(
        drain_pull_line(&mut buffer),
        Some(PullLine::Status(status)) if status == "pulling manifest"
    ));
    assert!(matches!(
        drain_pull_line(&mut buffer),
        Some(PullLine::Status(status)) if status.starts_with("downloading") && status.contains("50%")
    ));
    assert!(matches!(drain_pull_line(&mut buffer), Some(PullLine::Done)));
    assert!(drain_pull_line(&mut buffer).is_none());
}

#[test]
fn parses_content_delta_from_stream_line() {
    let line = r#"{"message":{"role":"assistant","content":"hello"},"done":false}"#;
    match parse_stream_line(line) {
        Some(StreamLine::Content(content)) => assert_eq!(content, "hello"),
        _ => panic!("expected content delta"),
    }
}

#[test]
fn parses_done_marker_from_stream_line() {
    let line = r#"{"done":true}"#;
    assert!(matches!(parse_stream_line(line), Some(StreamLine::Done)));
}

#[test]
fn ignores_malformed_stream_line() {
    assert!(parse_stream_line("not json").is_none());
}

#[test]
fn ignores_keep_alive_and_progress_lines() {
    assert!(parse_stream_line(r#"{"keep_alive":true}"#).is_none());
    assert!(parse_stream_line(r#"{"status":"pulling manifest"}"#).is_none());
}

#[test]
fn parses_pull_status_with_progress_percentage() {
    let line = r#"{"status":"downloading","digest":"abc","total":100,"completed":25}"#;
    match parse_pull_line(line) {
        Some(PullLine::Status(status)) => {
            assert!(status.starts_with("downloading"));
            assert!(status.contains("25%"));
        }
        _ => panic!("expected pull status with progress"),
    }
}

#[test]
fn parses_pull_success_as_done() {
    let line = r#"{"status":"success"}"#;
    assert!(matches!(parse_pull_line(line), Some(PullLine::Done)));
}

#[test]
fn parses_pull_error() {
    let line = r#"{"error":"model not found"}"#;
    match parse_pull_line(line) {
        Some(PullLine::Error(error)) => assert_eq!(error, "model not found"),
        _ => panic!("expected pull error"),
    }
}

#[test]
fn parses_pull_status_without_progress_fields() {
    let line = r#"{"status":"pulling manifest"}"#;
    match parse_pull_line(line) {
        Some(PullLine::Status(status)) => assert_eq!(status, "pulling manifest"),
        _ => panic!("expected pull status"),
    }
}

#[test]
fn classify_stream_line_prefers_content_over_done() {
    assert_eq!(
        classify_stream_line(JsonField::Text("x".to_string()), JsonField::Bool(true)),
        Some(StreamLine::Content("x".to_string()))
    );
    assert_eq!(
        classify_stream_line(JsonField::Missing, JsonField::Bool(true)),
        Some(StreamLine::Done)
    );
    assert_eq!(
        classify_stream_line(JsonField::Null, JsonField::Bool(false)),
        None
    );
}

#[test]
fn pull_percentage_rounds_to_nearest_even() {
    let status = |completed: u64, total: u64| {
        classify_pull_line(
            JsonField::Missing,
            JsonField::Text("downloading".to_string()),
            JsonField::Unsigned(completed),
            JsonField::Unsigned(total),
        )
    };
    assert_eq!(status(1, 3), Some(PullLine::Status("downloading 33%".to_string())));
    assert_eq!(status(2, 3), Some(PullLine::Status("downloading 67%".to_string())));
    assert_eq!(status(1, 200), Some(PullLine::Status("downloading 0%".to_string())));
    assert_eq!(status(3, 200), Some(PullLine::Status("downloading 2%".to_string())));
    assert_eq!(status(5, 0), Some(PullLine::Status("downloading".to_string())));
}

#[test]
fn pull_error_wins_over_status() {
    assert_eq!(
        parse_pull_line(r#"{"error":"boom","status":"success"}"#),
        Some(PullLine::Error("boom".to_string()))
    );
    assert_eq!(parse_pull_line(r#"{"status":7}"#), None);
}

#[test]
fn drain_keeps_partial_tail_after_consuming_lines() {
    let mut buffer = String::from("{\"status\":\"x\"}\n\n{\"message\":{\"con");
    assert_eq!(drain_complete_lines(&mut buffer), LineDrain::NeedMore);
    assert_eq!(buffer, "{\"message\":{\"con");
}

#[test]
fn role_names_match_the_api() {
    assert_eq!(Role::System.as_str(), "system");
    assert_eq!(Role::User.as_str(), "user");
    assert_eq!(Role::Assistant.as_str(), "assistant");
    assert_eq!(Role::Tool.as_str(), "tool");
}

use openbatrangs::ollama::{base_url_of, endpoint_url, API_TAGS_PATH};

#[test]
fn client_strips_trailing_slashes_from_base_url() {
    assert_eq!(base_url_of("http://localhost:11434///"), "http://localhost:11434");
}

#[test]
fn client_accepts_plain_url() {
    assert_eq!(base_url_of("http://127.0.0.1:11434"), "http://127.0.0.1:11434");
}

#[test]
fn endpoints_are_joined_to_the_base_url() {
    assert_eq!(
        endpoint_url("http://localhost:11434", API_TAGS_PATH),
        "http://localhost:11434/api/tags"
    );
}
