use openbatrangs::stream::{
    extract_json_string, find_toplevel_key, unescape_json_string, FieldState, StreamOutput,
    StreamState,
};

#[test]
fn extracts_json_string_incrementally() {
    let key = "answer";
    assert_eq!(
        extract_json_string(r#"{"answer":"hel"#, key),
        Some(("hel".to_string(), false))
    );
    assert_eq!(
        extract_json_string(r#"{"answer":"hello"}"#, key),
        Some(("hello".to_string(), true))
    );
}

#[test]
fn stream_state_skips_when_disabled() {
    let mut state = StreamState::new("thought", false);
    assert_eq!(state.state, FieldState::Skipped);
    let outputs = state.feed(r#"{"thought":"secret"}"#);
    assert!(outputs.is_empty());
    assert!(!state.did_print());
}

#[test]
fn stream_state_streams_incrementally() {
    let mut state = StreamState::new("answer", true);
    let mut sink: Vec<String> = Vec::new();
    for buffer in [r#"{"answer":"hel"#, r#"{"answer":"hello"}"#] {
        for output in state.feed(buffer) {
            match output {
                StreamOutput::Chunk(text) | StreamOutput::Line(text) => sink.push(text),
            }
        }
    }
    assert!(sink.iter().any(|part| part.contains("hel")));
    assert!(sink.iter().any(|part| part.contains("lo")));
}

#[test]
fn stream_state_renders_escaped_newlines_as_real_newlines() {
    let mut state = StreamState::new("answer", true);
    let sink: Vec<String> = state
        .feed(r#"{"answer":"line1\nline2"}"#)
        .into_iter()
        .map(|output| match output {
            StreamOutput::Chunk(text) | StreamOutput::Line(text) => text,
        })
        .collect();
    assert!(
        sink.iter().any(|part| part.contains('\n')),
        "escaped \\n must be rendered as a real newline"
    );
    assert!(
        !sink.iter().any(|part| part.contains("\\n")),
        "literal \\n must not appear in streamed output"
    );
}

#[test]
fn unescape_json_string_converts_common_escapes() {
    assert_eq!(unescape_json_string(r#"hello\nworld"#), "hello\nworld");
    assert_eq!(unescape_json_string(r#"tab\there"#), "tab\there");
    assert_eq!(unescape_json_string(r#"quote\"x"#), "quote\"x");
    assert_eq!(unescape_json_string(r#"back\\slash"#), "back\\slash");
    assert_eq!(unescape_json_string(r#"unicode\u0041"#), "unicodeA");
}

#[test]
fn find_toplevel_key_skips_nested_keys() {
    let buffer = r#"{"thought":"thinking","tool":{"name":"write_file","arguments":{"path":"foo","content":"answer"}}}"#;
    assert!(
        find_toplevel_key(buffer, "answer").is_none(),
        "nested 'answer' inside tool.arguments must not match"
    );
    assert!(find_toplevel_key(buffer, "thought").is_some());
    assert!(find_toplevel_key(buffer, "tool").is_some());
}

#[test]
fn find_toplevel_key_matches_top_level() {
    let buffer = r#"{"thought":"hi","answer":"hello"}"#;
    assert!(find_toplevel_key(buffer, "answer").is_some());
    assert!(find_toplevel_key(buffer, "thought").is_some());
}

#[test]
fn find_toplevel_key_handles_key_inside_string_value() {
    let buffer = r#"{"thought":"the answer is 42","tool":{"name":"finish"}}"#;
    assert!(
        find_toplevel_key(buffer, "answer").is_none(),
        "key inside a string value must not match"
    );
}

#[test]
fn extract_json_string_ignores_nested_answer() {
    let buffer = r#"{"thought":"calling tool","tool":{"name":"write_file","arguments":{"answer":"nested"}}}"#;
    assert!(
        extract_json_string(buffer, "answer").is_none(),
        "nested 'answer' inside tool.arguments must not be extracted"
    );
}

#[test]
fn extract_json_string_handles_partial_with_tool() {
    let buffer = r#"{"thought":"thinking","tool":{"name":"read_file""#;
    assert!(extract_json_string(buffer, "answer").is_none());
}

#[test]
fn unescape_json_string_keeps_incomplete_escape_pending() {
    assert_eq!(unescape_json_string("abc\\"), "abc");
    assert_eq!(unescape_json_string("abc\\u12"), "abc");
    assert_eq!(unescape_json_string("abc\\u1234"), "abc\u{1234}");
}

#[test]
fn find_toplevel_key_reports_byte_position() {
    assert_eq!(find_toplevel_key(r#"{"a":1,"answer":"x"}"#, "answer"), Some(7));
    assert_eq!(find_toplevel_key(r#"{"é":"ü","answer":"x"}"#, "answer"), Some(11));
}

#[test]
fn find_toplevel_key_ignores_string_values() {
    assert_eq!(find_toplevel_key(r#"{"thought":"answer"}"#, "answer"), None);
    assert_eq!(find_toplevel_key(r#"{"thought":"tool","answer":"x"}"#, "tool"), None);
    assert_eq!(find_toplevel_key(r#"{"thought":"x","answer" : "y"}"#, "answer"), Some(15));
    // The colon may not have arrived yet.
    assert_eq!(find_toplevel_key(r#"{"thought":"x","answer""#, "answer"), Some(15));
}

#[test]
fn escaped_quote_does_not_end_string_value() {
    let buffer = r#"{"thought":"say \"answer\"","answer":"yes"}"#;
    assert_eq!(
        extract_json_string(buffer, "answer"),
        Some(("yes".to_string(), true))
    );
    assert_eq!(
        extract_json_string(r#"{"answer" :  "a\"b"}"#, "answer"),
        Some(("a\\\"b".to_string(), true))
    );
}

#[test]
fn unknown_escape_is_kept_and_surrogate_is_dropped() {
    assert_eq!(unescape_json_string(r"a\qb"), "a\\qb");
    assert_eq!(unescape_json_string(r"x\ud800y"), "xy");
}

#[test]
fn stream_state_prefix_then_text_then_line() {
    let mut state = StreamState::new("answer", true);
    let outputs = state.feed(r#"{"answer":"hi"}"#);
    assert_eq!(
        outputs,
        vec![
            StreamOutput::Chunk("\x1b[32m✅\x1b[0m ".to_string()),
            StreamOutput::Chunk("hi".to_string()),
            StreamOutput::Line(String::new()),
        ]
    );
    assert_eq!(state.state, FieldState::Complete);
    assert!(state.feed(r#"{"answer":"hi there"}"#).is_empty());
}

#[test]
fn stream_state_is_skipped_by_tool_call() {
    let mut state = StreamState::new("answer", true);
    assert!(state.feed(r#"{"tool":{"name":"finish"}"#).is_empty());
    assert_eq!(state.state, FieldState::Skipped);
}

use openbatrangs::stream::ReplyStream;

#[test]
fn reply_stream_shows_thought_then_answer() {
    let mut reply = ReplyStream::new(true);
    let first = reply.push("{\"thought\":\"hm");
    assert_eq!(first.len(), 2);
    let second = reply.push("\",\"answer\":\"ok\"}");
    assert!(second.len() >= 3);
    let (text, streamed) = reply.finish();
    assert_eq!(text, "{\"thought\":\"hm\",\"answer\":\"ok\"}");
    assert!(streamed);
}

#[test]
fn reply_stream_hides_thought_when_disabled() {
    let mut reply = ReplyStream::new(false);
    assert!(reply.push("{\"thought\":\"secret\"").is_empty());
    let (_, streamed) = reply.finish();
    assert!(!streamed);
}

#[test]
fn extraction_grows_with_the_buffer() {
    let full = r#"{"thought":"x","answer":"hello"}"#;
    let mut last: Option<(String, bool)> = None;
    for end in 1..=full.len() {
        let current = extract_json_string(&full[..end], "answer");
        if let Some((before, done)) = &last {
            let (now, now_done) = current.clone().expect("a found field stays found");
            assert!(now.starts_with(before.as_str()));
            if *done {
                assert_eq!((&now, now_done), (before, true));
            }
        }
        if current.is_some() {
            last = current;
        }
    }
    assert_eq!(last, Some(("hello".to_string(), true)));
}

#[test]
fn streamed_chunks_add_up_to_the_text_once() {
    let full = r#"{"thought":"x","answer":"caf\u00e9 \"ok\"\n done"}"#;
    let mut state = StreamState::new("answer", true);
    let mut text = String::new();
    let mut lines = 0;
    for end in 1..=full.len() {
        for output in state.feed(&full[..end]) {
            match output {
                StreamOutput::Chunk(chunk) => text.push_str(&chunk),
                StreamOutput::Line(line) => {
                    assert_eq!(line, "");
                    lines += 1;
                }
            }
        }
    }
    let expected = format!("{}{}", state.prefix(), "café \"ok\"\n done");
    assert_eq!(text, expected);
    assert_eq!(lines, 1);
    assert!(state.did_print());
}

#[test]
fn shadowed_field_stays_silent() {
    let mut state = StreamState::new("answer", true);
    assert!(state.feed(r#"{"thought":"x","tool":{"name":"finish""#).is_empty());
    assert_eq!(state.state, FieldState::Skipped);
    assert!(state
        .feed(r#"{"thought":"x","tool":{"name":"finish"},"answer":"late"}"#)
        .is_empty());
    assert!(!state.did_print());
}
