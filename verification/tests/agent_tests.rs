use openbatrangs::agent::{
    changed_files_lines, clickable_path, ensure_not_read_only, ensure_workspace_exists, workspace_check,
    initial_messages, num_ctx_for, reply_error_text, sanitize_terminal_text,
    task_requests_workspace_scan, trim_messages, unfence_json, written_file_text, AgentAction,
    AgentConfig, AgentPhase, AgentResponse, AgentRun, ReplyError, ToolOutcome,
    MAX_CONTEXT_TOKENS, MIN_CONTEXT_TOKENS, SYSTEM_PROMPT,
};
use openbatrangs::ollama::{ChatMessage, Role};
use openbatrangs::tool::{ArgValue, ToolCall};

fn message(role: Role, content: &str) -> ChatMessage {
    ChatMessage {
        role,
        content: content.to_string(),
    }
}

fn config(max_steps: usize, is_read_only: bool, should_confirm: bool) -> AgentConfig {
    AgentConfig {
        cwd: "/tmp/project".to_string(),
        max_steps,
        is_read_only,
        should_confirm,
        show_thinking: true,
        max_ctx: 8_192,
    }
}

fn tool_call(name: &str, members: Vec<(&str, &str)>) -> ToolCall {
    ToolCall {
        name: name.to_string(),
        arguments: members
            .into_iter()
            .map(|(key, value)| (key.to_string(), ArgValue::Str(value.to_string())))
            .collect(),
    }
}

fn lines_of(action: &AgentAction) -> Vec<String> {
    match action {
        AgentAction::CallModel { header } => vec![header.clone()],
        AgentAction::RunTool { lines, .. }
        | AgentAction::Continue { lines }
        | AgentAction::Stop { lines } => lines.clone(),
        AgentAction::Fail { message } => vec![message.clone()],
    }
}

#[test]
fn clickable_path_encodes_special_characters() {
    let link = clickable_path("/tmp/a b#c", "x");
    assert!(link.contains("a%20b%23c"));
    assert!(link.contains("/tmp/a b#c"));
}

#[test]
fn clickable_path_strips_terminal_escape_injection() {
    let link = clickable_path("/tmp", "evil\x1b]8;;http://evil\x1b\\file.txt");
    assert!(!link.contains("\x1b]8;;http://evil"));
    assert!(link.contains("file.txt"));
}

#[test]
fn ensure_workspace_exists_fails_for_missing_directory() {
    let result = ensure_workspace_exists("/tmp/openbatrangs-definitely-does-not-exist-12345");
    assert!(result.is_err());
    assert!(result.unwrap_err().contains("does not exist"));
}

#[test]
fn ensure_workspace_exists_succeeds_for_valid_directory() {
    assert!(ensure_workspace_exists("/").is_ok());
}

#[test]
fn task_workspace_scan_hints_are_case_insensitive() {
    assert!(task_requests_workspace_scan(
        "Look at the CURRENT DIRECTORY layout"
    ));
    assert!(task_requests_workspace_scan("explore this repo"));
    assert!(task_requests_workspace_scan(
        "what files are in this project?"
    ));
    assert!(!task_requests_workspace_scan("write a unit test"));
}

#[test]
fn trims_messages_but_keeps_system_and_first_user() {
    let mut messages = vec![
        message(Role::System, "system"),
        message(Role::User, "task"),
        message(Role::Assistant, "a1"),
        message(Role::User, "u1"),
        message(Role::Assistant, "a2"),
    ];
    trim_messages(&mut messages, 3);
    assert_eq!(messages.len(), 3);
    assert_eq!(messages[0].role, Role::System);
    assert_eq!(messages[1].content, "task");
    assert_eq!(messages[2].content, "a2");
}

#[test]
fn trim_messages_does_nothing_when_under_limit() {
    let mut messages = vec![
        message(Role::System, "system"),
        message(Role::User, "task"),
        message(Role::Assistant, "answer"),
    ];
    let original_len = messages.len();
    trim_messages(&mut messages, 10);
    assert_eq!(messages.len(), original_len);
    assert_eq!(messages[0].content, "system");
    assert_eq!(messages[1].content, "task");
    assert_eq!(messages[2].content, "answer");
}

#[test]
fn trim_messages_keeps_exact_count_when_at_limit() {
    let mut messages = vec![
        message(Role::System, "system"),
        message(Role::User, "task"),
        message(Role::Assistant, "a1"),
    ];
    trim_messages(&mut messages, 3);
    assert_eq!(messages.len(), 3);
}

#[test]
fn trim_messages_keeps_most_recent_exchanges() {
    let mut messages = vec![
        message(Role::System, "system"),
        message(Role::User, "task"),
        message(Role::Assistant, "a1"),
        message(Role::User, "u1"),
        message(Role::Assistant, "a2"),
        message(Role::User, "u2"),
        message(Role::Assistant, "a3"),
    ];
    trim_messages(&mut messages, 4);
    assert_eq!(messages.len(), 4);
    assert_eq!(messages[0].role, Role::System);
    assert_eq!(messages[0].content, "system");
    assert_eq!(messages[1].role, Role::User);
    assert_eq!(messages[1].content, "task");
    assert_eq!(messages[2].content, "u2");
    assert_eq!(messages[3].content, "a3");
}

#[test]
fn trimming_twice_changes_nothing_more() {
    let mut messages: Vec<ChatMessage> = (0..10)
        .map(|i| message(Role::User, &format!("m{i}")))
        .collect();
    trim_messages(&mut messages, 5);
    let once: Vec<String> = messages.iter().map(|m| m.content.clone()).collect();
    trim_messages(&mut messages, 5);
    let twice: Vec<String> = messages.iter().map(|m| m.content.clone()).collect();
    assert_eq!(once, vec!["m0", "m1", "m7", "m8", "m9"]);
    assert_eq!(once, twice);
}

#[test]
fn initial_messages_list_shallowly_when_task_asks_about_codebase() {
    let messages = initial_messages(
        "/tmp/project",
        "analyze this codebase",
        Ok("top.txt (3 bytes)\n".to_string()),
    );
    let user_content = &messages[1].content;
    assert!(user_content.contains("top.txt"));
    assert!(user_content.contains("Use list_files on specific subdirectories"));
}

#[test]
fn initial_messages_do_not_scan_for_generic_task() {
    let messages = initial_messages(
        "/tmp/project",
        "write a quicksort function in Rust",
        Ok("top.txt (3 bytes)\n".to_string()),
    );
    let user_content = &messages[1].content;
    assert!(!user_content.contains("top.txt"));
    assert!(user_content.contains("No files were listed"));
    assert!(user_content.contains("Call list_files only if you need to inspect"));
}

#[test]
fn initial_messages_always_contain_system_prompt_and_task() {
    let messages = initial_messages("/tmp/project", "fix the bug", Ok(String::new()));
    assert_eq!(messages.len(), 2);
    assert_eq!(messages[0].role, Role::System);
    assert_eq!(messages[0].content, SYSTEM_PROMPT);
    assert_eq!(messages[1].role, Role::User);
    assert!(messages[1].content.ends_with("\n\nTask:\nfix the bug"));
    assert!(messages[1].content.starts_with("Workspace root: /tmp/project\n\n"));
}

#[test]
fn failed_listing_is_reported_in_the_first_turn() {
    let messages = initial_messages(
        "/tmp/project",
        "explore the workspace",
        Err("permission denied".to_string()),
    );
    assert!(messages[1]
        .content
        .contains("(could not list files: permission denied)"));
}

#[test]
fn context_window_is_clamped() {
    assert_eq!(num_ctx_for(MAX_CONTEXT_TOKENS, 32_768), MAX_CONTEXT_TOKENS);
    assert_eq!(num_ctx_for(MAX_CONTEXT_TOKENS, 1_024), MIN_CONTEXT_TOKENS);
    assert_eq!(num_ctx_for(1_000, 6_000), MIN_CONTEXT_TOKENS);
    assert_eq!(num_ctx_for(16_384, 6_000), 6_000);
}

#[test]
fn read_only_mode_is_refused_with_a_message() {
    assert_eq!(
        ensure_not_read_only(true).unwrap_err(),
        "this tool is disabled in read-only mode"
    );
    assert!(ensure_not_read_only(false).is_ok());
}

#[test]
fn sanitize_removes_control_characters_only() {
    assert_eq!(sanitize_terminal_text("a\x1b[31mb\u{7f}c\u{85}d"), "a[31mbcd");
    assert_eq!(sanitize_terminal_text("plain ünïcode"), "plain ünïcode");
}

#[test]
fn changed_files_are_listed_with_links() {
    assert!(changed_files_lines("/tmp/p", &vec![]).is_empty());
    let lines = changed_files_lines("/tmp/p", &vec!["a.rs".to_string(), "b c.rs".to_string()]);
    assert_eq!(lines.len(), 3);
    assert!(lines[0].contains("Files changed"));
    assert!(lines[1].starts_with("   \x1b]8;;file:///tmp/p/a.rs\x1b\\/tmp/p/a.rs"));
    assert!(lines[2].contains("file:///tmp/p/b%20c.rs"));
}

#[test]
fn written_file_text_appends_a_link() {
    let text = written_file_text("✅ wrote /tmp/p/a.rs (3 bytes)", "/tmp/p", "a.rs");
    assert!(text.starts_with("✅ wrote /tmp/p/a.rs (3 bytes)\n📎 \x1b]8;;file:///tmp/p/a.rs"));
}

#[test]
fn replies_are_unfenced_before_parsing() {
    assert_eq!(unfence_json("  ```json\n{\"answer\": \"hi\"}\n```  "), "{\"answer\": \"hi\"}");
    assert_eq!(unfence_json("{\"a\":1}"), "{\"a\":1}");
    assert_eq!(unfence_json("```\n{}\n``````"), "{}");
    assert_eq!(
        reply_error_text(ReplyError::InvalidJson, "oops"),
        "invalid JSON from model: oops"
    );
}

#[test]
fn agent_run_answers_and_stops() {
    let mut run = AgentRun::new(
        config(3, false, false),
        "qwen".to_string(),
        32_768,
        "say hi",
        Ok(String::new()),
    );
    assert_eq!(run.num_ctx, 8_192);
    let first = run.next_step();
    assert!(lines_of(&first)[0].contains("Step 1/3"));
    let action = run.on_response(
        "{\"answer\":\"hi\"}",
        false,
        Ok(AgentResponse {
            tool: None,
            answer: Some("hi".to_string()),
        }),
    );
    match action {
        AgentAction::Stop { lines } => {
            assert_eq!(lines.len(), 1);
            assert!(lines[0].ends_with(" hi"));
        }
        other => panic!("unexpected {other:?}"),
    }
    assert!(matches!(run.phase, AgentPhase::Finished));
    assert!(matches!(run.next_step(), AgentAction::Stop { lines } if lines.is_empty()));
}

#[test]
fn agent_run_streamed_answer_is_not_repeated() {
    let mut run = AgentRun::new(config(3, false, false), "m".to_string(), 8_192, "t", Ok(String::new()));
    run.next_step();
    let action = run.on_response(
        "{}",
        true,
        Ok(AgentResponse {
            tool: None,
            answer: Some("hi".to_string()),
        }),
    );
    assert!(matches!(action, AgentAction::Stop { lines } if lines.is_empty()));
}

#[test]
fn agent_run_runs_a_tool_and_feeds_the_result_back() {
    let mut run = AgentRun::new(config(3, false, false), "m".to_string(), 8_192, "t", Ok(String::new()));
    run.next_step();
    let reply = "{\"tool\":{\"name\":\"write_file\"}}";
    let action = run.on_response(
        reply,
        false,
        Ok(AgentResponse {
            tool: Some(tool_call("write_file", vec![("path", "a.rs"), ("content", "x")])),
            answer: None,
        }),
    );
    match &action {
        AgentAction::RunTool { lines, confirm } => {
            assert!(lines[0].contains("write_file → a.rs"));
            assert!(confirm.is_none());
        }
        other => panic!("unexpected {other:?}"),
    }
    assert_eq!(run.messages.len(), 3);
    assert_eq!(run.messages[2].role, Role::Assistant);
    assert_eq!(run.messages[2].content, reply);
    let action = run.on_tool_outcome(ToolOutcome::Done("✅ wrote".to_string()));
    assert!(matches!(action, AgentAction::Continue { .. }));
    assert_eq!(run.messages[3].content, "Tool result:\n✅ wrote");
    assert_eq!(run.changed_files, vec!["a.rs".to_string()]);
    assert!(matches!(run.phase, AgentPhase::Ready));
}

#[test]
fn agent_run_asks_before_mutating_in_confirm_mode() {
    let mut run = AgentRun::new(config(3, false, true), "m".to_string(), 8_192, "t", Ok(String::new()));
    run.next_step();
    let action = run.on_response(
        "{}",
        false,
        Ok(AgentResponse {
            tool: Some(tool_call("run_command", vec![("command", "ls")])),
            answer: None,
        }),
    );
    match action {
        AgentAction::RunTool { confirm, .. } => {
            assert_eq!(confirm.as_deref(), Some("run command: ls"))
        }
        other => panic!("unexpected {other:?}"),
    }
    run.on_tool_outcome(ToolOutcome::Denied);
    assert_eq!(
        run.messages.last().unwrap().content,
        "Tool result:\nTool error: aborted by user"
    );
    assert!(run.changed_files.is_empty());
}

#[test]
fn agent_run_refuses_mutating_tools_in_read_only_mode() {
    let mut run = AgentRun::new(config(3, true, false), "m".to_string(), 8_192, "t", Ok(String::new()));
    run.next_step();
    let action = run.on_response(
        "{}",
        false,
        Ok(AgentResponse {
            tool: Some(tool_call("write_file", vec![("path", "a.rs"), ("content", "x")])),
            answer: None,
        }),
    );
    match action {
        AgentAction::Continue { lines } => {
            assert!(lines[1].contains("Tool error: this tool is disabled in read-only mode"))
        }
        other => panic!("unexpected {other:?}"),
    }
    assert!(matches!(run.phase, AgentPhase::Ready));
    assert_eq!(
        run.messages.last().unwrap().content,
        "Tool result:\nTool error: this tool is disabled in read-only mode"
    );
}

#[test]
fn agent_run_stops_after_max_steps() {
    let mut run = AgentRun::new(config(1, false, false), "m".to_string(), 8_192, "t", Ok(String::new()));
    assert!(matches!(run.next_step(), AgentAction::CallModel { .. }));
    run.on_response(
        "{}",
        false,
        Ok(AgentResponse {
            tool: Some(tool_call("list_files", vec![])),
            answer: None,
        }),
    );
    run.on_tool_outcome(ToolOutcome::Done("(no files found)\n".to_string()));
    match run.next_step() {
        AgentAction::Stop { lines } => {
            assert_eq!(lines, vec!["\n⚠️  Reached max steps (1) without a final answer."])
        }
        other => panic!("unexpected {other:?}"),
    }
}

#[test]
fn agent_run_reports_unreadable_replies_and_unknown_tools() {
    let mut run = AgentRun::new(config(3, false, false), "m".to_string(), 8_192, "t", Ok(String::new()));
    run.next_step();
    let action = run.on_response("garbage", false, Err("invalid JSON from model: garbage".to_string()));
    assert_eq!(
        lines_of(&action),
        vec![
            "\n⚠️  Could not parse model JSON: invalid JSON from model: garbage".to_string(),
            "Showing raw model output as the final response.".to_string(),
            "\ngarbage".to_string(),
        ]
    );
    let mut run = AgentRun::new(config(3, false, false), "m".to_string(), 8_192, "t", Ok(String::new()));
    run.next_step();
    let action = run.on_response(
        "{}",
        false,
        Ok(AgentResponse {
            tool: Some(tool_call("teleport", vec![])),
            answer: None,
        }),
    );
    assert!(matches!(action, AgentAction::Fail { message } if message == "unknown tool: teleport"));
}

#[test]
fn agent_run_finish_tool_reports_its_summary() {
    let mut run = AgentRun::new(config(3, false, false), "m".to_string(), 8_192, "t", Ok(String::new()));
    run.next_step();
    let action = run.on_response(
        "{}",
        false,
        Ok(AgentResponse {
            tool: Some(tool_call("finish", vec![])),
            answer: None,
        }),
    );
    assert!(matches!(action, AgentAction::Stop { lines } if lines.len() == 1 && lines[0].ends_with(" done")));
    let mut run = AgentRun::new(config(3, false, false), "m".to_string(), 8_192, "t", Ok(String::new()));
    run.next_step();
    let action = run.on_response(
        "{}",
        false,
        Ok(AgentResponse {
            tool: None,
            answer: None,
        }),
    );
    assert!(matches!(action, AgentAction::Stop { lines } if lines[0].contains("neither an answer nor a tool call")));
}

#[test]
fn workspace_check_follows_the_directory_answer() {
    assert!(workspace_check("/work", true).is_ok());
    assert_eq!(
        workspace_check("/work", false).unwrap_err(),
        "working directory does not exist: /work"
    );
}
