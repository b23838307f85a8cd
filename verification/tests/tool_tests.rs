use openbatrangs::tool::{
    optional_u64_arg, required_string_arg, string_arg, ArgValue, Tool, ToolCall, ToolError,
};

fn args(members: Vec<(&str, ArgValue)>) -> Vec<(String, ArgValue)> {
    members
        .into_iter()
        .map(|(key, value)| (key.to_string(), value))
        .collect()
}

#[test]
fn tool_describe_is_human_readable() {
    let tool = Tool::ListFiles {
        path: "src".to_string(),
    };
    assert_eq!(tool.describe(), "list_files → src");
}

#[test]
fn rejects_non_string_tool_argument() {
    let arguments = args(vec![("path", ArgValue::Number(Some(42)))]);
    assert!(string_arg(&arguments, "path").is_err());
}

#[test]
fn tool_from_call_parses_known_tools() {
    let call = ToolCall {
        name: "write_file".to_string(),
        arguments: args(vec![
            ("path", ArgValue::Str("a.txt".to_string())),
            ("content", ArgValue::Str("x".to_string())),
        ]),
    };
    let tool = Tool::from_call(call).unwrap();
    assert!(
        matches!(tool, Tool::WriteFile { path, content } if path == "a.txt" && content == "x")
    );
}

#[test]
fn tool_from_call_rejects_unknown_tool() {
    let call = ToolCall {
        name: "rm_rf".to_string(),
        arguments: Vec::new(),
    };
    assert!(Tool::from_call(call).is_err());
}

#[test]
fn defaults_fill_missing_optional_arguments() {
    let call = ToolCall {
        name: "grep_files".to_string(),
        arguments: args(vec![("pattern", ArgValue::Str("fn".to_string()))]),
    };
    assert_eq!(
        Tool::from_call(call).unwrap(),
        Tool::GrepFiles {
            pattern: "fn".to_string(),
            path: ".".to_string(),
            max_results: 200
        }
    );
    let call = ToolCall {
        name: "read_file".to_string(),
        arguments: args(vec![
            ("path", ArgValue::Str("a".to_string())),
            ("max_chars", ArgValue::Null),
        ]),
    };
    assert_eq!(
        Tool::from_call(call).unwrap(),
        Tool::ReadFile {
            path: "a".to_string(),
            max_chars: 8000
        }
    );
    let finish = ToolCall {
        name: "finish".to_string(),
        arguments: Vec::new(),
    };
    assert_eq!(
        Tool::from_call(finish).unwrap(),
        Tool::Finish {
            summary: "done".to_string()
        }
    );
}

#[test]
fn argument_errors_have_the_expected_messages() {
    let arguments = args(vec![
        ("n", ArgValue::Number(None)),
        ("s", ArgValue::Other),
    ]);
    assert_eq!(
        optional_u64_arg(&arguments, "n").unwrap_err().message(),
        "argument 'n' must be a non-negative integer"
    );
    assert_eq!(
        optional_u64_arg(&arguments, "s").unwrap_err().message(),
        "argument 's' must be a number"
    );
    assert_eq!(
        required_string_arg(&arguments, "path", "read_file")
            .unwrap_err()
            .message(),
        "read_file requires 'path'"
    );
    assert_eq!(
        ToolError::UnknownTool("rm_rf".to_string()).message(),
        "unknown tool: rm_rf"
    );
}

#[test]
fn grep_description_quotes_the_pattern() {
    let tool = Tool::GrepFiles {
        pattern: "a\"b".to_string(),
        path: "src".to_string(),
        max_results: 3,
    };
    assert_eq!(tool.describe(), "grep_files → \"a\\\"b\" in src");
}
