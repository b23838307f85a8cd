use openbatrangs::files::{
    agent_sandbox_env, command_output_text, command_timeout_secs, compile_pattern, grep_files,
    is_heavy_dir, list_files, looks_binary, read_file_text, relative_to_root, timeout_text,
    wrote_text, ListedFile, SearchedFile,
};

fn listed(path: &str, size: u64) -> ListedFile {
    ListedFile {
        path: path.to_string(),
        size,
    }
}

fn searched(path: &str, content: &str) -> SearchedFile {
    SearchedFile {
        path: path.to_string(),
        content: content.to_string(),
    }
}

#[test]
fn relative_to_root_prefers_canonical_root() {
    assert_eq!(
        relative_to_root("/tmp/project/src/main.rs", ".", "/tmp/project"),
        "src/main.rs"
    );
    assert_eq!(relative_to_root("/tmp/project", ".", "/tmp/project"), "");
}

#[test]
fn relative_to_root_falls_back_to_raw_root() {
    assert_eq!(
        relative_to_root("./src/main.rs", ".", "/tmp/project"),
        "src/main.rs"
    );
}

#[test]
fn list_files_with_relative_root_returns_relative_paths() {
    let entry = relative_to_root("/work/crate/src/lib.rs", ".", "/work/crate");
    let output = list_files(&vec![listed(&entry, 120)]);
    let first = output.lines().next().unwrap_or_default();
    assert!(!first.starts_with('/'), "expected relative path, got: {first}");
    assert!(first.starts_with("src/"), "expected src/ prefix, got: {first}");
}

#[test]
fn list_files_returns_relative_paths_and_sizes() {
    let output = list_files(&vec![listed("a.txt", 5), listed("sub/b.txt", 5)]);
    assert_eq!(output, "a.txt (5 bytes)\nsub/b.txt (5 bytes)\n");
}

#[test]
fn list_files_empty_directory_shows_no_files_message() {
    assert_eq!(list_files(&vec![]), "(no files found)\n");
}

#[test]
fn list_files_stops_at_the_file_cap() {
    let files: Vec<ListedFile> = (0..600).map(|i| listed(&format!("f{i}"), 1)).collect();
    let output = list_files(&files);
    assert!(output.contains("f499 (1 bytes)\n... (truncated at 500 files)\n"));
    assert!(!output.contains("f500 "));
}

#[test]
fn heavy_directories_are_skipped() {
    assert!(is_heavy_dir("target"));
    assert!(is_heavy_dir(".git"));
    assert!(is_heavy_dir("node_modules"));
    assert!(!is_heavy_dir("src"));
    assert!(!is_heavy_dir("Target"));
}

#[test]
fn grep_files_finds_matches_and_reports_missing() {
    let files = vec![
        searched("a.txt", "hello world\nfoo bar\n"),
        searched("b.rs", "fn hello() {}\n"),
    ];
    let pattern = compile_pattern("hello").unwrap();
    let output = grep_files(&pattern, &files, 10);
    assert!(output.contains("a.txt:1: hello world"));
    assert!(output.contains("b.rs:1: fn hello() {}"));
    let none = grep_files(&compile_pattern("zzz").unwrap(), &files, 10);
    assert!(none.contains("(no matches)"));
}

#[test]
fn grep_files_rejects_invalid_regex() {
    let error = compile_pattern("(").err().unwrap();
    assert!(error.starts_with("invalid regex pattern: "));
}

#[test]
fn grep_files_honors_max_results() {
    let content = "match\n".repeat(100);
    let files = vec![searched("many.txt", &content)];
    let output = grep_files(&compile_pattern("match").unwrap(), &files, 5);
    assert_eq!(output.matches("many.txt:").count(), 5);
    assert!(output.ends_with("... (truncated at 5 matches)\n"));
}

#[test]
fn grep_files_zero_max_results_is_clamped_to_one() {
    let files = vec![searched("a.txt", "x\nx\n")];
    let output = grep_files(&compile_pattern("x").unwrap(), &files, 0);
    assert_eq!(output, "a.txt:1: x\n... (truncated at 1 matches)\n");
}

#[test]
fn grep_files_with_anchored_regex() {
    let files = vec![searched("a.txt", "hello world\ngoodbye world\nhello again\n")];
    let output = grep_files(&compile_pattern(r"^hello").unwrap(), &files, 10);
    assert_eq!(output, "a.txt:1: hello world\na.txt:3: hello again\n");
}

#[test]
fn grep_lines_are_trimmed_and_crlf_aware() {
    let files = vec![searched("w.txt", "  padded match  \r\nno\r\nmatch at end")];
    let output = grep_files(&compile_pattern("match").unwrap(), &files, 10);
    assert_eq!(output, "w.txt:1: padded match\nw.txt:3: match at end\n");
}

#[test]
fn grep_files_skips_binary_files() {
    assert!(looks_binary(&[b'a', 0, b'b']));
    assert!(!looks_binary(b"plain text"));
    let mut late_nul = vec![b'a'; 9_000];
    late_nul[8_500] = 0;
    assert!(!looks_binary(&late_nul));
}

#[test]
fn read_file_returns_header_and_content() {
    let output = read_file_text("main.rs", "fn main() {}".to_string(), 100);
    assert_eq!(output, "--- main.rs ---\nfn main() {}");
}

#[test]
fn read_file_max_chars_truncates_content() {
    let output = read_file_text("big.txt", "abcdefghij".to_string(), 4);
    assert_eq!(output, "--- big.txt ---\nabcd\n... (truncated, 6 chars omitted)");
}

#[test]
fn write_confirmation_counts_bytes() {
    assert_eq!(wrote_text("/tmp/p/a.rs", "héllo"), "✅ wrote /tmp/p/a.rs (6 bytes)");
}

#[test]
fn sandbox_env_points_into_the_workspace() {
    let env = agent_sandbox_env("/tmp/ws");
    assert_eq!(env.len(), 9);
    assert_eq!(env[0], ("HOME", "/tmp/ws/.agent/home".to_string()));
    assert_eq!(env[6], ("PIP_CACHE_DIR", "/tmp/ws/.agent/cache/pip".to_string()));
}

#[test]
fn command_output_shows_streams_and_exit_code() {
    assert_eq!(
        command_output_text("hello\n", "", Some(0)),
        "hello\n\n[exit code 0]\n"
    );
    assert_eq!(
        command_output_text("", "oops\n", Some(3)),
        "\n[stderr]\noops\n\n[exit code 3]\n"
    );
    assert_eq!(command_output_text("", "", Some(-2)), "\n[exit code -2]\n");
    assert_eq!(command_output_text("", "", None), "\n[exit code signal]\n");
}

#[test]
fn command_timeouts_have_a_floor_and_a_message() {
    assert_eq!(command_timeout_secs(0), 1);
    assert_eq!(command_timeout_secs(120), 120);
    assert_eq!(timeout_text(5), "command timed out after 5s");
}

#[test]
fn reading_back_what_was_written_gives_the_content() {
    let content = "pub fn f() {}";
    assert_eq!(wrote_text("src/lib.rs", content), "✅ wrote src/lib.rs (13 bytes)");
    assert_eq!(
        read_file_text("src/lib.rs", content.to_string(), 100),
        format!("--- src/lib.rs ---\n{content}")
    );
}
