//! The agentic coding loop.
//!
//! The agent alternates between asking the model for its next action (a JSON
//! object) and running the tool the model asked for, feeding the result back.
//! The loop is bounded by `max_steps`. Talking to the model, running tools and
//! printing are the binary's work; this module owns every decision of the loop
//! as a state machine ([`AgentRun`]) and the text it produces.

use crate::chars::{
    ascii_lower_seq, chars_of, contains_chars, contains_seq, push_decimal, push_str, string_of,
    to_ascii_lowercase, trim,
};
use crate::ollama::{ChatMessage, Role};
use crate::path::{is_absolute, path_join, join_path};
use crate::tool::{args_view, decoded_tool, described, Tool, ToolCall, ToolErrorView, ToolView, tool_error_message};
use vstd::prelude::*;

verus! {

/// Default maximum context window used for agent requests.
pub const MAX_CONTEXT_TOKENS: u64 = 8_192;

/// Minimum context window used for agent requests.
pub const MIN_CONTEXT_TOKENS: u64 = 4_096;

/// Timeout for shell commands launched by the agent, in seconds.
pub const COMMAND_TIMEOUT_SECONDS: u64 = 120;

/// Conversation trimming keeps the system message, the initial task, and this
/// many messages in all.
pub const MAX_HISTORY_MESSAGES: usize = 40;

/// Depth of the top-level listing put in the first turn when the task asks
/// about the workspace.
pub const INITIAL_LIST_DEPTH: usize = 1;

/// SGR dim.
pub const COLOR_DIM: &'static str = "\x1b[2m";
/// SGR magenta.
pub const COLOR_MAGENTA: &'static str = "\x1b[35m";
/// SGR cyan.
pub const COLOR_CYAN: &'static str = "\x1b[36m";
/// SGR bold.
pub const COLOR_BOLD: &'static str = "\x1b[1m";
/// SGR reset.
pub const COLOR_RESET: &'static str = "\x1b[0m";
/// Green checkmark.
pub const ANSI_GREEN_CHECK: &'static str = "\x1b[32m✅\x1b[0m";
/// Yellow "Files changed" header.
pub const ANSI_YELLOW_FILES_HEADER: &'static str = "\x1b[1;33m📁 Files changed:\x1b[0m";

/// System prompt for the full agentic tool loop.
pub const SYSTEM_PROMPT: &'static str = "You are openBatarangs, an autonomous coding agent running on a local edge device (Jetson-class hardware).

You must respond with ONLY one JSON object. Never use markdown fences. Never add prose outside the JSON.

Two valid response shapes:

1. To call a tool:
{\"thought\": \"short reasoning\", \"tool\": {\"name\": \"tool_name\", \"arguments\": {\"arg\": \"value\"}}}

2. To finish:
{\"thought\": \"short reasoning\", \"answer\": \"final answer for the user\"}

Available tools:
- list_files: arguments {\"path\": \"relative_dir\"} — list files in a directory (max depth 5)
- read_file: arguments {\"path\": \"relative_file\", \"max_chars\": 8000} — read a text file
- grep_files: arguments {\"pattern\": \"regex\", \"path\": \"relative_dir\", \"max_results\": 200} — search file contents
- write_file: arguments {\"path\": \"relative_file\", \"content\": \"full file content\"} — write/overwrite a file
- run_command: arguments {\"command\": \"shell command\"} — run a read/build/test shell command in the workspace
- finish: arguments {\"summary\": \"done\"} — same as answer, use to end

Rules:
- Always use paths relative to the workspace root. Absolute paths and '..' are rejected. \".\" is the workspace root.
- When asked to analyze the current directory or codebase, start with list_files path \".\" and then read the key files before concluding.
- Explore before editing. Read files before rewriting them.
- Prefer small, focused edits. Run build/test commands to verify when possible.
- Never invent file contents as done unless you actually wrote them.
- Implement complete, working solutions. Never return hello-world stubs, placeholders, or toy examples unless the task explicitly asks for an example. Read the real files, implement the actual logic, and handle errors properly.
- Write clean code: use guard clauses and early returns, avoid deeply nested conditionals, keep functions focused, and use descriptive names.
- When the task is complete, provide a concise answer with what changed and any commands the user should run.
- Keep tool outputs in mind, but do not repeat them verbatim in the final answer.";

/// Immutable configuration for the agentic coding loop.
#[derive(Debug, Clone)]
pub struct AgentConfig {
    /// Working directory where the agent reads and writes files.
    pub cwd: String,
    /// Maximum number of agent iterations before stopping.
    pub max_steps: usize,
    /// When `true`, mutating tools (write, run command) are disabled.
    pub is_read_only: bool,
    /// When `true`, the user must approve each write/command before execution.
    pub should_confirm: bool,
    /// When `true`, the model's reasoning/thinking text is shown to the user.
    pub show_thinking: bool,
    /// Maximum context window (tokens) sent to the model.
    pub max_ctx: u64,
}

/// The context window sent to the model: the model's own window, clamped
/// between the minimum and the configured maximum (itself raised to the
/// minimum).
pub open spec fn context_window(max_ctx: u64, model_context: u64) -> u64 {
    let hi = if max_ctx < MIN_CONTEXT_TOKENS { MIN_CONTEXT_TOKENS } else { max_ctx };
    if model_context < MIN_CONTEXT_TOKENS {
        MIN_CONTEXT_TOKENS
    } else if model_context > hi {
        hi
    } else {
        model_context
    }
}

/// `model_context.clamp(MIN_CONTEXT_TOKENS, max_ctx.max(MIN_CONTEXT_TOKENS))`.
pub fn num_ctx_for(max_ctx: u64, model_context: u64) -> (result: u64)
    ensures
        result == context_window(max_ctx, model_context),
        MIN_CONTEXT_TOKENS <= result,
        result <= model_context || result == MIN_CONTEXT_TOKENS,
{
    let hi = if max_ctx < MIN_CONTEXT_TOKENS { MIN_CONTEXT_TOKENS } else { max_ctx };
    if model_context < MIN_CONTEXT_TOKENS {
        MIN_CONTEXT_TOKENS
    } else if model_context > hi {
        hi
    } else {
        model_context
    }
}

// ---------------------------------------------------------------------------
// Conversation trimming
// ---------------------------------------------------------------------------

/// The history after trimming to `max` messages: unchanged when it fits;
/// otherwise the system message, the first user turn and the `max - 2` most
/// recent messages.
pub open spec fn trimmed(m: Seq<ChatMessage>, max: nat) -> Seq<ChatMessage> {
    if m.len() <= max {
        m
    } else {
        seq![m[0], m[1]] + m.skip(m.len() - (max - 2))
    }
}

/// Trim conversation history to `max` messages, preserving system and first
/// user turn.
pub fn trim_messages(messages: &mut Vec<ChatMessage>, max: usize)
    requires
        old(messages).len() > max ==> max >= 2,
    ensures
        final(messages)@ == trimmed(old(messages)@, max as nat),
{
    if messages.len() <= max {
        return;
    }
    let ghost m = messages@;
    let system = messages.remove(0);
    let first_user = messages.remove(0);
    assert(messages@ == m.skip(2));
    let keep = max - 2;
    let at = if messages.len() >= keep { messages.len() - keep } else { 0 };
    let mut tail = messages.split_off(at);
    assert(tail@ == m.skip(m.len() - (max - 2)));
    messages.clear();
    messages.push(system);
    messages.push(first_user);
    messages.append(&mut tail);
    assert(messages@ =~= trimmed(m, max as nat));
}

/// Law: trimming never leaves more than `max` messages, keeps the first two
/// messages, keeps the newest message last, and trimming again changes
/// nothing.
pub proof fn trim_keeps_head_and_newest(m: Seq<ChatMessage>, max: nat)
    requires
        m.len() > max ==> max >= 2,
    ensures
        trimmed(m, max).len() == if m.len() <= max { m.len() } else { max },
        m.len() >= 2 ==> trimmed(m, max)[0] == m[0] && trimmed(m, max)[1] == m[1],
        m.len() > 0 && (m.len() <= max || max > 2) ==> trimmed(m, max).last() == m.last(),
        trimmed(trimmed(m, max), max) == trimmed(m, max),
{
}

// ---------------------------------------------------------------------------
// The first turn
// ---------------------------------------------------------------------------

/// Phrases that signal the user wants information about the current
/// workspace or project structure.
pub const WORKSPACE_SCAN_HINTS: [&'static str; 15] = [
    "current dir",
    "current directory",
    "this directory",
    "this folder",
    "this project",
    "this repo",
    "this repository",
    "workspace",
    "codebase",
    "repository",
    "file structure",
    "project structure",
    "list files",
    "what files",
    "explore",
];

/// The task, lowercased, holds one of the workspace hints.
pub open spec fn asks_for_workspace(task: Seq<char>) -> bool {
    exists|i: int| 0 <= i < 15 && contains_seq(ascii_lower_seq(task), WORKSPACE_SCAN_HINTS@[i]@)
}

/// True when the task explicitly asks about the project/workspace layout
/// (ASCII case-insensitively).
pub fn task_requests_workspace_scan(task: &str) -> (result: bool)
    ensures
        result == asks_for_workspace(task@),
{
    let lower = to_ascii_lowercase(&chars_of(task));
    let mut i: usize = 0;
    while i < 15
        invariant
            0 <= i <= 15,
            lower@ == ascii_lower_seq(task@),
            forall|k: int| 0 <= k < i ==> !contains_seq(lower@, #[trigger] WORKSPACE_SCAN_HINTS@[k]@),
        decreases 15 - i,
    {
        let hint = chars_of(WORKSPACE_SCAN_HINTS[i]);
        if contains_chars(&lower, &hint) {
            return true;
        }
        i += 1;
    }
    false
}

/// The note on the workspace put before the task in the first user turn.
/// The listing is used only when the task asks about the workspace; a
/// listing that failed is shown as its error.
pub open spec fn workspace_note(cwd: Seq<char>, task: Seq<char>, listing: Result<Seq<char>, Seq<char>>) -> Seq<char> {
    if asks_for_workspace(task) {
        let shown = match listing {
            Ok(l) => l,
            Err(e) => "(could not list files: "@ + e + ")"@,
        };
        "Workspace root: "@ + cwd + "\n\nInitial top-level file listing:\n"@ + shown
            + "\n(Use list_files on specific subdirectories when you need deeper context.)"@
    } else {
        "Workspace root: "@ + cwd
            + "\n\n(No files were listed because this "@
            + "task did not ask about the project structure. Call list_files only if you need to inspect the workspace.)"@
    }
}

/// The first user turn: the workspace note, then the task.
pub open spec fn first_user_turn(cwd: Seq<char>, task: Seq<char>, listing: Result<Seq<char>, Seq<char>>) -> Seq<char> {
    workspace_note(cwd, task, listing) + "\n\nTask:\n"@ + task
}

/// Build the system message and the first user turn.
///
/// `listing` is the top-level listing of `cwd` (depth
/// [`INITIAL_LIST_DEPTH`]); it is read only when the task asks about the
/// workspace, so callers need not produce it otherwise.
pub fn initial_messages(cwd: &str, task: &str, listing: Result<String, String>) -> (result: Vec<ChatMessage>)
    ensures
        result@.len() == 2,
        result@[0].role == Role::System,
        result@[0].content@ == SYSTEM_PROMPT@,
        result@[1].role == Role::User,
        result@[1].content@ == first_user_turn(
            cwd@,
            task@,
            match listing {
                Ok(l) => Ok(l@),
                Err(e) => Err(e@),
            },
        ),
{
    let mut out: Vec<char> = Vec::new();
    push_str(&mut out, "Workspace root: ");
    push_str(&mut out, cwd);
    if task_requests_workspace_scan(task) {
        push_str(&mut out, "\n\nInitial top-level file listing:\n");
        match &listing {
            Ok(l) => push_str(&mut out, l.as_str()),
            Err(e) => {
                push_str(&mut out, "(could not list files: ");
                push_str(&mut out, e.as_str());
                push_str(&mut out, ")");
            },
        }
        push_str(
            &mut out,
            "\n(Use list_files on specific subdirectories when you need deeper context.)",
        );
    } else {
        push_str(&mut out, "\n\n(No files were listed because this ");
        push_str(
            &mut out,
            "task did not ask about the project structure. Call list_files only if you need to inspect the workspace.)",
        );
    }
    push_str(&mut out, "\n\nTask:\n");
    push_str(&mut out, task);
    let mut messages: Vec<ChatMessage> = Vec::new();
    messages.push(ChatMessage { role: Role::System, content: String::from_str(SYSTEM_PROMPT) });
    messages.push(ChatMessage { role: Role::User, content: string_of(out.as_slice()) });
    messages
}

// ---------------------------------------------------------------------------
// Guards
// ---------------------------------------------------------------------------

/// `Path::is_dir`: whether a directory exists at `path`. The answer depends
/// on the filesystem, so nothing is stated of it.
#[verifier::external_body]
fn is_dir(path: &str) -> bool {
    std::path::Path::new(path).is_dir()
}

/// The refusal when the workspace is missing.
pub open spec fn missing_workspace_message(cwd: Seq<char>) -> Seq<char> {
    "working directory does not exist: "@ + cwd
}

/// Decide the workspace check from whether a directory exists at `cwd`.
pub fn workspace_check(cwd: &str, is_directory: bool) -> (result: Result<(), String>)
    ensures
        match result {
            Ok(()) => is_directory,
            Err(message) => !is_directory && message@ == missing_workspace_message(cwd@),
        },
{
    if !is_directory {
        let mut out: Vec<char> = Vec::new();
        push_str(&mut out, "working directory does not exist: ");
        push_str(&mut out, cwd);
        return Err(string_of(out.as_slice()));
    }
    Ok(())
}

/// Verify the working directory exists before starting the agent.
///
/// Whether a directory exists at `cwd` is asked of the filesystem; whatever
/// the answer, the result is [`workspace_check`]'s for it: `Ok` for a
/// directory, else the refusal naming `cwd`.
pub fn ensure_workspace_exists(cwd: &str) -> (result: Result<(), String>)
    ensures
        result matches Err(message) ==> message@ == missing_workspace_message(cwd@),
{
    let is_directory = is_dir(cwd);
    workspace_check(cwd, is_directory)
}

/// The refusal of a mutating tool in read-only mode.
pub open spec fn read_only_message() -> Seq<char> {
    "this tool is disabled in read-only mode"@
}

/// Refuse when the agent is in read-only mode.
pub fn ensure_not_read_only(is_read_only: bool) -> (result: Result<(), String>)
    ensures
        is_read_only <==> result is Err,
        result matches Err(message) ==> message@ == read_only_message(),
{
    if is_read_only {
        return Err(String::from_str("this tool is disabled in read-only mode"));
    }
    Ok(())
}

// ---------------------------------------------------------------------------
// Terminal-safe file links
// ---------------------------------------------------------------------------

/// `char::is_control`: the characters of general category `Cc`.
pub open spec fn is_control(c: char) -> bool {
    (c as u32) <= 0x1F || (0x7F <= (c as u32) && (c as u32) <= 0x9F)
}

/// `s` with its control characters removed.
pub open spec fn sanitized(s: Seq<char>) -> Seq<char>
    decreases s.len(),
{
    if s.len() == 0 {
        s
    } else if is_control(s.last()) {
        sanitized(s.drop_last())
    } else {
        sanitized(s.drop_last()).push(s.last())
    }
}

/// Remove control characters that could be interpreted as terminal escape
/// codes.
pub fn sanitize_terminal_text(text: &str) -> (result: String)
    ensures
        result@ == sanitized(text@),
{
    let s = chars_of(text);
    let mut out: Vec<char> = Vec::new();
    let mut i: usize = 0;
    while i < s.len()
        invariant
            0 <= i <= s.len(),
            s@ == text@,
            out@ == sanitized(s@.take(i as int)),
        decreases s.len() - i,
    {
        let c = s[i];
        let v = c as u32;
        if !(v <= 0x1F || (0x7F <= v && v <= 0x9F)) {
            out.push(c);
        }
        i += 1;
        assert(s@.take(i as int).drop_last() == s@.take(i - 1));
    }
    assert(s@.take(s.len() as int) == s@);
    string_of(out.as_slice())
}

/// URL form of one character of a file path in a link target.
pub open spec fn encoded_char(c: char) -> Seq<char> {
    if c == '%' {
        "%25"@
    } else if c == ' ' {
        "%20"@
    } else if c == '#' {
        "%23"@
    } else if c == '?' {
        "%3F"@
    } else {
        seq![c]
    }
}

/// `s` with `%`, space, `#` and `?` percent-encoded.
pub open spec fn url_encoded(s: Seq<char>) -> Seq<char>
    decreases s.len(),
{
    if s.len() == 0 {
        s
    } else {
        url_encoded(s.drop_last()) + encoded_char(s.last())
    }
}

/// The OSC 8 hyperlink shown for the file path `full`: the target is the
/// sanitized path, URL-encoded, after `file://`; the text is the sanitized
/// path.
pub open spec fn file_link(full: Seq<char>) -> Seq<char> {
    "\x1b]8;;file://"@ + url_encoded(sanitized(full)) + "\x1b\\"@ + sanitized(full)
        + "\x1b]8;;\x1b\\"@
}

/// The OSC 8 hyperlink text for the file path `full`.
pub fn file_link_text(full: &str) -> (result: String)
    ensures
        result@ == file_link(full@),
{
    let display = sanitize_terminal_text(full);
    let d = chars_of(display.as_str());
    let mut enc: Vec<char> = Vec::new();
    let mut i: usize = 0;
    while i < d.len()
        invariant
            0 <= i <= d.len(),
            d@ == sanitized(full@),
            enc@ == url_encoded(d@.take(i as int)),
        decreases d.len() - i,
    {
        let c = d[i];
        if c == '%' {
            push_str(&mut enc, "%25");
        } else if c == ' ' {
            push_str(&mut enc, "%20");
        } else if c == '#' {
            push_str(&mut enc, "%23");
        } else if c == '?' {
            push_str(&mut enc, "%3F");
        } else {
            enc.push(c);
        }
        i += 1;
        assert(d@.take(i as int).drop_last() == d@.take(i - 1));
    }
    assert(d@.take(d.len() as int) == d@);
    let mut out: Vec<char> = Vec::new();
    push_str(&mut out, "\x1b]8;;file://");
    out.append(&mut enc);
    push_str(&mut out, "\x1b\\");
    push_str(&mut out, display.as_str());
    push_str(&mut out, "\x1b]8;;\x1b\\");
    string_of(out.as_slice())
}

/// The absolute form that `std::path::absolute` gives an already absolute
/// path (it is normalized without consulting the environment).
pub uninterp spec fn absolute_form(path: Seq<char>) -> Seq<char>;

/// `std::path::absolute`, falling back to `path` itself when it fails. A
/// relative path is resolved against the process's current directory, so of
/// it nothing is stated; an absolute path gives its named absolute form.
#[verifier::external_body]
fn absolute_path(path: &str) -> (result: String)
    ensures
        is_absolute(path@) ==> result@ == absolute_form(path@),
{
    match std::path::absolute(path) {
        Ok(full) => full.to_string_lossy().into_owned(),
        Err(_) => path.to_string(),
    }
}

/// The link shown for `path` inside the workspace `cwd`, when `cwd` joined
/// with `path` is absolute.
pub open spec fn workspace_link(cwd: Seq<char>, path: Seq<char>) -> Seq<char> {
    file_link(absolute_form(path_join(cwd, path)))
}

/// Terminal-clickable file path (OSC 8 hyperlink) for `path` inside `cwd`.
/// Always shows an absolute path; control characters are stripped first so a
/// model cannot inject escape sequences through a crafted file name.
pub fn clickable_path(cwd: &str, path: &str) -> (result: String)
    ensures
        is_absolute(path_join(cwd@, path@)) ==> result@ == workspace_link(cwd@, path@),
        exists|full: Seq<char>| result@ == file_link(full),
{
    let joined = join_path(cwd, path);
    let full = absolute_path(joined.as_str());
    file_link_text(full.as_str())
}

/// The output of a successful `write_file` call: the tool's confirmation,
/// then a link to the written file.
pub fn written_file_text(confirmation: &str, cwd: &str, path: &str) -> (result: String)
    ensures
        is_absolute(path_join(cwd@, path@)) ==> result@ == confirmation@ + "\n📎 "@ + workspace_link(cwd@, path@),
        exists|full: Seq<char>| result@ == confirmation@ + "\n📎 "@ + file_link(full),
{
    let link = clickable_path(cwd, path);
    let mut out: Vec<char> = Vec::new();
    push_str(&mut out, confirmation);
    push_str(&mut out, "\n📎 ");
    push_str(&mut out, link.as_str());
    string_of(out.as_slice())
}

/// An indented link to some file.
pub open spec fn is_link_line(line: Seq<char>) -> bool {
    exists|full: Seq<char>| line == "   "@ + file_link(full)
}

/// `lines` is what [`changed_files_lines`] shows for `files` in `cwd`:
/// nothing when no file changed; otherwise the header, then one indented
/// link per file, in order.
pub open spec fn lists_changed_files(cwd: Seq<char>, files: Seq<String>, lines: Seq<String>) -> bool {
    if files.len() == 0 {
        lines.len() == 0
    } else {
        &&& lines.len() == files.len() + 1
        &&& lines[0]@ == "\n"@ + ANSI_YELLOW_FILES_HEADER@
        &&& forall|j: int| 1 <= j < lines.len() ==> {
            &&& is_link_line(lines[j]@)
            &&& (is_absolute(path_join(cwd, files[j - 1]@)) ==> lines[j]@ == "   "@ + workspace_link(cwd, files[j - 1]@))
        }
    }
}

/// Lines listing clickable links for each file changed during the session.
pub fn changed_files_lines(cwd: &str, files: &Vec<String>) -> (result: Vec<String>)
    ensures
        lists_changed_files(cwd@, files@, result@),
{
    let mut lines: Vec<String> = Vec::new();
    if files.len() == 0 {
        return lines;
    }
    let mut header: Vec<char> = Vec::new();
    push_str(&mut header, "\n");
    push_str(&mut header, ANSI_YELLOW_FILES_HEADER);
    lines.push(string_of(header.as_slice()));
    let mut i: usize = 0;
    while i < files.len()
        invariant
            0 <= i <= files.len(),
            lines@.len() == i + 1,
            lines@[0]@ == "\n"@ + ANSI_YELLOW_FILES_HEADER@,
            forall|j: int| 1 <= j < lines@.len() ==> {
                &&& is_link_line(lines@[j]@)
                &&& (is_absolute(path_join(cwd@, files@[j - 1]@)) ==> lines@[j]@ == "   "@ + workspace_link(cwd@, files@[j - 1]@))
            },
        decreases files.len() - i,
    {
        let link = clickable_path(cwd, files[i].as_str());
        let mut line: Vec<char> = Vec::new();
        push_str(&mut line, "   ");
        push_str(&mut line, link.as_str());
        lines.push(string_of(line.as_slice()));
        i += 1;
    }
    lines
}

// ---------------------------------------------------------------------------
// The loop as a state machine
// ---------------------------------------------------------------------------

/// The model's reply, decoded from its JSON object.
#[derive(Debug)]
pub struct AgentResponse {
    /// The tool the model asks for, if any.
    pub tool: Option<ToolCall>,
    /// The final answer, if any.
    pub answer: Option<String>,
}

/// Where the loop stands.
#[derive(Debug)]
pub enum AgentPhase {
    /// Between steps: the next call is [`AgentRun::next_step`].
    Ready,
    /// The model was asked; the next call is [`AgentRun::on_response`].
    AwaitingModel,
    /// A tool is to be run; the next call is [`AgentRun::on_tool_outcome`].
    AwaitingTool(Tool),
    /// The loop has ended.
    Finished,
}

/// How running a tool went.
#[derive(Debug)]
pub enum ToolOutcome {
    /// The tool ran; its output text.
    Done(String),
    /// The tool failed; the error text.
    Failed(String),
    /// The user refused the confirmation.
    Denied,
}

/// What the caller must do next.
#[derive(Debug)]
pub enum AgentAction {
    /// Print `header`, then ask the model with the current messages.
    CallModel { header: String },
    /// Print `lines`, ask the user `confirm` when it is given, run the pending
    /// tool, and report how it went.
    RunTool { lines: Vec<String>, confirm: Option<String> },
    /// Print `lines`, then go on with the next step.
    Continue { lines: Vec<String> },
    /// Print `lines`; the run is over.
    Stop { lines: Vec<String> },
    /// The run fails with `message`.
    Fail { message: String },
}

/// A run of the agentic loop.
#[derive(Debug)]
pub struct AgentRun {
    /// Settings of the run.
    pub config: AgentConfig,
    /// Name of the model.
    pub model: String,
    /// Context window sent with each request.
    pub num_ctx: u64,
    /// The conversation so far.
    pub messages: Vec<ChatMessage>,
    /// Files written during the run, in order.
    pub changed_files: Vec<String>,
    /// Steps started so far.
    pub step: usize,
    /// Where the loop stands.
    pub phase: AgentPhase,
}

/// The characters of each string.
pub open spec fn texts(v: Seq<String>) -> Seq<Seq<char>> {
    v.map_values(|s: String| s@)
}

/// `m` is a message with this role and text.
pub open spec fn is_msg(m: ChatMessage, role: Role, text: Seq<char>) -> bool {
    m.role == role && m.content@ == text
}

/// Decimal rendering of a count.
pub open spec fn count_text(n: usize) -> Seq<char> {
    crate::chars::decimal(n as nat)
}

/// The header printed when a step starts.
pub open spec fn step_header(step: usize, max_steps: usize, model: Seq<char>) -> Seq<char> {
    "\n"@ + COLOR_BOLD@ + COLOR_CYAN@ + "🦇 Step "@ + count_text(step) + "/"@ + count_text(max_steps)
        + COLOR_RESET@ + " — model: "@ + COLOR_BOLD@ + model + COLOR_RESET@
}

/// The line printed when the step budget runs out.
pub open spec fn max_steps_line(max_steps: usize) -> Seq<char> {
    "\n⚠️  Reached max steps ("@ + count_text(max_steps) + ") without a final answer."@
}

/// The lines printed when the model's reply is not a JSON object of the
/// expected shape.
pub open spec fn parse_error_lines(error: Seq<char>, content: Seq<char>) -> Seq<Seq<char>> {
    seq![
        "\n⚠️  Could not parse model JSON: "@ + error,
        "Showing raw model output as the final response."@,
        "\n"@ + content,
    ]
}

/// The line printed for a final answer or summary.
pub open spec fn answer_line(answer: Seq<char>) -> Seq<char> {
    "\n"@ + ANSI_GREEN_CHECK@ + " "@ + answer
}

/// The line printed when the reply has neither an answer nor a tool call.
pub open spec fn neither_line() -> Seq<char> {
    "\n⚠️  Model returned neither an answer nor a tool call."@
}

/// The line printed before a tool runs.
pub open spec fn describe_line(t: ToolView) -> Seq<char> {
    "\n"@ + COLOR_MAGENTA@ + "🔧 "@ + described(t) + COLOR_RESET@
}

/// The line printed with a tool's result.
pub open spec fn result_line(text: Seq<char>) -> Seq<char> {
    COLOR_DIM@ + text + COLOR_RESET@
}

/// The text fed back to the model for a tool outcome.
pub open spec fn outcome_text(outcome: ToolOutcome) -> Seq<char> {
    match outcome {
        ToolOutcome::Done(t) => t@,
        ToolOutcome::Failed(e) => "Tool error: "@ + e@,
        ToolOutcome::Denied => "Tool error: aborted by user"@,
    }
}

/// The user turn that carries a tool result back to the model.
pub open spec fn tool_result_turn(text: Seq<char>) -> Seq<char> {
    "Tool result:\n"@ + text
}

/// Writing files and running commands change the workspace.
pub open spec fn is_mutating(t: ToolView) -> bool {
    t is WriteFile || t is RunCommand
}

/// Law: only `write_file` and `run_command` change the workspace, so only
/// they are refused in read-only mode or asked about in confirm mode; the
/// reading tools (`list_files`, `read_file`, `grep_files`) and `finish` are
/// never.
pub proof fn only_writes_and_commands_mutate(t: ToolView)
    ensures
        t is ListFiles || t is ReadFile || t is GrepFiles || t is Finish ==> !is_mutating(t),
        t is WriteFile || t is RunCommand ==> is_mutating(t),
{
}

/// The question asked before a mutating tool runs in confirm mode.
pub open spec fn confirm_prompt(t: ToolView) -> Seq<char> {
    match t {
        ToolView::WriteFile { path, .. } => "write file '"@ + path + "'?"@,
        ToolView::RunCommand { command } => "run command: "@ + command,
        _ => Seq::empty(),
    }
}

/// `after` is `before` with a message of this role and text added, then
/// trimmed to the history limit.
pub open spec fn recorded(before: Seq<ChatMessage>, after: Seq<ChatMessage>, role: Role, text: Seq<char>) -> bool {
    exists|m: ChatMessage| #[trigger] is_msg(m, role, text) && after == trimmed(before.push(m), MAX_HISTORY_MESSAGES as nat)
}

/// The tool a reply asks for, decoded.
pub open spec fn decoded_call(call: ToolCall) -> Result<ToolView, ToolErrorView> {
    decoded_tool(call.name@, args_view(call.arguments@))
}

/// The line printed for a final answer or summary.
fn answer_text(answer: &str) -> (result: String)
    ensures
        result@ == answer_line(answer@),
{
    let mut out: Vec<char> = Vec::new();
    push_str(&mut out, "\n");
    push_str(&mut out, ANSI_GREEN_CHECK);
    push_str(&mut out, " ");
    push_str(&mut out, answer);
    string_of(out.as_slice())
}

/// The line printed before a tool runs.
fn describe_text(tool: &Tool) -> (result: String)
    ensures
        result@ == describe_line(tool@),
{
    let d = tool.describe();
    let mut out: Vec<char> = Vec::new();
    push_str(&mut out, "\n");
    push_str(&mut out, COLOR_MAGENTA);
    push_str(&mut out, "🔧 ");
    push_str(&mut out, d.as_str());
    push_str(&mut out, COLOR_RESET);
    string_of(out.as_slice())
}

/// The question asked before a mutating tool runs in confirm mode.
fn confirm_text(tool: &Tool) -> (result: String)
    ensures
        result@ == confirm_prompt(tool@),
{
    let mut out: Vec<char> = Vec::new();
    match tool {
        Tool::WriteFile { path, .. } => {
            push_str(&mut out, "write file '");
            push_str(&mut out, path.as_str());
            push_str(&mut out, "'?");
        },
        Tool::RunCommand { command } => {
            push_str(&mut out, "run command: ");
            push_str(&mut out, command.as_str());
        },
        _ => {},
    }
    string_of(out.as_slice())
}

impl AgentRun {
    /// The run's invariant: no more steps were started than allowed.
    pub open spec fn wf(&self) -> bool {
        self.step <= self.config.max_steps
    }

    /// Start a run: the first two messages, the context window, no step
    /// taken yet.
    ///
    /// `listing` is the top-level listing of the workspace, read only when
    /// the task asks about the workspace (see [`initial_messages`]).
    pub fn new(config: AgentConfig, model: String, model_context: u64, task: &str, listing: Result<String, String>) -> (result: AgentRun)
        ensures
            result.wf(),
            result.config == config,
            result.model == model,
            result.num_ctx == context_window(config.max_ctx, model_context),
            result.messages@.len() == 2,
            is_msg(result.messages@[0], Role::System, SYSTEM_PROMPT@),
            is_msg(
                result.messages@[1],
                Role::User,
                first_user_turn(
                    config.cwd@,
                    task@,
                    match listing {
                        Ok(l) => Ok(l@),
                        Err(e) => Err(e@),
                    },
                ),
            ),
            result.changed_files@.len() == 0,
            result.step == 0,
            result.phase is Ready,
    {
        let messages = initial_messages(config.cwd.as_str(), task, listing);
        let num_ctx = num_ctx_for(config.max_ctx, model_context);
        AgentRun {
            config,
            model,
            num_ctx,
            messages,
            changed_files: Vec::new(),
            step: 0,
            phase: AgentPhase::Ready,
        }
    }

    /// Begin the next step: ask the model, or stop when the step budget is
    /// spent. A finished run stays finished and asks for nothing.
    pub fn next_step(&mut self) -> (action: AgentAction)
        requires
            old(self).wf(),
            old(self).phase is Ready || old(self).phase is Finished,
        ensures
            final(self).wf(),
            final(self).config == old(self).config,
            final(self).model == old(self).model,
            final(self).num_ctx == old(self).num_ctx,
            final(self).messages@ == old(self).messages@,
            final(self).changed_files@ == old(self).changed_files@,
            old(self).phase is Finished ==> {
                &&& final(self).phase is Finished
                &&& final(self).step == old(self).step
                &&& action matches AgentAction::Stop { lines } && lines@.len() == 0
            },
            old(self).phase is Ready && old(self).step < old(self).config.max_steps ==> {
                &&& final(self).phase is AwaitingModel
                &&& final(self).step == old(self).step + 1
                &&& action matches AgentAction::CallModel { header } && header@ == step_header(
                    final(self).step,
                    old(self).config.max_steps,
                    old(self).model@,
                )
            },
            old(self).phase is Ready && old(self).step >= old(self).config.max_steps ==> {
                &&& final(self).phase is Finished
                &&& final(self).step == old(self).step
                &&& action matches AgentAction::Stop { lines } && texts(lines@) == seq![
                    max_steps_line(old(self).config.max_steps),
                ]
            },
    {
        if let AgentPhase::Finished = self.phase {
            return AgentAction::Stop { lines: Vec::new() };
        }
        if self.step >= self.config.max_steps {
            self.phase = AgentPhase::Finished;
            let mut line: Vec<char> = Vec::new();
            push_str(&mut line, "\n⚠️  Reached max steps (");
            push_decimal(&mut line, self.config.max_steps as u64);
            push_str(&mut line, ") without a final answer.");
            let mut lines: Vec<String> = Vec::new();
            lines.push(string_of(line.as_slice()));
            assert(texts(lines@) =~= seq![max_steps_line(old(self).config.max_steps)]);
            return AgentAction::Stop { lines };
        }
        self.step = self.step + 1;
        self.phase = AgentPhase::AwaitingModel;
        let mut header: Vec<char> = Vec::new();
        push_str(&mut header, "\n");
        push_str(&mut header, COLOR_BOLD);
        push_str(&mut header, COLOR_CYAN);
        push_str(&mut header, "🦇 Step ");
        push_decimal(&mut header, self.step as u64);
        push_str(&mut header, "/");
        push_decimal(&mut header, self.config.max_steps as u64);
        push_str(&mut header, COLOR_RESET);
        push_str(&mut header, " — model: ");
        push_str(&mut header, COLOR_BOLD);
        push_str(&mut header, self.model.as_str());
        push_str(&mut header, COLOR_RESET);
        AgentAction::CallModel { header: string_of(header.as_slice()) }
    }

    /// Act on the model's reply for the current step.
    ///
    /// `response` is the reply decoded from its JSON (`Err` with the decoding
    /// error when it is not an object of the expected shape); `content` is the
    /// raw reply and `answer_was_streamed` whether its answer was already
    /// shown while streaming.
    pub fn on_response(
        &mut self,
        content: &str,
        answer_was_streamed: bool,
        response: Result<AgentResponse, String>,
    ) -> (action: AgentAction)
        requires
            old(self).wf(),
            old(self).phase is AwaitingModel,
        ensures
            final(self).wf(),
            final(self).config == old(self).config,
            final(self).model == old(self).model,
            final(self).num_ctx == old(self).num_ctx,
            final(self).step == old(self).step,
            final(self).changed_files@ == old(self).changed_files@,
            match response {
                Err(error) => {
                    &&& final(self).phase is Finished
                    &&& final(self).messages@ == old(self).messages@
                    &&& action matches AgentAction::Stop { lines } && texts(lines@)
                        == parse_error_lines(error@, content@)
                },
                Ok(reply) => match reply.answer {
                    Some(answer) => {
                        let shown: Seq<Seq<char>> = if answer_was_streamed {
                            seq![]
                        } else {
                            seq![answer_line(answer@)]
                        };
                        &&& final(self).phase is Finished
                        &&& final(self).messages@ == old(self).messages@
                        &&& action matches AgentAction::Stop { lines } && {
                            &&& texts(lines@).take(shown.len() as int) == shown
                            &&& lists_changed_files(
                                old(self).config.cwd@,
                                old(self).changed_files@,
                                lines@.skip(shown.len() as int),
                            )
                        }
                    },
                    None => match reply.tool {
                        None => {
                            &&& final(self).phase is Finished
                            &&& final(self).messages@ == old(self).messages@
                            &&& action matches AgentAction::Stop { lines } && texts(lines@)
                                == seq![neither_line()]
                        },
                        Some(call) => match decoded_call(call) {
                            Err(e) => {
                                &&& final(self).phase is Finished
                                &&& final(self).messages@ == old(self).messages@
                                &&& action matches AgentAction::Fail { message } && message@
                                    == tool_error_message(e)
                            },
                            Ok(ToolView::Finish { summary }) => {
                                &&& final(self).phase is Finished
                                &&& final(self).messages@ == old(self).messages@
                                &&& action matches AgentAction::Stop { lines } && {
                                    &&& lines@.len() >= 1
                                    &&& lines@[0]@ == answer_line(summary)
                                    &&& lists_changed_files(
                                        old(self).config.cwd@,
                                        old(self).changed_files@,
                                        lines@.skip(1),
                                    )
                                }
                            },
                            Ok(t) => {
                                &&& (t is ListFiles || t is ReadFile || t is GrepFiles) ==> {
                                    &&& final(self).phase matches AgentPhase::AwaitingTool(tool)
                                        && tool@ == t
                                    &&& action matches AgentAction::RunTool { confirm, .. }
                                        && confirm is None
                                }
                                &&& if old(self).config.is_read_only && is_mutating(t) {
                                    let text = "Tool error: "@ + read_only_message();
                                    &&& final(self).phase is Ready
                                    &&& exists|a: ChatMessage|
                                        #[trigger] is_msg(a, Role::Assistant, content@) && recorded(
                                            old(self).messages@.push(a),
                                            final(self).messages@,
                                            Role::User,
                                            tool_result_turn(text),
                                        )
                                    &&& action matches AgentAction::Continue { lines } && texts(
                                        lines@,
                                    ) == seq![describe_line(t), result_line(text)]
                                } else {
                                    &&& final(self).messages@.len() == old(self).messages@.len() + 1
                                    &&& final(self).messages@.drop_last() == old(self).messages@
                                    &&& is_msg(final(self).messages@.last(), Role::Assistant, content@)
                                    &&& final(self).phase matches AgentPhase::AwaitingTool(tool)
                                        && tool@ == t
                                    &&& action matches AgentAction::RunTool { lines, confirm } && {
                                        &&& texts(lines@) == seq![describe_line(t)]
                                        &&& if old(self).config.should_confirm && is_mutating(t) {
                                            confirm matches Some(q) && q@ == confirm_prompt(t)
                                        } else {
                                            confirm is None
                                        }
                                    }
                                }
                            },
                        },
                    },
                },
            },
    {
        let reply = match response {
            Err(error) => {
                self.phase = AgentPhase::Finished;
                let mut first: Vec<char> = Vec::new();
                push_str(&mut first, "\n⚠️  Could not parse model JSON: ");
                push_str(&mut first, error.as_str());
                let mut third: Vec<char> = Vec::new();
                push_str(&mut third, "\n");
                push_str(&mut third, content);
                let mut lines: Vec<String> = Vec::new();
                lines.push(string_of(first.as_slice()));
                lines.push(String::from_str("Showing raw model output as the final response."));
                lines.push(string_of(third.as_slice()));
                assert(texts(lines@) =~= parse_error_lines(error@, content@));
                return AgentAction::Stop { lines };
            },
            Ok(reply) => reply,
        };
        if let Some(answer) = reply.answer {
            self.phase = AgentPhase::Finished;
            let mut lines: Vec<String> = Vec::new();
            if !answer_was_streamed {
                lines.push(answer_text(answer.as_str()));
            }
            let ghost k = lines@.len();
            let mut listing = changed_files_lines(self.config.cwd.as_str(), &self.changed_files);
            lines.append(&mut listing);
            assert(texts(lines@).take(k as int) =~= if answer_was_streamed {
                seq![]
            } else {
                seq![answer_line(answer@)]
            });
            return AgentAction::Stop { lines };
        }
        let call = match reply.tool {
            None => {
                self.phase = AgentPhase::Finished;
                let mut lines: Vec<String> = Vec::new();
                lines.push(String::from_str("\n⚠️  Model returned neither an answer nor a tool call."));
                assert(texts(lines@) =~= seq![neither_line()]);
                return AgentAction::Stop { lines };
            },
            Some(call) => call,
        };
        let tool = match Tool::from_call(call) {
            Err(e) => {
                self.phase = AgentPhase::Finished;
                return AgentAction::Fail { message: e.message() };
            },
            Ok(tool) => tool,
        };
        if let Tool::Finish { summary } = &tool {
            self.phase = AgentPhase::Finished;
            let mut lines: Vec<String> = Vec::new();
            lines.push(answer_text(summary.as_str()));
            let mut listing = changed_files_lines(self.config.cwd.as_str(), &self.changed_files);
            lines.append(&mut listing);
            return AgentAction::Stop { lines };
        }
        let ghost before = self.messages@;
        self.messages.push(ChatMessage { role: Role::Assistant, content: String::from_str(content) });
        let ghost a = self.messages@.last();
        assert(self.messages@ == before.push(a));
        let describe = describe_text(&tool);
        let mutating = match &tool {
            Tool::WriteFile { .. } => true,
            Tool::RunCommand { .. } => true,
            _ => false,
        };
        if self.config.is_read_only && mutating {
            let mut text: Vec<char> = Vec::new();
            push_str(&mut text, "Tool error: ");
            push_str(&mut text, "this tool is disabled in read-only mode");
            let text = string_of(text.as_slice());
            let result = self.record_tool_result(text.as_str());
            self.phase = AgentPhase::Ready;
            assert(is_msg(a, Role::Assistant, content@));
            assert(text@ == "Tool error: "@ + read_only_message());
            let mut lines: Vec<String> = Vec::new();
            lines.push(describe);
            lines.push(result);
            assert(texts(lines@) =~= seq![
                describe_line(tool@),
                result_line("Tool error: "@ + read_only_message()),
            ]);
            return AgentAction::Continue { lines };
        }
        let confirm = if self.config.should_confirm && mutating {
            Some(confirm_text(&tool))
        } else {
            None
        };
        self.phase = AgentPhase::AwaitingTool(tool);
        let mut lines: Vec<String> = Vec::new();
        lines.push(describe);
        assert(texts(lines@) =~= seq![describe_line(tool@)]);
        AgentAction::RunTool { lines, confirm }
    }

    /// Feed the outcome of the pending tool back to the model: a written
    /// file joins the changed files, the result becomes a user turn (the
    /// history is then trimmed), and the result line is printed.
    pub fn on_tool_outcome(&mut self, outcome: ToolOutcome) -> (action: AgentAction)
        requires
            old(self).wf(),
            old(self).phase is AwaitingTool,
        ensures
            final(self).wf(),
            final(self).config == old(self).config,
            final(self).model == old(self).model,
            final(self).num_ctx == old(self).num_ctx,
            final(self).step == old(self).step,
            final(self).phase is Ready,
            recorded(
                old(self).messages@,
                final(self).messages@,
                Role::User,
                tool_result_turn(outcome_text(outcome)),
            ),
            old(self).phase matches AgentPhase::AwaitingTool(tool) ==> if tool is WriteFile
                && outcome is Done {
                final(self).changed_files@.drop_last() == old(self).changed_files@
                    && final(self).changed_files@.last()@ == tool->WriteFile_path@
            } else {
                final(self).changed_files@ == old(self).changed_files@
            },
            action matches AgentAction::Continue { lines } && texts(lines@) == seq![
                result_line(outcome_text(outcome)),
            ],
    {
        let written: Option<String> = match &self.phase {
            AgentPhase::AwaitingTool(Tool::WriteFile { path, .. }) => Some(path.clone()),
            _ => None,
        };
        self.phase = AgentPhase::Ready;
        let text = match &outcome {
            ToolOutcome::Done(t) => {
                if let Some(path) = written {
                    self.changed_files.push(path);
                }
                t.clone()
            },
            ToolOutcome::Failed(e) => {
                let mut out: Vec<char> = Vec::new();
                push_str(&mut out, "Tool error: ");
                push_str(&mut out, e.as_str());
                string_of(out.as_slice())
            },
            ToolOutcome::Denied => String::from_str("Tool error: aborted by user"),
        };
        let line = self.record_tool_result(text.as_str());
        let mut lines: Vec<String> = Vec::new();
        lines.push(line);
        assert(texts(lines@) =~= seq![result_line(outcome_text(outcome))]);
        AgentAction::Continue { lines }
    }

    /// Add the user turn carrying `text`, trim the history, and return the
    /// result line.
    fn record_tool_result(&mut self, text: &str) -> (line: String)
        ensures
            final(self).config == old(self).config,
            final(self).model == old(self).model,
            final(self).num_ctx == old(self).num_ctx,
            final(self).step == old(self).step,
            final(self).phase == old(self).phase,
            final(self).changed_files@ == old(self).changed_files@,
            recorded(old(self).messages@, final(self).messages@, Role::User, tool_result_turn(text@)),
            line@ == result_line(text@),
    {
        let mut turn: Vec<char> = Vec::new();
        push_str(&mut turn, "Tool result:\n");
        push_str(&mut turn, text);
        let ghost before = self.messages@;
        let m = ChatMessage { role: Role::User, content: string_of(turn.as_slice()) };
        assert(is_msg(m, Role::User, tool_result_turn(text@)));
        self.messages.push(m);
        trim_messages(&mut self.messages, MAX_HISTORY_MESSAGES);
        let mut line: Vec<char> = Vec::new();
        push_str(&mut line, COLOR_DIM);
        push_str(&mut line, text);
        push_str(&mut line, COLOR_RESET);
        string_of(line.as_slice())
    }
}

// ---------------------------------------------------------------------------
// Reading the model's reply
// ---------------------------------------------------------------------------

/// `str::trim_start_matches` with a non-empty pattern: every leading copy of
/// `pat` removed.
pub open spec fn strip_leading(s: Seq<char>, pat: Seq<char>) -> Seq<char>
    decreases s.len(),
{
    if pat.len() > 0 && pat.len() <= s.len() && s.take(pat.len() as int) == pat {
        strip_leading(s.skip(pat.len() as int), pat)
    } else {
        s
    }
}

/// `str::trim_end_matches` with a non-empty pattern: every trailing copy of
/// `pat` removed.
pub open spec fn strip_trailing(s: Seq<char>, pat: Seq<char>) -> Seq<char>
    decreases s.len(),
{
    if pat.len() > 0 && pat.len() <= s.len() && s.skip(s.len() - pat.len()) == pat {
        strip_trailing(s.take(s.len() - pat.len()), pat)
    } else {
        s
    }
}

/// The JSON text inside a reply: trimmed, with leading "```json" and "```"
/// fences and trailing "```" fences removed, trimmed again.
pub open spec fn unfenced(content: Seq<char>) -> Seq<char> {
    trim(strip_trailing(strip_leading(strip_leading(trim(content), "```json"@), "```"@), "```"@))
}

/// Remove every leading copy of `pat` (non-empty) from `s`.
fn strip_leading_chars(s: Vec<char>, pat: &str) -> (result: Vec<char>)
    requires
        pat@.len() > 0,
    ensures
        result@ == strip_leading(s@, pat@),
{
    let p = chars_of(pat);
    let mut cur = s;
    loop
        invariant
            p@ == pat@,
            p@.len() > 0,
            strip_leading(cur@, pat@) == strip_leading(s@, pat@),
        decreases cur@.len(),
    {
        let ghost before = cur@;
        if p.len() <= cur.len() && crate::chars::matches_at(&cur, &p, 0) {
            assert(before.subrange(0, p@.len() as int) == before.take(p@.len() as int));
            cur = crate::chars::slice_chars(&cur, p.len(), cur.len());
            assert(cur@ == before.skip(p@.len() as int));
        } else {
            assert(p@.len() <= before.len() ==> before.subrange(0, p@.len() as int) == before.take(
                p@.len() as int,
            ));
            return cur;
        }
    }
}

/// Remove every trailing copy of `pat` (non-empty) from `s`.
fn strip_trailing_chars(s: Vec<char>, pat: &str) -> (result: Vec<char>)
    requires
        pat@.len() > 0,
    ensures
        result@ == strip_trailing(s@, pat@),
{
    let p = chars_of(pat);
    let mut cur = s;
    loop
        invariant
            p@ == pat@,
            p@.len() > 0,
            strip_trailing(cur@, pat@) == strip_trailing(s@, pat@),
        decreases cur@.len(),
    {
        let ghost before = cur@;
        if p.len() <= cur.len() && crate::chars::matches_at(&cur, &p, cur.len() - p.len()) {
            assert(before.subrange(before.len() - p@.len(), before.len() as int) == before.skip(
                before.len() - p@.len(),
            ));
            cur = crate::chars::slice_chars(&cur, 0, cur.len() - p.len());
            assert(cur@ == before.take(before.len() - p@.len()));
        } else {
            assert(p@.len() <= before.len() ==> before.subrange(
                before.len() - p@.len(),
                before.len() as int,
            ) == before.skip(before.len() - p@.len()));
            return cur;
        }
    }
}

/// The JSON text inside a model reply, with surrounding whitespace and
/// Markdown code fences removed.
pub fn unfence_json(content: &str) -> (result: String)
    ensures
        result@ == unfenced(content@),
{
    proof {
        reveal_strlit("```json");
        reveal_strlit("```");
    }
    let s = crate::chars::trim_chars(&chars_of(content));
    let s = strip_leading_chars(s, "```json");
    let s = strip_leading_chars(s, "```");
    let s = strip_trailing_chars(s, "```");
    let s = crate::chars::trim_chars(&s);
    string_of(s.as_slice())
}

/// Why a model reply could not be read.
pub enum ReplyError {
    /// The reply is not JSON.
    InvalidJson,
    /// The reply is JSON but not an object of the agent's shape.
    SchemaMismatch,
}

/// The message reported for an unreadable reply.
pub open spec fn reply_error_message(error: ReplyError, content: Seq<char>) -> Seq<char> {
    match error {
        ReplyError::InvalidJson => "invalid JSON from model: "@ + content,
        ReplyError::SchemaMismatch => "JSON did not match agent schema: "@ + content,
    }
}

/// The message reported for an unreadable reply.
pub fn reply_error_text(error: ReplyError, content: &str) -> (result: String)
    ensures
        result@ == reply_error_message(error, content@),
{
    let mut out: Vec<char> = Vec::new();
    match error {
        ReplyError::InvalidJson => push_str(&mut out, "invalid JSON from model: "),
        ReplyError::SchemaMismatch => push_str(&mut out, "JSON did not match agent schema: "),
    }
    push_str(&mut out, content);
    string_of(out.as_slice())
}

/// Law: sanitized text holds no control character, so no escape sequence
/// can reach the terminal through a file name; text without control
/// characters is kept as it is.
pub proof fn sanitizing_removes_controls(s: Seq<char>)
    ensures
        forall|i: int| 0 <= i < sanitized(s).len() ==> !is_control(#[trigger] sanitized(s)[i]),
        (forall|i: int| 0 <= i < s.len() ==> !is_control(#[trigger] s[i])) ==> sanitized(s) == s,
        sanitized(s).len() <= s.len(),
    decreases s.len(),
{
    if s.len() > 0 {
        sanitizing_removes_controls(s.drop_last());
        if forall|i: int| 0 <= i < s.len() ==> !is_control(#[trigger] s[i]) {
            assert(forall|i: int| 0 <= i < s.drop_last().len() ==> !is_control(#[trigger] s.drop_last()[i])) by {
                assert forall|i: int| 0 <= i < s.drop_last().len() implies !is_control(#[trigger] s.drop_last()[i]) by {
                    assert(s.drop_last()[i] == s[i]);
                }
            }
            assert(!is_control(s[s.len() - 1]));
            assert(s.drop_last().push(s.last()) =~= s);
        }
    }
}

} // verus!
