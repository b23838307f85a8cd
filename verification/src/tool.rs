//! Typed tool calls and decoding of their JSON arguments.
//!
//! The model asks for a tool with `{"name": ..., "arguments": {...}}`. The
//! arguments object arrives here as its list of members, each value reduced to
//! what the decoder reads; every tool is then decoded into one variant of
//! [`Tool`], with defaults for optional arguments.

use crate::chars::{chars_of, push_str, str_eq, string_of};
use vstd::prelude::*;

verus! {

/// Default number of characters read by the `read_file` tool.
pub const DEFAULT_READ_CHARS: usize = 8_000;

/// Default maximum results for the `grep_files` tool.
pub const DEFAULT_GREP_MAX_RESULTS: usize = 200;

/// A JSON argument value, as far as tool decoding reads it.
#[derive(Debug, PartialEq, Eq)]
pub enum ArgValue {
    /// `null`.
    Null,
    /// A string.
    Str(String),
    /// A number: its value when it is a non-negative integer that fits in a
    /// `u64`, else `None`.
    Number(Option<u64>),
    /// A boolean, array or object.
    Other,
}

/// A tool call as the model wrote it. `arguments` holds the members of the
/// arguments object in order (empty when the arguments are not an object).
#[derive(Debug)]
pub struct ToolCall {
    /// Tool name.
    pub name: String,
    /// Members of the arguments object.
    pub arguments: Vec<(String, ArgValue)>,
}

/// Model of an [`ArgValue`].
pub enum ArgView {
    /// `null`.
    Null,
    /// A string.
    Str(Seq<char>),
    /// A number.
    Number(Option<u64>),
    /// A boolean, array or object.
    Other,
}

impl View for ArgValue {
    type V = ArgView;

    open spec fn view(&self) -> ArgView {
        match self {
            ArgValue::Null => ArgView::Null,
            ArgValue::Str(s) => ArgView::Str(s@),
            ArgValue::Number(n) => ArgView::Number(*n),
            ArgValue::Other => ArgView::Other,
        }
    }
}

/// The members of an arguments object, as keys and value models.
pub open spec fn args_view(args: Seq<(String, ArgValue)>) -> Seq<(Seq<char>, ArgView)> {
    args.map_values(|m: (String, ArgValue)| (m.0@, m.1@))
}

/// The value of the first member named `key`, if any (`Value::get`).
pub open spec fn arg_lookup(args: Seq<(Seq<char>, ArgView)>, key: Seq<char>) -> Option<ArgView>
    decreases args.len(),
{
    if args.len() == 0 {
        None
    } else if args[0].0 == key {
        Some(args[0].1)
    } else {
        arg_lookup(args.skip(1), key)
    }
}

/// Why a tool call could not be decoded or run.
#[derive(Debug, PartialEq, Eq)]
pub enum ToolError {
    /// An argument that must be a string is something else.
    NotAString(String),
    /// A numeric argument is negative, fractional or too large.
    NotANonNegativeInteger(String),
    /// A numeric argument is not a number.
    NotANumber(String),
    /// A required argument is missing: tool name, then argument name.
    MissingArgument(String, String),
    /// The tool name is not known.
    UnknownTool(String),
}

/// Model of a [`ToolError`].
pub enum ToolErrorView {
    /// An argument that must be a string is something else.
    NotAString(Seq<char>),
    /// A numeric argument is negative, fractional or too large.
    NotANonNegativeInteger(Seq<char>),
    /// A numeric argument is not a number.
    NotANumber(Seq<char>),
    /// A required argument is missing: tool name, then argument name.
    MissingArgument(Seq<char>, Seq<char>),
    /// The tool name is not known.
    UnknownTool(Seq<char>),
}

impl View for ToolError {
    type V = ToolErrorView;

    open spec fn view(&self) -> ToolErrorView {
        match self {
            ToolError::NotAString(k) => ToolErrorView::NotAString(k@),
            ToolError::NotANonNegativeInteger(k) => ToolErrorView::NotANonNegativeInteger(k@),
            ToolError::NotANumber(k) => ToolErrorView::NotANumber(k@),
            ToolError::MissingArgument(t, k) => ToolErrorView::MissingArgument(t@, k@),
            ToolError::UnknownTool(n) => ToolErrorView::UnknownTool(n@),
        }
    }
}

/// The message of each decoding error.
pub open spec fn tool_error_message(e: ToolErrorView) -> Seq<char> {
    match e {
        ToolErrorView::NotAString(k) => "argument '"@ + k + "' must be a string"@,
        ToolErrorView::NotANonNegativeInteger(k) => "argument '"@ + k
            + "' must be a non-negative integer"@,
        ToolErrorView::NotANumber(k) => "argument '"@ + k + "' must be a number"@,
        ToolErrorView::MissingArgument(t, k) => t + " requires '"@ + k + "'"@,
        ToolErrorView::UnknownTool(n) => "unknown tool: "@ + n,
    }
}

impl ToolError {
    /// The message shown to the model for this error.
    pub fn message(&self) -> (result: String)
        ensures
            result@ == tool_error_message(self@),
    {
        let mut out: Vec<char> = Vec::new();
        match self {
            ToolError::NotAString(k) => {
                push_str(&mut out, "argument '");
                push_str(&mut out, k.as_str());
                push_str(&mut out, "' must be a string");
            },
            ToolError::NotANonNegativeInteger(k) => {
                push_str(&mut out, "argument '");
                push_str(&mut out, k.as_str());
                push_str(&mut out, "' must be a non-negative integer");
            },
            ToolError::NotANumber(k) => {
                push_str(&mut out, "argument '");
                push_str(&mut out, k.as_str());
                push_str(&mut out, "' must be a number");
            },
            ToolError::MissingArgument(t, k) => {
                push_str(&mut out, t.as_str());
                push_str(&mut out, " requires '");
                push_str(&mut out, k.as_str());
                push_str(&mut out, "'");
            },
            ToolError::UnknownTool(n) => {
                push_str(&mut out, "unknown tool: ");
                push_str(&mut out, n.as_str());
            },
        }
        string_of(out.as_slice())
    }
}

/// Find the first member named `key`.
fn find_arg<'a>(args: &'a Vec<(String, ArgValue)>, key: &str) -> (result: Option<&'a ArgValue>)
    ensures
        match result {
            Some(v) => arg_lookup(args_view(args@), key@) == Some(v@),
            None => arg_lookup(args_view(args@), key@) is None,
        },
{
    let mut i: usize = 0;
    assert(args_view(args@).skip(0) == args_view(args@));
    while i < args.len()
        invariant
            0 <= i <= args.len(),
            arg_lookup(args_view(args@), key@) == arg_lookup(args_view(args@).skip(i as int), key@),
        decreases args.len() - i,
    {
        let ghost rest = args_view(args@).skip(i as int);
        assert(rest[0] == (args@[i as int].0@, args@[i as int].1@));
        assert(rest.skip(1) == args_view(args@).skip(i + 1));
        if str_eq(args[i].0.as_str(), key) {
            return Some(&args[i].1);
        }
        i += 1;
    }
    assert(args_view(args@).skip(i as int).len() == 0);
    None
}

/// What `string_arg` returns.
pub open spec fn string_arg_spec(args: Seq<(Seq<char>, ArgView)>, key: Seq<char>) -> Result<
    Option<Seq<char>>,
    ToolErrorView,
> {
    match arg_lookup(args, key) {
        Some(ArgView::Str(v)) => Ok(Some(v)),
        Some(ArgView::Null) | None => Ok(None),
        Some(_) => Err(ToolErrorView::NotAString(key)),
    }
}

/// Model of a decoding result.
pub open spec fn res_view<T, V>(r: Result<T, ToolError>, f: spec_fn(T) -> V) -> Result<V, ToolErrorView> {
    match r {
        Ok(v) => Ok(f(v)),
        Err(e) => Err(e@),
    }
}

/// Read an optional string argument: a string is returned, `null` or a
/// missing member gives `None`, anything else is an error.
pub fn string_arg(args: &Vec<(String, ArgValue)>, key: &str) -> (result: Result<Option<String>, ToolError>)
    ensures
        res_view(result, |o: Option<String>| match o { Some(s) => Some(s@), None => None })
            == string_arg_spec(args_view(args@), key@),
{
    match find_arg(args, key) {
        Some(ArgValue::Str(v)) => Ok(Some(v.clone())),
        Some(ArgValue::Null) | None => Ok(None),
        Some(_) => Err(ToolError::NotAString(String::from_str(key))),
    }
}

} // verus!

verus! {

/// What `optional_u64_arg` returns.
pub open spec fn u64_arg_spec(args: Seq<(Seq<char>, ArgView)>, key: Seq<char>) -> Result<
    Option<u64>,
    ToolErrorView,
> {
    match arg_lookup(args, key) {
        Some(ArgView::Number(Some(n))) => Ok(Some(n)),
        Some(ArgView::Number(None)) => Err(ToolErrorView::NotANonNegativeInteger(key)),
        Some(ArgView::Null) | None => Ok(None),
        Some(_) => Err(ToolErrorView::NotANumber(key)),
    }
}

/// Read an optional non-negative integer argument.
pub fn optional_u64_arg(args: &Vec<(String, ArgValue)>, key: &str) -> (result: Result<Option<u64>, ToolError>)
    ensures
        res_view(result, |o: Option<u64>| o) == u64_arg_spec(args_view(args@), key@),
{
    match find_arg(args, key) {
        Some(ArgValue::Number(Some(n))) => Ok(Some(*n)),
        Some(ArgValue::Number(None)) => Err(ToolError::NotANonNegativeInteger(String::from_str(key))),
        Some(ArgValue::Null) | None => Ok(None),
        Some(_) => Err(ToolError::NotANumber(String::from_str(key))),
    }
}

/// What `required_string_arg` returns.
pub open spec fn required_arg_spec(
    args: Seq<(Seq<char>, ArgView)>,
    key: Seq<char>,
    tool_name: Seq<char>,
) -> Result<Seq<char>, ToolErrorView> {
    match string_arg_spec(args, key) {
        Ok(Some(v)) => Ok(v),
        Ok(None) => Err(ToolErrorView::MissingArgument(tool_name, key)),
        Err(e) => Err(e),
    }
}

/// Read a string argument that must be present.
pub fn required_string_arg(args: &Vec<(String, ArgValue)>, key: &str, tool_name: &str) -> (result: Result<String, ToolError>)
    ensures
        res_view(result, |s: String| s@) == required_arg_spec(args_view(args@), key@, tool_name@),
{
    match string_arg(args, key)? {
        Some(v) => Ok(v),
        None => Err(ToolError::MissingArgument(String::from_str(tool_name), String::from_str(key))),
    }
}

/// Typed, exhaustively-matched representation of every tool the agent can invoke.
#[derive(Debug, PartialEq, Eq)]
pub enum Tool {
    /// List files under a directory.
    ListFiles { path: String },
    /// Read a text file, up to `max_chars` characters.
    ReadFile { path: String, max_chars: usize },
    /// Search file contents with a regular expression.
    GrepFiles { pattern: String, path: String, max_results: usize },
    /// Write (or overwrite) a file.
    WriteFile { path: String, content: String },
    /// Run a shell command in the workspace.
    RunCommand { command: String },
    /// End the task with a summary.
    Finish { summary: String },
}

/// Model of a [`Tool`].
pub enum ToolView {
    /// List files under a directory.
    ListFiles { path: Seq<char> },
    /// Read a text file.
    ReadFile { path: Seq<char>, max_chars: usize },
    /// Search file contents.
    GrepFiles { pattern: Seq<char>, path: Seq<char>, max_results: usize },
    /// Write a file.
    WriteFile { path: Seq<char>, content: Seq<char> },
    /// Run a shell command.
    RunCommand { command: Seq<char> },
    /// End the task.
    Finish { summary: Seq<char> },
}

impl View for Tool {
    type V = ToolView;

    open spec fn view(&self) -> ToolView {
        match self {
            Tool::ListFiles { path } => ToolView::ListFiles { path: path@ },
            Tool::ReadFile { path, max_chars } => ToolView::ReadFile { path: path@, max_chars: *max_chars },
            Tool::GrepFiles { pattern, path, max_results } => ToolView::GrepFiles {
                pattern: pattern@,
                path: path@,
                max_results: *max_results,
            },
            Tool::WriteFile { path, content } => ToolView::WriteFile { path: path@, content: content@ },
            Tool::RunCommand { command } => ToolView::RunCommand { command: command@ },
            Tool::Finish { summary } => ToolView::Finish { summary: summary@ },
        }
    }
}

/// An optional string argument with a default.
pub open spec fn or_default(o: Option<Seq<char>>, default: Seq<char>) -> Seq<char> {
    match o {
        Some(v) => v,
        None => default,
    }
}

/// An optional count argument with a default.
pub open spec fn count_or(o: Option<u64>, default: usize) -> usize {
    match o {
        Some(n) => n as usize,
        None => default,
    }
}

/// What `Tool::from_call` returns for a call of `name` with `args`: each
/// tool's arguments are read in order, and the first failing read decides
/// the error.
pub open spec fn decoded_tool(name: Seq<char>, args: Seq<(Seq<char>, ArgView)>) -> Result<
    ToolView,
    ToolErrorView,
> {
    if name == "list_files"@ {
        match string_arg_spec(args, "path"@) {
            Ok(p) => Ok(ToolView::ListFiles { path: or_default(p, "."@) }),
            Err(e) => Err(e),
        }
    } else if name == "read_file"@ {
        match required_arg_spec(args, "path"@, "read_file"@) {
            Err(e) => Err(e),
            Ok(path) => match u64_arg_spec(args, "max_chars"@) {
                Err(e) => Err(e),
                Ok(m) => Ok(ToolView::ReadFile { path, max_chars: count_or(m, DEFAULT_READ_CHARS) }),
            },
        }
    } else if name == "grep_files"@ {
        match required_arg_spec(args, "pattern"@, "grep_files"@) {
            Err(e) => Err(e),
            Ok(pattern) => match string_arg_spec(args, "path"@) {
                Err(e) => Err(e),
                Ok(p) => match u64_arg_spec(args, "max_results"@) {
                    Err(e) => Err(e),
                    Ok(m) => Ok(ToolView::GrepFiles {
                        pattern,
                        path: or_default(p, "."@),
                        max_results: count_or(m, DEFAULT_GREP_MAX_RESULTS),
                    }),
                },
            },
        }
    } else if name == "write_file"@ {
        match required_arg_spec(args, "path"@, "write_file"@) {
            Err(e) => Err(e),
            Ok(path) => match required_arg_spec(args, "content"@, "write_file"@) {
                Err(e) => Err(e),
                Ok(content) => Ok(ToolView::WriteFile { path, content }),
            },
        }
    } else if name == "run_command"@ {
        match required_arg_spec(args, "command"@, "run_command"@) {
            Err(e) => Err(e),
            Ok(command) => Ok(ToolView::RunCommand { command }),
        }
    } else if name == "finish"@ {
        match string_arg_spec(args, "summary"@) {
            Ok(s) => Ok(ToolView::Finish { summary: or_default(s, "done"@) }),
            Err(e) => Err(e),
        }
    } else {
        Err(ToolErrorView::UnknownTool(name))
    }
}

/// Law: a decoded tool carries the string arguments the model gave. For each
/// tool, when the arguments it reads are strings (the first member of each
/// name counts), the decoded tool holds exactly those strings; an optional
/// `path` that is missing or `null` becomes `"."`, an optional `summary`
/// becomes `"done"`, and a `path` that is neither a string nor `null` is
/// refused.
pub proof fn decoded_tools_keep_arguments(name: Seq<char>, args: Seq<(Seq<char>, ArgView)>)
    ensures
        name == "list_files"@ ==> match arg_lookup(args, "path"@) {
            Some(ArgView::Str(p)) => decoded_tool(name, args) == Ok::<ToolView, ToolErrorView>(ToolView::ListFiles { path: p }),
            Some(ArgView::Null) | None => decoded_tool(name, args) == Ok::<ToolView, ToolErrorView>(ToolView::ListFiles { path: "."@ }),
            Some(_) => decoded_tool(name, args) is Err,
        },
        name == "read_file"@ ==> (arg_lookup(args, "path"@) matches Some(ArgView::Str(p)) ==> match arg_lookup(args, "max_chars"@) {
            Some(ArgView::Number(Some(n))) => decoded_tool(name, args) == Ok::<ToolView, ToolErrorView>(ToolView::ReadFile { path: p, max_chars: n as usize }),
            Some(ArgView::Null) | None => decoded_tool(name, args) == Ok::<ToolView, ToolErrorView>(ToolView::ReadFile { path: p, max_chars: DEFAULT_READ_CHARS }),
            Some(_) => decoded_tool(name, args) is Err,
        }),
        name == "grep_files"@ ==> (arg_lookup(args, "pattern"@) matches Some(ArgView::Str(q)) ==> match arg_lookup(args, "path"@) {
            Some(ArgView::Str(p)) => (arg_lookup(args, "max_results"@) is None ==> decoded_tool(name, args) == Ok::<ToolView, ToolErrorView>(ToolView::GrepFiles { pattern: q, path: p, max_results: DEFAULT_GREP_MAX_RESULTS })),
            Some(ArgView::Null) | None => (arg_lookup(args, "max_results"@) is None ==> decoded_tool(name, args) == Ok::<ToolView, ToolErrorView>(ToolView::GrepFiles { pattern: q, path: "."@, max_results: DEFAULT_GREP_MAX_RESULTS })),
            Some(_) => decoded_tool(name, args) is Err,
        }),
        name == "write_file"@ ==> (arg_lookup(args, "path"@) matches Some(ArgView::Str(p)) ==> (arg_lookup(args, "content"@) matches Some(ArgView::Str(c)) ==> decoded_tool(name, args) == Ok::<ToolView, ToolErrorView>(ToolView::WriteFile { path: p, content: c }))),
        name == "write_file"@ ==> (arg_lookup(args, "path"@) is None ==> decoded_tool(name, args) is Err),
        name == "run_command"@ ==> match arg_lookup(args, "command"@) {
            Some(ArgView::Str(c)) => decoded_tool(name, args) == Ok::<ToolView, ToolErrorView>(ToolView::RunCommand { command: c }),
            _ => decoded_tool(name, args) is Err,
        },
        name == "finish"@ ==> match arg_lookup(args, "summary"@) {
            Some(ArgView::Str(t)) => decoded_tool(name, args) == Ok::<ToolView, ToolErrorView>(ToolView::Finish { summary: t }),
            Some(ArgView::Null) | None => decoded_tool(name, args) == Ok::<ToolView, ToolErrorView>(ToolView::Finish { summary: "done"@ }),
            Some(_) => decoded_tool(name, args) is Err,
        },
{
    tool_names_differ();
    if name == "read_file"@ {
        if let Some(ArgView::Str(p)) = arg_lookup(args, "path"@) {
            assert(required_arg_spec(args, "path"@, "read_file"@) == Ok::<Seq<char>, ToolErrorView>(p));
        }
    }
    if name == "grep_files"@ {
        if let Some(ArgView::Str(q)) = arg_lookup(args, "pattern"@) {
            assert(required_arg_spec(args, "pattern"@, "grep_files"@) == Ok::<Seq<char>, ToolErrorView>(q));
        }
    }
    if name == "write_file"@ {
        if let Some(ArgView::Str(p)) = arg_lookup(args, "path"@) {
            assert(required_arg_spec(args, "path"@, "write_file"@) == Ok::<Seq<char>, ToolErrorView>(p));
        }
    }
}

/// The tool names are all different.
proof fn tool_names_differ()
    ensures
        "read_file"@ != "list_files"@,
        "grep_files"@ != "list_files"@,
        "grep_files"@ != "read_file"@,
        "write_file"@ != "list_files"@,
        "write_file"@ != "read_file"@,
        "write_file"@ != "grep_files"@,
        "run_command"@ != "list_files"@,
        "run_command"@ != "read_file"@,
        "run_command"@ != "grep_files"@,
        "run_command"@ != "write_file"@,
        "finish"@ != "list_files"@,
        "finish"@ != "read_file"@,
        "finish"@ != "grep_files"@,
        "finish"@ != "write_file"@,
        "finish"@ != "run_command"@,
{
    reveal_strlit("list_files");
    reveal_strlit("read_file");
    reveal_strlit("grep_files");
    reveal_strlit("write_file");
    reveal_strlit("run_command");
    reveal_strlit("finish");
    assert("list_files"@[0] == 'l');
    assert("read_file"@[0] == 'r');
    assert("grep_files"@[0] == 'g');
    assert("write_file"@[0] == 'w');
    assert("run_command"@[0] == 'r');
    assert("finish"@[0] == 'f');
    assert("read_file"@.len() == 9);
    assert("run_command"@.len() == 11);
}

/// `str::to_string` on a string with known characters.
fn owned(s: &str) -> (result: String)
    ensures
        result@ == s@,
{
    String::from_str(s)
}

/// What `format!("{:?}", s)` prints for a string: the text between double
/// quotes, with Rust's debug escapes.
pub uninterp spec fn debug_quoted(s: Seq<char>) -> Seq<char>;

/// `format!("{:?}", s)` for a string slice; the result is named by
/// `debug_quoted`.
#[verifier::external_body]
fn debug_str(s: &str) -> (result: String)
    ensures
        result@ == debug_quoted(s@),
{
    format!("{:?}", s)
}

/// The one-line description of a tool.
pub open spec fn described(t: ToolView) -> Seq<char> {
    match t {
        ToolView::ListFiles { path } => "list_files → "@ + path,
        ToolView::ReadFile { path, .. } => "read_file → "@ + path,
        ToolView::GrepFiles { pattern, path, .. } => "grep_files → "@ + debug_quoted(pattern)
            + " in "@ + path,
        ToolView::WriteFile { path, .. } => "write_file → "@ + path,
        ToolView::RunCommand { command } => "run_command → "@ + command,
        ToolView::Finish { .. } => "finish"@,
    }
}

impl Tool {
    /// Decode a model tool call into a typed tool.
    pub fn from_call(call: ToolCall) -> (result: Result<Tool, ToolError>)
        ensures
            res_view(result, |t: Tool| t@) == decoded_tool(call.name@, args_view(call.arguments@)),
    {
        let args = &call.arguments;
        let name = call.name.as_str();
        if str_eq(name, "list_files") {
            let p = string_arg(args, "path")?;
            let path = match p {
                Some(v) => v,
                None => owned("."),
            };
            Ok(Tool::ListFiles { path })
        } else if str_eq(name, "read_file") {
            let path = required_string_arg(args, "path", "read_file")?;
            let m = optional_u64_arg(args, "max_chars")?;
            let max_chars: usize = match m {
                Some(n) => n as usize,
                None => DEFAULT_READ_CHARS,
            };
            Ok(Tool::ReadFile { path, max_chars })
        } else if str_eq(name, "grep_files") {
            let pattern = required_string_arg(args, "pattern", "grep_files")?;
            let p = string_arg(args, "path")?;
            let m = optional_u64_arg(args, "max_results")?;
            let path = match p {
                Some(v) => v,
                None => owned("."),
            };
            let max_results: usize = match m {
                Some(n) => n as usize,
                None => DEFAULT_GREP_MAX_RESULTS,
            };
            Ok(Tool::GrepFiles { pattern, path, max_results })
        } else if str_eq(name, "write_file") {
            let path = required_string_arg(args, "path", "write_file")?;
            let content = required_string_arg(args, "content", "write_file")?;
            Ok(Tool::WriteFile { path, content })
        } else if str_eq(name, "run_command") {
            let command = required_string_arg(args, "command", "run_command")?;
            Ok(Tool::RunCommand { command })
        } else if str_eq(name, "finish") {
            let s = string_arg(args, "summary")?;
            let summary = match s {
                Some(v) => v,
                None => owned("done"),
            };
            Ok(Tool::Finish { summary })
        } else {
            Err(ToolError::UnknownTool(owned(name)))
        }
    }

    /// Human-readable one-line description shown before the tool executes.
    pub fn describe(&self) -> (result: String)
        ensures
            result@ == described(self@),
    {
        let mut out: Vec<char> = Vec::new();
        match self {
            Tool::ListFiles { path } => {
                push_str(&mut out, "list_files → ");
                push_str(&mut out, path.as_str());
            },
            Tool::ReadFile { path, .. } => {
                push_str(&mut out, "read_file → ");
                push_str(&mut out, path.as_str());
            },
            Tool::GrepFiles { pattern, path, .. } => {
                push_str(&mut out, "grep_files → ");
                let quoted = debug_str(pattern.as_str());
                push_str(&mut out, quoted.as_str());
                push_str(&mut out, " in ");
                push_str(&mut out, path.as_str());
            },
            Tool::WriteFile { path, .. } => {
                push_str(&mut out, "write_file → ");
                push_str(&mut out, path.as_str());
            },
            Tool::RunCommand { command } => {
                push_str(&mut out, "run_command → ");
                push_str(&mut out, command.as_str());
            },
            Tool::Finish { .. } => {
                push_str(&mut out, "finish");
            },
        }
        string_of(out.as_slice())
    }
}

} // verus!
