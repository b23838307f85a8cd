//! The interactive terminal UI: its state and how it reacts to keys, slash
//! commands and agent events.
//!
//! Drawing the screen, reading the keyboard and running the agent are the
//! binary's work. Everything the UI decides lives here, in [`App`]: key
//! handling and input editing, history, suggestions, the model picker, the
//! task queue, and the chat log.

use crate::chars::{
    chars_eq, chars_of, decimal, first_newline, is_whitespace, lines_of, parse_u64, push_decimal, push_str,
    split_lines, string_of, trim, trim_chars,
};
use crate::cli::Cli;
use vstd::prelude::*;

verus! {

/// Slash commands recognized by the TUI.
pub const COMMANDS: [&'static str; 12] = [
    "help",
    "exit",
    "quit",
    "setup",
    "models",
    "model",
    "read-only",
    "confirm",
    "steps",
    "cwd",
    "doctor",
    "clear",
];

/// Spinner frames shown while the agent is working.
pub const SPINNER: [&'static str; 10] = ["⠋", "⠙", "⠹", "⠸", "⠼", "⠴", "⠦", "⠧", "⠇", "⠏"];

/// Maximum visible lines in the multi-line input box.
pub const MAX_INPUT_LINES: usize = 5;

/// Extra lines for the input box border.
pub const INPUT_BOX_PADDING: usize = 2;

/// Minimum input box height (border + one line).
pub const MIN_INPUT_BOX_HEIGHT: usize = 3;

/// Cap for the streaming live line, in characters.
pub const MAX_LIVE_CHARS: usize = 50_000;

/// Redraw interval in milliseconds (drives the spinner).
pub const TICK_MILLIS: u64 = 80;

/// Height of the suggestions box when it is shown.
pub const SUGGESTIONS_HEIGHT: u16 = 4;

/// Width of the model picker popup as a percentage of the screen.
pub const MODEL_PICKER_WIDTH_PERCENT: u16 = 60;

/// Height of the model picker popup as a percentage of the screen.
pub const MODEL_PICKER_HEIGHT_PERCENT: u16 = 40;

// ---------------------------------------------------------------------------
// ANSI stripping
// ---------------------------------------------------------------------------

/// Ends an escape sequence: an ASCII letter or a backslash.
pub open spec fn ends_escape(c: char) -> bool {
    ('a' <= c && c <= 'z') || ('A' <= c && c <= 'Z') || c == '\\'
}

/// Number of characters of an escape sequence's body at the start of `s`:
/// up to and including the first letter or backslash, or all of `s`.
pub open spec fn escape_len(s: Seq<char>) -> nat
    decreases s.len(),
{
    if s.len() == 0 {
        0
    } else if ends_escape(s[0]) {
        1
    } else {
        1 + escape_len(s.skip(1))
    }
}

proof fn lemma_escape_len_bound(s: Seq<char>)
    ensures
        escape_len(s) <= s.len(),
    decreases s.len(),
{
    if s.len() > 0 && !ends_escape(s[0]) {
        lemma_escape_len_bound(s.skip(1));
    }
}

/// `s` with every escape sequence (an ESC and its body) removed.
pub open spec fn without_ansi(s: Seq<char>) -> Seq<char>
    decreases s.len(),
{
    if s.len() == 0 {
        s
    } else if s[0] == '\x1b' {
        let rest = s.skip(1);
        if escape_len(rest) <= rest.len() {
            without_ansi(rest.skip(escape_len(rest) as int))
        } else {
            Seq::empty()
        }
    } else {
        seq![s[0]] + without_ansi(s.skip(1))
    }
}

/// Index just past the escape body that starts at `from`.
fn escape_end(c: &Vec<char>, from: usize) -> (result: usize)
    requires
        from <= c.len(),
    ensures
        result == from + escape_len(c@.skip(from as int)),
        result <= c.len(),
{
    let mut j = from;
    loop
        invariant
            from <= j <= c.len(),
            escape_len(c@.skip(from as int)) == (j - from) + escape_len(c@.skip(j as int)),
        decreases c.len() - j,
    {
        if j >= c.len() {
            assert(c@.skip(j as int) =~= Seq::<char>::empty());
            return j;
        }
        let n = c[j];
        assert(c@.skip(j as int)[0] == n);
        assert(c@.skip(j as int).skip(1) =~= c@.skip(j + 1));
        if ('a' <= n && n <= 'z') || ('A' <= n && n <= 'Z') || n == '\\' {
            return j + 1;
        }
        j = j + 1;
    }
}

/// Remove ANSI escape sequences so terminal colors do not garble the UI.
pub fn strip_ansi(s: &str) -> (result: String)
    ensures
        result@ == without_ansi(s@),
{
    let c = chars_of(s);
    let mut out: Vec<char> = Vec::new();
    let mut i: usize = 0;
    assert(c@.skip(0) =~= c@);
    while i < c.len()
        invariant
            c@ == s@,
            0 <= i <= c.len(),
            without_ansi(s@) == out@ + without_ansi(c@.skip(i as int)),
        decreases c.len() - i,
    {
        let ghost rest = c@.skip(i as int);
        if c[i] == '\x1b' {
            assert(rest.skip(1) =~= c@.skip(i + 1));
            proof {
                lemma_escape_len_bound(rest.skip(1));
            }
            let j = escape_end(&c, i + 1);
            assert(rest.skip(1).skip(escape_len(rest.skip(1)) as int) =~= c@.skip(j as int));
            i = j;
        } else {
            assert(rest.skip(1) =~= c@.skip(i + 1));
            out.push(c[i]);
            i += 1;
            assert(out@ + without_ansi(c@.skip(i as int)) =~= out@.drop_last() + (seq![rest[0]]
                + without_ansi(rest.skip(1))));
        }
    }
    assert(c@.skip(i as int) =~= Seq::<char>::empty());
    assert(out@ + Seq::<char>::empty() =~= out@);
    string_of(out.as_slice())
}

// ---------------------------------------------------------------------------
// Suggestions, input box, spinner
// ---------------------------------------------------------------------------

/// `q` is a prefix of `c`.
pub open spec fn is_prefix(q: Seq<char>, c: Seq<char>) -> bool {
    q.len() <= c.len() && c.take(q.len() as int) == q
}

/// The slash commands from index `k` on that start with `q`, each with its
/// slash.
pub open spec fn commands_from(q: Seq<char>, k: int) -> Seq<Seq<char>>
    decreases 12 - k,
{
    if k < 0 || k >= 12 {
        Seq::empty()
    } else {
        (if is_prefix(q, COMMANDS@[k]@) {
            seq!["/"@ + COMMANDS@[k]@]
        } else {
            Seq::empty()
        }) + commands_from(q, k + 1)
    }
}

/// The suggestions shown for an input: the slash commands its text after
/// the slash begins, when it starts with a slash.
pub open spec fn suggestions_for(input: Seq<char>) -> Seq<Seq<char>> {
    if input.len() > 0 && input[0] == '/' {
        commands_from(input.skip(1), 0)
    } else {
        Seq::empty()
    }
}

/// The slash commands completing the input.
pub fn suggestions_of(input: &Vec<char>) -> (result: Vec<String>)
    ensures
        result@.map_values(|l: String| l@) == suggestions_for(input@),
{
    let mut out: Vec<String> = Vec::new();
    if input.len() == 0 || input[0] != '/' {
        return out;
    }
    let q = crate::chars::slice_chars(input, 1, input.len());
    assert(q@ == input@.skip(1));
    let mut k: usize = 0;
    while k < 12
        invariant
            0 <= k <= 12,
            q@ == input@.skip(1),
            commands_from(q@, 0) == out@.map_values(|l: String| l@) + commands_from(q@, k as int),
        decreases 12 - k,
    {
        let c = chars_of(COMMANDS[k]);
        let ghost before = out@;
        if q.len() <= c.len() && crate::chars::matches_at(&c, &q, 0) {
            assert(c@.subrange(0, q@.len() as int) =~= c@.take(q@.len() as int));
            let mut text: Vec<char> = Vec::new();
            text.push('/');
            push_str(&mut text, COMMANDS[k]);
            proof {
                reveal_strlit("/");
            }
            assert(text@ =~= "/"@ + COMMANDS@[k as int]@);
            out.push(string_of(text.as_slice()));
            assert(out@.map_values(|l: String| l@) =~= before.map_values(|l: String| l@).push(
                "/"@ + COMMANDS@[k as int]@,
            ));
        } else {
            assert(q@.len() <= c@.len() ==> c@.subrange(0, q@.len() as int) =~= c@.take(
                q@.len() as int,
            ));
        }
        k += 1;
    }
    out
}

/// Number of `\n` characters in `s`.
pub open spec fn newline_count(s: Seq<char>) -> nat
    decreases s.len(),
{
    if s.len() == 0 {
        0
    } else {
        newline_count(s.drop_last()) + if s.last() == '\n' { 1nat } else { 0nat }
    }
}

/// Height of the input box: its lines (at most [`MAX_INPUT_LINES`]) plus the
/// border, at least [`MIN_INPUT_BOX_HEIGHT`].
pub open spec fn input_box_height(input: Seq<char>) -> nat {
    let lines = newline_count(input) + 1;
    let shown = if lines < MAX_INPUT_LINES { lines } else { MAX_INPUT_LINES as nat };
    let h: nat = shown + INPUT_BOX_PADDING as nat;
    if h < MIN_INPUT_BOX_HEIGHT { MIN_INPUT_BOX_HEIGHT as nat } else { h }
}

/// Number of `\n` characters among the first `n` of `s`.
fn count_newlines(s: &Vec<char>, n: usize) -> (result: usize)
    requires
        n <= s.len(),
    ensures
        result == newline_count(s@.take(n as int)),
        result <= n,
{
    let mut count: usize = 0;
    let mut i: usize = 0;
    while i < n
        invariant
            0 <= i <= n <= s.len(),
            count == newline_count(s@.take(i as int)),
            count <= i,
        decreases n - i,
    {
        if s[i] == '\n' {
            count += 1;
        }
        i += 1;
        assert(s@.take(i as int).drop_last() =~= s@.take(i - 1));
    }
    count
}

/// Height of the input box for this input.
pub fn input_height(input: &Vec<char>) -> (result: usize)
    ensures
        result == input_box_height(input@),
{
    let newlines = count_newlines(input, input.len());
    assert(input@.take(input.len() as int) =~= input@);
    let shown = if newlines < MAX_INPUT_LINES - 1 { newlines + 1 } else { MAX_INPUT_LINES };
    let h = shown + INPUT_BOX_PADDING;
    if h < MIN_INPUT_BOX_HEIGHT { MIN_INPUT_BOX_HEIGHT } else { h }
}

// ---------------------------------------------------------------------------
// The UI state
// ---------------------------------------------------------------------------

/// The model picker: installed model names and the highlighted one.
#[derive(Debug)]
pub struct PickerState {
    /// Installed model names.
    pub models: Vec<String>,
    /// Index of the highlighted model.
    pub selected: usize,
}

/// Model of a [`PickerState`].
pub struct PickerView {
    /// Installed model names.
    pub models: Seq<Seq<char>>,
    /// Index of the highlighted model.
    pub selected: nat,
}

/// The state of the terminal UI.
#[derive(Debug)]
pub struct App {
    /// Chat log lines.
    pub log: Vec<String>,
    /// The streaming line being received.
    pub live: Vec<char>,
    /// The input box text.
    pub input: Vec<char>,
    /// Cursor position in the input, in characters.
    pub cursor: usize,
    /// Submitted inputs, oldest first.
    pub history: Vec<String>,
    /// Which history entry the input shows, if any.
    pub history_idx: Option<usize>,
    /// Highlighted suggestion.
    pub selected: usize,
    /// Whether an agent task is running.
    pub running: bool,
    /// Status word shown under the chat.
    pub status: String,
    /// The last tool action reported.
    pub last_action: String,
    /// Spinner animation frame.
    pub spinner_frame: u64,
    /// Tasks waiting for the running one.
    pub task_queue: Vec<String>,
    /// The model picker, when open.
    pub picker: Option<PickerState>,
    /// Whether the UI should exit.
    pub quit: bool,
    /// Explicit model, or automatic selection.
    pub model: Option<String>,
    /// Read-only mode for new tasks.
    pub read_only: bool,
    /// Confirm mode for new tasks.
    pub confirm: bool,
    /// Step budget for new tasks.
    pub max_steps: usize,
    /// Workspace for new tasks.
    pub cwd: String,
    /// Minimum context for automatic model selection.
    pub min_context: u64,
    /// Never auto-pull a model.
    pub no_auto_pull: bool,
    /// Maximum context window sent to the model.
    pub max_ctx: u64,
}

/// Model of an [`App`].
#[verifier::ext_equal]
pub struct AppView {
    /// Chat log lines.
    pub log: Seq<Seq<char>>,
    /// The streaming line being received.
    pub live: Seq<char>,
    /// The input box text.
    pub input: Seq<char>,
    /// Cursor position in the input.
    pub cursor: nat,
    /// Submitted inputs, oldest first.
    pub history: Seq<Seq<char>>,
    /// Which history entry the input shows.
    pub history_idx: Option<nat>,
    /// Highlighted suggestion.
    pub selected: nat,
    /// Whether an agent task is running.
    pub running: bool,
    /// Status word.
    pub status: Seq<char>,
    /// The last tool action reported.
    pub last_action: Seq<char>,
    /// Spinner animation frame.
    pub spinner_frame: u64,
    /// Tasks waiting for the running one.
    pub task_queue: Seq<Seq<char>>,
    /// The model picker, when open.
    pub picker: Option<PickerView>,
    /// Whether the UI should exit.
    pub quit: bool,
    /// Explicit model, or automatic selection.
    pub model: Option<Seq<char>>,
    /// Read-only mode for new tasks.
    pub read_only: bool,
    /// Confirm mode for new tasks.
    pub confirm: bool,
    /// Step budget for new tasks.
    pub max_steps: usize,
    /// Workspace for new tasks.
    pub cwd: Seq<char>,
    /// Minimum context for automatic model selection.
    pub min_context: u64,
    /// Never auto-pull a model.
    pub no_auto_pull: bool,
    /// Maximum context window sent to the model.
    pub max_ctx: u64,
}

/// The characters of each string.
pub open spec fn strs(v: Seq<String>) -> Seq<Seq<char>> {
    v.map_values(|s: String| s@)
}

/// The characters of an optional string.
pub open spec fn opt_str(o: Option<String>) -> Option<Seq<char>> {
    match o {
        Some(s) => Some(s@),
        None => None,
    }
}

impl View for App {
    type V = AppView;

    open spec fn view(&self) -> AppView {
        AppView {
            log: strs(self.log@),
            live: self.live@,
            input: self.input@,
            cursor: self.cursor as nat,
            history: strs(self.history@),
            history_idx: match self.history_idx {
                Some(i) => Some(i as nat),
                None => None,
            },
            selected: self.selected as nat,
            running: self.running,
            status: self.status@,
            last_action: self.last_action@,
            spinner_frame: self.spinner_frame,
            task_queue: strs(self.task_queue@),
            picker: match self.picker {
                Some(p) => Some(PickerView { models: strs(p.models@), selected: p.selected as nat }),
                None => None,
            },
            quit: self.quit,
            model: opt_str(self.model),
            read_only: self.read_only,
            confirm: self.confirm,
            max_steps: self.max_steps,
            cwd: self.cwd@,
            min_context: self.min_context,
            no_auto_pull: self.no_auto_pull,
            max_ctx: self.max_ctx,
        }
    }
}

/// The UI's invariant: the cursor is inside the input, the history index
/// names an entry, and the picker highlights one of its models.
pub open spec fn app_wf(v: AppView) -> bool {
    &&& v.cursor <= v.input.len()
    &&& (v.history_idx matches Some(i) ==> i < v.history.len())
    &&& (v.picker matches Some(p) ==> p.selected < p.models.len())
}

/// The greeting shown under the banner.
pub open spec fn greeting() -> Seq<char> {
    "Type a task, or /help. Enter sends, Shift+Enter adds a new line. /models picks a model."@
}

impl App {
    /// The UI's invariant.
    pub open spec fn wf(&self) -> bool {
        app_wf(self@)
    }

    /// A fresh UI for the parsed command line: the banner (with a random
    /// quote), a blank line and the greeting in the log, nothing typed,
    /// status "ready".
    pub fn new(cli: &Cli) -> (result: App)
        ensures
            result.wf(),
            exists|i: int|
                0 <= i < crate::banner::QUOTE_COUNT && result@.log == lines_of(
                    crate::banner::banner_with(i),
                ) + seq![Seq::<char>::empty(), greeting()],
            result@.live.len() == 0,
            result@.input.len() == 0,
            result@.cursor == 0,
            result@.history.len() == 0,
            result@.history_idx is None,
            result@.selected == 0,
            !result@.running,
            result@.status == "ready"@,
            result@.last_action.len() == 0,
            result@.spinner_frame == 0,
            result@.task_queue.len() == 0,
            result@.picker is None,
            !result@.quit,
            result@.model == opt_str(cli.model),
            result@.read_only == cli.is_read_only,
            result@.confirm == cli.should_confirm,
            result@.max_steps == cli.max_steps,
            result@.cwd == cli.cwd@,
            result@.min_context == cli.min_context,
            result@.no_auto_pull == cli.is_auto_pull_disabled,
            result@.max_ctx == cli.max_ctx,
    {
        let banner = crate::banner::banner_text();
        let mut log = split_lines(banner.as_str());
        let ghost banner_lines = log@;
        log.push(String::new());
        log.push(
            String::from_str(
                "Type a task, or /help. Enter sends, Shift+Enter adds a new line. /models picks a model.",
            ),
        );
        assert(strs(log@) =~= strs(banner_lines) + seq![Seq::<char>::empty(), greeting()]);
        let model = match &cli.model {
            Some(m) => Some(m.clone()),
            None => None,
        };
        App {
            log,
            live: Vec::new(),
            input: Vec::new(),
            cursor: 0,
            history: Vec::new(),
            history_idx: None,
            selected: 0,
            running: false,
            status: String::from_str("ready"),
            last_action: String::new(),
            spinner_frame: 0,
            task_queue: Vec::new(),
            picker: None,
            quit: false,
            model,
            read_only: cli.is_read_only,
            confirm: cli.should_confirm,
            max_steps: cli.max_steps,
            cwd: cli.cwd.clone(),
            min_context: cli.min_context as u64,
            no_auto_pull: cli.is_auto_pull_disabled,
            max_ctx: cli.max_ctx,
        }
    }

    /// The slash commands completing the current input.
    pub fn suggestions(&self) -> (result: Vec<String>)
        ensures
            strs(result@) == suggestions_for(self@.input),
    {
        suggestions_of(&self.input)
    }

    /// The spinner frame to draw.
    pub fn spinner(&self) -> (result: &'static str)
        ensures
            result@ == SPINNER@[(self.spinner_frame % 10) as int]@,
    {
        SPINNER[(self.spinner_frame % 10) as usize]
    }

    /// Advance the spinner by one frame.
    pub fn tick(&mut self)
        ensures
            final(self)@ == (AppView {
                spinner_frame: if old(self).spinner_frame == u64::MAX {
                    0
                } else {
                    (old(self).spinner_frame + 1) as u64
                },
                ..old(self)@
            }),
    {
        self.spinner_frame = if self.spinner_frame == u64::MAX { 0 } else { self.spinner_frame + 1 };
    }
}

// ---------------------------------------------------------------------------
// Keys and slash commands
// ---------------------------------------------------------------------------

/// A key press, as far as the UI reacts to it.
#[derive(Debug, Clone, Copy, PartialEq, Eq, Structural)]
pub enum Key {
    /// A character key.
    Char(char),
    /// Backspace.
    Backspace,
    /// Delete.
    Delete,
    /// Left arrow.
    Left,
    /// Right arrow.
    Right,
    /// Home.
    Home,
    /// End.
    End,
    /// Up arrow.
    Up,
    /// Down arrow.
    Down,
    /// Tab.
    Tab,
    /// Enter.
    Enter,
    /// Shift+Enter.
    ShiftEnter,
    /// Escape.
    Esc,
    /// Any other key.
    Other,
}

/// What the caller must do after a key.
#[derive(Debug, PartialEq, Eq)]
pub enum KeyOutcome {
    /// Nothing more.
    Nothing,
    /// Start the agent on the given task (the UI already shows it running).
    StartTask(String),
    /// Fetch the installed models and call [`App::show_models`].
    ListModels,
    /// Fetch the installed models and call [`App::choose_model`] with this
    /// tag.
    CheckModel(String),
    /// Build the doctor report and call [`App::append_lines`].
    Doctor,
    /// Run setup and call [`App::setup_finished`].
    Setup,
}

/// Model of a [`KeyOutcome`].
pub enum KeyOutcomeView {
    /// Nothing more.
    Nothing,
    /// Start the agent on the given task.
    StartTask(Seq<char>),
    /// Fetch the installed models for the picker.
    ListModels,
    /// Check this model tag against the installed models.
    CheckModel(Seq<char>),
    /// Build the doctor report.
    Doctor,
    /// Run setup.
    Setup,
}

impl View for KeyOutcome {
    type V = KeyOutcomeView;

    open spec fn view(&self) -> KeyOutcomeView {
        match self {
            KeyOutcome::Nothing => KeyOutcomeView::Nothing,
            KeyOutcome::StartTask(t) => KeyOutcomeView::StartTask(t@),
            KeyOutcome::ListModels => KeyOutcomeView::ListModels,
            KeyOutcome::CheckModel(m) => KeyOutcomeView::CheckModel(m@),
            KeyOutcome::Doctor => KeyOutcomeView::Doctor,
            KeyOutcome::Setup => KeyOutcomeView::Setup,
        }
    }
}

/// `n - 1`, or 0.
pub open spec fn dec(n: nat) -> nat {
    if n > 0 { (n - 1) as nat } else { 0 }
}

/// `v` with `line` added to the log.
pub open spec fn logged(v: AppView, line: Seq<char>) -> AppView {
    AppView { log: v.log.push(line), ..v }
}

/// `v` with a task shown as started.
pub open spec fn started(v: AppView, task: Seq<char>) -> AppView {
    AppView {
        log: v.log.push("🦇 "@ + task),
        running: true,
        status: "running"@,
        last_action: Seq::empty(),
        ..v
    }
}

/// Index of the first whitespace character of `s` at or after `i`.
pub open spec fn first_ws_from(s: Seq<char>, i: int) -> Option<int>
    decreases s.len() - i,
{
    if i < 0 || i >= s.len() {
        None
    } else if is_whitespace(s[i]) {
        Some(i)
    } else {
        first_ws_from(s, i + 1)
    }
}

/// The command name of a slash command line: the text after the slash up
/// to the first whitespace.
pub open spec fn slash_name(line: Seq<char>) -> Seq<char> {
    let body = line.skip(1);
    match first_ws_from(body, 0) {
        Some(k) => body.take(k),
        None => body,
    }
}

/// The argument of a slash command line: the text after the first
/// whitespace following the name, trimmed.
pub open spec fn slash_arg(line: Seq<char>) -> Seq<char> {
    let body = line.skip(1);
    match first_ws_from(body, 0) {
        Some(k) => trim(body.skip(k + 1)),
        None => Seq::empty(),
    }
}

/// "ON" or "OFF".
pub open spec fn on_off(b: bool) -> Seq<char> {
    if b { "ON"@ } else { "OFF"@ }
}

/// The help shown by `/help`.
pub open spec fn help_lines() -> Seq<Seq<char>> {
    seq![
        "Commands:"@,
        "  /help, /exit, /quit, /setup, /models"@,
        "  /model <tag>, /read-only, /confirm"@,
        "  /steps <n>, /cwd <path>, /doctor, /clear"@,
        "  Shift+Enter = new line · Enter = send"@,
    ]
}

/// What a slash command line does.
pub open spec fn slash_step(v: AppView, line: Seq<char>) -> (AppView, KeyOutcomeView) {
    let name = slash_name(line);
    let arg = slash_arg(line);
    if name == "help"@ || name == "h"@ {
        (AppView { log: v.log + help_lines(), ..v }, KeyOutcomeView::Nothing)
    } else if name == "exit"@ || name == "quit"@ {
        (AppView { quit: true, ..v }, KeyOutcomeView::Nothing)
    } else if name == "models"@ {
        (v, KeyOutcomeView::ListModels)
    } else if name == "model"@ {
        if arg.len() == 0 {
            (logged(v, match v.model {
                Some(m) => "Current model: "@ + m,
                None => "Auto mode — best model will be selected on first task."@,
            }), KeyOutcomeView::Nothing)
        } else {
            (v, KeyOutcomeView::CheckModel(arg))
        }
    } else if name == "read-only"@ {
        (logged(AppView { read_only: !v.read_only, ..v }, "Read-only mode: "@ + on_off(!v.read_only)), KeyOutcomeView::Nothing)
    } else if name == "confirm"@ {
        (logged(AppView { confirm: !v.confirm, ..v }, "Confirm mode: "@ + on_off(!v.confirm)), KeyOutcomeView::Nothing)
    } else if name == "steps"@ {
        match crate::chars::parsed_u64(arg) {
            Some(n) => if 0 < n && n <= usize::MAX {
                (logged(AppView { max_steps: n as usize, ..v }, "Max steps set to "@ + decimal(n as nat)), KeyOutcomeView::Nothing)
            } else {
                (logged(v, "Usage: /steps <positive number>"@), KeyOutcomeView::Nothing)
            },
            None => (logged(v, "Usage: /steps <positive number>"@), KeyOutcomeView::Nothing),
        }
    } else if name == "cwd"@ {
        if arg.len() == 0 {
            (logged(v, "Workspace: "@ + v.cwd), KeyOutcomeView::Nothing)
        } else {
            (logged(AppView { cwd: arg, ..v }, "Workspace set to "@ + arg), KeyOutcomeView::Nothing)
        }
    } else if name == "doctor"@ {
        (v, KeyOutcomeView::Doctor)
    } else if name == "setup"@ {
        (logged(v, "Running setup..."@), KeyOutcomeView::Setup)
    } else if name == "clear"@ {
        (AppView { log: Seq::empty(), live: Seq::empty(), ..v }, KeyOutcomeView::Nothing)
    } else {
        (logged(v, "Unknown command: /"@ + name + ". Try /help"@), KeyOutcomeView::Nothing)
    }
}

/// What Enter does: the trimmed input is submitted (and kept in the
/// history) as a slash command, a queued task while one runs, or a new
/// task; the input is cleared.
pub open spec fn submit_step(v: AppView) -> (AppView, KeyOutcomeView) {
    let task = trim(v.input);
    let cleared = AppView {
        input: Seq::empty(),
        cursor: 0,
        history_idx: None,
        selected: 0,
        ..v
    };
    if task.len() == 0 {
        (cleared, KeyOutcomeView::Nothing)
    } else {
        let kept = AppView { history: cleared.history.push(task), ..cleared };
        if task[0] == '/' {
            slash_step(kept, task)
        } else if kept.running {
            (logged(AppView { task_queue: kept.task_queue.push(task), ..kept }, "⏳ Queued — will run after the current task."@), KeyOutcomeView::Nothing)
        } else {
            (started(kept, task), KeyOutcomeView::StartTask(task))
        }
    }
}

/// What a key does while the model picker is open.
pub open spec fn picker_step(v: AppView, p: PickerView, key: Key) -> AppView {
    match key {
        Key::Up => AppView { picker: Some(PickerView { selected: dec(p.selected), ..p }), ..v },
        Key::Down => AppView {
            picker: Some(PickerView {
                selected: if p.selected + 1 < dec(p.models.len()) { p.selected + 1 } else { dec(p.models.len()) },
                ..p
            }),
            ..v
        },
        Key::Enter => if p.selected < p.models.len() {
            AppView {
                model: Some(p.models[p.selected as int]),
                log: v.log.push("✅ Model set to "@ + p.models[p.selected as int]),
                picker: None,
                ..v
            }
        } else {
            AppView { picker: None, ..v }
        },
        Key::Esc => AppView { picker: None, ..v },
        _ => v,
    }
}

/// What Up does in the input: move through the suggestions, or recall the
/// previous history entry.
pub open spec fn up_step(v: AppView) -> AppView {
    if suggestions_for(v.input).len() > 0 {
        AppView { selected: dec(v.selected), ..v }
    } else if v.history.len() > 0 {
        let idx: nat = match v.history_idx {
            Some(i) => dec(i),
            None => (v.history.len() - 1) as nat,
        };
        AppView {
            history_idx: Some(idx),
            input: v.history[idx as int],
            cursor: v.history[idx as int].len(),
            ..v
        }
    } else {
        v
    }
}

/// What Down does in the input: move through the suggestions, or recall
/// the next history entry (past the newest, an empty input).
pub open spec fn down_step(v: AppView) -> AppView {
    let sugg = suggestions_for(v.input);
    if sugg.len() > 0 {
        AppView {
            selected: if v.selected + 1 < (sugg.len() - 1) as nat { v.selected + 1 } else { (sugg.len() - 1) as nat },
            ..v
        }
    } else {
        match v.history_idx {
            Some(i) => if i + 1 < v.history.len() {
                AppView {
                    history_idx: Some(i + 1),
                    input: v.history[i + 1 as int],
                    cursor: v.history[i + 1 as int].len(),
                    ..v
                }
            } else {
                AppView { history_idx: None, input: Seq::empty(), cursor: 0, ..v }
            },
            None => v,
        }
    }
}

/// Tab can complete: there is no suggestion, or the highlighted one exists.
pub open spec fn tab_ok(v: AppView) -> bool {
    suggestions_for(v.input).len() > 0 ==> v.selected < suggestions_for(v.input).len()
}

/// What a key does.
pub open spec fn key_step(v: AppView, key: Key) -> (AppView, KeyOutcomeView) {
    match v.picker {
        Some(p) => (picker_step(v, p, key), KeyOutcomeView::Nothing),
        None => match key {
            Key::Char(c) => if c != '\r' {
                (AppView { input: v.input.insert(v.cursor as int, c), cursor: v.cursor + 1, ..v }, KeyOutcomeView::Nothing)
            } else {
                (v, KeyOutcomeView::Nothing)
            },
            Key::Backspace => if v.cursor > 0 {
                (AppView { input: v.input.remove(v.cursor - 1), cursor: (v.cursor - 1) as nat, ..v }, KeyOutcomeView::Nothing)
            } else {
                (v, KeyOutcomeView::Nothing)
            },
            Key::Delete => if v.cursor < v.input.len() {
                (AppView { input: v.input.remove(v.cursor as int), ..v }, KeyOutcomeView::Nothing)
            } else {
                (v, KeyOutcomeView::Nothing)
            },
            Key::Left => (AppView { cursor: dec(v.cursor), ..v }, KeyOutcomeView::Nothing),
            Key::Right => (AppView { cursor: if v.cursor < v.input.len() { v.cursor + 1 } else { v.cursor }, ..v }, KeyOutcomeView::Nothing),
            Key::Home => (AppView { cursor: 0, ..v }, KeyOutcomeView::Nothing),
            Key::End => (AppView { cursor: v.input.len(), ..v }, KeyOutcomeView::Nothing),
            Key::Up => (up_step(v), KeyOutcomeView::Nothing),
            Key::Down => (down_step(v), KeyOutcomeView::Nothing),
            Key::Tab => if suggestions_for(v.input).len() > 0 {
                let chosen = suggestions_for(v.input)[v.selected as int];
                (AppView { input: chosen, cursor: chosen.len(), ..v }, KeyOutcomeView::Nothing)
            } else {
                (v, KeyOutcomeView::Nothing)
            },
            Key::ShiftEnter => (AppView { input: v.input.insert(v.cursor as int, '\n'), cursor: v.cursor + 1, ..v }, KeyOutcomeView::Nothing),
            Key::Enter => submit_step(v),
            Key::Esc => (AppView { quit: true, ..v }, KeyOutcomeView::Nothing),
            Key::Other => (v, KeyOutcomeView::Nothing),
        },
    }
}

impl App {
    /// Add a line to the log.
    pub fn push_log(&mut self, line: String)
        ensures
            final(self)@ =~~= logged(old(self)@, line@),
    {
        let ghost before = self.log@;
        self.log.push(line);
        assert(strs(self.log@) =~= strs(before).push(line@));
    }

    /// Show a task as started: log it, mark the UI running.
    pub fn start_task(&mut self, task: &str)
        ensures
            final(self)@ =~~= started(old(self)@, task@),
    {
        let mut text: Vec<char> = Vec::new();
        push_str(&mut text, "🦇 ");
        push_str(&mut text, task);
        self.push_log(string_of(text.as_slice()));
        self.running = true;
        self.status = String::from_str("running");
        self.last_action = String::new();
    }

    /// A key while the model picker is open.
    fn picker_key(&mut self, key: Key)
        requires
            old(self).wf(),
            old(self)@.picker is Some,
        ensures
            final(self)@ =~~= picker_step(old(self)@, old(self)@.picker->0, key),
    {
        let ghost v = self@;
        let ghost p = v.picker->0;
        match key {
            Key::Up => {
                if let Some(picker) = &mut self.picker {
                    picker.selected = if picker.selected > 0 { picker.selected - 1 } else { 0 };
                }
            },
            Key::Down => {
                if let Some(picker) = &mut self.picker {
                    let last = if picker.models.len() > 0 { picker.models.len() - 1 } else { 0 };
                    picker.selected = if picker.selected + 1 < last { picker.selected + 1 } else { last };
                }
            },
            Key::Enter => {
                let mut chosen: Option<String> = None;
                if let Some(picker) = &self.picker {
                    if picker.selected < picker.models.len() {
                        chosen = Some(picker.models[picker.selected].clone());
                    }
                }
                self.picker = None;
                if let Some(name) = chosen {
                    let mut text: Vec<char> = Vec::new();
                    push_str(&mut text, "✅ Model set to ");
                    push_str(&mut text, name.as_str());
                    self.model = Some(name);
                    self.push_log(string_of(text.as_slice()));
                }
            },
            Key::Esc => {
                self.picker = None;
            },
            _ => {},
        }
    }
}

impl App {
    /// Show `text` in the input box, cursor at its end.
    fn set_input(&mut self, text: &str)
        ensures
            final(self)@ =~~= (AppView { input: text@, cursor: text@.len(), ..old(self)@ }),
    {
        self.input = chars_of(text);
        self.cursor = self.input.len();
    }

    /// Up in the input.
    fn up(&mut self)
        requires
            old(self).wf(),
        ensures
            final(self)@ =~~= up_step(old(self)@),
    {
        let sugg = self.suggestions();
        if sugg.len() > 0 {
            self.selected = if self.selected > 0 { self.selected - 1 } else { 0 };
        } else if self.history.len() > 0 {
            let idx: usize = match self.history_idx {
                Some(i) => if i > 0 { i - 1 } else { 0 },
                None => self.history.len() - 1,
            };
            self.history_idx = Some(idx);
            let entry = self.history[idx].clone();
            self.set_input(entry.as_str());
        }
    }

    /// Down in the input.
    fn down(&mut self)
        requires
            old(self).wf(),
        ensures
            final(self)@ =~~= down_step(old(self)@),
    {
        let sugg = self.suggestions();
        if sugg.len() > 0 {
            let last = sugg.len() - 1;
            self.selected = if self.selected < last && self.selected + 1 < last { self.selected + 1 } else { last };
        } else if let Some(i) = self.history_idx {
            let n = self.history.len();
            assert(i < strs(self.history@).len());
            if i + 1 < n {
                self.history_idx = Some(i + 1);
                let entry = self.history[i + 1].clone();
                self.set_input(entry.as_str());
            } else {
                self.history_idx = None;
                self.input = Vec::new();
                self.cursor = 0;
            }
        }
    }

    /// Tab: take the highlighted suggestion.
    fn complete(&mut self)
        requires
            old(self).wf(),
            tab_ok(old(self)@),
        ensures
            final(self)@ =~~= (if suggestions_for(old(self)@.input).len() > 0 {
                let chosen = suggestions_for(old(self)@.input)[old(self)@.selected as int];
                AppView { input: chosen, cursor: chosen.len(), ..old(self)@ }
            } else {
                old(self)@
            }),
    {
        let sugg = self.suggestions();
        if sugg.len() > 0 {
            let chosen = sugg[self.selected].clone();
            self.set_input(chosen.as_str());
        }
    }

    /// Whether Tab may be pressed: with suggestions shown, the highlighted
    /// one must exist.
    pub fn can_complete(&self) -> (result: bool)
        ensures
            result == tab_ok(self@),
    {
        let sugg = self.suggestions();
        sugg.len() == 0 || self.selected < sugg.len()
    }
}

/// Index of the first whitespace character of `s` at or after `from`.
fn find_whitespace(s: &Vec<char>, from: usize) -> (result: Option<usize>)
    requires
        from <= s.len(),
    ensures
        match result {
            Some(k) => first_ws_from(s@, from as int) == Some(k as int) && k < s.len(),
            None => first_ws_from(s@, from as int) is None,
        },
{
    let mut i = from;
    while i < s.len()
        invariant
            from <= i <= s.len(),
            first_ws_from(s@, from as int) == first_ws_from(s@, i as int),
        decreases s.len() - i,
    {
        if crate::chars::char_is_whitespace(s[i]) {
            return Some(i);
        }
        i += 1;
    }
    None
}

/// Splits a slash command line into its name and trimmed argument.
fn split_slash(line: &Vec<char>) -> (result: (Vec<char>, Vec<char>))
    requires
        line@.len() > 0,
    ensures
        result.0@ == slash_name(line@),
        result.1@ == slash_arg(line@),
{
    let body = crate::chars::slice_chars(line, 1, line.len());
    assert(body@ == line@.skip(1));
    match find_whitespace(&body, 0) {
        Some(k) => {
            let name = crate::chars::slice_chars(&body, 0, k);
            let rest = crate::chars::slice_chars(&body, k + 1, body.len());
            assert(name@ =~= body@.take(k as int));
            assert(rest@ =~= body@.skip(k + 1));
            (name, trim_chars(&rest))
        },
        None => (body, Vec::new()),
    }
}

/// A line made of a literal and some text.
fn line_with(prefix: &str, text: &Vec<char>) -> (result: String)
    ensures
        result@ == prefix@ + text@,
{
    let mut out: Vec<char> = Vec::new();
    push_str(&mut out, prefix);
    let mut t = text.clone();
    out.append(&mut t);
    string_of(out.as_slice())
}

impl App {
    /// Run a slash command line (it starts with `/`).
    pub fn run_slash_command(&mut self, line: &Vec<char>) -> (outcome: KeyOutcome)
        requires
            line@.len() > 0,
        ensures
            final(self)@ =~~= slash_step(old(self)@, line@).0,
            outcome@ =~~= slash_step(old(self)@, line@).1,
    {
        let (name, arg) = split_slash(line);
        if chars_eq(&name, "help") || chars_eq(&name, "h") {
            let ghost before = self.log@;
            self.log.push(String::from_str("Commands:"));
            self.log.push(String::from_str("  /help, /exit, /quit, /setup, /models"));
            self.log.push(String::from_str("  /model <tag>, /read-only, /confirm"));
            self.log.push(String::from_str("  /steps <n>, /cwd <path>, /doctor, /clear"));
            self.log.push(String::from_str("  Shift+Enter = new line · Enter = send"));
            assert(strs(self.log@) =~= strs(before) + help_lines());
            return KeyOutcome::Nothing;
        }
        if chars_eq(&name, "exit") || chars_eq(&name, "quit") {
            self.quit = true;
            return KeyOutcome::Nothing;
        }
        if chars_eq(&name, "models") {
            return KeyOutcome::ListModels;
        }
        if chars_eq(&name, "model") {
            if arg.len() == 0 {
                let text = match &self.model {
                    Some(m) => {
                        let mut out: Vec<char> = Vec::new();
                        push_str(&mut out, "Current model: ");
                        push_str(&mut out, m.as_str());
                        string_of(out.as_slice())
                    },
                    None => String::from_str("Auto mode — best model will be selected on first task."),
                };
                self.push_log(text);
                return KeyOutcome::Nothing;
            }
            return KeyOutcome::CheckModel(string_of(arg.as_slice()));
        }
        if chars_eq(&name, "read-only") {
            self.read_only = !self.read_only;
            let text = if self.read_only {
                String::from_str("Read-only mode: ON")
            } else {
                String::from_str("Read-only mode: OFF")
            };
            proof {
                reveal_strlit("Read-only mode: ON");
                reveal_strlit("Read-only mode: OFF");
                reveal_strlit("Read-only mode: ");
                reveal_strlit("ON");
                reveal_strlit("OFF");
            }
            assert(text@ =~= "Read-only mode: "@ + on_off(self.read_only));
            self.push_log(text);
            return KeyOutcome::Nothing;
        }
        if chars_eq(&name, "confirm") {
            self.confirm = !self.confirm;
            let text = if self.confirm {
                String::from_str("Confirm mode: ON")
            } else {
                String::from_str("Confirm mode: OFF")
            };
            proof {
                reveal_strlit("Confirm mode: ON");
                reveal_strlit("Confirm mode: OFF");
                reveal_strlit("Confirm mode: ");
                reveal_strlit("ON");
                reveal_strlit("OFF");
            }
            assert(text@ =~= "Confirm mode: "@ + on_off(self.confirm));
            self.push_log(text);
            return KeyOutcome::Nothing;
        }
        if chars_eq(&name, "steps") {
            match parse_u64(&arg) {
                Some(n) => {
                    if n > 0 && (n as u128) <= (usize::MAX as u128) {
                        self.max_steps = n as usize;
                        let mut out: Vec<char> = Vec::new();
                        push_str(&mut out, "Max steps set to ");
                        push_decimal(&mut out, n);
                        self.push_log(string_of(out.as_slice()));
                        return KeyOutcome::Nothing;
                    }
                },
                None => {},
            }
            self.push_log(String::from_str("Usage: /steps <positive number>"));
            return KeyOutcome::Nothing;
        }
        if chars_eq(&name, "cwd") {
            if arg.len() == 0 {
                let mut out: Vec<char> = Vec::new();
                push_str(&mut out, "Workspace: ");
                push_str(&mut out, self.cwd.as_str());
                self.push_log(string_of(out.as_slice()));
            } else {
                self.cwd = string_of(arg.as_slice());
                self.push_log(line_with("Workspace set to ", &arg));
            }
            return KeyOutcome::Nothing;
        }
        if chars_eq(&name, "doctor") {
            return KeyOutcome::Doctor;
        }
        if chars_eq(&name, "setup") {
            self.push_log(String::from_str("Running setup..."));
            return KeyOutcome::Setup;
        }
        if chars_eq(&name, "clear") {
            self.log = Vec::new();
            self.live = Vec::new();
            return KeyOutcome::Nothing;
        }
        let mut out: Vec<char> = Vec::new();
        push_str(&mut out, "Unknown command: /");
        let mut n = name.clone();
        out.append(&mut n);
        push_str(&mut out, ". Try /help");
        self.push_log(string_of(out.as_slice()));
        KeyOutcome::Nothing
    }
}

impl App {
    /// Enter: submit the trimmed input.
    fn submit(&mut self) -> (outcome: KeyOutcome)
        requires
            old(self).wf(),
        ensures
            final(self)@ =~~= submit_step(old(self)@).0,
            outcome@ =~~= submit_step(old(self)@).1,
    {
        let task = trim_chars(&self.input);
        self.input = Vec::new();
        self.cursor = 0;
        self.history_idx = None;
        self.selected = 0;
        if task.len() == 0 {
            return KeyOutcome::Nothing;
        }
        let text = string_of(task.as_slice());
        let ghost before = self.history@;
        self.history.push(text.clone());
        assert(strs(self.history@) =~= strs(before).push(task@));
        if task[0] == '/' {
            return self.run_slash_command(&task);
        }
        if self.running {
            let ghost queued = self.task_queue@;
            self.task_queue.push(text);
            assert(strs(self.task_queue@) =~= strs(queued).push(task@));
            self.push_log(String::from_str("⏳ Queued — will run after the current task."));
            return KeyOutcome::Nothing;
        }
        self.start_task(text.as_str());
        KeyOutcome::StartTask(text)
    }

    /// React to a key. The model picker, when open, takes every key; Esc
    /// asks the UI to exit (see [`App::quit`]).
    pub fn handle_key(&mut self, key: Key) -> (outcome: KeyOutcome)
        requires
            old(self).wf(),
            key == Key::Tab && old(self)@.picker is None ==> tab_ok(old(self)@),
        ensures
            final(self).wf(),
            final(self)@ =~~= key_step(old(self)@, key).0,
            outcome@ =~~= key_step(old(self)@, key).1,
    {
        if self.picker.is_some() {
            self.picker_key(key);
            return KeyOutcome::Nothing;
        }
        match key {
            Key::Char(c) => {
                if c != '\r' {
                    self.input.insert(self.cursor, c);
                    let len = self.input.len();
                    assert(self.cursor < len);
                    self.cursor = self.cursor + 1;
                }
            },
            Key::Backspace => {
                if self.cursor > 0 {
                    self.input.remove(self.cursor - 1);
                    self.cursor = self.cursor - 1;
                }
            },
            Key::Delete => {
                if self.cursor < self.input.len() {
                    self.input.remove(self.cursor);
                }
            },
            Key::Left => {
                self.cursor = if self.cursor > 0 { self.cursor - 1 } else { 0 };
            },
            Key::Right => {
                if self.cursor < self.input.len() {
                    self.cursor = self.cursor + 1;
                }
            },
            Key::Home => {
                self.cursor = 0;
            },
            Key::End => {
                self.cursor = self.input.len();
            },
            Key::Up => self.up(),
            Key::Down => self.down(),
            Key::Tab => self.complete(),
            Key::ShiftEnter => {
                self.input.insert(self.cursor, '\n');
                let len = self.input.len();
                assert(self.cursor < len);
                self.cursor = self.cursor + 1;
            },
            Key::Enter => {
                return self.submit();
            },
            Key::Esc => {
                self.quit = true;
            },
            Key::Other => {},
        }
        KeyOutcome::Nothing
    }
}

// ---------------------------------------------------------------------------
// Agent events
// ---------------------------------------------------------------------------

/// What the running agent reports to the UI.
#[derive(Debug)]
pub enum UiEvent {
    /// A complete line.
    Log(String),
    /// A streaming chunk of the current line.
    Chunk(String),
    /// The task ended, with its error if it failed.
    Done(Result<(), String>),
}

/// `v` with the live line moved into the log, when there is one.
pub open spec fn flushed(v: AppView) -> AppView {
    if v.live.len() > 0 {
        AppView { log: v.log.push(v.live), live: Seq::empty(), ..v }
    } else {
        v
    }
}

/// The live line capped at [`MAX_LIVE_CHARS`] characters.
pub open spec fn capped(s: Seq<char>) -> Seq<char> {
    if s.len() > MAX_LIVE_CHARS { s.take(MAX_LIVE_CHARS as int) } else { s }
}

/// What an agent event does; the second part is the queued task to start
/// next, if any.
pub open spec fn event_step(v: AppView, ev: UiEvent) -> (AppView, Option<Seq<char>>) {
    match ev {
        UiEvent::Log(msg) => {
            let marked = if is_prefix("🔧"@, msg@) {
                AppView { last_action: trim(msg@), ..v }
            } else {
                v
            };
            let f = flushed(marked);
            (if msg@.len() > 0 { logged(f, msg@) } else { f }, None)
        },
        UiEvent::Chunk(msg) => (AppView { live: capped(v.live + msg@), ..v }, None),
        UiEvent::Done(result) => {
            let f = flushed(v);
            let reported = match result {
                Ok(_) => AppView { log: f.log.push(Seq::empty()).push("✅ Agent finished."@), ..f },
                Err(e) => logged(f, "⚠️ "@ + e@),
            };
            let idle = AppView { running: false, last_action: Seq::empty(), ..reported };
            if idle.task_queue.len() > 0 {
                let next = idle.task_queue[0];
                let dequeued = AppView { task_queue: idle.task_queue.drop_first(), ..idle };
                (started(logged(dequeued, "▶️  Starting next queued task."@), next), Some(next))
            } else {
                (AppView { status: "ready"@, ..idle }, None)
            }
        },
    }
}

impl App {
    /// Move the live line into the log, when there is one.
    pub fn flush_live(&mut self)
        ensures
            final(self)@ =~~= flushed(old(self)@),
    {
        if self.live.len() > 0 {
            let text = string_of(self.live.as_slice());
            self.push_log(text);
            self.live = Vec::new();
        }
    }

    /// React to an agent event. Returns the queued task to start next, if
    /// the finished task leaves one (the UI already shows it running).
    pub fn handle_event(&mut self, ev: UiEvent) -> (next: Option<String>)
        requires
            old(self).wf(),
        ensures
            final(self).wf(),
            final(self)@ =~~= event_step(old(self)@, ev).0,
            opt_str(next) =~~= event_step(old(self)@, ev).1,
    {
        match ev {
            UiEvent::Log(msg) => {
                let m = chars_of(msg.as_str());
                let tool = chars_of("🔧");
                if tool.len() <= m.len() && crate::chars::matches_at(&m, &tool, 0) {
                    assert(m@.subrange(0, tool@.len() as int) =~= m@.take(tool@.len() as int));
                    self.last_action = string_of(trim_chars(&m).as_slice());
                } else {
                    assert(tool@.len() <= m@.len() ==> m@.subrange(0, tool@.len() as int)
                        =~= m@.take(tool@.len() as int));
                }
                self.flush_live();
                if m.len() > 0 {
                    self.push_log(msg);
                }
                None
            },
            UiEvent::Chunk(msg) => {
                let mut more = chars_of(msg.as_str());
                self.live.append(&mut more);
                if self.live.len() > MAX_LIVE_CHARS {
                    self.live.truncate(MAX_LIVE_CHARS);
                }
                None
            },
            UiEvent::Done(result) => {
                self.flush_live();
                match result {
                    Ok(()) => {
                        self.push_log(String::new());
                        self.push_log(String::from_str("✅ Agent finished."));
                    },
                    Err(e) => {
                        let mut out: Vec<char> = Vec::new();
                        push_str(&mut out, "⚠️ ");
                        push_str(&mut out, e.as_str());
                        self.push_log(string_of(out.as_slice()));
                    },
                }
                self.running = false;
                self.last_action = String::new();
                if self.task_queue.len() > 0 {
                    let ghost queued = self.task_queue@;
                    let next = self.task_queue.remove(0);
                    assert(strs(self.task_queue@) =~= strs(queued).drop_first());
                    self.push_log(String::from_str("▶️  Starting next queued task."));
                    self.start_task(next.as_str());
                    Some(next)
                } else {
                    self.status = String::from_str("ready");
                    None
                }
            },
        }
    }
}

// ---------------------------------------------------------------------------
// Results of slow commands, and what the screen shows
// ---------------------------------------------------------------------------

impl App {
    /// `/models` fetched the installed models: open the picker on them, or
    /// say there are none.
    pub fn show_models(&mut self, names: Vec<String>)
        requires
            old(self).wf(),
        ensures
            final(self).wf(),
            final(self)@ =~~= if names@.len() == 0 {
                logged(old(self)@, "No models installed. Run /setup."@)
            } else {
                AppView {
                    picker: Some(PickerView { models: strs(names@), selected: 0 }),
                    status: "select model"@,
                    ..old(self)@
                }
            },
    {
        if names.len() == 0 {
            self.push_log(String::from_str("No models installed. Run /setup."));
        } else {
            self.picker = Some(PickerState { models: names, selected: 0 });
            self.status = String::from_str("select model");
        }
    }

    /// `/model <tag>` fetched the installed models: select the tag when it
    /// is installed, else say it is not.
    pub fn choose_model(&mut self, tag: &str, installed: &Vec<String>)
        requires
            old(self).wf(),
        ensures
            final(self).wf(),
            final(self)@ =~~= if exists|k: int| 0 <= k < installed@.len() && installed@[k]@ == tag@ {
                AppView { model: Some(tag@), log: old(self)@.log.push("✅ Model set to "@ + tag@), ..old(self)@ }
            } else {
                logged(old(self)@, "❌ Model '"@ + tag@ + "' is not installed. Try /models or /setup."@)
            },
    {
        if crate::commands::is_installed(installed, tag) {
            self.model = Some(String::from_str(tag));
            let mut out: Vec<char> = Vec::new();
            push_str(&mut out, "✅ Model set to ");
            push_str(&mut out, tag);
            self.push_log(string_of(out.as_slice()));
        } else {
            let mut out: Vec<char> = Vec::new();
            push_str(&mut out, "❌ Model '");
            push_str(&mut out, tag);
            push_str(&mut out, "' is not installed. Try /models or /setup.");
            self.push_log(string_of(out.as_slice()));
        }
    }

    /// Add report lines (such as the doctor report) to the log.
    pub fn append_lines(&mut self, lines: Vec<String>)
        ensures
            final(self)@ =~~= (AppView { log: old(self)@.log + strs(lines@), ..old(self)@ }),
    {
        let ghost before = self.log@;
        let mut more = lines;
        self.log.append(&mut more);
        assert(strs(self.log@) =~= strs(before) + strs(lines@));
    }

    /// `/setup` finished.
    pub fn setup_finished(&mut self)
        ensures
            final(self)@ =~~= logged(old(self)@, "✅ Setup finished."@),
    {
        self.push_log(String::from_str("✅ Setup finished."));
    }
}

/// The status line under the chat.
pub open spec fn status_text(v: AppView) -> Seq<char> {
    if v.running {
        let spin = SPINNER@[(v.spinner_frame % 10) as int]@;
        if v.last_action.len() == 0 {
            spin + " "@ + v.status + " — thinking..."@
        } else {
            spin + " "@ + v.status + " — "@ + v.last_action
        }
    } else if v.picker is Some {
        "↑↓ select · Enter confirm · Esc cancel"@
    } else if v.task_queue.len() > 0 {
        "ready — "@ + decimal(v.task_queue.len()) + " queued"@
    } else {
        v.status
    }
}

/// The log lines joined with newlines.
pub open spec fn joined_log(log: Seq<Seq<char>>) -> Seq<char>
    decreases log.len(),
{
    if log.len() == 0 {
        Seq::empty()
    } else if log.len() == 1 {
        log[0]
    } else {
        joined_log(log.drop_last()) + "\n"@ + log.last()
    }
}

/// The chat area's text: the log, then the live line on its own line.
pub open spec fn chat_view(v: AppView) -> Seq<char> {
    let text = joined_log(v.log);
    if v.live.len() > 0 {
        if text.len() > 0 { text + "\n"@ + v.live } else { v.live }
    } else {
        text
    }
}

/// Characters after the last `\n` of `s` (all of `s` when it has none).
pub open spec fn last_line_len(s: Seq<char>) -> nat
    decreases s.len(),
{
    if s.len() == 0 || s.last() == '\n' {
        0
    } else {
        last_line_len(s.drop_last()) + 1
    }
}

impl App {
    /// The status line under the chat.
    pub fn status_line(&self) -> (result: String)
        ensures
            result@ == status_text(self@),
    {
        let mut out: Vec<char> = Vec::new();
        if self.running {
            push_str(&mut out, self.spinner());
            push_str(&mut out, " ");
            push_str(&mut out, self.status.as_str());
            if chars_of(self.last_action.as_str()).len() == 0 {
                push_str(&mut out, " — thinking...");
            } else {
                push_str(&mut out, " — ");
                push_str(&mut out, self.last_action.as_str());
            }
        } else if self.picker.is_some() {
            push_str(&mut out, "↑↓ select · Enter confirm · Esc cancel");
        } else if self.task_queue.len() > 0 {
            push_str(&mut out, "ready — ");
            push_decimal(&mut out, self.task_queue.len() as u64);
            push_str(&mut out, " queued");
        } else {
            push_str(&mut out, self.status.as_str());
        }
        string_of(out.as_slice())
    }

    /// The chat area's text.
    pub fn chat_text(&self) -> (result: String)
        ensures
            result@ == chat_view(self@),
    {
        proof {
            reveal_strlit("\n");
        }
        let mut out: Vec<char> = Vec::new();
        let mut i: usize = 0;
        while i < self.log.len()
            invariant
                0 <= i <= self.log.len(),
                out@ == joined_log(strs(self.log@).take(i as int)),
                "\n"@ == seq!['\n'],
            decreases self.log.len() - i,
        {
            let ghost before = out@;
            let ghost next = strs(self.log@).take(i + 1);
            assert(next.drop_last() =~= strs(self.log@).take(i as int));
            assert(next.last() == self.log@[i as int]@);
            if i > 0 {
                out.push('\n');
            }
            push_str(&mut out, self.log[i].as_str());
            assert(i == 0 ==> next =~= seq![self.log@[0]@]);
            assert(out@ =~= joined_log(next));
            i += 1;
        }
        assert(strs(self.log@).take(self.log.len() as int) =~= strs(self.log@));
        if self.live.len() > 0 {
            if out.len() > 0 {
                out.push('\n');
                assert(out@ =~= joined_log(strs(self.log@)) + "\n"@);
            }
            let mut live = self.live.clone();
            out.append(&mut live);
        }
        string_of(out.as_slice())
    }

    /// Where the cursor is drawn inside the input box: its line and column.
    pub fn cursor_position(&self) -> (result: (usize, usize))
        requires
            self.wf(),
        ensures
            result.0 == newline_count(self@.input.take(self@.cursor as int)),
            result.1 == last_line_len(self@.input.take(self@.cursor as int)),
    {
        let line = count_newlines(&self.input, self.cursor);
        let mut col: usize = 0;
        let mut i: usize = self.cursor;
        while i > 0 && self.input[i - 1] != '\n'
            invariant
                0 <= i <= self.cursor <= self.input.len(),
                col == self.cursor - i,
                last_line_len(self.input@.take(self.cursor as int)) == col + last_line_len(
                    self.input@.take(i as int),
                ),
            decreases i,
        {
            assert(self.input@.take(i as int).drop_last() =~= self.input@.take(i - 1));
            i -= 1;
            col += 1;
        }
        (line, col)
    }

    /// The agent's settings for a task started from the UI.
    pub fn agent_config(&self) -> (result: crate::agent::AgentConfig)
        ensures
            result.cwd@ == self.cwd@,
            result.max_steps == self.max_steps,
            result.is_read_only == self.read_only,
            result.should_confirm == self.confirm,
            result.show_thinking,
            result.max_ctx == self.max_ctx,
    {
        crate::agent::AgentConfig {
            cwd: self.cwd.clone(),
            max_steps: self.max_steps,
            is_read_only: self.read_only,
            should_confirm: self.confirm,
            show_thinking: true,
            max_ctx: self.max_ctx,
        }
    }

    /// Model-selection preferences for a task started from the UI.
    pub fn model_prefs(&self) -> (result: crate::cli::ModelPrefs)
        ensures
            opt_str(result.model) == self@.model,
            result.is_auto_pull_disabled == self.no_auto_pull,
            result.min_context == self.min_context,
    {
        crate::cli::ModelPrefs {
            model: match &self.model {
                Some(m) => Some(m.clone()),
                None => None,
            },
            is_auto_pull_disabled: self.no_auto_pull,
            min_context: self.min_context,
        }
    }
}

// ---------------------------------------------------------------------------
// Laws
// ---------------------------------------------------------------------------

/// The slash command names are all different from `read-only` and
/// `confirm`, and from each other.
proof fn toggle_names_differ()
    ensures
        "read-only"@ != "help"@,
        "read-only"@ != "h"@,
        "read-only"@ != "exit"@,
        "read-only"@ != "quit"@,
        "read-only"@ != "models"@,
        "read-only"@ != "model"@,
        "confirm"@ != "help"@,
        "confirm"@ != "h"@,
        "confirm"@ != "exit"@,
        "confirm"@ != "quit"@,
        "confirm"@ != "models"@,
        "confirm"@ != "model"@,
        "confirm"@ != "read-only"@,
{
    reveal_strlit("read-only");
    reveal_strlit("confirm");
    reveal_strlit("help");
    reveal_strlit("h");
    reveal_strlit("exit");
    reveal_strlit("quit");
    reveal_strlit("models");
    reveal_strlit("model");
    assert("read-only"@.len() == 9);
    assert("confirm"@.len() == 7);
    assert("help"@.len() == 4);
    assert("h"@.len() == 1);
    assert("exit"@.len() == 4);
    assert("quit"@.len() == 4);
    assert("models"@.len() == 6);
    assert("model"@.len() == 5);
}

/// Law: `/read-only` toggles read-only mode. Running it flips the setting,
/// leaves the other settings as they were, and logs the new state
/// (`Read-only mode: ON` or `OFF`); running it twice gives back the
/// original setting. `/confirm` toggles confirm mode the same way.
pub proof fn mode_commands_toggle(v: AppView, line: Seq<char>)
    ensures
        slash_name(line) == "read-only"@ ==> {
            let once = slash_step(v, line).0;
            &&& once.read_only == !v.read_only
            &&& once.confirm == v.confirm
            &&& once.max_steps == v.max_steps
            &&& once.model == v.model
            &&& once.cwd == v.cwd
            &&& once.log.len() == v.log.len() + 1
            &&& once.log.last() == (if once.read_only {
                "Read-only mode: ON"@
            } else {
                "Read-only mode: OFF"@
            })
            &&& slash_step(once, line).0.read_only == v.read_only
        },
        slash_name(line) == "confirm"@ ==> {
            let once = slash_step(v, line).0;
            &&& once.confirm == !v.confirm
            &&& once.read_only == v.read_only
            &&& once.max_steps == v.max_steps
            &&& once.model == v.model
            &&& once.cwd == v.cwd
            &&& once.log.len() == v.log.len() + 1
            &&& once.log.last() == (if once.confirm {
                "Confirm mode: ON"@
            } else {
                "Confirm mode: OFF"@
            })
            &&& slash_step(once, line).0.confirm == v.confirm
        },
{
    toggle_names_differ();
    reveal_strlit("Read-only mode: ");
    reveal_strlit("Read-only mode: ON");
    reveal_strlit("Read-only mode: OFF");
    reveal_strlit("Confirm mode: ");
    reveal_strlit("Confirm mode: ON");
    reveal_strlit("Confirm mode: OFF");
    reveal_strlit("ON");
    reveal_strlit("OFF");
    assert("Read-only mode: "@ + "ON"@ =~= "Read-only mode: ON"@);
    assert("Read-only mode: "@ + "OFF"@ =~= "Read-only mode: OFF"@);
    assert("Confirm mode: "@ + "ON"@ =~= "Confirm mode: ON"@);
    assert("Confirm mode: "@ + "OFF"@ =~= "Confirm mode: OFF"@);
}

/// Law: queued tasks run in the order they were queued. When a task ends
/// (successfully or not) with tasks waiting, the task started is the oldest
/// queued one, the queue left is the rest in order, and the UI runs again;
/// with no task waiting, nothing starts and the UI is idle.
pub proof fn queued_tasks_run_in_order(v: AppView, result: Result<(), String>)
    ensures
        ({
            let (after, next) = event_step(v, UiEvent::Done(result));
            if v.task_queue.len() > 0 {
                &&& next == Some(v.task_queue[0])
                &&& seq![v.task_queue[0]] + after.task_queue == v.task_queue
                &&& after.running
            } else {
                &&& next is None
                &&& after.task_queue.len() == 0
                &&& !after.running
            }
        }),
{
    if v.task_queue.len() > 0 {
        let (after, next) = event_step(v, UiEvent::Done(result));
        assert(seq![v.task_queue[0]] + v.task_queue.drop_first() =~= v.task_queue);
    }
}

/// Law: with the picker closed, typing a character (other than a carriage
/// return) and then pressing Backspace gives back the same input and cursor.
pub proof fn backspace_undoes_typing(v: AppView, c: char)
    requires
        app_wf(v),
        v.picker is None,
        c != '\r',
    ensures
        key_step(key_step(v, Key::Char(c)).0, Key::Backspace).0 =~~= v,
{
    let typed = key_step(v, Key::Char(c)).0;
    assert(typed.input.remove(v.cursor as int) =~= v.input);
}

/// Law: Esc always asks the UI to exit when no picker is open, and every
/// key keeps the UI's invariant (given Tab's own condition).
pub proof fn keys_keep_the_invariant(v: AppView, key: Key)
    requires
        app_wf(v),
        key == Key::Tab && v.picker is None ==> tab_ok(v),
    ensures
        v.picker is None && key == Key::Esc ==> key_step(v, key).0.quit,
{
}

/// Law: text without an escape character passes through unchanged, and
/// stripped text holds no escape character.
pub proof fn strip_ansi_laws(s: Seq<char>)
    ensures
        (forall|i: int| 0 <= i < s.len() ==> s[i] != '\x1b') ==> without_ansi(s) == s,
        forall|i: int| 0 <= i < without_ansi(s).len() ==> without_ansi(s)[i] != '\x1b',
    decreases s.len(),
{
    if s.len() > 0 {
        if s[0] == '\x1b' {
            let rest = s.skip(1);
            lemma_escape_len_bound(rest);
            strip_ansi_laws(rest.skip(escape_len(rest) as int));
            assert(without_ansi(s) == without_ansi(rest.skip(escape_len(rest) as int)));
        } else {
            strip_ansi_laws(s.skip(1));
            let out = without_ansi(s);
            assert(out == seq![s[0]] + without_ansi(s.skip(1)));
            assert forall|i: int| 0 <= i < out.len() implies out[i] != '\x1b' by {
                if i > 0 {
                    assert(out[i] == without_ansi(s.skip(1))[i - 1]);
                }
            }
            if forall|i: int| 0 <= i < s.len() ==> s[i] != '\x1b' {
                assert(forall|i: int| 0 <= i < s.skip(1).len() ==> s.skip(1)[i] != '\x1b') by {
                    assert forall|i: int| 0 <= i < s.skip(1).len() implies s.skip(1)[i] != '\x1b' by {
                        assert(s.skip(1)[i] == s[i + 1]);
                    }
                }
                assert(seq![s[0]] + s.skip(1) =~= s);
            }
        }
    }
}

} // verus!
