//! Data exchanged with the Ollama HTTP API, and the NDJSON stream parsing
//! used by the chat and pull endpoints.
//!
//! Ollama streams newline-delimited JSON. HTTP chunks can split a line
//! anywhere, so the client keeps a text buffer and drains only complete
//! lines; the functions here own that buffering and the interpretation of
//! each line.

use crate::chars::{
    find_newline, first_newline, first_newline_from, lemma_first_newline_from, lemma_newline_shift,
    chars_of, decimal, push_decimal, push_str, slice_chars, str_eq, string_of, trim, trim_chars,
};
use vstd::prelude::*;

verus! {

/// Response body of `GET /api/tags`.
#[derive(Debug)]
pub struct TagsResponse {
    /// All models currently installed on the Ollama server.
    pub models: Vec<OllamaModel>,
}

/// A single installed model as returned by `/api/tags`.
#[derive(Debug)]
pub struct OllamaModel {
    /// Model tag, e.g. `qwen2.5-coder:7b`.
    pub name: String,
    /// Size of the model file on disk, in bytes.
    pub size: u64,
    /// Optional human-readable metadata about the model.
    pub details: Option<ModelDetails>,
}

/// Optional metadata for an installed model.
#[derive(Debug)]
pub struct ModelDetails {
    /// Parameter count label, e.g. `7.6B` or `873.44M`.
    pub parameter_size: Option<String>,
    /// Quantization level, e.g. `Q4_K_M`.
    pub quantization_level: Option<String>,
    /// Maximum context length the model supports.
    pub context_length: Option<u64>,
}

/// Who wrote a chat message.
#[derive(Debug, Clone, Copy, PartialEq, Eq, Structural)]
pub enum Role {
    /// The system prompt.
    System,
    /// The user (or tool results fed back as user turns).
    User,
    /// The model.
    Assistant,
    /// A tool.
    Tool,
}

impl Role {
    /// The role's name on the wire.
    pub fn as_str(self) -> (result: &'static str)
        ensures
            result@ == role_name(self),
    {
        match self {
            Role::System => "system",
            Role::User => "user",
            Role::Assistant => "assistant",
            Role::Tool => "tool",
        }
    }
}

/// The role's name on the wire.
pub open spec fn role_name(role: Role) -> Seq<char> {
    match role {
        Role::System => "system"@,
        Role::User => "user"@,
        Role::Assistant => "assistant"@,
        Role::Tool => "tool"@,
    }
}

/// A single chat message sent to the model.
#[derive(Debug)]
pub struct ChatMessage {
    /// Who wrote the message.
    pub role: Role,
    /// Message body.
    pub content: String,
}

/// Body of a non-streaming `POST /api/chat` reply.
#[derive(Debug)]
pub struct ChatResponse {
    /// The generated message.
    pub message: ChatResponseMessage,
}

/// The message inside a [`ChatResponse`].
#[derive(Debug)]
pub struct ChatResponseMessage {
    /// Generated text.
    pub content: String,
}

/// Payload for `POST /api/pull`.
#[derive(Debug)]
pub struct PullRequest {
    /// Model tag to download, e.g. `qwen2.5-coder:3b`.
    pub name: String,
    /// Whether to stream pull progress as NDJSON status events.
    pub stream: bool,
}

/// Response body of `POST /api/generate` (non-streaming benchmark helper).
#[derive(Debug)]
pub struct GenerateResponse {
    /// Generated completion text.
    pub response: String,
    /// Prompt tokens evaluated.
    pub prompt_eval_count: u64,
    /// Generated tokens.
    pub eval_count: u64,
    /// Total request duration in nanoseconds (Ollama-reported).
    pub total_duration: u64,
}

/// The value found at a JSON pointer inside a JSON document, as far as the
/// stream parsers need it.
#[derive(Debug, PartialEq, Eq)]
pub enum JsonField {
    /// The document is not JSON, or nothing is at the pointer.
    Missing,
    /// `null`.
    Null,
    /// A boolean.
    Bool(bool),
    /// A number that fits in a `u64`.
    Unsigned(u64),
    /// Any other number.
    OtherNumber,
    /// A string.
    Text(String),
    /// An array or an object.
    Composite,
}

/// Model of a [`JsonField`].
pub enum JsonFieldView {
    /// The document is not JSON, or nothing is at the pointer.
    Missing,
    /// `null`.
    Null,
    /// A boolean.
    Bool(bool),
    /// A number that fits in a `u64`.
    Unsigned(u64),
    /// Any other number.
    OtherNumber,
    /// A string.
    Text(Seq<char>),
    /// An array or an object.
    Composite,
}

impl View for JsonField {
    type V = JsonFieldView;

    open spec fn view(&self) -> JsonFieldView {
        match self {
            JsonField::Missing => JsonFieldView::Missing,
            JsonField::Null => JsonFieldView::Null,
            JsonField::Bool(b) => JsonFieldView::Bool(*b),
            JsonField::Unsigned(n) => JsonFieldView::Unsigned(*n),
            JsonField::OtherNumber => JsonFieldView::OtherNumber,
            JsonField::Text(s) => JsonFieldView::Text(s@),
            JsonField::Composite => JsonFieldView::Composite,
        }
    }
}

/// What serde_json finds at JSON pointer `pointer` in the text `document`
/// (`serde_json::from_str::<Value>` followed by `Value::pointer`).
pub uninterp spec fn json_field_at(document: Seq<char>, pointer: Seq<char>) -> JsonFieldView;

/// Parses `document` with `serde_json::from_str::<serde_json::Value>` and
/// looks up `pointer` with `Value::pointer`; the result is named by
/// `json_field_at`. A document that does not parse gives `Missing`.
#[verifier::external_body]
pub(crate) fn json_field(document: &str, pointer: &str) -> (result: JsonField)
    ensures
        result@ == json_field_at(document@, pointer@),
{
    let parsed = serde_json::from_str::<serde_json::Value>(document).ok();
    match parsed.as_ref().and_then(|value| value.pointer(pointer)) {
        None => JsonField::Missing,
        Some(serde_json::Value::Null) => JsonField::Null,
        Some(serde_json::Value::Bool(flag)) => JsonField::Bool(*flag),
        Some(serde_json::Value::Number(number)) => match number.as_u64() {
            Some(value) => JsonField::Unsigned(value),
            None => JsonField::OtherNumber,
        },
        Some(serde_json::Value::String(text)) => JsonField::Text(text.clone()),
        Some(_) => JsonField::Composite,
    }
}

/// The members of the JSON object found at JSON pointer `pointer` inside
/// the text `document`, in serde_json's iteration order (keys sorted), each
/// as its key and the JSON text of its value; `None` when the document does
/// not parse or nothing, or no object, is at the pointer.
pub uninterp spec fn json_members_at(document: Seq<char>, pointer: Seq<char>) -> Option<Seq<(Seq<char>, Seq<char>)>>;

/// Parses `document` with serde_json, looks up `pointer` with
/// `Value::pointer`, and lists the members of the object found there (key,
/// and value written back as JSON text with `Value::to_string`); the result
/// is named by `json_members_at`.
#[verifier::external_body]
pub(crate) fn json_members(document: &str, pointer: &str) -> (result: Option<Vec<(String, String)>>)
    ensures
        match result {
            Some(members) => json_members_at(document@, pointer@) == Some(
                members@.map_values(|m: (String, String)| (m.0@, m.1@)),
            ),
            None => json_members_at(document@, pointer@) is None,
        },
{
    let parsed = serde_json::from_str::<serde_json::Value>(document).ok()?;
    let object = parsed.pointer(pointer)?.as_object()?;
    Some(object.iter().map(|(key, value)| (key.clone(), value.to_string())).collect())
}

} // verus!

verus! {

/// A meaningful event extracted from one Ollama NDJSON chat line.
#[derive(Debug, PartialEq, Eq)]
pub enum StreamLine {
    /// Assistant content delta.
    Content(String),
    /// Terminal `done: true` marker.
    Done,
}

/// Model of a [`StreamLine`].
pub enum StreamLineView {
    /// Assistant content delta.
    Content(Seq<char>),
    /// Terminal `done: true` marker.
    Done,
}

impl View for StreamLine {
    type V = StreamLineView;

    open spec fn view(&self) -> StreamLineView {
        match self {
            StreamLine::Content(s) => StreamLineView::Content(s@),
            StreamLine::Done => StreamLineView::Done,
        }
    }
}

/// Model of an optional [`StreamLine`].
pub open spec fn opt_line_view(o: Option<StreamLine>) -> Option<StreamLineView> {
    match o {
        Some(e) => Some(e@),
        None => None,
    }
}

/// How a chat line is read from what sits at `/message/content` and `/done`:
/// a string content is a delta, else `done: true` ends the stream, else the
/// line carries nothing.
pub open spec fn stream_event(content: JsonFieldView, done: JsonFieldView) -> Option<
    StreamLineView,
> {
    match content {
        JsonFieldView::Text(c) => Some(StreamLineView::Content(c)),
        _ => match done {
            JsonFieldView::Bool(true) => Some(StreamLineView::Done),
            _ => None,
        },
    }
}

/// Decide what a chat line means, given what its `/message/content` and
/// `/done` pointers hold.
pub fn classify_stream_line(content: JsonField, done: JsonField) -> (result: Option<StreamLine>)
    ensures
        opt_line_view(result) == stream_event(content@, done@),
{
    match content {
        JsonField::Text(c) => Some(StreamLine::Content(c)),
        _ => match done {
            JsonField::Bool(true) => Some(StreamLine::Done),
            _ => None,
        },
    }
}

/// What one chat line means.
pub open spec fn stream_line_event(line: Seq<char>) -> Option<StreamLineView> {
    stream_event(
        json_field_at(line, "/message/content"@),
        json_field_at(line, "/done"@),
    )
}

/// Parse one NDJSON line from an Ollama chat stream.
///
/// Returns `None` for non-payload lines (progress, keep-alive, malformed JSON).
pub fn parse_stream_line(line: &str) -> (result: Option<StreamLine>)
    ensures
        opt_line_view(result) == stream_line_event(line@),
{
    let content = json_field(line, "/message/content");
    let done = json_field(line, "/done");
    classify_stream_line(content, done)
}

/// Result of draining complete NDJSON lines from the stream buffer.
#[derive(Debug, PartialEq, Eq)]
pub enum LineDrain {
    /// A content delta is ready to emit.
    Content(String),
    /// The stream's terminal `done` marker was seen.
    Done,
    /// No complete payload line is available yet.
    NeedMore,
}

/// Model of a [`LineDrain`].
pub enum LineDrainView {
    /// A content delta is ready to emit.
    Content(Seq<char>),
    /// The stream's terminal `done` marker was seen.
    Done,
    /// No complete payload line is available yet.
    NeedMore,
}

impl View for LineDrain {
    type V = LineDrainView;

    open spec fn view(&self) -> LineDrainView {
        match self {
            LineDrain::Content(s) => LineDrainView::Content(s@),
            LineDrain::Done => LineDrainView::Done,
            LineDrain::NeedMore => LineDrainView::NeedMore,
        }
    }
}

/// What draining a chat buffer yields: the buffer left afterwards and the
/// event. Complete lines are consumed in order; blank and non-payload lines
/// are skipped; the first content delta or `done` marker stops the drain; when
/// no complete payload line is left, everything up to the last newline is
/// consumed and `NeedMore` is returned.
pub open spec fn drained(buf: Seq<char>) -> (Seq<char>, LineDrainView)
    decreases buf.len(),
{
    match first_newline(buf) {
        None => (buf, LineDrainView::NeedMore),
        Some(p) => {
            proof {
                lemma_first_newline_from(buf, 0);
            }
            let line = trim(buf.take(p));
            let rest = buf.skip(p + 1);
            if line.len() == 0 {
                drained(rest)
            } else {
                match stream_line_event(line) {
                    Some(StreamLineView::Content(c)) => (rest, LineDrainView::Content(c)),
                    Some(StreamLineView::Done) => (rest, LineDrainView::Done),
                    None => drained(rest),
                }
            }
        },
    }
}

/// The trimmed text of `s[from..to]`.
fn trimmed_slice(s: &Vec<char>, from: usize, to: usize) -> (result: String)
    requires
        from <= to <= s.len(),
    ensures
        result@ == trim(s@.subrange(from as int, to as int)),
{
    let line = slice_chars(s, from, to);
    let t = trim_chars(&line);
    string_of(t.as_slice())
}

} // verus!

verus! {

/// Consume complete lines from `buffer`, returning the first meaningful event.
///
/// Blank and non-payload lines are dropped; the buffer keeps what follows the
/// consumed lines.
pub fn drain_complete_lines(buffer: &mut String) -> (result: LineDrain)
    ensures
        (final(buffer)@, result@) == drained(old(buffer)@),
{
    let s = chars_of(buffer.as_str());
    let ghost whole = s@;
    let mut pos: usize = 0;
    assert(s@.skip(0) == s@);
    loop
        invariant
            pos <= s.len(),
            s@ == whole,
            whole == old(buffer)@,
            drained(whole) == drained(whole.skip(pos as int)),
        decreases s.len() - pos,
    {
        let ghost cur = whole.skip(pos as int);
        proof {
            lemma_newline_shift(whole, pos as int, 0);
        }
        match find_newline(&s, pos) {
            None => {
                let rest = slice_chars(&s, pos, s.len());
                assert(rest@ == cur);
                *buffer = string_of(rest.as_slice());
                return LineDrain::NeedMore;
            },
            Some(p) => {
                proof {
                    lemma_first_newline_from(whole, pos as int);
                }
                let line = trimmed_slice(&s, pos, p);
                assert(cur.take(p - pos) == whole.subrange(pos as int, p as int));
                assert(cur.skip(p - pos + 1) == whole.skip(p + 1));
                if line.as_str().is_empty() {
                    pos = p + 1;
                } else {
                    match parse_stream_line(line.as_str()) {
                        Some(StreamLine::Content(c)) => {
                            let rest = slice_chars(&s, p + 1, s.len());
                            *buffer = string_of(rest.as_slice());
                            return LineDrain::Content(c);
                        },
                        Some(StreamLine::Done) => {
                            let rest = slice_chars(&s, p + 1, s.len());
                            *buffer = string_of(rest.as_slice());
                            return LineDrain::Done;
                        },
                        None => {
                            pos = p + 1;
                        },
                    }
                }
            },
        }
    }
}

/// Law: when draining asks for more input, the buffer left holds no newline,
/// i.e. every complete line was consumed.
pub proof fn need_more_leaves_no_complete_line(buf: Seq<char>)
    ensures
        drained(buf).1 is NeedMore ==> forall|k: int|
            0 <= k < drained(buf).0.len() ==> drained(buf).0[k] != '\n',
    decreases buf.len(),
{
    lemma_first_newline_from(buf, 0);
    match first_newline(buf) {
        None => {},
        Some(p) => {
            need_more_leaves_no_complete_line(buf.skip(p + 1));
        },
    }
}

/// Law: draining only ever removes a prefix of the buffer.
pub proof fn drained_rest_is_suffix(buf: Seq<char>)
    ensures
        drained(buf).0.len() <= buf.len(),
        drained(buf).0 == buf.skip(buf.len() - drained(buf).0.len()),
    decreases buf.len(),
{
    lemma_first_newline_from(buf, 0);
    match first_newline(buf) {
        None => {
            assert(buf.skip(0) == buf);
        },
        Some(p) => {
            let rest = buf.skip(p + 1);
            drained_rest_is_suffix(rest);
            let r = drained(rest).0;
            assert(rest.skip(rest.len() - r.len()) == buf.skip(buf.len() - r.len()));
        },
    }
}

} // verus!

verus! {

/// A meaningful event from an Ollama `/api/pull` NDJSON stream.
#[derive(Debug, PartialEq, Eq)]
pub enum PullLine {
    /// Human-readable status, possibly including download percentage.
    Status(String),
    /// The pull finished successfully.
    Done,
    /// The pull failed with a server-provided error message.
    Error(String),
}

/// Model of a [`PullLine`].
pub enum PullLineView {
    /// Human-readable status, possibly including download percentage.
    Status(Seq<char>),
    /// The pull finished successfully.
    Done,
    /// The pull failed with a server-provided error message.
    Error(Seq<char>),
}

impl View for PullLine {
    type V = PullLineView;

    open spec fn view(&self) -> PullLineView {
        match self {
            PullLine::Status(s) => PullLineView::Status(s@),
            PullLine::Done => PullLineView::Done,
            PullLine::Error(s) => PullLineView::Error(s@),
        }
    }
}

/// Model of an optional [`PullLine`].
pub open spec fn opt_pull_view(o: Option<PullLine>) -> Option<PullLineView> {
    match o {
        Some(e) => Some(e@),
        None => None,
    }
}

/// `completed * 100 / total` rounded to the nearest integer, ties to even,
/// as `{:.0}` prints it.
pub open spec fn percent(completed: nat, total: nat) -> nat
    recommends
        total > 0,
{
    let n = completed * 100;
    let q = n / total;
    let r = n % total;
    if 2 * r > total {
        q + 1
    } else if 2 * r < total {
        q
    } else if q % 2 == 0 {
        q
    } else {
        q + 1
    }
}

/// The progress suffix of a pull status: ` N%` when both counters are
/// known and the total is positive, else nothing.
pub open spec fn progress_suffix(completed: JsonFieldView, total: JsonFieldView) -> Seq<char> {
    match (completed, total) {
        (JsonFieldView::Unsigned(c), JsonFieldView::Unsigned(t)) => if t > 0 {
            seq![' '] + decimal(percent(c as nat, t as nat)) + seq!['%']
        } else {
            seq![]
        },
        _ => seq![],
    }
}

/// How a pull line is read from what sits at `/error`, `/status`,
/// `/completed` and `/total`.
pub open spec fn pull_event(
    error: JsonFieldView,
    status: JsonFieldView,
    completed: JsonFieldView,
    total: JsonFieldView,
) -> Option<PullLineView> {
    match error {
        JsonFieldView::Text(e) => Some(PullLineView::Error(e)),
        _ => match status {
            JsonFieldView::Text(s) => if s == "success"@ {
                Some(PullLineView::Done)
            } else {
                Some(PullLineView::Status(s + progress_suffix(completed, total)))
            },
            _ => None,
        },
    }
}

/// `percent` computed without overflow.
fn percent_exec(completed: u64, total: u64) -> (result: u128)
    requires
        total > 0,
    ensures
        result == percent(completed as nat, total as nat),
{
    let n: u128 = (completed as u128) * 100;
    let t: u128 = total as u128;
    let q = n / t;
    let r = n % t;
    if 2 * r > t {
        q + 1
    } else if 2 * r < t {
        q
    } else if q % 2 == 0 {
        q
    } else {
        q + 1
    }
}

/// Decide what a pull line means, given what its `/error`, `/status`,
/// `/completed` and `/total` pointers hold.
pub fn classify_pull_line(
    error: JsonField,
    status: JsonField,
    completed: JsonField,
    total: JsonField,
) -> (result: Option<PullLine>)
    ensures
        opt_pull_view(result) == pull_event(error@, status@, completed@, total@),
{
    if let JsonField::Text(e) = error {
        return Some(PullLine::Error(e));
    }
    let status = match status {
        JsonField::Text(s) => s,
        _ => return None,
    };
    if str_eq(status.as_str(), "success") {
        return Some(PullLine::Done);
    }
    let mut out = chars_of(status.as_str());
    let ghost suffix = progress_suffix(completed@, total@);
    match (completed, total) {
        (JsonField::Unsigned(c), JsonField::Unsigned(t)) => {
            if t > 0 {
                let pct = percent_exec(c, t);
                out.push(' ');
                push_decimal_u128(&mut out, pct);
                out.push('%');
                assert(out@ == status@ + suffix);
            } else {
                assert(out@ == status@ + suffix);
            }
        },
        _ => {
            assert(out@ == status@ + suffix);
        },
    }
    Some(PullLine::Status(string_of(out.as_slice())))
}

/// Appends the decimal rendering of `n` to `out`.
fn push_decimal_u128(out: &mut Vec<char>, n: u128)
    ensures
        final(out)@ == old(out)@ + decimal(n as nat),
    decreases n,
{
    if n >= 10 {
        push_decimal_u128(out, n / 10);
    }
    let d: u128 = n % 10;
    let c: char = ((48 + d) as u8) as char;
    out.push(c);
    assert(decimal(n as nat) == if n < 10 {
        seq![crate::chars::digit_char(n as nat)]
    } else {
        decimal((n / 10) as nat).push(crate::chars::digit_char((n % 10) as nat))
    });
}

/// What one pull line means.
pub open spec fn pull_line_event(line: Seq<char>) -> Option<PullLineView> {
    pull_event(
        json_field_at(line, "/error"@),
        json_field_at(line, "/status"@),
        json_field_at(line, "/completed"@),
        json_field_at(line, "/total"@),
    )
}

/// Parse one NDJSON line from an Ollama pull stream.
pub fn parse_pull_line(line: &str) -> (result: Option<PullLine>)
    ensures
        opt_pull_view(result) == pull_line_event(line@),
{
    let error = json_field(line, "/error");
    let status = json_field(line, "/status");
    let completed = json_field(line, "/completed");
    let total = json_field(line, "/total");
    classify_pull_line(error, status, completed, total)
}

/// What draining a pull buffer yields: the buffer left and the first event,
/// skipping blank and unreadable lines.
pub open spec fn drained_pull(buf: Seq<char>) -> (Seq<char>, Option<PullLineView>)
    decreases buf.len(),
{
    match first_newline(buf) {
        None => (buf, None),
        Some(p) => {
            proof {
                lemma_first_newline_from(buf, 0);
            }
            let line = trim(buf.take(p));
            let rest = buf.skip(p + 1);
            if line.len() == 0 {
                drained_pull(rest)
            } else {
                match pull_line_event(line) {
                    Some(event) => (rest, Some(event)),
                    None => drained_pull(rest),
                }
            }
        },
    }
}

/// Consume complete lines from a pull stream buffer, returning the first event.
pub fn drain_pull_line(buffer: &mut String) -> (result: Option<PullLine>)
    ensures
        (final(buffer)@, opt_pull_view(result)) == drained_pull(old(buffer)@),
{
    let s = chars_of(buffer.as_str());
    let ghost whole = s@;
    let mut pos: usize = 0;
    assert(s@.skip(0) == s@);
    loop
        invariant
            pos <= s.len(),
            s@ == whole,
            whole == old(buffer)@,
            drained_pull(whole) == drained_pull(whole.skip(pos as int)),
        decreases s.len() - pos,
    {
        let ghost cur = whole.skip(pos as int);
        proof {
            lemma_newline_shift(whole, pos as int, 0);
        }
        match find_newline(&s, pos) {
            None => {
                let rest = slice_chars(&s, pos, s.len());
                assert(rest@ == cur);
                *buffer = string_of(rest.as_slice());
                return None;
            },
            Some(p) => {
                proof {
                    lemma_first_newline_from(whole, pos as int);
                }
                let line = trimmed_slice(&s, pos, p);
                assert(cur.take(p - pos) == whole.subrange(pos as int, p as int));
                assert(cur.skip(p - pos + 1) == whole.skip(p + 1));
                if line.as_str().is_empty() {
                    pos = p + 1;
                } else {
                    match parse_pull_line(line.as_str()) {
                        Some(event) => {
                            let rest = slice_chars(&s, p + 1, s.len());
                            *buffer = string_of(rest.as_slice());
                            return Some(event);
                        },
                        None => {
                            pos = p + 1;
                        },
                    }
                }
            },
        }
    }
}

} // verus!

verus! {

/// Maximum duration (seconds) for a complete HTTP request to the server.
pub const HTTP_TIMEOUT_SECONDS: u64 = 600;

/// Maximum time (seconds) to wait for the TCP handshake with the server.
pub const CONNECT_TIMEOUT_SECONDS: u64 = 5;

/// How long Ollama should keep the model resident after a request.
pub const KEEP_ALIVE: &'static str = "30m";

/// API path for listing installed model tags (`GET /api/tags`).
pub const API_TAGS_PATH: &'static str = "/api/tags";

/// API path for retrieving model metadata (`POST /api/show`).
pub const API_SHOW_PATH: &'static str = "/api/show";

/// API path for chat completions (`POST /api/chat`).
pub const API_CHAT_PATH: &'static str = "/api/chat";

/// API path for pulling a model (`POST /api/pull`).
pub const API_PULL_PATH: &'static str = "/api/pull";

/// `url` without its trailing slashes.
pub open spec fn without_trailing_slashes(url: Seq<char>) -> Seq<char>
    decreases url.len(),
{
    if url.len() > 0 && url.last() == '/' {
        without_trailing_slashes(url.drop_last())
    } else {
        url
    }
}

/// The server address a client uses: the given URL with every trailing
/// slash removed.
pub fn base_url_of(url: &str) -> (result: String)
    ensures
        result@ == without_trailing_slashes(url@),
{
    let mut c = chars_of(url);
    while c.len() > 0 && c[c.len() - 1] == '/'
        invariant
            without_trailing_slashes(c@) == without_trailing_slashes(url@),
        decreases c.len(),
    {
        let ghost before = c@;
        c.pop();
        assert(c@ == before.drop_last());
    }
    string_of(c.as_slice())
}

/// The URL of an API endpoint on the server at `base_url`.
pub fn endpoint_url(base_url: &str, path: &str) -> (result: String)
    ensures
        result@ == base_url@ + path@,
{
    let mut out: Vec<char> = Vec::new();
    push_str(&mut out, base_url);
    push_str(&mut out, path);
    string_of(out.as_slice())
}

} // verus!

verus! {

/// The message shown when a pull starts.
pub open spec fn pull_start_message(name: Seq<char>) -> Seq<char> {
    "⬇️  Pulling model '"@ + name + "' from Ollama registry..."@
}

/// The message shown when a pull starts.
pub fn pull_start_text(name: &str) -> (result: String)
    ensures
        result@ == pull_start_message(name@),
{
    let mut out: Vec<char> = Vec::new();
    push_str(&mut out, "⬇️  Pulling model '");
    push_str(&mut out, name);
    push_str(&mut out, "' from Ollama registry...");
    string_of(out.as_slice())
}

/// The message shown when a pull finishes: the reply's `status` when it is a
/// string, else "done".
pub open spec fn pull_finished_message(status: JsonFieldView) -> Seq<char> {
    "✅ Pull finished: "@ + match status {
        JsonFieldView::Text(s) => s,
        _ => "done"@,
    }
}

/// The message shown when a pull finishes, from the reply's `status` field.
pub fn pull_finished_from(status: JsonField) -> (result: String)
    ensures
        result@ == pull_finished_message(status@),
{
    let mut out: Vec<char> = Vec::new();
    push_str(&mut out, "✅ Pull finished: ");
    match status {
        JsonField::Text(s) => push_str(&mut out, s.as_str()),
        _ => push_str(&mut out, "done"),
    }
    string_of(out.as_slice())
}

/// The message shown when a pull finishes, from the raw JSON reply.
pub fn pull_finished_text(reply: &str) -> (result: String)
    ensures
        result@ == pull_finished_message(json_field_at(reply@, "/status"@)),
{
    pull_finished_from(json_field(reply, "/status"))
}

} // verus!
