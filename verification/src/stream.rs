//! Incremental extraction of JSON string fields from a streaming model reply.
//!
//! The model streams a JSON object such as `{"thought":"...","answer":"..."}`.
//! On every new token the accumulated buffer is scanned for the top-level
//! `thought` and `answer` string fields, so their text can be shown while it
//! arrives. Only keys of the root object count: a key nested inside
//! `tool.arguments`, text inside a string value, or a string value of the
//! root object (one not followed by `:`) never matches.

use crate::chars::{
    char_from_u32, chars_of, hex_digit_value, hex_value, is_hex_digit, matches_at, occurs_at,
    is_whitespace, leading_ws, skip_ws, str_eq, string_of, trim_start,
};
use crate::text::{byte_len, byte_offset, lemma_encode_concat};
use vstd::prelude::*;

verus! {

/// Scanner state before a character: brace depth, inside a string, and
/// whether the previous character was a backslash inside a string.
pub type ScanState = (nat, bool, bool);

/// One step of the scanner over character `c`.
pub open spec fn scan_step(st: ScanState, c: char) -> ScanState {
    let (depth, in_string, escaped) = st;
    if escaped {
        (depth, in_string, false)
    } else if in_string {
        if c == '\\' {
            (depth, true, true)
        } else if c == '"' {
            (depth, false, false)
        } else {
            st
        }
    } else if c == '"' {
        (depth, true, false)
    } else if c == '{' {
        (depth + 1, false, false)
    } else if c == '}' {
        (if depth > 0 { (depth - 1) as nat } else { 0 }, false, false)
    } else {
        st
    }
}

/// Scanner state after the first `i` characters of `buf`.
pub open spec fn scan_state(buf: Seq<char>, i: int) -> ScanState
    decreases i,
{
    if i <= 0 || i > buf.len() {
        (0, false, false)
    } else {
        scan_step(scan_state(buf, i - 1), buf[i - 1])
    }
}

/// `"key"`: the key between double quotes.
pub open spec fn quoted(key: Seq<char>) -> Seq<char> {
    seq!['"'] + key + seq!['"']
}

/// After the quoted key at `i` come only whitespace and then `:`, or the end
/// of the buffer: the quoted text is an object key (or may still become one).
pub open spec fn followed_by_colon(buf: Seq<char>, key: Seq<char>, i: int) -> bool {
    let after = trim_start(buf.skip(i + key.len() + 2));
    after.len() == 0 || after[0] == ':'
}

/// The quoted key starts at index `i`, outside any string, directly inside
/// the root object, and is used as a key there.
pub open spec fn toplevel_key_at(buf: Seq<char>, key: Seq<char>, i: int) -> bool {
    let st = scan_state(buf, i);
    &&& 0 <= i < buf.len()
    &&& st.0 == 1
    &&& !st.1
    &&& !st.2
    &&& occurs_at(buf, quoted(key), i)
    &&& followed_by_colon(buf, key, i)
}

/// First index at or after `i` where the key occurs at top level.
pub open spec fn first_toplevel_key_from(buf: Seq<char>, key: Seq<char>, i: int) -> Option<int>
    decreases buf.len() - i,
{
    if i < 0 || i >= buf.len() {
        None
    } else if toplevel_key_at(buf, key, i) {
        Some(i)
    } else {
        first_toplevel_key_from(buf, key, i + 1)
    }
}

/// Character position of the first top-level occurrence of the key.
pub open spec fn toplevel_key_pos(buf: Seq<char>, key: Seq<char>) -> Option<int> {
    first_toplevel_key_from(buf, key, 0)
}

/// Byte position (in the UTF-8 encoding) of the first top-level occurrence
/// of the key.
pub open spec fn toplevel_key_byte_pos(buf: Seq<char>, key: Seq<char>) -> Option<int> {
    match toplevel_key_pos(buf, key) {
        Some(p) => Some(byte_len(buf.take(p)) as int),
        None => None,
    }
}

/// `first_toplevel_key_from` finds a top-level occurrence and skips none.
pub proof fn lemma_first_key_from(buf: Seq<char>, key: Seq<char>, i: int)
    requires
        0 <= i,
    ensures
        first_toplevel_key_from(buf, key, i) matches Some(j) ==> i <= j && toplevel_key_at(
            buf,
            key,
            j,
        ) && forall|k: int| i <= k < j ==> !toplevel_key_at(buf, key, k),
        first_toplevel_key_from(buf, key, i) is None ==> forall|k: int|
            i <= k ==> !toplevel_key_at(buf, key, k),
    decreases buf.len() - i,
{
    if i < buf.len() && !toplevel_key_at(buf, key, i) {
        lemma_first_key_from(buf, key, i + 1);
    }
}

/// A top-level key occurrence lies inside the buffer.
proof fn lemma_key_fits(buf: Seq<char>, key: Seq<char>, i: int)
    requires
        toplevel_key_at(buf, key, i),
    ensures
        i + key.len() + 2 <= buf.len(),
{
    assert(quoted(key).len() == key.len() + 2);
}

/// Scan `buf` for the key; the result is its character position.
fn toplevel_key_index(buf: &Vec<char>, key: &Vec<char>) -> (result: Option<usize>)
    ensures
        match result {
            Some(i) => toplevel_key_pos(buf@, key@) == Some(i as int),
            None => toplevel_key_pos(buf@, key@) is None,
        },
{
    let mut pattern: Vec<char> = Vec::new();
    pattern.push('"');
    let mut m: usize = 0;
    while m < key.len()
        invariant
            0 <= m <= key.len(),
            pattern@ == seq!['"'] + key@.take(m as int),
        decreases key.len() - m,
    {
        pattern.push(key[m]);
        m += 1;
        assert(key@.take(m as int) == key@.take(m - 1).push(key@[m - 1]));
    }
    pattern.push('"');
    assert(key@.take(key.len() as int) == key@);
    assert(pattern@ == quoted(key@));
    let mut depth: usize = 0;
    let mut in_string = false;
    let mut escaped = false;
    let mut index: usize = 0;
    while index < buf.len()
        invariant
            0 <= index <= buf.len(),
            pattern@ == quoted(key@),
            depth <= index,
            scan_state(buf@, index as int) == (depth as nat, in_string, escaped),
            first_toplevel_key_from(buf@, key@, 0) == first_toplevel_key_from(
                buf@,
                key@,
                index as int,
            ),
        decreases buf.len() - index,
    {
        let c = buf[index];
        assert(scan_state(buf@, index + 1) == scan_step(scan_state(buf@, index as int), c));
        if escaped {
            escaped = false;
        } else if in_string {
            if c == '\\' {
                escaped = true;
            } else if c == '"' {
                in_string = false;
            }
        } else if c == '"' {
            if depth == 1 && matches_at(buf, &pattern, index) {
                let after = index + pattern.len();
                let next = skip_ws(buf, after);
                assert(after == index + key@.len() + 2);
                assert(buf@.skip(next as int).len() == buf.len() - next);
                if next >= buf.len() || buf[next] == ':' {
                    assert(toplevel_key_at(buf@, key@, index as int));
                    return Some(index);
                }
                assert(!followed_by_colon(buf@, key@, index as int));
            }
            in_string = true;
        } else if c == '{' {
            depth += 1;
        } else if c == '}' {
            depth = if depth > 0 {
                depth - 1
            } else {
                0
            };
        }
        proof {
            if toplevel_key_at(buf@, key@, index as int) {
                assert(buf@.subrange(index as int, index + pattern@.len())[0] == pattern@[0]);
            }
        }
        index += 1;
    }
    None
}

/// Find the position of a key at the top level of a (possibly partial) JSON
/// object.
///
/// Tracks brace depth and string boundaries, so a key nested inside another
/// object, or the same text inside a string value, does not match. A quoted
/// string directly inside the root object counts only as a key: followed by
/// optional whitespace and `:`, or by the end of the buffer (the colon may not
/// have arrived yet). The position is the byte offset of the key's opening
/// quote.
pub fn find_toplevel_key(buffer: &str, key: &str) -> (result: Option<usize>)
    ensures
        match result {
            Some(i) => toplevel_key_byte_pos(buffer@, key@) == Some(i as int),
            None => toplevel_key_byte_pos(buffer@, key@) is None,
        },
{
    let byte_count = buffer.as_bytes().len();
    assert(byte_count == byte_len(buffer@));
    let buf = chars_of(buffer);
    let k = chars_of(key);
    match toplevel_key_index(&buf, &k) {
        Some(i) => {
            proof {
                lemma_first_key_from(buf@, k@, 0);
            }
            Some(byte_offset(&buf, i))
        },
        None => None,
    }
}

/// The raw text of a JSON string value whose opening quote has been consumed,
/// up to its closing quote or the end of the buffer, and whether the closing
/// quote was seen. Escapes are kept as written; a lone trailing backslash is
/// dropped.
pub open spec fn string_body(s: Seq<char>) -> (Seq<char>, bool)
    decreases s.len(),
{
    if s.len() == 0 {
        (seq![], false)
    } else if s[0] == '\\' {
        if s.len() == 1 {
            (seq![], false)
        } else {
            let rest = string_body(s.skip(2));
            (seq!['\\', s[1]] + rest.0, rest.1)
        }
    } else if s[0] == '"' {
        (seq![], true)
    } else {
        let rest = string_body(s.skip(1));
        (seq![s[0]] + rest.0, rest.1)
    }
}

/// What `extract_json_string(buf, key)` returns: the raw value so far of the
/// top-level string field `key`, and whether it is complete. `None` when the
/// key is not at top level, or is not followed by `:` and an opening quote
/// (whitespace allowed around the colon).
pub open spec fn extracted(buf: Seq<char>, key: Seq<char>) -> Option<(Seq<char>, bool)> {
    match toplevel_key_pos(buf, key) {
        None => None,
        Some(start) => {
            let after = trim_start(buf.skip(start + key.len() + 2));
            if after.len() > 0 && after[0] == ':' {
                let value = trim_start(after.skip(1));
                if value.len() > 0 && value[0] == '"' {
                    Some(string_body(value.skip(1)))
                } else {
                    None
                }
            } else {
                None
            }
        },
    }
}

/// Read the body of a string value starting at `from`.
fn scan_string_body(buf: &Vec<char>, from: usize) -> (result: (Vec<char>, bool))
    requires
        from <= buf.len(),
    ensures
        (result.0@, result.1) == string_body(buf@.skip(from as int)),
{
    let mut out: Vec<char> = Vec::new();
    let mut i = from;
    while i < buf.len()
        invariant
            from <= i <= buf.len(),
            string_body(buf@.skip(from as int)) == (out@ + string_body(buf@.skip(i as int)).0,
            string_body(buf@.skip(i as int)).1),
        decreases buf.len() - i,
    {
        let c = buf[i];
        let ghost rest = buf@.skip(i as int);
        if c == '\\' {
            if i + 1 < buf.len() {
                assert(rest.skip(2) == buf@.skip(i + 2));
                out.push('\\');
                out.push(buf[i + 1]);
                assert(out@ + string_body(buf@.skip(i + 2)).0 == (out@.take(out@.len() - 2)
                    + string_body(rest).0)) by {
                    assert(out@.take(out@.len() - 2) + seq!['\\', buf@[i + 1]] == out@);
                }
                i += 2;
            } else {
                assert(string_body(rest) == (Seq::<char>::empty(), false));
                assert(string_body(buf@.skip(buf.len() as int)) == (Seq::<char>::empty(), false));
                assert(out@ + Seq::<char>::empty() == out@);
                return (out, false);
            }
        } else if c == '"' {
            assert(out@ + Seq::<char>::empty() == out@);
            return (out, true);
        } else {
            assert(rest.skip(1) == buf@.skip(i + 1));
            out.push(c);
            assert(out@ + string_body(buf@.skip(i + 1)).0 == (out@.drop_last() + string_body(
                rest,
            ).0)) by {
                assert(out@.drop_last() + seq![c] == out@);
            }
            i += 1;
        }
    }
    assert(out@ + Seq::<char>::empty() == out@);
    (out, false)
}

/// Extract the current value of a top-level JSON string field from a partial
/// JSON buffer.
///
/// Returns `(value_so_far, is_complete)`; escapes in the value are kept as
/// written.
pub fn extract_json_string(buffer: &str, key: &str) -> (result: Option<(String, bool)>)
    ensures
        match result {
            Some((text, complete)) => extracted(buffer@, key@) == Some((text@, complete)),
            None => extracted(buffer@, key@) is None,
        },
{
    let buf = chars_of(buffer);
    let k = chars_of(key);
    let start = match toplevel_key_index(&buf, &k) {
        Some(start) => start,
        None => return None,
    };
    proof {
        lemma_first_key_from(buf@, k@, 0);
        assert(toplevel_key_at(buf@, k@, start as int));
        assert(quoted(k@).len() == k@.len() + 2);
        lemma_key_fits(buf@, k@, start as int);
        assert(start + k@.len() + 2 <= buf@.len());
    }
    assert(k.len() == k@.len());
    assert(start + k.len() + 2 <= buf.len());
    let after = start + k.len() + 2;
    let colon = skip_ws(&buf, after);
    if colon >= buf.len() || buf[colon] != ':' {
        return None;
    }
    let quote = skip_ws(&buf, colon + 1);
    assert(buf@.skip(colon as int).skip(1) == buf@.skip(colon + 1));
    if quote >= buf.len() || buf[quote] != '"' {
        return None;
    }
    assert(buf@.skip(quote as int).skip(1) == buf@.skip(quote + 1));
    let (body, complete) = scan_string_body(&buf, quote + 1);
    Some((string_of(body.as_slice()), complete))
}

} // verus!

verus! {

/// The characters a simple JSON escape `\c` stands for; an unknown escape is
/// kept as written.
pub open spec fn simple_escape(c: char) -> Seq<char> {
    if c == 'n' {
        seq!['\n']
    } else if c == 'r' {
        seq!['\r']
    } else if c == 't' {
        seq!['\t']
    } else if c == '\\' {
        seq!['\\']
    } else if c == '"' {
        seq!['"']
    } else if c == '/' {
        seq!['/']
    } else if c == 'b' {
        seq!['\u{8}']
    } else if c == 'f' {
        seq!['\u{c}']
    } else {
        seq!['\\', c]
    }
}

/// The four hexadecimal digits at the start of `s` form a complete `\u` code.
pub open spec fn hex4_at(s: Seq<char>) -> bool {
    s.len() >= 4 && is_hex_digit(s[0]) && is_hex_digit(s[1]) && is_hex_digit(s[2])
        && is_hex_digit(s[3])
}

/// Value of the four hexadecimal digits at the start of `s`.
pub open spec fn hex4_value(s: Seq<char>) -> nat {
    ((hex_value(s[0]) * 16 + hex_value(s[1])) * 16 + hex_value(s[2])) * 16 + hex_value(s[3])
}

/// JSON string escapes decoded for display. A trailing backslash or an
/// incomplete `\uXXXX` escape ends the text, so that streaming never shows
/// half an escape; a `\u` code that is not a Unicode scalar is dropped.
pub open spec fn unescaped(s: Seq<char>) -> Seq<char>
    decreases s.len(),
{
    if s.len() == 0 {
        seq![]
    } else if s[0] != '\\' {
        seq![s[0]] + unescaped(s.skip(1))
    } else if s.len() == 1 {
        seq![]
    } else if s[1] == 'u' {
        if hex4_at(s.skip(2)) {
            let code = hex4_value(s.skip(2));
            (if vstd::utf8::is_scalar(code as u32) {
                seq![(code as u32) as char]
            } else {
                seq![]
            }) + unescaped(s.skip(6))
        } else {
            seq![]
        }
    } else {
        simple_escape(s[1]) + unescaped(s.skip(2))
    }
}

/// Unescape a JSON string value for terminal display.
///
/// `\n`, `\r`, `\t`, `\\`, `\"`, `\/`, `\b`, `\f` and `\uXXXX` become the
/// characters they stand for; an unknown escape is kept literally; a trailing
/// backslash or an incomplete `\u` escape is left pending (dropped).
pub fn unescape_json_string(raw: &str) -> (result: String)
    ensures
        result@ == unescaped(raw@),
{
    let s = chars_of(raw);
    let mut out: Vec<char> = Vec::new();
    let mut i: usize = 0;
    let mut stop = false;
    assert(raw@.skip(0) == raw@);
    while i < s.len() && !stop
        invariant
            0 <= i <= s.len(),
            s@ == raw@,
            unescaped(raw@) == out@ + unescaped(raw@.skip(i as int)),
            stop ==> unescaped(raw@.skip(i as int)) == Seq::<char>::empty(),
        decreases s.len() - i + (if stop { 0int } else { 1int }),
    {
        let c = s[i];
        let ghost rest = raw@.skip(i as int);
        let ghost before = out@;
        if c != '\\' {
            out.push(c);
            assert(rest.skip(1) == raw@.skip(i + 1));
            assert(before + (seq![c] + unescaped(rest.skip(1))) == out@ + unescaped(rest.skip(1)));
            i += 1;
        } else if i + 1 >= s.len() {
            assert(unescaped(rest) == Seq::<char>::empty());
            stop = true;
        } else {
            let e = s[i + 1];
            if e == 'u' {
                let ghost hex = rest.skip(2);
                assert(hex == raw@.skip(i + 2));
                if s.len() - (i + 2) >= 4 && is_hex_digit_exec(s[i + 2]) && is_hex_digit_exec(
                    s[i + 3],
                ) && is_hex_digit_exec(s[i + 4]) && is_hex_digit_exec(s[i + 5]) {
                    let code: u32 = ((hex_digit_value(s[i + 2]) * 16 + hex_digit_value(s[i + 3]))
                        * 16 + hex_digit_value(s[i + 4])) * 16 + hex_digit_value(s[i + 5]);
                    assert(code as nat == hex4_value(hex));
                    match char_from_u32(code) {
                        Some(ch) => out.push(ch),
                        None => {},
                    }
                    assert(rest.skip(6) == raw@.skip(i + 6));
                    i += 6;
                } else {
                    assert(!hex4_at(hex));
                    assert(unescaped(rest) == Seq::<char>::empty());
                    stop = true;
                }
            } else {
                let mapped: char = if e == 'n' {
                    '\n'
                } else if e == 'r' {
                    '\r'
                } else if e == 't' {
                    '\t'
                } else if e == '\\' {
                    '\\'
                } else if e == '"' {
                    '"'
                } else if e == '/' {
                    '/'
                } else if e == 'b' {
                    '\u{8}'
                } else if e == 'f' {
                    '\u{c}'
                } else {
                    '\\'
                };
                out.push(mapped);
                if mapped == '\\' && e != '\\' {
                    out.push(e);
                }
                assert(out@ == before + simple_escape(e));
                assert(rest.skip(2) == raw@.skip(i + 2));
                i += 2;
            }
        }
    }
    assert(unescaped(raw@.skip(i as int)) == Seq::<char>::empty());
    assert(out@ + Seq::<char>::empty() == out@);
    string_of(out.as_slice())
}

/// `char::is_ascii_hexdigit`.
fn is_hex_digit_exec(c: char) -> (result: bool)
    ensures
        result == is_hex_digit(c),
{
    ('0' <= c && c <= '9') || ('a' <= c && c <= 'f') || ('A' <= c && c <= 'F')
}

} // verus!

verus! {

/// ANSI prefix printed before streamed reasoning.
pub const THOUGHT_PREFIX: &'static str = "\x1b[36m🧠 \x1b[0m";

/// ANSI prefix printed before a streamed final answer.
pub const ANSWER_PREFIX: &'static str = "\x1b[32m✅\x1b[0m ";

/// Lifecycle of a single JSON string field while its value is being streamed.
#[derive(Debug, Clone, Copy, PartialEq, Eq, Structural)]
pub enum FieldState {
    /// Still receiving characters; the closing quote has not been seen.
    Active,
    /// The field is hidden (thinking disabled) or shadowed by a tool call.
    Skipped,
    /// The closing quote was seen; no more text will arrive.
    Complete,
}

/// Output produced while streaming a field.
#[derive(Debug, PartialEq, Eq)]
pub enum StreamOutput {
    /// Text appended to the current live line.
    Chunk(String),
    /// One complete line.
    Line(String),
}

/// Model of a [`StreamOutput`].
pub enum OutputView {
    /// Text appended to the current live line.
    Chunk(Seq<char>),
    /// One complete line.
    Line(Seq<char>),
}

impl View for StreamOutput {
    type V = OutputView;

    open spec fn view(&self) -> OutputView {
        match self {
            StreamOutput::Chunk(s) => OutputView::Chunk(s@),
            StreamOutput::Line(s) => OutputView::Line(s@),
        }
    }
}

/// The models of a list of outputs.
pub open spec fn outputs_view(v: Seq<StreamOutput>) -> Seq<OutputView> {
    v.map_values(|o: StreamOutput| o@)
}

/// Visual prefix for a field key.
pub open spec fn prefix_for(key: Seq<char>) -> Seq<char> {
    if key == "thought"@ {
        THOUGHT_PREFIX@
    } else if key == "answer"@ {
        ANSWER_PREFIX@
    } else {
        seq![]
    }
}

/// What `str::len` returns for a string with these characters.
pub open spec fn str_len(s: Seq<char>) -> usize {
    vstd::utf8::encode_utf8(s).len() as usize
}

/// The characters of `s` from byte offset `from` of its UTF-8 encoding on.
pub open spec fn byte_suffix(s: Seq<char>, from: int) -> Seq<char> {
    let bytes = vstd::utf8::encode_utf8(s);
    vstd::utf8::decode_utf8(bytes.subrange(from, bytes.len() as int))
}

/// A stream tracker's model: lifecycle, whether the prefix was printed, and
/// how many bytes of the field's text were forwarded.
pub type TrackerModel = (FieldState, bool, usize);

/// What feeding `buf` to a tracker for field `key` in state `m` does: the
/// next state and the outputs, in order.
pub open spec fn fed(key: Seq<char>, m: TrackerModel, buf: Seq<char>) -> (
    TrackerModel,
    Seq<OutputView>,
) {
    let (state, has_prefix, printed) = m;
    if state != FieldState::Active {
        (m, seq![])
    } else if toplevel_key_pos(buf, "tool"@) is Some && toplevel_key_pos(buf, key) is None {
        ((FieldState::Skipped, has_prefix, printed), seq![])
    } else {
        match extracted(buf, key) {
            None => (m, seq![]),
            Some((raw, complete)) => {
                let text = unescaped(raw);
                let prefix_out = if !has_prefix && text.len() > 0 {
                    seq![OutputView::Chunk(prefix_for(key))]
                } else {
                    seq![]
                };
                let len = str_len(text);
                let grows = len > printed && vstd::utf8::is_char_boundary(
                    vstd::utf8::encode_utf8(text),
                    printed as int,
                );
                let text_out = if grows {
                    seq![OutputView::Chunk(byte_suffix(text, printed as int))]
                } else {
                    seq![]
                };
                let end_out = if complete {
                    seq![OutputView::Line(seq![])]
                } else {
                    seq![]
                };
                (
                    (
                        if complete {
                            FieldState::Complete
                        } else {
                            FieldState::Active
                        },
                        has_prefix || text.len() > 0,
                        if grows {
                            len
                        } else {
                            printed
                        },
                    ),
                    prefix_out + text_out + end_out,
                )
            },
        }
    }
}

/// Tracks incremental extraction of a JSON string field from a streaming buffer.
pub struct StreamState {
    /// JSON key being extracted (e.g. "thought" or "answer").
    pub key: &'static str,
    /// Current lifecycle state of this field.
    pub state: FieldState,
    /// Whether the visual prefix (emoji + label) has been emitted.
    pub has_printed_prefix: bool,
    /// Number of bytes of the field's text already forwarded.
    pub printed_length: usize,
}

impl StreamState {
    /// The tracker's model.
    pub open spec fn model(&self) -> TrackerModel {
        (self.state, self.has_printed_prefix, self.printed_length)
    }

    /// Create a new stream tracker for the given JSON key.
    ///
    /// A `"thought"` tracker created with `enabled == false` starts skipped.
    pub fn new(key: &'static str, enabled: bool) -> (result: Self)
        ensures
            result.key == key,
            result.state == (if key@ == "thought"@ && !enabled {
                FieldState::Skipped
            } else {
                FieldState::Active
            }),
            !result.has_printed_prefix,
            result.printed_length == 0,
    {
        let state = if str_eq(key, "thought") && !enabled {
            FieldState::Skipped
        } else {
            FieldState::Active
        };
        StreamState { key, state, has_printed_prefix: false, printed_length: 0 }
    }

    /// Visual prefix (emoji + label) for this field's output.
    pub fn prefix(&self) -> (result: String)
        ensures
            result@ == prefix_for(self.key@),
    {
        if str_eq(self.key, "thought") {
            String::from_str(THOUGHT_PREFIX)
        } else if str_eq(self.key, "answer") {
            String::from_str(ANSWER_PREFIX)
        } else {
            String::new()
        }
    }

    /// Whether any text was forwarded for this field.
    pub fn did_print(&self) -> (result: bool)
        ensures
            result == self.has_printed_prefix,
    {
        self.has_printed_prefix
    }

    /// Feed a new buffer snapshot; returns the text to forward, in order.
    ///
    /// Nothing happens once the field is skipped or complete. When the buffer
    /// shows a top-level `tool` key and not this field, the field is skipped
    /// (the model is calling a tool). Otherwise the newly arrived part of the
    /// unescaped field text is returned, after the prefix the first time, and
    /// an empty line once the closing quote arrives.
    pub fn feed(&mut self, buffer: &str) -> (outputs: Vec<StreamOutput>)
        ensures
            final(self).key == old(self).key,
            (final(self).model(), outputs_view(outputs@)) == fed(
                old(self).key@,
                old(self).model(),
                buffer@,
            ),
    {
        let mut outputs: Vec<StreamOutput> = Vec::new();
        match self.state {
            FieldState::Skipped | FieldState::Complete => {
                assert(outputs_view(outputs@) =~= Seq::<OutputView>::empty());
                return outputs;
            },
            FieldState::Active => {},
        }
        if find_toplevel_key(buffer, "tool").is_some() && find_toplevel_key(
            buffer,
            self.key,
        ).is_none() {
            self.state = FieldState::Skipped;
            assert(outputs_view(outputs@) =~= Seq::<OutputView>::empty());
            return outputs;
        }
        let ghost m0 = self.model();
        match extract_json_string(buffer, self.key) {
            None => {
                assert(outputs_view(outputs@) =~= Seq::<OutputView>::empty());
            },
            Some((raw, complete)) => {
                let text = unescape_json_string(raw.as_str());
                let nonempty = !text.as_str().is_empty();
                let ghost key = self.key@;
                let ghost prefix_out = if !m0.1 && text@.len() > 0 {
                    seq![OutputView::Chunk(prefix_for(key))]
                } else {
                    Seq::<OutputView>::empty()
                };
                if !self.has_printed_prefix && nonempty {
                    outputs.push(StreamOutput::Chunk(self.prefix()));
                    self.has_printed_prefix = true;
                }
                assert(outputs_view(outputs@) =~= prefix_out);
                let ghost mid = outputs@;
                let len = text.as_str().len();
                let ghost grows = len > m0.2 && vstd::utf8::is_char_boundary(
                    vstd::utf8::encode_utf8(text@),
                    m0.2 as int,
                );
                let ghost text_out = if grows {
                    seq![OutputView::Chunk(byte_suffix(text@, m0.2 as int))]
                } else {
                    Seq::<OutputView>::empty()
                };
                if len > self.printed_length && text.as_str().is_char_boundary(self.printed_length) {
                    let (_, tail) = text.as_str().split_at(self.printed_length);
                    proof {
                        vstd::utf8::encode_utf8_decode_utf8(tail@);
                    }
                    let piece = tail.to_owned();
                    assert(piece@ == byte_suffix(text@, m0.2 as int));
                    outputs.push(StreamOutput::Chunk(piece));
                    self.printed_length = len;
                }
                assert(outputs_view(outputs@) =~= prefix_out + text_out);
                if complete {
                    self.state = FieldState::Complete;
                    outputs.push(StreamOutput::Line(String::new()));
                }
                assert(outputs_view(outputs@) =~= prefix_out + text_out + (if complete {
                    seq![OutputView::Line(Seq::<char>::empty())]
                } else {
                    Seq::<OutputView>::empty()
                }));
            },
        }
        outputs
    }
}

} // verus!

verus! {

/// Law: a skipped or completed field stays as it is and forwards nothing,
/// whatever arrives; an active field's forwarded byte count never shrinks
/// and its prefix, once printed, stays printed.
pub proof fn feeding_is_monotone(key: Seq<char>, m: TrackerModel, buf: Seq<char>)
    ensures
        m.0 != FieldState::Active ==> fed(key, m, buf) == (m, Seq::<OutputView>::empty()),
        fed(key, m, buf).0.2 >= m.2,
        m.1 ==> fed(key, m, buf).0.1,
        m.0 == FieldState::Complete ==> fed(key, m, buf).0.0 == FieldState::Complete,
{
}

/// The scanner reads a prefix the same way in a longer buffer.
proof fn lemma_scan_prefix(b1: Seq<char>, b2: Seq<char>, i: int)
    requires
        b1.is_prefix_of(b2),
        0 <= i <= b1.len(),
    ensures
        scan_state(b1, i) == scan_state(b2, i),
    decreases i,
{
    if i > 0 {
        lemma_scan_prefix(b1, b2, i - 1);
        assert(b1[i - 1] == b2[i - 1]);
    }
}

/// Leading whitespace that stops inside a prefix stops at the same place in
/// the longer text.
proof fn lemma_leading_ws_prefix(x1: Seq<char>, x2: Seq<char>)
    requires
        x1.is_prefix_of(x2),
        leading_ws(x1) < x1.len(),
    ensures
        leading_ws(x2) == leading_ws(x1),
    decreases x1.len(),
{
    assert(x1[0] == x2[0]);
    if is_whitespace(x1[0]) {
        assert(x1.skip(1).is_prefix_of(x2.skip(1))) by {
            assert(x2.skip(1).subrange(0, x1.skip(1).len() as int) =~= x1.skip(1));
        }
        lemma_leading_ws_prefix(x1.skip(1), x2.skip(1));
    }
}

/// The suffixes from `j` of a prefix and of the longer text are again a
/// prefix and its extension.
proof fn lemma_skip_prefix(b1: Seq<char>, b2: Seq<char>, j: int)
    requires
        b1.is_prefix_of(b2),
        0 <= j <= b1.len(),
    ensures
        b1.skip(j).is_prefix_of(b2.skip(j)),
{
    assert(b2.skip(j).subrange(0, b1.skip(j).len() as int) =~= b1.skip(j));
}

/// The text after the character at `j` starts, past its whitespace, with the
/// same character in the prefix and in the longer text, when the prefix has
/// one there.
proof fn lemma_trim_start_prefix(b1: Seq<char>, b2: Seq<char>, j: int)
    requires
        b1.is_prefix_of(b2),
        0 <= j <= b1.len(),
        trim_start(b1.skip(j)).len() > 0,
    ensures
        leading_ws(b2.skip(j)) == leading_ws(b1.skip(j)),
        trim_start(b2.skip(j)).len() > 0,
        trim_start(b2.skip(j))[0] == trim_start(b1.skip(j))[0],
        b1.skip(j + leading_ws(b1.skip(j))) == trim_start(b1.skip(j)),
        b2.skip(j + leading_ws(b1.skip(j))) == trim_start(b2.skip(j)),
{
    lemma_skip_prefix(b1, b2, j);
    crate::chars::lemma_leading_ws_bound(b1.skip(j));
    lemma_leading_ws_prefix(b1.skip(j), b2.skip(j));
    let w = leading_ws(b1.skip(j)) as int;
    assert(b1.skip(j).skip(w) =~= b1.skip(j + w));
    assert(b2.skip(j).skip(w) =~= b2.skip(j + w));
    assert(b2[j + w] == b1[j + w]);
}

/// A string body read from a prefix is a prefix of the one read from the
/// longer text, and a closed one is the same.
proof fn lemma_string_body_prefix(r1: Seq<char>, r2: Seq<char>)
    requires
        r1.is_prefix_of(r2),
    ensures
        string_body(r1).0.is_prefix_of(string_body(r2).0),
        string_body(r1).1 ==> string_body(r2) == string_body(r1),
    decreases r1.len(),
{
    if r1.len() > 0 {
        assert(r1[0] == r2[0]);
        if r1[0] == '\\' {
            if r1.len() > 1 {
                assert(r1[1] == r2[1]);
                lemma_skip_prefix(r1, r2, 2);
                lemma_string_body_prefix(r1.skip(2), r2.skip(2));
                let a = string_body(r1.skip(2)).0;
                let b = string_body(r2.skip(2)).0;
                assert((seq!['\\', r2[1]] + b).subrange(0, 2 + a.len() as int) =~= seq!['\\', r1[1]] + a);
            } else {
                assert(Seq::<char>::empty().is_prefix_of(string_body(r2).0));
            }
        } else if r1[0] == '"' {
        } else {
            lemma_skip_prefix(r1, r2, 1);
            lemma_string_body_prefix(r1.skip(1), r2.skip(1));
            let a = string_body(r1.skip(1)).0;
            let b = string_body(r2.skip(1)).0;
            assert((seq![r2[0]] + b).subrange(0, 1 + a.len() as int) =~= seq![r1[0]] + a);
        }
    } else {
        assert(Seq::<char>::empty().is_prefix_of(string_body(r2).0));
    }
}

/// The first top-level occurrence at or after `i` is `p` when the key is at
/// top level at `p` and nowhere between.
proof fn lemma_first_key_is(buf: Seq<char>, key: Seq<char>, i: int, p: int)
    requires
        0 <= i <= p,
        toplevel_key_at(buf, key, p),
        forall|k: int| i <= k < p ==> !toplevel_key_at(buf, key, k),
    ensures
        first_toplevel_key_from(buf, key, i) == Some(p),
    decreases p - i,
{
    if i < p {
        lemma_first_key_is(buf, key, i + 1, p);
    }
}

/// Law: extraction is stable under a growing buffer. Once a top-level string
/// field is found, a longer buffer that extends it finds the same field with
/// a value that extends the earlier one; a value already complete stays
/// complete and unchanged.
pub proof fn extraction_grows(b1: Seq<char>, b2: Seq<char>, key: Seq<char>)
    requires
        b1.is_prefix_of(b2),
        extracted(b1, key) is Some,
    ensures
        extracted(b2, key) is Some,
        extracted(b1, key).unwrap().0.is_prefix_of(extracted(b2, key).unwrap().0),
        extracted(b1, key).unwrap().1 ==> extracted(b2, key) == extracted(b1, key),
{
    let p = toplevel_key_pos(b1, key).unwrap();
    lemma_first_key_from(b1, key, 0);
    let l = key.len() + 2;
    assert(quoted(key).len() == l);
    // The key stays at top level at `p` in the longer buffer.
    lemma_scan_prefix(b1, b2, p);
    assert(b2.subrange(p, p + l) =~= b1.subrange(p, p + l));
    lemma_trim_start_prefix(b1, b2, p + l);
    assert(toplevel_key_at(b2, key, p));
    // And nowhere before it.
    assert forall|k: int| 0 <= k < p implies !toplevel_key_at(b2, key, k) by {
        assert(!toplevel_key_at(b1, key, k));
        lemma_scan_prefix(b1, b2, k);
        if k + l <= b1.len() {
            assert(b2.subrange(k, k + l) =~= b1.subrange(k, k + l));
        }
        if occurs_at(b1, quoted(key), k) && trim_start(b1.skip(k + l)).len() > 0 {
            lemma_trim_start_prefix(b1, b2, k + l);
        }
    }
    lemma_first_key_is(b2, key, 0, p);
    // The colon and the opening quote are the same characters.
    let w = leading_ws(b1.skip(p + l)) as int;
    let c = p + l + w;
    crate::chars::lemma_leading_ws_bound(b1.skip(p + l));
    assert(c < b1.len());
    assert(b1.skip(p + l + w) == trim_start(b1.skip(p + l)));
    let after1 = trim_start(b1.skip(p + l));
    let after2 = trim_start(b2.skip(p + l));
    assert(after1.skip(1) =~= b1.skip(c + 1));
    assert(after2.skip(1) =~= b2.skip(c + 1));
    lemma_trim_start_prefix(b1, b2, c + 1);
    let v = leading_ws(b1.skip(c + 1)) as int;
    let q = c + 1 + v;
    let value1 = trim_start(after1.skip(1));
    let value2 = trim_start(after2.skip(1));
    crate::chars::lemma_leading_ws_bound(b1.skip(c + 1));
    assert(value1 == b1.skip(q));
    assert(value2 == b2.skip(q));
    assert(q < b1.len());
    assert(value1.skip(1) =~= b1.skip(q + 1));
    assert(value2.skip(1) =~= b2.skip(q + 1));
    lemma_skip_prefix(b1, b2, q + 1);
    lemma_string_body_prefix(b1.skip(q + 1), b2.skip(q + 1));
}


/// Feeding a tracker for field `key`, in model `m`, the buffers `bufs` in
/// order: its final model and all the outputs.
pub open spec fn fed_all(key: Seq<char>, m: TrackerModel, bufs: Seq<Seq<char>>) -> (
    TrackerModel,
    Seq<OutputView>,
)
    decreases bufs.len(),
{
    if bufs.len() == 0 {
        (m, seq![])
    } else {
        let (m1, o1) = fed_all(key, m, bufs.drop_last());
        let (m2, o2) = fed(key, m1, bufs.last());
        (m2, o1 + o2)
    }
}

/// The text of the chunks among `outs`, in order.
pub open spec fn chunk_text(outs: Seq<OutputView>) -> Seq<char>
    decreases outs.len(),
{
    if outs.len() == 0 {
        seq![]
    } else {
        chunk_text(outs.drop_last()) + match outs.last() {
            OutputView::Chunk(t) => t,
            OutputView::Line(_) => seq![],
        }
    }
}

/// The lines among `outs`, in order.
pub open spec fn output_lines(outs: Seq<OutputView>) -> Seq<Seq<char>>
    decreases outs.len(),
{
    if outs.len() == 0 {
        seq![]
    } else {
        output_lines(outs.drop_last()) + match outs.last() {
            OutputView::Chunk(_) => seq![],
            OutputView::Line(l) => seq![l],
        }
    }
}

/// Each buffer extends the one before it.
pub open spec fn growing(bufs: Seq<Seq<char>>) -> bool {
    forall|i: int| 0 <= i < bufs.len() - 1 ==> #[trigger] bufs[i].is_prefix_of(bufs[i + 1])
}

/// No buffer shows a top-level `tool` key without the field's own key.
pub open spec fn never_shadowed(key: Seq<char>, bufs: Seq<Seq<char>>) -> bool {
    forall|i: int|
        0 <= i < bufs.len() ==> (toplevel_key_pos(#[trigger] bufs[i], "tool"@) is Some
            ==> toplevel_key_pos(bufs[i], key) is Some)
}

/// The display text of the field in `buf`, when it is there.
pub open spec fn field_text(buf: Seq<char>, key: Seq<char>) -> Seq<char> {
    match extracted(buf, key) {
        Some((raw, _)) => unescaped(raw),
        None => seq![],
    }
}

/// What the streamed outputs amount to once the field reads `t`: the prefix
/// (when there is text) and the text itself, with one empty line when the
/// value is complete.
pub open spec fn streamed_as(outs: Seq<OutputView>, key: Seq<char>, t: Seq<char>, done: bool) -> bool {
    &&& chunk_text(outs) == (if t.len() > 0 {
        prefix_for(key)
    } else {
        seq![]
    }) + t
    &&& output_lines(outs) == (if done {
        seq![Seq::<char>::empty()]
    } else {
        Seq::<Seq<char>>::empty()
    })
}

proof fn lemma_chunk_text_concat(a: Seq<OutputView>, b: Seq<OutputView>)
    ensures
        chunk_text(a + b) == chunk_text(a) + chunk_text(b),
        output_lines(a + b) == output_lines(a) + output_lines(b),
    decreases b.len(),
{
    if b.len() == 0 {
        assert(a + b =~= a);
        assert(chunk_text(a) + chunk_text(b) =~= chunk_text(a));
        assert(output_lines(a) + output_lines(b) =~= output_lines(a));
    } else {
        assert((a + b).drop_last() =~= a + b.drop_last());
        assert((a + b).last() == b.last());
        lemma_chunk_text_concat(a, b.drop_last());
        let x = match b.last() {
            OutputView::Chunk(t) => t,
            OutputView::Line(_) => Seq::<char>::empty(),
        };
        let y = match b.last() {
            OutputView::Chunk(_) => Seq::<Seq<char>>::empty(),
            OutputView::Line(l) => seq![l],
        };
        assert(chunk_text(b) == chunk_text(b.drop_last()) + x);
        assert(chunk_text(a + b) == chunk_text(a + b.drop_last()) + x);
        assert((chunk_text(a) + chunk_text(b.drop_last())) + x =~= chunk_text(a) + (chunk_text(
            b.drop_last(),
        ) + x));
        assert(output_lines(b) == output_lines(b.drop_last()) + y);
        assert(output_lines(a + b) == output_lines(a + b.drop_last()) + y);
        assert((output_lines(a) + output_lines(b.drop_last())) + y =~= output_lines(a) + (
        output_lines(b.drop_last()) + y));
        assert(seq![b.last()].drop_last() =~= Seq::<OutputView>::empty());
    }
}

proof fn lemma_one_output(o: OutputView)
    ensures
        chunk_text(seq![o]) == match o {
            OutputView::Chunk(t) => t,
            OutputView::Line(_) => Seq::<char>::empty(),
        },
        output_lines(seq![o]) == match o {
            OutputView::Chunk(_) => Seq::<Seq<char>>::empty(),
            OutputView::Line(l) => seq![l],
        },
{
    assert(seq![o].drop_last() =~= Seq::<OutputView>::empty());
    assert(seq![o].last() == o);
    assert(chunk_text(Seq::<OutputView>::empty()) == Seq::<char>::empty());
    assert(output_lines(Seq::<OutputView>::empty()) == Seq::<Seq<char>>::empty());
    match o {
        OutputView::Chunk(t) => {
            assert(Seq::<char>::empty() + t =~= t);
            assert(Seq::<Seq<char>>::empty() + Seq::<Seq<char>>::empty() =~= Seq::<Seq<char>>::empty());
        },
        OutputView::Line(l) => {
            assert(Seq::<char>::empty() + Seq::<char>::empty() =~= Seq::<char>::empty());
            assert(Seq::<Seq<char>>::empty() + seq![l] =~= seq![l]);
        },
    }
}

/// One feed of an active tracker that has streamed the text `t1` so far.
proof fn lemma_fed_active_step(key: Seq<char>, t1: Seq<char>, o1: Seq<OutputView>, b: Seq<char>)
    requires
        streamed_as(o1, key, t1, false),
        toplevel_key_pos(b, "tool"@) is Some ==> toplevel_key_pos(b, key) is Some,
        extracted(b, key) matches Some((raw, _)) ==> t1.is_prefix_of(unescaped(raw)),
        byte_len(field_text(b, key)) <= usize::MAX,
        byte_len(t1) <= usize::MAX,
    ensures
        ({
            let m1 = (FieldState::Active, t1.len() > 0, str_len(t1));
            let (m2, o2) = fed(key, m1, b);
            match extracted(b, key) {
                None => m2 == m1 && o2.len() == 0,
                Some((raw, done)) => {
                    &&& m2 == (if done {
                        FieldState::Complete
                    } else {
                        FieldState::Active
                    }, unescaped(raw).len() > 0, str_len(unescaped(raw)))
                    &&& streamed_as(o1 + o2, key, unescaped(raw), done)
                },
            }
        }),
{
    broadcast use vstd::utf8::encode_utf8_valid_utf8;

    let m1 = (FieldState::Active, t1.len() > 0, str_len(t1));
    let (m2, o2) = fed(key, m1, b);
    match extracted(b, key) {
        None => {},
        Some((raw, done)) => {
            let t2 = unescaped(raw);
            let rest = t2.skip(t1.len() as int);
            assert(t2 =~= t1 + rest);
            lemma_encode_concat(t1, rest);
            lemma_prefix_is_boundary(t1, rest);
            lemma_byte_suffix_of_concat(t1, rest);
            lemma_encode_empty(rest);
            lemma_encode_empty(t1);
            let e1 = vstd::utf8::encode_utf8(t1).len();
            let e2 = vstd::utf8::encode_utf8(t2).len();
            assert(str_len(t1) == e1);
            assert(str_len(t2) == e2);
            let prefix_out = if !(t1.len() > 0) && t2.len() > 0 {
                seq![OutputView::Chunk(prefix_for(key))]
            } else {
                seq![]
            };
            let grows = e2 > e1;
            let text_out = if grows {
                seq![OutputView::Chunk(rest)]
            } else {
                seq![]
            };
            let end_out = if done {
                seq![OutputView::Line(seq![])]
            } else {
                seq![]
            };
            assert(o2 == prefix_out + text_out + end_out);
            lemma_chunk_text_concat(o1, o2);
            lemma_chunk_text_concat(prefix_out + text_out, end_out);
            lemma_chunk_text_concat(prefix_out, text_out);
            lemma_one_output(OutputView::Chunk(prefix_for(key)));
            lemma_one_output(OutputView::Chunk(rest));
            lemma_one_output(OutputView::Line(seq![]));
            assert(chunk_text(Seq::<OutputView>::empty()) == Seq::<char>::empty());
            assert(output_lines(Seq::<OutputView>::empty()) == Seq::<Seq<char>>::empty());
            assert(chunk_text(prefix_out) == (if !(t1.len() > 0) && t2.len() > 0 {
                prefix_for(key)
            } else {
                Seq::<char>::empty()
            }));
            assert(chunk_text(text_out) == rest);
            assert(chunk_text(end_out) == Seq::<char>::empty());
            assert(output_lines(prefix_out) == Seq::<Seq<char>>::empty());
            assert(output_lines(text_out) == Seq::<Seq<char>>::empty());
            if t1.len() > 0 {
                assert(chunk_text(o1 + o2) =~= prefix_for(key) + t2);
            } else {
                assert(t2 =~= rest);
                if t2.len() > 0 {
                    assert(chunk_text(o1 + o2) =~= prefix_for(key) + t2);
                } else {
                    assert(chunk_text(o1 + o2) =~= Seq::<char>::empty() + t2);
                }
            }
            if done {
                assert(output_lines(o1 + o2) =~= seq![Seq::<char>::empty()]);
            } else {
                assert(output_lines(o1 + o2) =~= Seq::<Seq<char>>::empty());
            }
        },
    }
}

/// A prefix's display text is at most as long, in bytes, as the text.
proof fn lemma_text_bytes_grow(t1: Seq<char>, t2: Seq<char>)
    requires
        t1.is_prefix_of(t2),
    ensures
        byte_len(t1) <= byte_len(t2),
{
    assert(t2 =~= t1 + t2.skip(t1.len() as int));
    lemma_encode_concat(t1, t2.skip(t1.len() as int));
}

/// The state and outputs of a tracker fed a growing, never shadowed run of
/// buffers.
proof fn lemma_fed_all(key: Seq<char>, bufs: Seq<Seq<char>>)
    requires
        bufs.len() > 0,
        growing(bufs),
        never_shadowed(key, bufs),
        byte_len(field_text(bufs.last(), key)) <= usize::MAX,
    ensures
        ({
            let (m, outs) = fed_all(key, (FieldState::Active, false, 0usize), bufs);
            match extracted(bufs.last(), key) {
                None => m == (FieldState::Active, false, 0usize) && outs.len() == 0,
                Some((raw, done)) => {
                    &&& m == (if done {
                        FieldState::Complete
                    } else {
                        FieldState::Active
                    }, unescaped(raw).len() > 0, str_len(unescaped(raw)))
                    &&& streamed_as(outs, key, unescaped(raw), done)
                },
            }
        }),
    decreases bufs.len(),
{
    let m0 = (FieldState::Active, false, 0usize);
    let b = bufs.last();
    let prev = bufs.drop_last();
    let empty = Seq::<char>::empty();
    assert(vstd::utf8::encode_utf8(empty).len() == 0);
    assert(str_len(empty) == 0);
    assert(byte_len(empty) == 0);
    assert(chunk_text(Seq::<OutputView>::empty()) == Seq::<char>::empty());
    assert(output_lines(Seq::<OutputView>::empty()) == Seq::<Seq<char>>::empty());
    assert(Seq::<char>::empty() + empty =~= empty);
    assert(streamed_as(Seq::<OutputView>::empty(), key, empty, false));
    assert(toplevel_key_pos(bufs[bufs.len() - 1], "tool"@) is Some ==> toplevel_key_pos(
        bufs[bufs.len() - 1],
        key,
    ) is Some);
    if bufs.len() == 1 {
        assert(prev.len() == 0);
        assert(fed_all(key, m0, prev) == (m0, Seq::<OutputView>::empty()));
        match extracted(b, key) {
            Some((raw, _)) => {
                assert(empty.is_prefix_of(unescaped(raw)));
            },
            None => {},
        }
        lemma_fed_active_step(key, empty, Seq::<OutputView>::empty(), b);
        assert(Seq::<OutputView>::empty() + fed(key, m0, b).1 =~= fed(key, m0, b).1);
    } else {
        let pb = prev.last();
        let j = bufs.len() - 2;
        assert(pb == bufs[j]);
        assert(b == bufs[j + 1]);
        assert(bufs[j].is_prefix_of(bufs[j + 1]));
        assert(pb.is_prefix_of(b));
        assert(growing(prev)) by {
            assert forall|i: int| 0 <= i < prev.len() - 1 implies #[trigger] prev[i].is_prefix_of(
                prev[i + 1],
            ) by {
                assert(bufs[i].is_prefix_of(bufs[i + 1]));
            }
        }
        assert(never_shadowed(key, prev)) by {
            assert forall|i: int| 0 <= i < prev.len() implies (toplevel_key_pos(
                #[trigger] prev[i],
                "tool"@,
            ) is Some ==> toplevel_key_pos(prev[i], key) is Some) by {
                assert(prev[i] == bufs[i]);
            }
        }
        match extracted(pb, key) {
            None => {},
            Some((raw1, d1)) => {
                extraction_grows(pb, b, key);
                let raw2 = extracted(b, key).unwrap().0;
                lemma_unescaped_prefix(raw1, raw2);
                lemma_text_bytes_grow(unescaped(raw1), unescaped(raw2));
            },
        }
        lemma_fed_all(key, prev);
        let (m1, o1) = fed_all(key, m0, prev);
        match extracted(pb, key) {
            None => {
                match extracted(b, key) {
                    Some((raw, _)) => {
                        assert(empty.is_prefix_of(unescaped(raw)));
                    },
                    None => {},
                }
                lemma_fed_active_step(key, empty, o1, b);
                assert(o1 =~= Seq::<OutputView>::empty());
            },
            Some((raw1, d1)) => {
                let t1 = unescaped(raw1);
                if d1 {
                    assert(extracted(b, key) == extracted(pb, key));
                    assert(fed(key, m1, b) == (m1, Seq::<OutputView>::empty()));
                    assert(o1 + Seq::<OutputView>::empty() =~= o1);
                } else {
                    lemma_fed_active_step(key, t1, o1, b);
                }
            },
        }
    }
}

/// Law: a field streamed from a growing reply adds up to its text, once.
/// Feed a fresh tracker buffers that each extend the one before, none of
/// them showing a top-level `tool` key without the field's key. When the
/// last buffer holds the field with the value `raw` (and its display text
/// fits in memory), the chunks forwarded, in order, are the field's prefix
/// (when there is text) followed by exactly the unescaped text: nothing is
/// repeated or lost. One empty line is forwarded exactly when the value is
/// complete, and the tracker has printed exactly when there is text. When no
/// buffer holds the field yet, nothing was forwarded.
pub proof fn streamed_text_adds_up(key: Seq<char>, bufs: Seq<Seq<char>>)
    requires
        bufs.len() > 0,
        growing(bufs),
        never_shadowed(key, bufs),
        byte_len(field_text(bufs.last(), key)) <= usize::MAX,
    ensures
        ({
            let (m, outs) = fed_all(key, (FieldState::Active, false, 0usize), bufs);
            match extracted(bufs.last(), key) {
                None => outs.len() == 0 && !m.1,
                Some((raw, done)) => {
                    &&& chunk_text(outs) == (if unescaped(raw).len() > 0 {
                        prefix_for(key)
                    } else {
                        Seq::<char>::empty()
                    }) + unescaped(raw)
                    &&& output_lines(outs) == (if done {
                        seq![Seq::<char>::empty()]
                    } else {
                        Seq::<Seq<char>>::empty()
                    })
                    &&& m.1 == (unescaped(raw).len() > 0)
                },
            }
        }),
{
    lemma_fed_all(key, bufs);
}

/// Law: a skipped or completed field stays silent whatever buffers arrive:
/// its model is unchanged and nothing is forwarded.
pub proof fn settled_field_stays_silent(key: Seq<char>, m: TrackerModel, bufs: Seq<Seq<char>>)
    requires
        m.0 != FieldState::Active,
    ensures
        fed_all(key, m, bufs) == (m, Seq::<OutputView>::empty()),
    decreases bufs.len(),
{
    if bufs.len() > 0 {
        settled_field_stays_silent(key, m, bufs.drop_last());
        assert(Seq::<OutputView>::empty() + Seq::<OutputView>::empty() =~= Seq::<OutputView>::empty());
    }
}

/// Law: a field shadowed by a tool call forwards nothing. When the first
/// buffer an active tracker sees shows a top-level `tool` key and not the
/// field's key, the field is skipped and stays silent for any later buffers.
pub proof fn shadowed_field_stays_silent(key: Seq<char>, m: TrackerModel, bufs: Seq<Seq<char>>)
    requires
        m.0 == FieldState::Active,
        bufs.len() > 0,
        toplevel_key_pos(bufs[0], "tool"@) is Some,
        toplevel_key_pos(bufs[0], key) is None,
    ensures
        fed_all(key, m, bufs) == ((FieldState::Skipped, m.1, m.2), Seq::<OutputView>::empty()),
    decreases bufs.len(),
{
    let skipped = (FieldState::Skipped, m.1, m.2);
    if bufs.len() == 1 {
        assert(bufs.drop_last().len() == 0);
        assert(fed_all(key, m, bufs.drop_last()) == (m, Seq::<OutputView>::empty()));
        assert(bufs.last() == bufs[0]);
        assert(fed(key, m, bufs[0]) == (skipped, Seq::<OutputView>::empty()));
        assert(Seq::<OutputView>::empty() + Seq::<OutputView>::empty() =~= Seq::<OutputView>::empty());
    } else {
        assert(bufs.drop_last()[0] == bufs[0]);
        shadowed_field_stays_silent(key, m, bufs.drop_last());
        assert(fed(key, skipped, bufs.last()) == (skipped, Seq::<OutputView>::empty()));
        assert(Seq::<OutputView>::empty() + Seq::<OutputView>::empty() =~= Seq::<OutputView>::empty());
    }
}

/// The end of a text's encoding is a character boundary of any longer
/// text's encoding.
proof fn lemma_prefix_is_boundary(a: Seq<char>, b: Seq<char>)
    ensures
        vstd::utf8::is_char_boundary(
            vstd::utf8::encode_utf8(a + b),
            vstd::utf8::encode_utf8(a).len() as int,
        ),
    decreases a.len(),
{
    broadcast use vstd::utf8::encode_utf8_valid_utf8;

    lemma_encode_concat(a, b);
    if a.len() > 0 {
        let bytes = vstd::utf8::encode_utf8(a + b);
        vstd::utf8::encode_utf8_first_scalar(a + b);
        vstd::utf8::encode_utf8_first_scalar(a);
        assert((a + b)[0] == a[0]);
        let l = vstd::utf8::length_of_first_scalar(bytes);
        assert((a + b).drop_first() =~= a.drop_first() + b);
        lemma_encode_concat(a.drop_first(), b);
        assert(vstd::utf8::pop_first_scalar(bytes) =~= vstd::utf8::encode_utf8(a.drop_first() + b));
        lemma_prefix_is_boundary(a.drop_first(), b);
        assert(vstd::utf8::encode_utf8(a).len() - l == vstd::utf8::encode_utf8(a.drop_first()).len());
    }
}

/// The characters past the encoding of `a` in the encoding of `a + b` are
/// `b`.
proof fn lemma_byte_suffix_of_concat(a: Seq<char>, b: Seq<char>)
    ensures
        byte_suffix(a + b, vstd::utf8::encode_utf8(a).len() as int) == b,
{
    lemma_encode_concat(a, b);
    let ea = vstd::utf8::encode_utf8(a);
    let eb = vstd::utf8::encode_utf8(b);
    assert((ea + eb).subrange(ea.len() as int, (ea + eb).len() as int) =~= eb);
    vstd::utf8::encode_utf8_decode_utf8(b);
}

/// An empty encoding is the encoding of the empty text.
proof fn lemma_encode_empty(t: Seq<char>)
    ensures
        (vstd::utf8::encode_utf8(t).len() == 0) == (t.len() == 0),
{
    if t.len() > 0 {
        vstd::utf8::char_is_scalar(t[0]);
    }
}

/// Unescaping a prefix of a raw value gives a prefix of the unescaped value.
proof fn lemma_unescaped_prefix(r1: Seq<char>, r2: Seq<char>)
    requires
        r1.is_prefix_of(r2),
    ensures
        unescaped(r1).is_prefix_of(unescaped(r2)),
    decreases r1.len(),
{
    if r1.len() == 0 {
        assert(Seq::<char>::empty().is_prefix_of(unescaped(r2)));
    } else {
        assert(r1[0] == r2[0]);
        if r1[0] != '\\' {
            lemma_skip_prefix(r1, r2, 1);
            lemma_unescaped_prefix(r1.skip(1), r2.skip(1));
            let a = unescaped(r1.skip(1));
            let b = unescaped(r2.skip(1));
            assert((seq![r2[0]] + b).subrange(0, 1 + a.len() as int) =~= seq![r1[0]] + a);
        } else if r1.len() == 1 {
            assert(Seq::<char>::empty().is_prefix_of(unescaped(r2)));
        } else {
            assert(r1[1] == r2[1]);
            if r1[1] == 'u' {
                if hex4_at(r1.skip(2)) {
                    assert(r1[2] == r2[2] && r1[3] == r2[3] && r1[4] == r2[4] && r1[5] == r2[5]);
                    assert(r2.skip(2)[0] == r1.skip(2)[0]);
                    assert(r2.skip(2)[1] == r1.skip(2)[1]);
                    assert(r2.skip(2)[2] == r1.skip(2)[2]);
                    assert(r2.skip(2)[3] == r1.skip(2)[3]);
                    assert(hex4_at(r2.skip(2)));
                    assert(hex4_value(r2.skip(2)) == hex4_value(r1.skip(2)));
                    lemma_skip_prefix(r1, r2, 6);
                    lemma_unescaped_prefix(r1.skip(6), r2.skip(6));
                    let code = hex4_value(r1.skip(2));
                    let head: Seq<char> = if vstd::utf8::is_scalar(code as u32) {
                        seq![(code as u32) as char]
                    } else {
                        seq![]
                    };
                    let a = unescaped(r1.skip(6));
                    let b = unescaped(r2.skip(6));
                    assert((head + b).subrange(0, (head.len() + a.len()) as int) =~= head + a);
                } else {
                    assert(Seq::<char>::empty().is_prefix_of(unescaped(r2)));
                }
            } else {
                lemma_skip_prefix(r1, r2, 2);
                lemma_unescaped_prefix(r1.skip(2), r2.skip(2));
                let head = simple_escape(r1[1]);
                let a = unescaped(r1.skip(2));
                let b = unescaped(r2.skip(2));
                assert((head + b).subrange(0, (head.len() + a.len()) as int) =~= head + a);
            }
        }
    }
}

} // verus!

verus! {

/// A model reply being streamed: the text received so far and the trackers
/// of its `thought` and `answer` fields.
pub struct ReplyStream {
    /// The reply text received so far.
    pub buffer: String,
    /// Tracker of the `thought` field.
    pub thought: StreamState,
    /// Tracker of the `answer` field.
    pub answer: StreamState,
}

impl ReplyStream {
    /// Start streaming a reply; the thought is shown only when
    /// `show_thinking`.
    pub fn new(show_thinking: bool) -> (result: ReplyStream)
        ensures
            result.buffer@.len() == 0,
            result.thought.key@ == "thought"@,
            result.thought.model() == (if show_thinking {
                FieldState::Active
            } else {
                FieldState::Skipped
            }, false, 0usize),
            result.answer.key@ == "answer"@,
            result.answer.model() == (FieldState::Active, false, 0usize),
    {
        proof {
            reveal_strlit("thought");
            reveal_strlit("answer");
        }
        ReplyStream {
            buffer: String::new(),
            thought: StreamState::new("thought", show_thinking),
            answer: StreamState::new("answer", true),
        }
    }

    /// Add a received piece of the reply; returns what to show, the
    /// thought's output first, then the answer's.
    pub fn push(&mut self, delta: &str) -> (outputs: Vec<StreamOutput>)
        ensures
            final(self).buffer@ == old(self).buffer@ + delta@,
            final(self).thought.key == old(self).thought.key,
            final(self).answer.key == old(self).answer.key,
            ({
                let (tm, to) = fed(old(self).thought.key@, old(self).thought.model(), final(self).buffer@);
                let (am, ao) = fed(old(self).answer.key@, old(self).answer.model(), final(self).buffer@);
                &&& final(self).thought.model() == tm
                &&& final(self).answer.model() == am
                &&& outputs_view(outputs@) == to + ao
            }),
    {
        let mut text: Vec<char> = chars_of(self.buffer.as_str());
        crate::chars::push_str(&mut text, delta);
        self.buffer = crate::chars::string_of(text.as_slice());
        let mut outputs = self.thought.feed(self.buffer.as_str());
        let ghost first = outputs@;
        let mut more = self.answer.feed(self.buffer.as_str());
        let ghost second = more@;
        outputs.append(&mut more);
        assert(outputs_view(outputs@) =~= outputs_view(first) + outputs_view(second));
        outputs
    }

    /// The finished reply: its text, trimmed, and whether its answer was
    /// already shown while streaming.
    pub fn finish(&self) -> (result: (String, bool))
        ensures
            result.0@ == crate::chars::trim(self.buffer@),
            result.1 == self.answer.has_printed_prefix,
    {
        let text = crate::chars::trim_chars(&chars_of(self.buffer.as_str()));
        (string_of(text.as_slice()), self.answer.did_print())
    }
}

} // verus!
