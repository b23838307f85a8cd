//! Output truncation for tool results.
//!
//! Tool results are fed back into the model's context window, so they are
//! capped at a fixed number of characters and an omission note tells the model
//! how much was cut.

use crate::chars::{chars_of, decimal, push_decimal, push_str, string_of};
use vstd::prelude::*;
use vstd::utf8::{encode_scalar, encode_utf8};

verus! {

/// Maximum number of characters returned by any tool.
pub const MAX_TOOL_OUTPUT: usize = 20_000;

/// Number of bytes in the UTF-8 encoding of `s` (what `str::len` returns).
pub open spec fn byte_len(s: Seq<char>) -> nat {
    encode_utf8(s).len()
}

/// The UTF-8 encoding of a concatenation is the concatenation of the
/// encodings.
pub proof fn lemma_encode_concat(a: Seq<char>, b: Seq<char>)
    ensures
        encode_utf8(a + b) == encode_utf8(a) + encode_utf8(b),
    decreases a.len(),
{
    if a.len() > 0 {
        assert((a + b).drop_first() =~= a.drop_first() + b);
        lemma_encode_concat(a.drop_first(), b);
        assert(encode_scalar(a[0] as u32) + (encode_utf8(a.drop_first()) + encode_utf8(b))
            =~= (encode_scalar(a[0] as u32) + encode_utf8(a.drop_first())) + encode_utf8(b));
    } else {
        assert(a + b =~= b);
        assert(encode_utf8(a) + encode_utf8(b) =~= encode_utf8(b));
    }
}

/// Number of bytes in the UTF-8 encoding of `c` (`char::len_utf8`).
fn utf8_width(c: char) -> (result: usize)
    ensures
        result == byte_len(seq![c]),
{
    let v = c as u32;
    proof {
        vstd::utf8::char_is_scalar(c);
        assert(seq![c].drop_first() =~= Seq::<char>::empty());
        assert(encode_utf8(Seq::<char>::empty()) =~= Seq::<u8>::empty());
        assert(encode_utf8(seq![c]) =~= encode_scalar(v) + Seq::<u8>::empty());
        assert(byte_len(seq![c]) == encode_scalar(v).len());
    }
    if v <= 0x7F {
        1
    } else if v <= 0x7FF {
        2
    } else if v <= 0xFFFF {
        3
    } else {
        4
    }
}

/// The byte offset in the UTF-8 encoding of `s` at which character `i`
/// starts.
pub fn byte_offset(s: &Vec<char>, i: usize) -> (result: usize)
    requires
        i <= s.len(),
        byte_len(s@) <= usize::MAX,
    ensures
        result == byte_len(s@.take(i as int)),
{
    let mut k: usize = 0;
    let mut total: usize = 0;
    while k < i
        invariant
            0 <= k <= i <= s.len(),
            byte_len(s@) <= usize::MAX,
            total == byte_len(s@.take(k as int)),
        decreases i - k,
    {
        proof {
            assert(s@.take(k + 1) =~= s@.take(k as int) + seq![s@[k as int]]);
            lemma_encode_concat(s@.take(k as int), seq![s@[k as int]]);
            assert(s@ =~= s@.take(k + 1) + s@.skip(k + 1));
            lemma_encode_concat(s@.take(k + 1), s@.skip(k + 1));
        }
        let w = utf8_width(s[k]);
        total = total + w;
        k += 1;
    }
    total
}

/// The note appended to a truncated text.
pub open spec fn omission_note(omitted: nat) -> Seq<char> {
    "\n... (truncated, "@ + decimal(omitted) + " chars omitted)"@
}

/// What `truncate_to(text, max)` returns: the text itself when it has at
/// most `max` characters, otherwise its first `max` characters followed by a
/// note giving how many characters were dropped.
pub open spec fn truncated(text: Seq<char>, max: nat) -> Seq<char> {
    if text.len() <= max {
        text
    } else {
        text.take(max as int) + omission_note((text.len() - max) as nat)
    }
}

/// Truncate a string to at most `max` characters, appending an omission note.
///
/// The string is kept unchanged when it has at most `max` characters;
/// otherwise the first `max` characters are kept and
/// `"\n... (truncated, N chars omitted)"` is appended, `N` being the number of
/// characters dropped.
pub fn truncate_to(text: String, max: usize) -> (result: String)
    ensures
        result@ == truncated(text@, max as nat),
{
    let cs = chars_of(text.as_str());
    if cs.len() <= max {
        return text;
    }
    let mut out: Vec<char> = Vec::new();
    let mut i: usize = 0;
    while i < max
        invariant
            0 <= i <= max < cs.len(),
            cs@ == text@,
            out@ == text@.take(i as int),
        decreases max - i,
    {
        out.push(cs[i]);
        i += 1;
        assert(text@.take(i as int) == text@.take(i - 1).push(cs@[i - 1]));
    }
    let omitted: usize = cs.len() - max;
    push_str(&mut out, "\n... (truncated, ");
    push_decimal(&mut out, omitted as u64);
    push_str(&mut out, " chars omitted)");
    string_of(out.as_slice())
}

/// Truncate a string to `MAX_TOOL_OUTPUT` characters.
pub fn truncate(text: String) -> (result: String)
    ensures
        result@ == truncated(text@, MAX_TOOL_OUTPUT as nat),
{
    truncate_to(text, MAX_TOOL_OUTPUT)
}

} // verus!

verus! {

/// Law: a text of at most `max` characters is returned unchanged; a longer
/// one keeps its first `max` characters and ends with the omission note
/// giving how many were dropped.
pub proof fn truncation_keeps_prefix(text: Seq<char>, max: nat)
    ensures
        text.len() <= max ==> truncated(text, max) == text,
        text.len() > max ==> truncated(text, max).take(max as int) == text.take(max as int)
            && truncated(text, max).skip(max as int) == omission_note((text.len() - max) as nat),
{
    if text.len() > max {
        let r = truncated(text, max);
        assert(r.take(max as int) =~= text.take(max as int));
        assert(r.skip(max as int) =~= omission_note((text.len() - max) as nat));
    }
}

} // verus!
