//! Hardware probes: total memory and `/proc` number parsing.
//!
//! Reading `/proc` is left to the binary; the text it reads is interpreted
//! here.

use crate::chars::{
    chars_of, find_newline, first_newline, first_newline_from, first_token, first_token_chars,
    lemma_first_newline_from, lemma_newline_shift, occurs_at, parse_u64, parsed_u64, slice_chars,
};
use vstd::prelude::*;

verus! {

/// Fallback memory size used when `/proc/meminfo` is unavailable (8 GiB).
pub const FALLBACK_SYSTEM_MEMORY_BYTES: u64 = 8 * 1024 * 1024 * 1024;

/// Number of bytes in a kibibyte.
pub const BYTES_PER_KIB: u64 = 1_024;

/// Source of total physical memory for model-budget calculations.
pub trait MemoryInfo {
    /// Total physical memory in bytes.
    fn total_memory_bytes(&self) -> u64;
}

/// The number a `/proc` value such as `"  12345 kB"` starts with, or 0.
pub open spec fn kibibytes(rest: Seq<char>) -> u64 {
    match first_token(rest) {
        Some(tok) => match parsed_u64(tok) {
            Some(n) => n,
            None => 0,
        },
        None => 0,
    }
}

/// Parse the first whitespace-separated number of a `/proc` value, or 0.
pub fn parse_kibibytes(rest: &str) -> (result: u64)
    ensures
        result == kibibytes(rest@),
{
    let s = chars_of(rest);
    assert(s@.skip(0) == s@);
    match first_token_chars(&s, 0) {
        Some(tok) => match parse_u64(&tok) {
            Some(n) => n,
            None => 0,
        },
        None => 0,
    }
}

/// The `MemTotal:` prefix of `/proc/meminfo`.
pub open spec fn memtotal_prefix() -> Seq<char> {
    "MemTotal:"@
}

/// The kibibyte figure of the first `MemTotal:` line of a `/proc/meminfo`
/// text: its first number, or the fallback size in KiB when the number does
/// not parse; `None` when no line starts with `MemTotal:`.
pub open spec fn memtotal_kib(content: Seq<char>) -> Option<u64>
    decreases content.len(),
{
    let end = match first_newline(content) {
        Some(p) => p,
        None => content.len() as int,
    };
    let line = content.take(end);
    if occurs_at(line, memtotal_prefix(), 0) {
        let rest = line.skip(memtotal_prefix().len() as int);
        Some(
            match first_token(rest) {
                Some(tok) => match parsed_u64(tok) {
                    Some(n) => n,
                    None => (FALLBACK_SYSTEM_MEMORY_BYTES / BYTES_PER_KIB) as u64,
                },
                None => (FALLBACK_SYSTEM_MEMORY_BYTES / BYTES_PER_KIB) as u64,
            },
        )
    } else {
        match first_newline(content) {
            Some(p) => {
                proof {
                    lemma_first_newline_from(content, 0);
                }
                memtotal_kib(content.skip(p + 1))
            },
            None => None,
        }
    }
}

/// Total memory in bytes described by a `/proc/meminfo` text: the
/// `MemTotal:` figure times 1024 (saturating at `u64::MAX`), or 8 GiB when
/// there is no such line.
pub open spec fn memtotal_bytes(content: Seq<char>) -> u64 {
    match memtotal_kib(content) {
        Some(kib) => if kib * 1024 <= u64::MAX {
            (kib * 1024) as u64
        } else {
            u64::MAX
        },
        None => FALLBACK_SYSTEM_MEMORY_BYTES,
    }
}

/// The `MemTotal:` figure, in KiB, of a `/proc/meminfo` text.
pub fn memtotal_kibibytes(content: &str) -> (result: Option<u64>)
    ensures
        result == memtotal_kib(content@),
{
    let s = chars_of(content);
    let prefix = chars_of("MemTotal:");
    proof {
        reveal_strlit("MemTotal:");
    }
    assert(prefix@.len() == 9);
    let mut pos: usize = 0;
    assert(s@.skip(0) == s@);
    loop
        invariant
            pos <= s.len(),
            s@ == content@,
            prefix@ == memtotal_prefix(),
            prefix@.len() == 9,
            memtotal_kib(content@) == memtotal_kib(s@.skip(pos as int)),
        decreases s.len() - pos,
    {
        let ghost cur = s@.skip(pos as int);
        proof {
            lemma_newline_shift(s@, pos as int, 0);
            lemma_first_newline_from(s@, pos as int);
        }
        let end = match find_newline(&s, pos) {
            Some(p) => p,
            None => s.len(),
        };
        let line = slice_chars(&s, pos, end);
        assert(line@ == cur.take(end - pos));
        if crate::chars::matches_at(&line, &prefix, 0) {
            assert(line@.skip(prefix@.len() as int) == line@.skip(9));
            let kib: u64 = match first_token_chars(&line, 9) {
                Some(tok) => match parse_u64(&tok) {
                    Some(n) => n,
                    None => FALLBACK_SYSTEM_MEMORY_BYTES / BYTES_PER_KIB,
                },
                None => FALLBACK_SYSTEM_MEMORY_BYTES / BYTES_PER_KIB,
            };
            assert(memtotal_kib(cur) == Some(kib));
            return Some(kib);
        }
        if end >= s.len() {
            return None;
        }
        assert(cur.skip(end - pos + 1) == s@.skip(end + 1));
        pos = end + 1;
    }
}

/// Total memory in bytes from the text of `/proc/meminfo`: the `MemTotal:`
/// figure in bytes, or 8 GiB when the text has no such line.
pub fn total_memory_from_meminfo(content: &str) -> (result: u64)
    ensures
        result == memtotal_bytes(content@),
{
    match memtotal_kibibytes(content) {
        Some(kib) => match kib.checked_mul(BYTES_PER_KIB) {
            Some(bytes) => bytes,
            None => u64::MAX,
        },
        None => FALLBACK_SYSTEM_MEMORY_BYTES,
    }
}

/// Total memory read from the text of `/proc/meminfo` (Linux).
#[derive(Debug)]
pub struct ProcMemoryInfo {
    /// The text of `/proc/meminfo` (empty when it could not be read).
    pub meminfo: String,
}

impl MemoryInfo for ProcMemoryInfo {
    fn total_memory_bytes(&self) -> (result: u64)
        ensures
            result == memtotal_bytes(self.meminfo@),
    {
        total_memory_from_meminfo(self.meminfo.as_str())
    }
}

/// Convenience accessor using the `/proc/meminfo` source.
pub fn total_system_memory_bytes(meminfo: &str) -> (result: u64)
    ensures
        result == memtotal_bytes(meminfo@),
{
    total_memory_from_meminfo(meminfo)
}

/// Share of total memory usable as the model memory budget: three quarters.
pub open spec fn memory_budget(total: u64) -> u64 {
    (total * 3 / 4) as u64
}

/// Compute the usable model memory budget from total system memory.
pub fn calculate_memory_budget(total: u64) -> (result: u64)
    ensures
        result == memory_budget(total),
        result <= total,
        total > 1 ==> result > 0,
{
    let wide: u128 = (total as u128) * 3 / 4;
    wide as u64
}

} // verus!
