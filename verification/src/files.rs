//! The agent's file and shell tools: what they show.
//!
//! Walking directories, reading and writing files and spawning shells are
//! the binary's work. This module decides which directories a walk skips,
//! how paths are shown relative to the workspace, which lines a search
//! reports, and the exact text every tool hands back to the model.

use crate::chars::{
    chars_of, decimal, find_newline, first_newline, lemma_first_newline_from, lemma_newline_shift,
    push_decimal, push_str, slice_chars, string_of, trim, trim_chars,
};
use crate::path::{path_join, join_path};
use crate::text::{truncate, truncated, MAX_TOOL_OUTPUT};
use vstd::prelude::*;

verus! {

/// Directories skipped during recursive walks (build caches, VCS,
/// dependencies, and large data directories that are almost never relevant
/// to coding tasks).
pub const HEAVY_DIRS: [&'static str; 38] = [
    ".git",
    "target",
    "node_modules",
    "dist",
    "build",
    "out",
    "output",
    "outputs",
    ".venv",
    "venv",
    "__pycache__",
    ".cache",
    "cache",
    "caches",
    ".next",
    ".nuxt",
    ".idea",
    ".vscode",
    ".agent",
    "data",
    "datasets",
    "dataset",
    "books",
    "models",
    "weights",
    "checkpoints",
    "logs",
    "tmp",
    "temp",
    "artifacts",
    "generated",
    "coverage",
    ".pytest_cache",
    ".mypy_cache",
    ".ruff_cache",
    ".gradle",
    "Pods",
    "DerivedData",
];

/// Default depth for `list_files` tool calls made by the agent.
pub const DEFAULT_LIST_DEPTH: usize = 2;

/// Depth used by `grep_files` when scanning the workspace.
pub const GREP_MAX_DEPTH: usize = 12;

/// Maximum number of files listed before truncating.
pub const MAX_LISTED_FILES: usize = 500;

/// Number of leading bytes inspected to detect binary files.
pub const BINARY_SNIFF_BYTES: usize = 8_192;

/// Minimum shell timeout in seconds.
pub const MIN_COMMAND_TIMEOUT_SECONDS: u64 = 1;

/// A directory name that recursive walks skip.
pub open spec fn heavy(name: Seq<char>) -> bool {
    exists|i: int| 0 <= i < 38 && HEAVY_DIRS@[i]@ == name
}

/// Returns true when a directory name should be skipped by recursive walks.
pub fn is_heavy_dir(name: &str) -> (result: bool)
    ensures
        result == heavy(name@),
{
    let mut i: usize = 0;
    while i < 38
        invariant
            0 <= i <= 38,
            forall|k: int| 0 <= k < i ==> #[trigger] HEAVY_DIRS@[k]@ != name@,
        decreases 38 - i,
    {
        if crate::chars::str_eq(HEAVY_DIRS[i], name) {
            return true;
        }
        i += 1;
    }
    false
}

// ---------------------------------------------------------------------------
// Paths shown relative to the workspace
// ---------------------------------------------------------------------------

/// What `Path::strip_prefix(path, base)` gives, component-wise: the rest of
/// `path` after the components of `base`, or `None` when `base` is not a
/// prefix of it.
pub uninterp spec fn path_strip_prefix(path: Seq<char>, base: Seq<char>) -> Option<Seq<char>>;

/// `Path::strip_prefix` on text paths, the rest shown as text; the result
/// is named by `path_strip_prefix`.
#[verifier::external_body]
fn strip_path_prefix(path: &str, base: &str) -> (result: Option<String>)
    ensures
        match result {
            Some(rest) => path_strip_prefix(path@, base@) == Some(rest@),
            None => path_strip_prefix(path@, base@) is None,
        },
{
    std::path::Path::new(path)
        .strip_prefix(base)
        .ok()
        .map(|rest| rest.to_string_lossy().into_owned())
}

/// The displayed path: the rest after the canonical root when that strips,
/// else the rest after the raw root, else the path itself.
pub open spec fn relative_choice(in_canonical: Option<Seq<char>>, in_root: Option<Seq<char>>, path: Seq<char>) -> Seq<char> {
    match in_canonical {
        Some(rest) => rest,
        None => match in_root {
            Some(rest) => rest,
            None => path,
        },
    }
}

/// Pick the displayed path from the two prefix strips.
pub fn relative_from(in_canonical: Option<String>, in_root: Option<String>, path: &str) -> (result: String)
    ensures
        result@ == relative_choice(
            match in_canonical {
                Some(r) => Some(r@),
                None => None,
            },
            match in_root {
                Some(r) => Some(r@),
                None => None,
            },
            path@,
        ),
{
    match in_canonical {
        Some(rest) => rest,
        None => match in_root {
            Some(rest) => rest,
            None => String::from_str(path),
        },
    }
}

/// Return `path` relative to the workspace root for display. Walks are
/// rooted at the canonical directory, so `path` is stripped of the canonical
/// root first, then of the raw root.
pub fn relative_to_root(path: &str, root: &str, canonical_root: &str) -> (result: String)
    ensures
        result@ == relative_choice(
            path_strip_prefix(path@, canonical_root@),
            path_strip_prefix(path@, root@),
            path@,
        ),
{
    let in_canonical = strip_path_prefix(path, canonical_root);
    let in_root = strip_path_prefix(path, root);
    relative_from(in_canonical, in_root, path)
}

/// Whether `path` lies under `root`, component-wise (`Path::starts_with`,
/// which holds exactly when `Path::strip_prefix` succeeds).
pub fn within_root(path: &str, root: &str) -> (result: bool)
    ensures
        result == path_strip_prefix(path@, root@) is Some,
{
    strip_path_prefix(path, root).is_some()
}

/// The refusal of a path whose canonical form leaves the workspace.
pub open spec fn escape_refusal(path: Seq<char>) -> Seq<char> {
    "path escapes the workspace: "@ + path
}

/// The refusal of a path whose canonical form leaves the workspace.
pub fn escape_refusal_text(path: &str) -> (result: String)
    ensures
        result@ == escape_refusal(path@),
{
    let mut out: Vec<char> = Vec::new();
    push_str(&mut out, "path escapes the workspace: ");
    push_str(&mut out, path);
    string_of(out.as_slice())
}

// ---------------------------------------------------------------------------
// Joining lines
// ---------------------------------------------------------------------------

/// The lines joined end to end.
pub open spec fn joined(lines: Seq<Seq<char>>) -> Seq<char>
    decreases lines.len(),
{
    if lines.len() == 0 {
        Seq::empty()
    } else {
        joined(lines.drop_last()) + lines.last()
    }
}

// ---------------------------------------------------------------------------
// list_files
// ---------------------------------------------------------------------------

/// One listed file: its path shown relative to the workspace, and its size
/// in bytes.
pub struct ListedFile {
    /// Path relative to the workspace.
    pub path: String,
    /// Size in bytes.
    pub size: u64,
}

/// The line shown for one listed file.
pub open spec fn listed_line(f: ListedFile) -> Seq<char> {
    f.path@ + " ("@ + decimal(f.size as nat) + " bytes)\n"@
}

/// The listing before the output cap: a line per file for the first
/// [`MAX_LISTED_FILES`] files, a note when that many were reached, and a
/// note when there were none.
pub open spec fn listing_body(files: Seq<ListedFile>) -> Seq<char> {
    let shown = if files.len() < MAX_LISTED_FILES { files.len() } else { MAX_LISTED_FILES as nat };
    joined(files.take(shown as int).map_values(|f: ListedFile| listed_line(f)))
        + (if files.len() >= MAX_LISTED_FILES {
        "... (truncated at 500 files)\n"@
    } else {
        Seq::empty()
    }) + (if files.len() == 0 {
        "(no files found)\n"@
    } else {
        Seq::empty()
    })
}

/// The text of the `list_files` tool for the files a walk found, in walk
/// order: one `path (N bytes)` line per file, at most [`MAX_LISTED_FILES`]
/// of them, capped at [`MAX_TOOL_OUTPUT`] characters.
pub fn list_files(files: &Vec<ListedFile>) -> (result: String)
    ensures
        result@ == truncated(listing_body(files@), MAX_TOOL_OUTPUT as nat),
{
    let mut out: Vec<char> = Vec::new();
    let shown: usize = if files.len() < MAX_LISTED_FILES { files.len() } else { MAX_LISTED_FILES };
    let mut i: usize = 0;
    while i < shown
        invariant
            0 <= i <= shown <= files.len(),
            out@ == joined(files@.take(i as int).map_values(|f: ListedFile| listed_line(f))),
        decreases shown - i,
    {
        let ghost before = files@.take(i as int).map_values(|f: ListedFile| listed_line(f));
        push_str(&mut out, files[i].path.as_str());
        push_str(&mut out, " (");
        push_decimal(&mut out, files[i].size);
        push_str(&mut out, " bytes)\n");
        i += 1;
        let ghost after = files@.take(i as int).map_values(|f: ListedFile| listed_line(f));
        assert(after.drop_last() =~= before);
    }
    if files.len() >= MAX_LISTED_FILES {
        push_str(&mut out, "... (truncated at 500 files)\n");
    }
    if files.len() == 0 {
        push_str(&mut out, "(no files found)\n");
    }
    truncate(string_of(out.as_slice()))
}

/// The refusal when a tool's path is not a directory.
pub open spec fn not_a_directory(path: Seq<char>) -> Seq<char> {
    "not a directory: "@ + path
}

/// The refusal when a tool's path is not a directory.
pub fn not_a_directory_text(path: &str) -> (result: String)
    ensures
        result@ == not_a_directory(path@),
{
    let mut out: Vec<char> = Vec::new();
    push_str(&mut out, "not a directory: ");
    push_str(&mut out, path);
    string_of(out.as_slice())
}

// ---------------------------------------------------------------------------
// grep_files
// ---------------------------------------------------------------------------

/// `regex::Regex`, held opaque.
#[verifier::external_type_specification]
#[verifier::external_body]
pub struct ExRegex(regex::Regex);

/// Whether `regex::Regex::new` accepts `pattern` (with its default size
/// limits).
pub uninterp spec fn regex_compiles(pattern: Seq<char>) -> bool;

/// Whether the regex compiled from `pattern` matches somewhere in `haystack`
/// (`Regex::is_match`).
pub uninterp spec fn regex_finds(pattern: Seq<char>, haystack: Seq<char>) -> bool;

/// A compiled search pattern. It can only be made by [`compile_pattern`], so
/// its regex is always the one compiled from its pattern text.
pub struct SearchPattern {
    pattern: String,
    regex: regex::Regex,
}

impl SearchPattern {
    /// The pattern text it was compiled from.
    pub closed spec fn source(&self) -> Seq<char> {
        self.pattern@
    }
}

/// `regex::Regex::new`; the error is shown as its `Display` text. Whether it
/// succeeds is named by `regex_compiles`; the error text is not stated.
#[verifier::external_body]
fn regex_new(pattern: &str) -> (result: Result<regex::Regex, String>)
    ensures
        result is Ok <==> regex_compiles(pattern@),
{
    regex::Regex::new(pattern).map_err(|error| error.to_string())
}

/// `Regex::is_match` of the pattern's regex on `haystack`; named by
/// `regex_finds`.
#[verifier::external_body]
fn regex_is_match(pattern: &SearchPattern, haystack: &str) -> (result: bool)
    ensures
        result == regex_finds(pattern.source(), haystack@),
{
    pattern.regex.is_match(haystack)
}

/// The error shown for a pattern that does not compile.
pub open spec fn invalid_pattern(detail: Seq<char>) -> Seq<char> {
    "invalid regex pattern: "@ + detail
}

/// Compile a search pattern; a pattern that does not compile is refused
/// with "invalid regex pattern" and the regex crate's explanation.
pub fn compile_pattern(pattern: &str) -> (result: Result<SearchPattern, String>)
    ensures
        result is Ok <==> regex_compiles(pattern@),
        result matches Ok(p) ==> p.source() == pattern@,
        result matches Err(message) ==> exists|detail: Seq<char>| message@ == invalid_pattern(detail),
{
    match regex_new(pattern) {
        Ok(regex) => Ok(SearchPattern { pattern: String::from_str(pattern), regex }),
        Err(detail) => {
            let mut out: Vec<char> = Vec::new();
            push_str(&mut out, "invalid regex pattern: ");
            push_str(&mut out, detail.as_str());
            assert(out@ == invalid_pattern(detail@));
            Err(string_of(out.as_slice()))
        },
    }
}

/// One file searched by `grep_files`: its path shown relative to the
/// workspace, and its text.
pub struct SearchedFile {
    /// Path relative to the workspace.
    pub path: String,
    /// The file's text.
    pub content: String,
}

/// `line` without one trailing carriage return.
pub open spec fn strip_cr(line: Seq<char>) -> Seq<char> {
    if line.len() > 0 && line.last() == '\r' {
        line.drop_last()
    } else {
        line
    }
}

/// The report line of a matching line (`path:line: trimmed text`), if the
/// line matches.
pub open spec fn hit(pattern: Seq<char>, path: Seq<char>, lineno: nat, line: Seq<char>) -> Seq<Seq<char>> {
    if regex_finds(pattern, line) {
        seq![path + ":"@ + decimal(lineno) + ": "@ + trim(line) + "\n"@]
    } else {
        Seq::empty()
    }
}

/// The report lines of the matching lines of `content` (its lines as
/// `str::lines` splits them), numbered from `lineno`.
pub open spec fn hits_from(pattern: Seq<char>, path: Seq<char>, content: Seq<char>, lineno: nat) -> Seq<Seq<char>>
    decreases content.len(),
{
    if content.len() == 0 {
        Seq::empty()
    } else {
        match first_newline(content) {
            None => hit(pattern, path, lineno, content),
            Some(i) => if 0 <= i < content.len() {
                hit(pattern, path, lineno, strip_cr(content.take(i))) + hits_from(
                    pattern,
                    path,
                    content.skip(i + 1),
                    lineno + 1,
                )
            } else {
                Seq::empty()
            },
        }
    }
}

/// The report lines of all matching lines of all files, in order.
pub open spec fn all_hits(pattern: Seq<char>, files: Seq<SearchedFile>) -> Seq<Seq<char>>
    decreases files.len(),
{
    if files.len() == 0 {
        Seq::empty()
    } else {
        all_hits(pattern, files.drop_last()) + hits_from(
            pattern,
            files.last().path@,
            files.last().content@,
            1,
        )
    }
}

/// The search report before the output cap: the first `max` report lines
/// (`max` at least 1) with a note when that many were found, or a note when
/// nothing matched.
pub open spec fn grep_body(pattern: Seq<char>, files: Seq<SearchedFile>, max_results: usize) -> Seq<char> {
    let m: nat = if max_results == 0 { 1 } else { max_results as nat };
    let hits = all_hits(pattern, files);
    if hits.len() >= m {
        joined(hits.take(m as int)) + "... (truncated at "@ + decimal(m) + " matches)\n"@
    } else if hits.len() == 0 {
        "(no matches)\n"@
    } else {
        joined(hits)
    }
}

proof fn lemma_joined_push(lines: Seq<Seq<char>>, x: Seq<char>)
    ensures
        joined(lines.push(x)) == joined(lines) + x,
{
    assert(lines.push(x).drop_last() =~= lines);
}

proof fn lemma_all_hits_append(pattern: Seq<char>, a: Seq<SearchedFile>, b: Seq<SearchedFile>)
    ensures
        all_hits(pattern, a + b) == all_hits(pattern, a) + all_hits(pattern, b),
    decreases b.len(),
{
    if b.len() == 0 {
        assert(a + b =~= a);
        assert(all_hits(pattern, a) + all_hits(pattern, b) =~= all_hits(pattern, a));
    } else {
        lemma_all_hits_append(pattern, a, b.drop_last());
        assert((a + b).drop_last() =~= a + b.drop_last());
        assert((a + b).last() == b.last());
        assert(all_hits(pattern, a + b) =~= all_hits(pattern, a) + all_hits(pattern, b));
    }
}

/// The line starting at `pos` (as `str::lines` gives it) and where the
/// next one starts.
fn take_line(c: &Vec<char>, pos: usize) -> (result: (Vec<char>, usize))
    requires
        pos < c.len(),
    ensures
        pos < result.1 <= c.len(),
        forall|p: Seq<char>, path: Seq<char>, n: nat| #[trigger] hits_from(p, path, c@.skip(pos as int), n)
            == hit(p, path, n, result.0@) + hits_from(p, path, c@.skip(result.1 as int), n + 1),
{
    let ghost rest = c@.skip(pos as int);
    proof {
        lemma_newline_shift(c@, pos as int, 0);
        lemma_first_newline_from(c@, pos as int);
    }
    match find_newline(c, pos) {
        Some(e) => {
            let mut l = slice_chars(c, pos, e);
            if l.len() > 0 && l[l.len() - 1] == '\r' {
                l.pop();
            }
            assert(rest.take(e - pos) =~= c@.subrange(pos as int, e as int));
            assert(rest.skip(e - pos + 1) =~= c@.skip(e + 1));
            (l, e + 1)
        },
        None => {
            let l = slice_chars(c, pos, c.len());
            assert(rest =~= c@.subrange(pos as int, c.len() as int));
            assert(c@.skip(c.len() as int) =~= Seq::<char>::empty());
            assert forall|p: Seq<char>, path: Seq<char>, n: nat| #[trigger] hits_from(p, path, rest, n)
                == hit(p, path, n, l@) + hits_from(p, path, c@.skip(c.len() as int), n + 1) by {
                assert(hit(p, path, n, l@) + Seq::<Seq<char>>::empty() =~= hit(p, path, n, l@));
            }
            (l, c.len())
        },
    }
}

/// The report lines of one file, with the lines reported so far.
fn search_file(
    pattern: &SearchPattern,
    file: &SearchedFile,
    out: &mut Vec<char>,
    count: &mut usize,
    max: usize,
    Ghost(done): Ghost<Seq<Seq<char>>>,
) -> (stopped: bool)
    requires
        1 <= max,
        *old(count) == done.len(),
        done.len() < max,
        old(out)@ == joined(done),
    ensures
        ({
            let hits = hits_from(pattern.source(), file.path@, file.content@, 1);
            if stopped {
                &&& *final(count) == max
                &&& exists|rest: Seq<Seq<char>>| #![trigger done + rest]
                    hits.len() >= rest.len() && (done + rest).len() == max && hits.take(rest.len() as int) == rest
                        && final(out)@ == joined(done + rest)
            } else {
                &&& *final(count) == (done + hits).len()
                &&& (done + hits).len() < max
                &&& final(out)@ == joined(done + hits)
            }
        }),
{
    let c = chars_of(file.content.as_str());
    let ghost p = pattern.source();
    let ghost path = file.path@;
    let mut pos: usize = 0;
    let mut done_lines: usize = 0;
    let ghost mut acc: Seq<Seq<char>> = Seq::empty();
    assert(c@.skip(0) =~= c@);
    while pos < c.len()
        invariant
            c@ == file.content@,
            p == pattern.source(),
            path == file.path@,
            0 <= pos <= c.len(),
            done_lines <= pos,
            hits_from(p, path, c@, 1) == acc + hits_from(p, path, c@.skip(pos as int), done_lines as nat + 1),
            *count == (done + acc).len(),
            (done + acc).len() < max,
            out@ == joined(done + acc),
        decreases c.len() - pos,
    {
        let lineno = done_lines + 1;
        let (line, next) = take_line(&c, pos);
        let ghost h = hit(p, path, lineno as nat, line@);
        assert(hits_from(p, path, c@.skip(pos as int), lineno as nat) == h + hits_from(
            p,
            path,
            c@.skip(next as int),
            lineno as nat + 1,
        ));
        let line_text = string_of(line.as_slice());
        if regex_is_match(pattern, line_text.as_str()) {
            let ghost entry = path + ":"@ + decimal(lineno as nat) + ": "@ + trim(line@) + "\n"@;
            push_str(out, file.path.as_str());
            push_str(out, ":");
            push_decimal(out, lineno as u64);
            push_str(out, ": ");
            let trimmed = trim_chars(&line);
            let mut t = trimmed;
            out.append(&mut t);
            push_str(out, "\n");
            proof {
                lemma_joined_push(done + acc, entry);
                assert((done + acc).push(entry) =~= done + acc.push(entry));
                acc = acc.push(entry);
            }
            *count = *count + 1;
            if *count >= max {
                proof {
                    let hits = hits_from(p, path, c@, 1);
                    assert(hits =~= acc + hits_from(p, path, c@.skip(next as int), lineno as nat + 1));
                    assert(hits.take(acc.len() as int) =~= acc);
                }
                return true;
            }
        } else {
            assert(h =~= Seq::<Seq<char>>::empty());
        }
        assert(acc + (h + hits_from(p, path, c@.skip(next as int), lineno as nat + 1)) =~= (acc
            + h) + hits_from(p, path, c@.skip(next as int), lineno as nat + 1));
        pos = next;
        done_lines = lineno;
    }
    assert(c@.skip(pos as int).len() == 0);
    assert(acc + Seq::<Seq<char>>::empty() =~= acc);
    false
}

/// The text of the `grep_files` tool for the files a walk found, in walk
/// order: a `path:line: text` line for each matching line (at most
/// `max_results`, at least one), capped at [`MAX_TOOL_OUTPUT`] characters.
pub fn grep_files(pattern: &SearchPattern, files: &Vec<SearchedFile>, max_results: usize) -> (result: String)
    ensures
        result@ == truncated(grep_body(pattern.source(), files@, max_results), MAX_TOOL_OUTPUT as nat),
{
    let max: usize = if max_results == 0 { 1 } else { max_results };
    let ghost p = pattern.source();
    let mut out: Vec<char> = Vec::new();
    let mut count: usize = 0;
    let ghost mut done: Seq<Seq<char>> = Seq::empty();
    let mut f: usize = 0;
    while f < files.len()
        invariant
            p == pattern.source(),
            1 <= max,
            max == (if max_results == 0 { 1 } else { max_results }),
            0 <= f <= files.len(),
            done == all_hits(p, files@.take(f as int)),
            count == done.len(),
            done.len() < max,
            out@ == joined(done),
        decreases files.len() - f,
    {
        let stopped = search_file(pattern, &files[f], &mut out, &mut count, max, Ghost(done));
        let ghost file_hits = hits_from(p, files@[f as int].path@, files@[f as int].content@, 1);
        proof {
            assert(files@.take(f + 1).drop_last() =~= files@.take(f as int));
            assert(all_hits(p, files@.take(f + 1)) == done + file_hits);
            assert(files@ =~= files@.take(f + 1) + files@.skip(f + 1));
            lemma_all_hits_append(p, files@.take(f + 1), files@.skip(f + 1));
        }
        if stopped {
            proof {
                let rest = choose|rest: Seq<Seq<char>>| #![trigger done + rest]
                    file_hits.len() >= rest.len() && (done + rest).len() == max
                        && file_hits.take(rest.len() as int) == rest && out@ == joined(done + rest);
                let all = all_hits(p, files@);
                assert(all == (done + file_hits) + all_hits(p, files@.skip(f + 1)));
                assert(all.take(max as int) =~= done + rest);
            }
            push_str(&mut out, "... (truncated at ");
            push_decimal(&mut out, max as u64);
            push_str(&mut out, " matches)\n");
            return truncate(string_of(out.as_slice()));
        }
        proof {
            done = done + file_hits;
        }
        f += 1;
    }
    assert(files@.take(files.len() as int) =~= files@);
    if count == 0 {
        push_str(&mut out, "(no matches)\n");
        assert(done.len() == 0);
    }
    truncate(string_of(out.as_slice()))
}

/// Whether a file looks binary: a NUL byte among its first
/// [`BINARY_SNIFF_BYTES`] bytes.
pub open spec fn binary_content(data: Seq<u8>) -> bool {
    exists|i: int| 0 <= i < data.len() && i < BINARY_SNIFF_BYTES && data[i] == 0
}

/// Skip obvious binary files by sniffing for NUL bytes.
pub fn looks_binary(data: &[u8]) -> (result: bool)
    ensures
        result == binary_content(data@),
{
    let n: usize = if data.len() < BINARY_SNIFF_BYTES { data.len() } else { BINARY_SNIFF_BYTES };
    let mut i: usize = 0;
    while i < n
        invariant
            0 <= i <= n,
            n <= data@.len(),
            n == data@.len() || n == BINARY_SNIFF_BYTES,
            n <= BINARY_SNIFF_BYTES,
            forall|k: int| 0 <= k < i ==> data@[k] != 0,
        decreases n - i,
    {
        if data[i] == 0 {
            assert(data@[i as int] == 0);
            return true;
        }
        i += 1;
    }
    false
}

// ---------------------------------------------------------------------------
// read_file, write_file
// ---------------------------------------------------------------------------

/// The text of the `read_file` tool: a header with the file's path, then its
/// content cut to the requested number of characters (itself capped at
/// [`MAX_TOOL_OUTPUT`]).
pub open spec fn read_file_body(path: Seq<char>, content: Seq<char>, max_chars: usize) -> Seq<char> {
    let cap = if max_chars < MAX_TOOL_OUTPUT { max_chars } else { MAX_TOOL_OUTPUT };
    "--- "@ + path + " ---\n"@ + truncated(content, cap as nat)
}

/// The text of the `read_file` tool for a file's content.
pub fn read_file_text(path: &str, content: String, max_chars: usize) -> (result: String)
    ensures
        result@ == read_file_body(path@, content@, max_chars),
{
    let cap: usize = if max_chars < MAX_TOOL_OUTPUT { max_chars } else { MAX_TOOL_OUTPUT };
    let cut = crate::text::truncate_to(content, cap);
    let mut out: Vec<char> = Vec::new();
    push_str(&mut out, "--- ");
    push_str(&mut out, path);
    push_str(&mut out, " ---\n");
    push_str(&mut out, cut.as_str());
    string_of(out.as_slice())
}

/// Law: reading back a file gives what was written to it whole, when it fits
/// the requested size. If the filesystem returns the content that
/// `write_file` wrote, and that content has at most `max_chars` characters
/// (within [`MAX_TOOL_OUTPUT`]), `read_file` shows the header and exactly
/// that content.
pub proof fn reading_back_gives_written_content(path: Seq<char>, content: Seq<char>, max_chars: usize)
    requires
        content.len() <= max_chars,
        content.len() <= MAX_TOOL_OUTPUT,
    ensures
        read_file_body(path, content, max_chars) == "--- "@ + path + " ---\n"@ + content,
{
}

/// The confirmation of the `write_file` tool: the written path and the
/// number of bytes written.
pub open spec fn wrote_message(path: Seq<char>, content: Seq<char>) -> Seq<char> {
    "✅ wrote "@ + path + " ("@ + decimal(crate::text::byte_len(content)) + " bytes)"@
}

/// The confirmation of the `write_file` tool.
pub fn wrote_text(path: &str, content: &str) -> (result: String)
    ensures
        result@ == wrote_message(path@, content@),
{
    let n = content.as_bytes().len();
    let mut out: Vec<char> = Vec::new();
    push_str(&mut out, "✅ wrote ");
    push_str(&mut out, path);
    push_str(&mut out, " (");
    push_decimal(&mut out, n as u64);
    push_str(&mut out, " bytes)");
    string_of(out.as_slice())
}

/// The refusal to write through a symbolic link.
pub open spec fn symlink_refusal(path: Seq<char>) -> Seq<char> {
    "refusing to write through symlink: "@ + path
}

/// The refusal to write through a symbolic link.
pub fn symlink_refusal_text(path: &str) -> (result: String)
    ensures
        result@ == symlink_refusal(path@),
{
    let mut out: Vec<char> = Vec::new();
    push_str(&mut out, "refusing to write through symlink: ");
    push_str(&mut out, path);
    string_of(out.as_slice())
}

// ---------------------------------------------------------------------------
// run_command
// ---------------------------------------------------------------------------

/// Environment variables pointed into the workspace's `.agent` directory,
/// with the subdirectory each one gets.
pub const SANDBOX_DIRS: [(&'static str, &'static str); 9] = [
    ("HOME", "home"),
    ("XDG_CACHE_HOME", "cache"),
    ("XDG_CONFIG_HOME", "config"),
    ("XDG_DATA_HOME", "data"),
    ("TMPDIR", "tmp"),
    ("CARGO_HOME", "cargo"),
    ("PIP_CACHE_DIR", "cache/pip"),
    ("NPM_CONFIG_CACHE", "cache/npm"),
    ("UV_CACHE_DIR", "cache/uv"),
];

/// Environment overrides that keep agent commands inside the workspace:
/// each variable of [`SANDBOX_DIRS`] set to its subdirectory of
/// `root/.agent`, in order.
pub fn agent_sandbox_env(root: &str) -> (result: Vec<(&'static str, String)>)
    ensures
        result@.len() == 9,
        forall|i: int| 0 <= i < 9 ==> {
            &&& (#[trigger] result@[i]).0@ == SANDBOX_DIRS@[i].0@
            &&& result@[i].1@ == path_join(path_join(root@, ".agent"@), SANDBOX_DIRS@[i].1@)
        },
{
    let agent_dir = join_path(root, ".agent");
    let mut out: Vec<(&'static str, String)> = Vec::new();
    let mut i: usize = 0;
    while i < 9
        invariant
            0 <= i <= 9,
            agent_dir@ == path_join(root@, ".agent"@),
            out@.len() == i,
            forall|k: int| 0 <= k < i ==> {
                &&& (#[trigger] out@[k]).0@ == SANDBOX_DIRS@[k].0@
                &&& out@[k].1@ == path_join(agent_dir@, SANDBOX_DIRS@[k].1@)
            },
        decreases 9 - i,
    {
        let (name, sub) = SANDBOX_DIRS[i];
        out.push((name, join_path(agent_dir.as_str(), sub)));
        i += 1;
    }
    out
}

/// The timeout actually applied to a command, never below
/// [`MIN_COMMAND_TIMEOUT_SECONDS`].
pub fn command_timeout_secs(timeout_secs: u64) -> (result: u64)
    ensures
        result == if timeout_secs < MIN_COMMAND_TIMEOUT_SECONDS {
            MIN_COMMAND_TIMEOUT_SECONDS
        } else {
            timeout_secs
        },
{
    if timeout_secs < MIN_COMMAND_TIMEOUT_SECONDS {
        MIN_COMMAND_TIMEOUT_SECONDS
    } else {
        timeout_secs
    }
}

/// The error when a command outlives its timeout.
pub open spec fn timeout_message(timeout_secs: u64) -> Seq<char> {
    "command timed out after "@ + decimal(timeout_secs as nat) + "s"@
}

/// The error when a command outlives its timeout.
pub fn timeout_text(timeout_secs: u64) -> (result: String)
    ensures
        result@ == timeout_message(timeout_secs),
{
    let mut out: Vec<char> = Vec::new();
    push_str(&mut out, "command timed out after ");
    push_decimal(&mut out, timeout_secs);
    push_str(&mut out, "s");
    string_of(out.as_slice())
}

/// Decimal rendering of a signed number.
pub open spec fn signed_decimal(n: int) -> Seq<char> {
    if n < 0 {
        "-"@ + decimal((-n) as nat)
    } else {
        decimal(n as nat)
    }
}

/// How a command's exit is shown: its code, or "signal" when a signal
/// ended it.
pub open spec fn exit_label(code: Option<i32>) -> Seq<char> {
    match code {
        Some(c) => signed_decimal(c as int),
        None => "signal"@,
    }
}

/// The text of the `run_command` tool before the output cap: standard
/// output, then standard error under a marker when there is any, then the
/// exit code.
pub open spec fn command_body(stdout: Seq<char>, stderr: Seq<char>, code: Option<i32>) -> Seq<char> {
    stdout + (if stderr.len() > 0 {
        "\n[stderr]\n"@ + stderr
    } else {
        Seq::empty()
    }) + "\n[exit code "@ + exit_label(code) + "]\n"@
}

/// The text of the `run_command` tool for a finished command, capped at
/// [`MAX_TOOL_OUTPUT`] characters.
pub fn command_output_text(stdout: &str, stderr: &str, code: Option<i32>) -> (result: String)
    ensures
        result@ == truncated(command_body(stdout@, stderr@, code), MAX_TOOL_OUTPUT as nat),
{
    let mut out: Vec<char> = Vec::new();
    push_str(&mut out, stdout);
    let err = chars_of(stderr);
    if err.len() > 0 {
        push_str(&mut out, "\n[stderr]\n");
        push_str(&mut out, stderr);
    }
    push_str(&mut out, "\n[exit code ");
    match code {
        Some(c) => {
            if c < 0 {
                push_str(&mut out, "-");
                let wide: i64 = c as i64;
                let magnitude: u64 = (0 - wide) as u64;
                assert(magnitude as int == -(c as int));
                push_decimal(&mut out, magnitude);
            } else {
                push_decimal(&mut out, c as u64);
            }
        },
        None => push_str(&mut out, "signal"),
    }
    push_str(&mut out, "]\n");
    assert(out@ =~= command_body(stdout@, stderr@, code));
    truncate(string_of(out.as_slice()))
}

} // verus!
