//! Model tag helpers: the fallback model to pull, path-like tag detection,
//! and the parts of model scoring that read a model's metadata (its context
//! window, labels, memory fit and name keywords). The weights that turn
//! these into a score are floating-point and are applied by the caller.

use crate::chars::{
    ascii_lower_seq, ascii_upper_seq, chars_of, contains_chars, contains_seq, occurs_at, string_of,
    to_ascii_lowercase, to_ascii_uppercase, trim, trim_chars,
};
use crate::ollama::OllamaModel;
use vstd::prelude::*;

verus! {

/// 7B fallback model tag, preferred when enough memory is available.
pub const FALLBACK_MODEL_7B: &'static str = "qwen2.5-coder:7b";

/// 3B fallback model tag, used on memory-constrained devices.
pub const FALLBACK_MODEL_3B: &'static str = "qwen2.5-coder:3b";

/// Memory (bytes) from which the 7B fallback model is preferred: 12 GB.
pub const FALLBACK_7B_MEMORY_THRESHOLD_BYTES: u64 = 12 * 1024 * 1024 * 1024;

/// Pick the default coding model to auto-pull when nothing suitable is installed.
///
/// The 7B model on machines with 12 GB (12 GiB) or more, else the 3B model.
pub fn recommended_fallback_model(mem_budget: u64) -> (result: &'static str)
    ensures
        result@ == (if mem_budget >= FALLBACK_7B_MEMORY_THRESHOLD_BYTES {
            FALLBACK_MODEL_7B@
        } else {
            FALLBACK_MODEL_3B@
        }),
{
    if mem_budget >= FALLBACK_7B_MEMORY_THRESHOLD_BYTES {
        FALLBACK_MODEL_7B
    } else {
        FALLBACK_MODEL_3B
    }
}

/// A model name that reads as a local file path: it ends with `.gguf`, is
/// absolute, starts with `.`, holds `..` or holds a backslash.
pub open spec fn path_like_name(name: Seq<char>) -> bool {
    ||| (name.len() >= 5 && name.skip(name.len() - 5) == ".gguf"@)
    ||| (name.len() > 0 && name[0] == '/')
    ||| (name.len() > 0 && name[0] == '.')
    ||| contains_seq(name, ".."@)
    ||| contains_seq(name, seq!['\\'])
}

/// Whether a model name reads as a local file path (without looking at the
/// disk).
pub fn path_like(name: &str) -> (result: bool)
    ensures
        result == path_like_name(name@),
{
    let s = chars_of(name);
    let suffix = chars_of(".gguf");
    proof {
        reveal_strlit(".gguf");
    }
    let ends_gguf = s.len() >= 5 && occurs_at_end(&s, &suffix);
    let dots = chars_of("..");
    let mut backslash: Vec<char> = Vec::new();
    backslash.push('\\');
    ends_gguf || (s.len() > 0 && s[0] == '/') || (s.len() > 0 && s[0] == '.') || contains_chars(
        &s,
        &dots,
    ) || contains_chars(&s, &backslash)
}

/// Whether `s` ends with `suffix`.
fn occurs_at_end(s: &Vec<char>, suffix: &Vec<char>) -> (result: bool)
    requires
        suffix.len() <= s.len(),
    ensures
        result == (s@.skip(s.len() - suffix.len()) == suffix@),
{
    let r = crate::chars::matches_at(s, suffix, s.len() - suffix.len());
    assert(s@.subrange(s.len() - suffix.len(), s.len() as int) == s@.skip(s.len() - suffix.len()));
    r
}

/// `Path::exists`: whether something exists at `name` on disk. The answer
/// depends on the filesystem, so nothing is stated of it.
#[verifier::external_body]
fn path_exists(name: &str) -> bool {
    std::path::Path::new(name).exists()
}

/// Whether a model name counts as a local file path, given whether something
/// exists at that path on disk.
pub open spec fn path_verdict(name: Seq<char>, exists_on_disk: bool) -> bool {
    path_like_name(name) || exists_on_disk
}

/// Decide whether a model name is a local file path, given whether something
/// exists at that path on disk.
pub fn looks_like_path_given(name: &str, exists_on_disk: bool) -> (result: bool)
    ensures
        result == path_verdict(name@, exists_on_disk),
{
    path_like(name) || exists_on_disk
}

/// True if a model name looks like a local file path rather than an Ollama tag.
///
/// A name that reads as a path (see [`path_like`]) always does; any other
/// name does exactly when something exists at that path on disk, which is
/// asked of the filesystem only for such a name.
pub fn looks_like_path(name: &str) -> (result: bool)
    ensures
        path_like_name(name@) ==> result,
{
    if path_like(name) {
        return true;
    }
    let exists_on_disk = path_exists(name);
    looks_like_path_given(name, exists_on_disk)
}

/// Total system memory from the text of `/proc/meminfo` (see
/// [`crate::hardware::total_system_memory_bytes`]).
pub fn total_system_memory_bytes(meminfo: &str) -> (result: u64)
    ensures
        result == crate::hardware::memtotal_bytes(meminfo@),
{
    crate::hardware::total_system_memory_bytes(meminfo)
}


// ---------------------------------------------------------------------------
// metadata read by model scoring
// ---------------------------------------------------------------------------

/// Context window assumed for a model whose metadata gives none.
pub const DEFAULT_CONTEXT_LENGTH: u64 = 4_096;

/// Smallest context window a model is credited with.
pub const MIN_CONTEXT_LENGTH: u64 = 2_048;

/// A model fits comfortably when its file takes at most the budget divided
/// by this.
pub const MEMORY_COMFORT_DIVISOR: u64 = 2;

/// Label shown for metadata the server did not report.
pub const UNKNOWN_LABEL: &'static str = "unknown";

/// Name fragments that mark coding-oriented models, most telling first.
pub const CODING_KEYWORDS: [&'static str; 12] = [
    "coder",
    "deepseek",
    "starcoder",
    "code",
    "devstral",
    "gpt-oss",
    "qwen3",
    "qwen2.5",
    "llama3.3",
    "phi",
    "gemma",
    "mistral",
];

/// Quantization label fragments, best quality-to-size tradeoff first.
pub const QUANT_KEYWORDS: [&'static str; 8] = ["Q4_K_M", "Q4_K_S", "Q5", "Q4_0", "Q6", "Q8", "F16", "FP16"];

/// The context window the model's metadata declares, if any.
pub open spec fn declared_context(model: OllamaModel) -> Option<u64> {
    match model.details {
        Some(d) => d.context_length,
        None => None,
    }
}

/// The context window a model is scored with: the declared one (or
/// [`DEFAULT_CONTEXT_LENGTH`]), raised to at least [`MIN_CONTEXT_LENGTH`].
pub open spec fn scored_context(declared: Option<u64>) -> u64 {
    let c = match declared {
        Some(c) => c,
        None => DEFAULT_CONTEXT_LENGTH,
    };
    if c < MIN_CONTEXT_LENGTH {
        MIN_CONTEXT_LENGTH
    } else {
        c
    }
}

/// The context window `model` is scored with.
pub fn scoring_context(model: &OllamaModel) -> (result: u64)
    ensures
        result == scored_context(declared_context(*model)),
{
    let declared = match &model.details {
        Some(d) => d.context_length,
        None => None,
    };
    let c = match declared {
        Some(c) => c,
        None => DEFAULT_CONTEXT_LENGTH,
    };
    if c < MIN_CONTEXT_LENGTH {
        MIN_CONTEXT_LENGTH
    } else {
        c
    }
}

/// Whether `model` is eligible at all: its scored context window reaches
/// `min_context`. Models that are not are left out of scoring and listing.
pub fn meets_min_context(model: &OllamaModel, min_context: u64) -> (result: bool)
    ensures
        result == (scored_context(declared_context(*model)) >= min_context),
{
    scoring_context(model) >= min_context
}

/// A reported label, or [`UNKNOWN_LABEL`] when there is none.
pub open spec fn label_or_unknown(label: Option<String>) -> Seq<char> {
    match label {
        Some(l) => l@,
        None => UNKNOWN_LABEL@,
    }
}

/// The parameter-count label the model's metadata declares, if any.
pub open spec fn declared_parameter_size(model: OllamaModel) -> Option<String> {
    match model.details {
        Some(d) => d.parameter_size,
        None => None,
    }
}

/// The quantization label the model's metadata declares, if any.
pub open spec fn declared_quantization(model: OllamaModel) -> Option<String> {
    match model.details {
        Some(d) => d.quantization_level,
        None => None,
    }
}

fn label_text(label: &Option<String>) -> (result: String)
    ensures
        result@ == label_or_unknown(*label),
{
    match label {
        Some(l) => l.clone(),
        None => String::from_str(UNKNOWN_LABEL),
    }
}

/// The parameter-count label shown for `model` (e.g. `7.6B`).
pub fn parameter_label(model: &OllamaModel) -> (result: String)
    ensures
        result@ == label_or_unknown(declared_parameter_size(*model)),
{
    match &model.details {
        Some(d) => label_text(&d.parameter_size),
        None => String::from_str(UNKNOWN_LABEL),
    }
}

/// The quantization label shown for `model` (e.g. `Q4_K_M`).
pub fn quantization_label(model: &OllamaModel) -> (result: String)
    ensures
        result@ == label_or_unknown(declared_quantization(*model)),
{
    match &model.details {
        Some(d) => label_text(&d.quantization_level),
        None => String::from_str(UNKNOWN_LABEL),
    }
}

/// How a model file fits the memory budget.
#[derive(Debug, Clone, Copy, PartialEq, Eq, Structural)]
pub enum MemoryFit {
    /// The server reported no size.
    Unknown,
    /// At most half the budget.
    Comfortable,
    /// Within the budget, with little headroom.
    Tight,
    /// Larger than the budget.
    Overflow,
}

/// The memory fit of a model file of `size` bytes under `mem_budget` bytes.
pub open spec fn memory_fit_of(size: u64, mem_budget: u64) -> MemoryFit {
    if size == 0 {
        MemoryFit::Unknown
    } else if size <= mem_budget / MEMORY_COMFORT_DIVISOR {
        MemoryFit::Comfortable
    } else if size <= mem_budget {
        MemoryFit::Tight
    } else {
        MemoryFit::Overflow
    }
}

/// Classify how a model file of `size` bytes fits `mem_budget` bytes.
pub fn memory_fit(size: u64, mem_budget: u64) -> (result: MemoryFit)
    ensures
        result == memory_fit_of(size, mem_budget),
{
    if size == 0 {
        MemoryFit::Unknown
    } else if size <= mem_budget / MEMORY_COMFORT_DIVISOR {
        MemoryFit::Comfortable
    } else if size <= mem_budget {
        MemoryFit::Tight
    } else {
        MemoryFit::Overflow
    }
}

/// `keywords[i]` is the first of `keywords` that occurs in `text`.
pub open spec fn first_keyword_at(text: Seq<char>, keywords: Seq<&'static str>, i: int) -> bool {
    &&& 0 <= i < keywords.len()
    &&& contains_seq(text, keywords[i]@)
    &&& forall|k: int| 0 <= k < i ==> !contains_seq(text, #[trigger] keywords[k]@)
}

/// None of `keywords` occurs in `text`.
pub open spec fn no_keyword(text: Seq<char>, keywords: Seq<&'static str>) -> bool {
    forall|k: int| 0 <= k < keywords.len() ==> !contains_seq(text, #[trigger] keywords[k]@)
}

/// The index of the first of `keywords` that occurs in `text`.
fn first_keyword(text: &Vec<char>, keywords: &[&'static str]) -> (result: Option<usize>)
    ensures
        match result {
            Some(i) => first_keyword_at(text@, keywords@, i as int),
            None => no_keyword(text@, keywords@),
        },
{
    let mut i: usize = 0;
    while i < keywords.len()
        invariant
            0 <= i <= keywords@.len(),
            forall|k: int| 0 <= k < i ==> !contains_seq(text@, #[trigger] keywords@[k]@),
        decreases keywords.len() - i,
    {
        let kw = chars_of(keywords[i]);
        if contains_chars(text, &kw) {
            return Some(i);
        }
        i += 1;
    }
    None
}

/// The index in [`CODING_KEYWORDS`] of the first keyword found in the model
/// name (ASCII case-insensitively), if any.
pub fn coding_keyword(name: &str) -> (result: Option<usize>)
    ensures
        match result {
            Some(i) => first_keyword_at(ascii_lower_seq(name@), CODING_KEYWORDS@, i as int),
            None => no_keyword(ascii_lower_seq(name@), CODING_KEYWORDS@),
        },
{
    let lower = to_ascii_lowercase(&chars_of(name));
    first_keyword(&lower, &CODING_KEYWORDS)
}

/// The index in [`QUANT_KEYWORDS`] of the first keyword found in the
/// quantization label (ASCII case-insensitively), if any.
pub fn quant_keyword(label: &str) -> (result: Option<usize>)
    ensures
        match result {
            Some(i) => first_keyword_at(ascii_upper_seq(label@), QUANT_KEYWORDS@, i as int),
            None => no_keyword(ascii_upper_seq(label@), QUANT_KEYWORDS@),
        },
{
    let upper = to_ascii_uppercase(&chars_of(label));
    first_keyword(&upper, &QUANT_KEYWORDS)
}

/// A character of a parameter count: a digit or the decimal point.
pub open spec fn is_number_char(c: char) -> bool {
    ('0' <= c && c <= '9') || c == '.'
}

/// `digits` is the longest prefix of `s` made of digits and points.
pub open spec fn leading_number(s: Seq<char>, digits: Seq<char>) -> bool {
    &&& digits.len() <= s.len()
    &&& digits == s.take(digits.len() as int)
    &&& forall|i: int| 0 <= i < digits.len() ==> is_number_char(#[trigger] digits[i])
    &&& (digits.len() == s.len() || !is_number_char(s[digits.len() as int]))
}

/// A parameter-count label taken apart: its leading number (still text) and
/// whether the count is in millions rather than billions.
#[derive(Debug)]
pub struct ParameterCount {
    /// The leading digits and points of the label, e.g. `7.6`.
    pub digits: String,
    /// The label holds an `m` (ASCII case-insensitively), as in `873.44M`.
    pub in_millions: bool,
}

/// Take apart a parameter-count label such as `7.6B` or `873.44M`: after
/// trimming and lowercasing, its leading number and whether it holds `m`.
pub fn parameter_count(label: &str) -> (result: ParameterCount)
    ensures
        leading_number(ascii_lower_seq(trim(label@)), result.digits@),
        result.in_millions == contains_seq(ascii_lower_seq(trim(label@)), seq!['m']),
{
    let normalized = to_ascii_lowercase(&trim_chars(&chars_of(label)));
    let mut digits: Vec<char> = Vec::new();
    let mut i: usize = 0;
    while i < normalized.len() && (('0' <= normalized[i] && normalized[i] <= '9') || normalized[i] == '.')
        invariant
            0 <= i <= normalized@.len(),
            digits@ == normalized@.take(i as int),
            forall|k: int| 0 <= k < i ==> is_number_char(#[trigger] normalized@[k]),
        decreases normalized.len() - i,
    {
        digits.push(normalized[i]);
        i += 1;
        assert(digits@ =~= normalized@.take(i as int));
    }
    let mut m: Vec<char> = Vec::new();
    m.push('m');
    let in_millions = contains_chars(&normalized, &m);
    assert(m@ =~= seq!['m']);
    ParameterCount { digits: string_of(digits.as_slice()), in_millions }
}

} // verus!
