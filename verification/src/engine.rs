//! Inference engine identifiers and backend configuration.

use crate::chars::{
    ascii_lower, ascii_lower_seq, ascii_upper, ascii_upper_seq, is_whitespace, lemma_trim_ends,
    lemma_trim_fixed, chars_eq, chars_of, push_str, string_of, to_ascii_lowercase, trim, trim_chars,
};
use vstd::prelude::*;

verus! {

/// Default TensorRT input sequence length for prefill-equivalent throughput.
pub const TRTEXEC_DEFAULT_SEQ_LEN: usize = 128;

/// Default TensorRT repetitions per benchmark run.
pub const TRTEXEC_DEFAULT_AVG_RUNS: usize = 20;

/// Default TensorRT warm-up time, in milliseconds.
pub const TRTEXEC_DEFAULT_WARMUP_MILLIS: u64 = 500;

/// Identifier for every inference engine openBatarangs can talk to.
#[derive(Clone, Copy, Debug, PartialEq, Eq, Structural)]
pub enum EngineKind {
    /// Ollama's local HTTP server (production default).
    Ollama,
    /// NVIDIA TensorRT via the installed `trtexec` binary.
    TensorRt,
}

/// Machine-readable name of each engine.
pub open spec fn engine_name(kind: EngineKind) -> Seq<char> {
    match kind {
        EngineKind::Ollama => "ollama"@,
        EngineKind::TensorRt => "tensorrt"@,
    }
}

/// Human-friendly name of each engine.
pub open spec fn engine_display_name(kind: EngineKind) -> Seq<char> {
    match kind {
        EngineKind::Ollama => "Ollama"@,
        EngineKind::TensorRt => "TensorRT (trtexec)"@,
    }
}

/// The engine a user-supplied name denotes: the name is trimmed and compared
/// without regard to ASCII case.
pub open spec fn parsed_engine(name: Seq<char>) -> Option<EngineKind> {
    let n = ascii_lower_seq(trim(name));
    if n == "ollama"@ {
        Some(EngineKind::Ollama)
    } else if n == "tensorrt"@ || n == "trt"@ || n == "trtexec"@ {
        Some(EngineKind::TensorRt)
    } else {
        None
    }
}

/// Every known engine, in benchmark display order.
pub open spec fn all_engines() -> Seq<EngineKind> {
    seq![EngineKind::Ollama, EngineKind::TensorRt]
}

impl EngineKind {
    /// Machine-readable engine name used on the CLI and in reports.
    pub fn as_str(self) -> (result: &'static str)
        ensures
            result@ == engine_name(self),
    {
        match self {
            EngineKind::Ollama => "ollama",
            EngineKind::TensorRt => "tensorrt",
        }
    }

    /// Human-friendly display name.
    pub fn display_name(self) -> (result: &'static str)
        ensures
            result@ == engine_display_name(self),
    {
        match self {
            EngineKind::Ollama => "Ollama",
            EngineKind::TensorRt => "TensorRT (trtexec)",
        }
    }

    /// Parse a user-supplied engine name (case-insensitive).
    pub fn parse(name: &str) -> (result: Option<EngineKind>)
        ensures
            result == parsed_engine(name@),
    {
        let chars = chars_of(name);
        let trimmed = trim_chars(&chars);
        let n = to_ascii_lowercase(&trimmed);
        if chars_eq(&n, "ollama") {
            Some(EngineKind::Ollama)
        } else if chars_eq(&n, "tensorrt") || chars_eq(&n, "trt") || chars_eq(&n, "trtexec") {
            Some(EngineKind::TensorRt)
        } else {
            None
        }
    }

    /// Every known engine, in benchmark display order.
    pub fn all() -> (result: &'static [EngineKind])
        ensures
            result@ == all_engines(),
    {
        let engines: &'static [EngineKind] = &[EngineKind::Ollama, EngineKind::TensorRt];
        engines
    }
}

/// Configuration needed to construct a backend.
#[derive(Clone, Debug)]
pub struct EngineConfig {
    /// Which engine to build.
    pub kind: EngineKind,
    /// Ollama base URL (only used by the Ollama backend).
    pub ollama_url: String,
    /// Optional explicit model tag (Ollama) or ONNX model path (TensorRT).
    pub model: Option<String>,
    /// TensorRT input sequence length for prefill-equivalent throughput.
    pub trtexec_seq_len: usize,
    /// TensorRT repetitions per benchmark run.
    pub trtexec_avg_runs: usize,
    /// Optional `--shapes` string forwarded to trtexec.
    pub trt_shapes: Option<String>,
}

impl EngineConfig {
    /// Build a config for the given kind with project defaults.
    pub fn new(kind: EngineKind, ollama_url: &str, model: Option<String>) -> (result: EngineConfig)
        ensures
            result.kind == kind,
            result.ollama_url@ == ollama_url@,
            result.model == model,
            result.trtexec_seq_len == TRTEXEC_DEFAULT_SEQ_LEN,
            result.trtexec_avg_runs == TRTEXEC_DEFAULT_AVG_RUNS,
            result.trt_shapes is None,
    {
        EngineConfig {
            kind,
            ollama_url: String::from_str(ollama_url),
            model,
            trtexec_seq_len: TRTEXEC_DEFAULT_SEQ_LEN,
            trtexec_avg_runs: TRTEXEC_DEFAULT_AVG_RUNS,
            trt_shapes: None,
        }
    }
}

/// An engine name that is not known.
#[derive(Debug, PartialEq, Eq)]
pub struct UnknownEngine {
    /// The name as given.
    pub name: String,
}

/// The message for an unknown engine name.
pub open spec fn unknown_engine_message(name: Seq<char>) -> Seq<char> {
    "unknown engine '"@ + name + "' (try: ollama, tensorrt)"@
}

impl UnknownEngine {
    /// The message shown to the user.
    pub fn message(&self) -> (result: String)
        ensures
            result@ == unknown_engine_message(self.name@),
    {
        let mut out: Vec<char> = Vec::new();
        push_str(&mut out, "unknown engine '");
        push_str(&mut out, self.name.as_str());
        push_str(&mut out, "' (try: ollama, tensorrt)");
        string_of(out.as_slice())
    }
}

/// What `resolve_engine_kinds(names)` returns: every engine when the list is
/// empty; else each name parsed in order, the first unknown name failing.
pub open spec fn resolved_engines(names: Seq<Seq<char>>) -> Result<Seq<EngineKind>, Seq<char>> {
    if names.len() == 0 {
        Ok(all_engines())
    } else {
        parsed_engines(names)
    }
}

/// Each name parsed in order; the first unknown name fails.
pub open spec fn parsed_engines(names: Seq<Seq<char>>) -> Result<Seq<EngineKind>, Seq<char>>
    decreases names.len(),
{
    if names.len() == 0 {
        Ok(seq![])
    } else {
        match parsed_engines(names.drop_last()) {
            Err(e) => Err(e),
            Ok(kinds) => match parsed_engine(names.last()) {
                Some(k) => Ok(kinds.push(k)),
                None => Err(names.last()),
            },
        }
    }
}

/// Resolve a user-supplied engine list; empty means "all available engines".
pub fn resolve_engine_kinds(names: &[String]) -> (result: Result<Vec<EngineKind>, UnknownEngine>)
    ensures
        match result {
            Ok(kinds) => resolved_engines(names@.map_values(|n: String| n@)) == Ok::<
                Seq<EngineKind>,
                Seq<char>,
            >(kinds@),
            Err(e) => resolved_engines(names@.map_values(|n: String| n@)) == Err::<
                Seq<EngineKind>,
                Seq<char>,
            >(e.name@),
        },
{
    let ghost views = names@.map_values(|n: String| n@);
    if names.len() == 0 {
        let mut all: Vec<EngineKind> = Vec::new();
        all.push(EngineKind::Ollama);
        all.push(EngineKind::TensorRt);
        assert(all@ == all_engines());
        return Ok(all);
    }
    let mut kinds: Vec<EngineKind> = Vec::new();
    let mut i: usize = 0;
    while i < names.len()
        invariant
            0 <= i <= names.len(),
            views == names@.map_values(|n: String| n@),
            parsed_engines(views.take(i as int)) == Ok::<Seq<EngineKind>, Seq<char>>(kinds@),
        decreases names.len() - i,
    {
        assert(views.take(i + 1).drop_last() == views.take(i as int));
        assert(views.take(i + 1).last() == names@[i as int]@);
        match EngineKind::parse(names[i].as_str()) {
            Some(k) => kinds.push(k),
            None => {
                proof {
                    lemma_parsed_engines_prefix_error(views, (i + 1) as int);
                }
                return Err(UnknownEngine { name: names[i].clone() });
            },
        }
        i += 1;
    }
    assert(views.take(names.len() as int) == views);
    Ok(kinds)
}

/// Once a prefix of the names fails to parse, the whole list fails the same way.
proof fn lemma_parsed_engines_prefix_error(names: Seq<Seq<char>>, k: int)
    requires
        0 <= k <= names.len(),
        parsed_engines(names.take(k)) is Err,
    ensures
        parsed_engines(names) == parsed_engines(names.take(k)),
    decreases names.len() - k,
{
    if k == names.len() {
        assert(names.take(k) == names);
    } else {
        assert(names.take(k + 1).drop_last() == names.take(k));
        lemma_parsed_engines_prefix_error(names, k + 1);
    }
}

/// Where `trtexec` is looked for, in order: on `PATH`, then the usual
/// TensorRT install locations.
pub const TRTEXEC_CANDIDATES: [&'static str; 3] = [
    "trtexec",
    "/usr/src/tensorrt/bin/trtexec",
    "/usr/local/tensorrt/bin/trtexec",
];

/// A candidate with a `/` is a path to test directly; any other is a
/// command name looked up on `PATH`.
pub fn is_path_candidate(candidate: &str) -> (result: bool)
    ensures
        result == crate::chars::contains_seq(candidate@, seq!['/']),
{
    let mut slash: Vec<char> = Vec::new();
    slash.push('/');
    crate::chars::contains_chars(&crate::chars::chars_of(candidate), &slash)
}

/// The arguments given to `trtexec` for a benchmark of `model`.
pub open spec fn trtexec_arguments(model: Seq<char>, avg_runs: usize, shapes: Option<Seq<char>>) -> Seq<Seq<char>> {
    let base = seq![
        "--onnx="@ + model,
        "--fp16"@,
        "--avgRuns="@ + crate::chars::decimal(avg_runs as nat),
        "--warmUp="@ + crate::chars::decimal(TRTEXEC_DEFAULT_WARMUP_MILLIS as nat),
    ];
    match shapes {
        Some(s) => base.push("--shapes="@ + s),
        None => base,
    }
}

/// The arguments given to `trtexec` for a benchmark of `model`: FP16, the
/// configured repetitions, the default warm-up, and the shapes when given.
pub fn trtexec_args(model: &str, avg_runs: usize, shapes: &Option<String>) -> (result: Vec<String>)
    ensures
        result@.map_values(|a: String| a@) == trtexec_arguments(
            model@,
            avg_runs,
            match shapes {
                Some(s) => Some(s@),
                None => None,
            },
        ),
{
    let mut args: Vec<String> = Vec::new();
    let mut a: Vec<char> = Vec::new();
    crate::chars::push_str(&mut a, "--onnx=");
    crate::chars::push_str(&mut a, model);
    args.push(crate::chars::string_of(a.as_slice()));
    args.push(String::from_str("--fp16"));
    let mut b: Vec<char> = Vec::new();
    crate::chars::push_str(&mut b, "--avgRuns=");
    crate::chars::push_decimal(&mut b, avg_runs as u64);
    args.push(crate::chars::string_of(b.as_slice()));
    let mut c: Vec<char> = Vec::new();
    crate::chars::push_str(&mut c, "--warmUp=");
    crate::chars::push_decimal(&mut c, TRTEXEC_DEFAULT_WARMUP_MILLIS);
    args.push(crate::chars::string_of(c.as_slice()));
    if let Some(s) = shapes {
        let mut d: Vec<char> = Vec::new();
        crate::chars::push_str(&mut d, "--shapes=");
        crate::chars::push_str(&mut d, s.as_str());
        args.push(crate::chars::string_of(d.as_slice()));
    }
    assert(args@.map_values(|a: String| a@) =~= trtexec_arguments(
        model@,
        avg_runs,
        match shapes {
            Some(s) => Some(s@),
            None => None,
        },
    ));
    args
}

/// Experimental backend that shells out to `trtexec`.
#[derive(Clone, Debug)]
pub struct TensorRtBackend {
    /// ONNX model path.
    pub onnx_model: Option<String>,
    /// Input sequence length.
    pub seq_len: usize,
    /// Repetitions per run.
    pub avg_runs: usize,
    /// Optional `--shapes` argument.
    pub trt_shapes: Option<String>,
}

impl TensorRtBackend {
    /// Build a TensorRT backend from a config.
    pub fn new(config: &EngineConfig) -> (result: TensorRtBackend)
        ensures
            result.onnx_model == config.model,
            result.seq_len == config.trtexec_seq_len,
            result.avg_runs == config.trtexec_avg_runs,
            result.trt_shapes == config.trt_shapes,
    {
        TensorRtBackend {
            onnx_model: config.model.clone(),
            seq_len: config.trtexec_seq_len,
            avg_runs: config.trtexec_avg_runs,
            trt_shapes: config.trt_shapes.clone(),
        }
    }

    /// Locate the `trtexec` executable: the first of [`TRTEXEC_CANDIDATES`]
    /// that `is_present` accepts, tried in order.
    pub fn find_trtexec<F: Fn(&str) -> bool>(is_present: F) -> (result: Option<&'static str>)
        requires
            forall|candidate: &str| #[trigger] is_present.requires((candidate,)),
        ensures
            match result {
                Some(found) => exists|i: int|
                    0 <= i < TRTEXEC_CANDIDATES@.len() && found@ == TRTEXEC_CANDIDATES@[i]@
                        && is_present.ensures((TRTEXEC_CANDIDATES@[i],), true),
                None => forall|i: int|
                    0 <= i < TRTEXEC_CANDIDATES@.len() ==> is_present.ensures(
                        (#[trigger] TRTEXEC_CANDIDATES@[i],),
                        false,
                    ),
            },
    {
        let mut i: usize = 0;
        while i < 3
            invariant
                0 <= i <= 3,
                TRTEXEC_CANDIDATES@.len() == 3,
                forall|candidate: &str| #[trigger] is_present.requires((candidate,)),
                forall|k: int|
                    0 <= k < i ==> is_present.ensures((#[trigger] TRTEXEC_CANDIDATES@[k],), false),
            decreases 3 - i,
        {
            let candidate = TRTEXEC_CANDIDATES[i];
            let present = is_present(candidate);
            if present {
                assert(TRTEXEC_CANDIDATES@[i as int] == candidate);
                return Some(candidate);
            }
            i += 1;
        }
        None
    }
}

} // verus!

verus! {

/// Law: every engine's machine-readable name parses back to that engine.
pub proof fn engine_names_round_trip(kind: EngineKind)
    ensures
        parsed_engine(engine_name(kind)) == Some(kind),
{
    reveal_strlit("ollama");
    reveal_strlit("tensorrt");
    let n = engine_name(kind);
    assert(crate::chars::leading_ws(n) == 0);
    assert(n.skip(0) == n);
    assert(crate::chars::trailing_ws(n) == 0);
    assert(n.take(n.len() as int) == n);
    assert(trim(n) == n);
    assert(ascii_lower_seq(n) =~= n);
}

/// Lowercasing an uppercased character gives the character lowercased.
proof fn lemma_lower_of_upper(c: char)
    ensures
        ascii_lower(ascii_upper(c)) == ascii_lower(c),
        is_whitespace(ascii_upper(c)) == is_whitespace(c),
{
    if 'a' <= c && c <= 'z' {
        assert(ascii_upper(c) as u32 == (c as u32) - 32);
    }
}

/// Law: parsing an engine name ignores surrounding whitespace and ASCII
/// case: a name parses as its trimmed, uppercased form does.
pub proof fn engine_parse_ignores_space_and_case(name: Seq<char>)
    ensures
        parsed_engine(name) == parsed_engine(ascii_upper_seq(trim(name))),
{
    let t = trim(name);
    let u = ascii_upper_seq(t);
    lemma_trim_ends(name);
    if t.len() > 0 {
        lemma_lower_of_upper(t[0]);
        lemma_lower_of_upper(t.last());
        assert(u[0] == ascii_upper(t[0]));
        assert(u.last() == ascii_upper(t.last()));
    }
    lemma_trim_fixed(u);
    assert forall|i: int| 0 <= i < t.len() implies #[trigger] ascii_lower_seq(u)[i] == ascii_lower_seq(t)[i] by {
        lemma_lower_of_upper(t[i]);
    }
    assert(ascii_lower_seq(u) =~= ascii_lower_seq(t));
}

} // verus!
