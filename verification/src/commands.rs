//! Reports and decisions of the high-level commands: the doctor report, the
//! model table, model selection and setup.
//!
//! Model scores are floating-point numbers; they are computed and formatted
//! by the binary and arrive here as text, together with the decisions taken
//! on them.

use crate::chars::{decimal, push_decimal, push_str, string_of};
use crate::models::looks_like_path;
use vstd::prelude::*;

verus! {

/// Maximum number of selection rounds (each may pull a model).
pub const MODEL_SELECT_MAX_ATTEMPTS: u32 = 3;

/// Context length assumed when a model's metadata gives none.
pub const FALLBACK_CONTEXT_LENGTH: u64 = 8_192;

/// Divisor turning a context length into the "K" figure of the model table.
pub const CONTEXT_LENGTH_KILO_DIVISOR: u64 = 1_000;

/// `n` spaces.
pub open spec fn spaces(n: nat) -> Seq<char>
    decreases n,
{
    if n == 0 {
        Seq::empty()
    } else {
        spaces((n - 1) as nat).push(' ')
    }
}

/// `format!("{:<w}", s)`: `s` padded with spaces on the right to `w`
/// characters.
pub open spec fn pad_right(s: Seq<char>, w: nat) -> Seq<char> {
    if s.len() < w {
        s + spaces((w - s.len()) as nat)
    } else {
        s
    }
}

/// `format!("{:>w}", s)`: `s` padded with spaces on the left to `w`
/// characters.
pub open spec fn pad_left(s: Seq<char>, w: nat) -> Seq<char> {
    if s.len() < w {
        spaces((w - s.len()) as nat) + s
    } else {
        s
    }
}

/// Appends `n` spaces.
fn push_spaces(out: &mut Vec<char>, n: usize)
    ensures
        final(out)@ == old(out)@ + spaces(n as nat),
{
    let mut i: usize = 0;
    while i < n
        invariant
            0 <= i <= n,
            out@ == old(out)@ + spaces(i as nat),
        decreases n - i,
    {
        out.push(' ');
        i += 1;
        assert(spaces(i as nat) == spaces((i - 1) as nat).push(' '));
    }
}

/// Appends `s` padded on the right to `w` characters.
fn push_padded_right(out: &mut Vec<char>, s: &str, w: usize)
    ensures
        final(out)@ == old(out)@ + pad_right(s@, w as nat),
{
    let cs = crate::chars::chars_of(s);
    push_str(out, s);
    if cs.len() < w {
        push_spaces(out, w - cs.len());
    }
}

/// Appends `s` padded on the left to `w` characters.
fn push_padded_left(out: &mut Vec<char>, s: &str, w: usize)
    ensures
        final(out)@ == old(out)@ + pad_left(s@, w as nat),
{
    let cs = crate::chars::chars_of(s);
    if cs.len() < w {
        push_spaces(out, w - cs.len());
    }
    push_str(out, s);
}

// ---------------------------------------------------------------------------
// doctor
// ---------------------------------------------------------------------------

/// The best installed model, as the doctor report shows it. `score` and
/// `size_gb` are already formatted (`{:.0}` and `{:.1}`).
#[derive(Debug)]
pub struct BestModel {
    /// Model tag.
    pub name: String,
    /// Score out of 100, formatted.
    pub score: String,
    /// Size in gigabytes, formatted.
    pub size_gb: String,
    /// Parameter count label.
    pub parameter_size: String,
    /// Context window.
    pub context_length: u64,
    /// Quantization label.
    pub quantization: String,
}

/// The lines of the doctor report.
pub open spec fn doctor_report(base_url: Seq<char>, installed: usize, best: Option<BestModel>, min_context: u64) -> Seq<Seq<char>> {
    seq!["✅ Ollama reachable at "@ + base_url, "Installed models: "@ + decimal(installed as nat)] + match best {
        Some(b) => seq![
            "🏆 Best model for agentic coding: "@ + b.name@ + " (score "@ + b.score@ + "/100)"@,
            "   "@ + b.size_gb@ + " GB, "@ + b.parameter_size@ + " params, "@ + decimal(
                b.context_length as nat,
            ) + " context, "@ + b.quantization@,
        ],
        None => seq![
            "⚠️  No model meets the minimum context of "@ + decimal(min_context as nat) + "."@,
            "   Run `openbatrangs setup` to pull a recommended model."@,
        ],
    } + seq![
        Seq::empty(),
        "⚡ Performance per watt per dollar:"@,
        "   - Local GPU inference on unified memory, no cloud API fees"@,
        "   - Auto-picker deliberately chooses models that fit memory (Q4_K_M 3B-8B on 16GB Jetson)"@,
        "   - Keeps latency and power low while preserving a 32K+ context window"@,
    ]
}

/// Build the doctor report from the number of installed models and the best
/// one that meets the minimum context (if any).
pub fn doctor_lines_from_tags(base_url: &str, installed: usize, best: &Option<BestModel>, min_context: u64) -> (result: Vec<String>)
    ensures
        result@.map_values(|l: String| l@) == doctor_report(base_url@, installed, *best, min_context),
{
    let mut lines: Vec<String> = Vec::new();
    let mut a: Vec<char> = Vec::new();
    push_str(&mut a, "✅ Ollama reachable at ");
    push_str(&mut a, base_url);
    lines.push(string_of(a.as_slice()));
    let mut b: Vec<char> = Vec::new();
    push_str(&mut b, "Installed models: ");
    push_decimal(&mut b, installed as u64);
    lines.push(string_of(b.as_slice()));
    match best {
        Some(m) => {
            let mut c: Vec<char> = Vec::new();
            push_str(&mut c, "🏆 Best model for agentic coding: ");
            push_str(&mut c, m.name.as_str());
            push_str(&mut c, " (score ");
            push_str(&mut c, m.score.as_str());
            push_str(&mut c, "/100)");
            lines.push(string_of(c.as_slice()));
            let mut d: Vec<char> = Vec::new();
            push_str(&mut d, "   ");
            push_str(&mut d, m.size_gb.as_str());
            push_str(&mut d, " GB, ");
            push_str(&mut d, m.parameter_size.as_str());
            push_str(&mut d, " params, ");
            push_decimal(&mut d, m.context_length);
            push_str(&mut d, " context, ");
            push_str(&mut d, m.quantization.as_str());
            lines.push(string_of(d.as_slice()));
        },
        None => {
            let mut c: Vec<char> = Vec::new();
            push_str(&mut c, "⚠️  No model meets the minimum context of ");
            push_decimal(&mut c, min_context);
            push_str(&mut c, ".");
            lines.push(string_of(c.as_slice()));
            lines.push(String::from_str("   Run `openbatrangs setup` to pull a recommended model."));
        },
    }
    lines.push(String::new());
    lines.push(String::from_str("⚡ Performance per watt per dollar:"));
    lines.push(String::from_str("   - Local GPU inference on unified memory, no cloud API fees"));
    lines.push(
        String::from_str(
            "   - Auto-picker deliberately chooses models that fit memory (Q4_K_M 3B-8B on 16GB Jetson)",
        ),
    );
    lines.push(String::from_str("   - Keeps latency and power low while preserving a 32K+ context window"));
    assert(lines@.map_values(|l: String| l@) =~= doctor_report(base_url@, installed, *best, min_context));
    lines
}

// ---------------------------------------------------------------------------
// list-models
// ---------------------------------------------------------------------------

/// One row of the model table. `size_gb` (`{:.1}`) and `score` (`{:.0}`) are
/// already formatted.
#[derive(Debug)]
pub struct ModelRow {
    /// Model tag.
    pub name: String,
    /// Size in gigabytes, formatted.
    pub size_gb: String,
    /// Parameter count label.
    pub parameter_size: String,
    /// Context window.
    pub context_length: u64,
    /// Quantization label.
    pub quantization: String,
    /// Score out of 100, formatted.
    pub score: String,
    /// Reasons for the score.
    pub reasons: Vec<String>,
}

/// The reasons joined with "; ".
pub open spec fn joined_reasons(reasons: Seq<String>) -> Seq<char>
    decreases reasons.len(),
{
    if reasons.len() == 0 {
        Seq::empty()
    } else if reasons.len() == 1 {
        reasons[0]@
    } else {
        joined_reasons(reasons.drop_last()) + "; "@ + reasons.last()@
    }
}

/// The header of the model table.
pub open spec fn table_header() -> Seq<char> {
    pad_right("MODEL"@, 28) + " "@ + pad_left("SIZE"@, 9) + " "@ + pad_left("PARAMS"@, 8) + " "@
        + pad_left("CTX"@, 8) + " "@ + pad_left("QUANT"@, 8) + " "@ + pad_left("SCORE"@, 6)
        + "  Notes"@
}

/// One line of the model table.
pub open spec fn table_row(r: ModelRow) -> Seq<char> {
    pad_right(r.name@, 28) + " "@ + pad_left(r.size_gb@, 7) + "G "@ + pad_left(r.parameter_size@, 8)
        + " "@ + pad_left(decimal((r.context_length / CONTEXT_LENGTH_KILO_DIVISOR) as nat), 7)
        + "K "@ + pad_left(r.quantization@, 8) + " "@ + pad_left(r.score@, 6) + "  "@
        + joined_reasons(r.reasons@)
}

/// The lines of the model table: a friendly message when nothing is
/// installed, else the header and one line per scored model.
pub open spec fn model_table(installed: usize, rows: Seq<ModelRow>) -> Seq<Seq<char>> {
    if installed == 0 {
        seq!["No models installed. Run `openbatrangs setup` to auto-pull one."@]
    } else {
        seq![table_header()] + rows.map_values(|r: ModelRow| table_row(r))
    }
}

/// The reasons of a row joined with "; ".
fn push_reasons(out: &mut Vec<char>, reasons: &Vec<String>)
    ensures
        final(out)@ == old(out)@ + joined_reasons(reasons@),
{
    let mut i: usize = 0;
    while i < reasons.len()
        invariant
            0 <= i <= reasons.len(),
            out@ == old(out)@ + joined_reasons(reasons@.take(i as int)),
        decreases reasons.len() - i,
    {
        if i > 0 {
            push_str(out, "; ");
        }
        push_str(out, reasons[i].as_str());
        i += 1;
        assert(reasons@.take(i as int).drop_last() =~= reasons@.take(i - 1));
    }
    assert(reasons@.take(reasons.len() as int) =~= reasons@);
}

/// One line of the model table.
fn table_row_text(r: &ModelRow) -> (result: String)
    ensures
        result@ == table_row(*r),
{
    let mut out: Vec<char> = Vec::new();
    push_padded_right(&mut out, r.name.as_str(), 28);
    push_str(&mut out, " ");
    push_padded_left(&mut out, r.size_gb.as_str(), 7);
    push_str(&mut out, "G ");
    push_padded_left(&mut out, r.parameter_size.as_str(), 8);
    push_str(&mut out, " ");
    let mut k: Vec<char> = Vec::new();
    push_decimal(&mut k, r.context_length / CONTEXT_LENGTH_KILO_DIVISOR);
    let kilo = string_of(k.as_slice());
    push_padded_left(&mut out, kilo.as_str(), 7);
    push_str(&mut out, "K ");
    push_padded_left(&mut out, r.quantization.as_str(), 8);
    push_str(&mut out, " ");
    push_padded_left(&mut out, r.score.as_str(), 6);
    push_str(&mut out, "  ");
    push_reasons(&mut out, &r.reasons);
    string_of(out.as_slice())
}

/// Build the model table from the number of installed models and the rows
/// of the models that meet the minimum context, best first.
pub fn list_models_lines_from_tags(installed: usize, rows: &Vec<ModelRow>) -> (result: Vec<String>)
    ensures
        result@.map_values(|l: String| l@) == model_table(installed, rows@),
{
    let mut lines: Vec<String> = Vec::new();
    if installed == 0 {
        lines.push(String::from_str("No models installed. Run `openbatrangs setup` to auto-pull one."));
        assert(lines@.map_values(|l: String| l@) =~= model_table(installed, rows@));
        return lines;
    }
    let mut h: Vec<char> = Vec::new();
    push_padded_right(&mut h, "MODEL", 28);
    push_str(&mut h, " ");
    push_padded_left(&mut h, "SIZE", 9);
    push_str(&mut h, " ");
    push_padded_left(&mut h, "PARAMS", 8);
    push_str(&mut h, " ");
    push_padded_left(&mut h, "CTX", 8);
    push_str(&mut h, " ");
    push_padded_left(&mut h, "QUANT", 8);
    push_str(&mut h, " ");
    push_padded_left(&mut h, "SCORE", 6);
    push_str(&mut h, "  Notes");
    lines.push(string_of(h.as_slice()));
    let mut i: usize = 0;
    while i < rows.len()
        invariant
            0 <= i <= rows.len(),
            installed != 0,
            lines@.map_values(|l: String| l@) == seq![table_header()] + rows@.take(i as int).map_values(
                |r: ModelRow| table_row(r),
            ),
        decreases rows.len() - i,
    {
        let line = table_row_text(&rows[i]);
        let ghost before = lines@;
        lines.push(line);
        assert(lines@.map_values(|l: String| l@) =~= before.map_values(|l: String| l@).push(
            table_row(rows@[i as int]),
        ));
        assert(rows@.take(i + 1).map_values(|r: ModelRow| table_row(r)) =~= rows@.take(
            i as int,
        ).map_values(|r: ModelRow| table_row(r)).push(table_row(rows@[i as int])));
        i += 1;
    }
    assert(rows@.take(rows.len() as int) =~= rows@);
    lines
}

// ---------------------------------------------------------------------------
// Model selection
// ---------------------------------------------------------------------------

/// What the installed models offer, as far as selection needs it.
#[derive(Debug, Clone, Copy, PartialEq, Eq, Structural)]
pub enum Candidates {
    /// No model is installed.
    NoneInstalled,
    /// Models are installed but none meets the minimum context.
    NoneSuitable,
    /// A best model exists; `weak` when its score is below the threshold
    /// for a good agentic-coding model.
    Best { weak: bool },
}

/// The next move of automatic model selection.
#[derive(Debug, PartialEq, Eq)]
pub enum SelectionMove {
    /// Use the best installed model.
    UseBest,
    /// Pull the recommended fallback model, then look again.
    PullFallback,
    /// Give up with this error.
    GiveUp(String),
}

/// Model of a [`SelectionMove`].
pub enum SelectionMoveView {
    /// Use the best installed model.
    UseBest,
    /// Pull the fallback model.
    PullFallback,
    /// Give up with this error.
    GiveUp(Seq<char>),
}

impl View for SelectionMove {
    type V = SelectionMoveView;

    open spec fn view(&self) -> SelectionMoveView {
        match self {
            SelectionMove::UseBest => SelectionMoveView::UseBest,
            SelectionMove::PullFallback => SelectionMoveView::PullFallback,
            SelectionMove::GiveUp(m) => SelectionMoveView::GiveUp(m@),
        }
    }
}

/// True when the best local model is weak enough to justify pulling a
/// fallback.
pub fn needs_fallback(is_weak: bool, is_auto_pull_disabled: bool) -> (result: bool)
    ensures
        result == (is_weak && !is_auto_pull_disabled),
{
    is_weak && !is_auto_pull_disabled
}

/// The move taken in round `attempt` (counted from 1) of automatic
/// selection.
pub open spec fn selection_move(attempt: u32, candidates: Candidates, is_auto_pull_disabled: bool, min_context: u64) -> SelectionMoveView {
    if attempt > MODEL_SELECT_MAX_ATTEMPTS {
        SelectionMoveView::GiveUp("could not find a suitable model after auto-pulling"@)
    } else {
        match candidates {
            Candidates::NoneInstalled => if is_auto_pull_disabled {
                SelectionMoveView::GiveUp("no models installed and --no-auto-pull is set"@)
            } else {
                SelectionMoveView::PullFallback
            },
            Candidates::NoneSuitable => if is_auto_pull_disabled {
                SelectionMoveView::GiveUp(
                    "no installed model meets --min-context="@ + decimal(min_context as nat),
                )
            } else {
                SelectionMoveView::PullFallback
            },
            Candidates::Best { weak } => if weak && !is_auto_pull_disabled {
                SelectionMoveView::PullFallback
            } else {
                SelectionMoveView::UseBest
            },
        }
    }
}

/// Decide round `attempt` (counted from 1) of automatic model selection:
/// use the best model, pull the fallback and look again, or give up once the
/// rounds run out or pulling is disabled.
pub fn select_move(attempt: u32, candidates: Candidates, is_auto_pull_disabled: bool, min_context: u64) -> (result: SelectionMove)
    ensures
        result@ == selection_move(attempt, candidates, is_auto_pull_disabled, min_context),
{
    if attempt > MODEL_SELECT_MAX_ATTEMPTS {
        return SelectionMove::GiveUp(String::from_str("could not find a suitable model after auto-pulling"));
    }
    match candidates {
        Candidates::NoneInstalled => if is_auto_pull_disabled {
            SelectionMove::GiveUp(String::from_str("no models installed and --no-auto-pull is set"))
        } else {
            SelectionMove::PullFallback
        },
        Candidates::NoneSuitable => if is_auto_pull_disabled {
            let mut out: Vec<char> = Vec::new();
            push_str(&mut out, "no installed model meets --min-context=");
            push_decimal(&mut out, min_context);
            SelectionMove::GiveUp(string_of(out.as_slice()))
        } else {
            SelectionMove::PullFallback
        },
        Candidates::Best { weak } => if needs_fallback(weak, is_auto_pull_disabled) {
            SelectionMove::PullFallback
        } else {
            SelectionMove::UseBest
        },
    }
}

/// Law: selection gives up within [`MODEL_SELECT_MAX_ATTEMPTS`] rounds, and
/// never pulls a model when pulling is disabled.
pub proof fn selection_is_bounded(attempt: u32, candidates: Candidates, is_auto_pull_disabled: bool, min_context: u64)
    ensures
        attempt > MODEL_SELECT_MAX_ATTEMPTS ==> selection_move(attempt, candidates, is_auto_pull_disabled, min_context) is GiveUp,
        is_auto_pull_disabled ==> !(selection_move(attempt, candidates, is_auto_pull_disabled, min_context) is PullFallback),
{
}

/// Law: while pulling is allowed and rounds remain, selection never gives
/// up. With no installed model, or none that meets the minimum context, it
/// pulls the fallback and looks again; a weak best model is also replaced by
/// the fallback, and a good one is used. When pulling is disabled, the best
/// model is used whatever its score, and no model at all gives up.
pub proof fn selection_pulls_while_allowed(attempt: u32, candidates: Candidates, is_auto_pull_disabled: bool, min_context: u64)
    requires
        attempt <= MODEL_SELECT_MAX_ATTEMPTS,
    ensures
        !is_auto_pull_disabled ==> !(selection_move(attempt, candidates, is_auto_pull_disabled, min_context) is GiveUp),
        !is_auto_pull_disabled && (candidates is NoneInstalled || candidates is NoneSuitable)
            ==> selection_move(attempt, candidates, is_auto_pull_disabled, min_context) is PullFallback,
        !is_auto_pull_disabled && candidates == (Candidates::Best { weak: true })
            ==> selection_move(attempt, candidates, is_auto_pull_disabled, min_context) is PullFallback,
        candidates == (Candidates::Best { weak: false })
            ==> selection_move(attempt, candidates, is_auto_pull_disabled, min_context) is UseBest,
        is_auto_pull_disabled && candidates is Best
            ==> selection_move(attempt, candidates, is_auto_pull_disabled, min_context) is UseBest,
        is_auto_pull_disabled && !(candidates is Best)
            ==> selection_move(attempt, candidates, is_auto_pull_disabled, min_context) is GiveUp,
{
}

/// The refusal of an explicit model tag that looks like a file path.
pub open spec fn path_like_model_message(name: Seq<char>) -> Seq<char> {
    "'"@ + name + "' looks like a file path. openBatarangs now uses Ollama model tags.\nJust run `openbatrangs setup` and it will pull a coding model for you."@
}

/// The refusal of an explicit model tag that is not installed.
pub open spec fn missing_model_message(name: Seq<char>) -> Seq<char> {
    "Model '"@ + name + "' is not installed. Run `openbatrangs pull "@ + name + "` to download it."@
}

/// The refusal of an explicit model whose context is below the minimum.
pub open spec fn small_context_message(name: Seq<char>) -> Seq<char> {
    "model '"@ + name + "' has context below --min-context"@
}

/// Check an explicitly requested model tag against the installed tags:
/// refuse a tag that looks like a path, then one that is not installed;
/// otherwise return the index of the installed model.
pub fn check_explicit_model(name: &str, installed: &Vec<String>) -> (result: Result<usize, String>)
    ensures
        match result {
            Ok(i) => i < installed@.len() && installed@[i as int]@ == name@
                && forall|k: int| 0 <= k < i ==> installed@[k]@ != name@,
            Err(message) => message@ == path_like_model_message(name@) || (message@
                == missing_model_message(name@) && forall|k: int|
                0 <= k < installed@.len() ==> installed@[k]@ != name@),
        },
        crate::models::path_like_name(name@) ==> (result matches Err(m) && m@
            == path_like_model_message(name@)),
{
    if looks_like_path(name) {
        let mut out: Vec<char> = Vec::new();
        push_str(&mut out, "'");
        push_str(&mut out, name);
        push_str(
            &mut out,
            "' looks like a file path. openBatarangs now uses Ollama model tags.\nJust run `openbatrangs setup` and it will pull a coding model for you.",
        );
        return Err(string_of(out.as_slice()));
    }
    let mut i: usize = 0;
    while i < installed.len()
        invariant
            0 <= i <= installed.len(),
            !crate::models::path_like_name(name@),
            forall|k: int| 0 <= k < i ==> installed@[k]@ != name@,
        decreases installed.len() - i,
    {
        if crate::chars::str_eq(installed[i].as_str(), name) {
            return Ok(i);
        }
        i += 1;
    }
    let mut out: Vec<char> = Vec::new();
    push_str(&mut out, "Model '");
    push_str(&mut out, name);
    push_str(&mut out, "' is not installed. Run `openbatrangs pull ");
    push_str(&mut out, name);
    push_str(&mut out, "` to download it.");
    Err(string_of(out.as_slice()))
}

/// The refusal of an explicit model whose context is below the minimum.
pub fn small_context_text(name: &str) -> (result: String)
    ensures
        result@ == small_context_message(name@),
{
    let mut out: Vec<char> = Vec::new();
    push_str(&mut out, "model '");
    push_str(&mut out, name);
    push_str(&mut out, "' has context below --min-context");
    string_of(out.as_slice())
}

// ---------------------------------------------------------------------------
// setup
// ---------------------------------------------------------------------------

/// Whether the fallback model is among the installed tags (setup pulls it
/// otherwise).
pub fn is_installed(installed: &Vec<String>, name: &str) -> (result: bool)
    ensures
        result == exists|k: int| 0 <= k < installed@.len() && installed@[k]@ == name@,
{
    let mut i: usize = 0;
    while i < installed.len()
        invariant
            0 <= i <= installed.len(),
            forall|k: int| 0 <= k < i ==> installed@[k]@ != name@,
        decreases installed.len() - i,
    {
        if crate::chars::str_eq(installed[i].as_str(), name) {
            return true;
        }
        i += 1;
    }
    false
}

// ---------------------------------------------------------------------------
// Context length of a model
// ---------------------------------------------------------------------------

/// Suffix of the `model_info` key that holds a model's context length.
pub const CONTEXT_LENGTH_KEY_SUFFIX: &'static str = ".context_length";

/// `s` ends with `suffix`.
pub open spec fn ends_with(s: Seq<char>, suffix: Seq<char>) -> bool {
    suffix.len() <= s.len() && s.skip(s.len() - suffix.len()) == suffix
}

/// The first member whose key ends with [`CONTEXT_LENGTH_KEY_SUFFIX`] and
/// whose value is an unsigned integer, as that integer.
pub open spec fn first_context_length(members: Seq<(Seq<char>, crate::ollama::JsonFieldView)>) -> Option<u64>
    decreases members.len(),
{
    if members.len() == 0 {
        None
    } else if ends_with(members[0].0, CONTEXT_LENGTH_KEY_SUFFIX@) && members[0].1 is Unsigned {
        Some(members[0].1->Unsigned_0)
    } else {
        first_context_length(members.skip(1))
    }
}

/// The context length from the `model_info` members and the
/// `details.context_length` field: the first `*.context_length` member with
/// an unsigned integer value, else that field when it is one, else
/// [`FALLBACK_CONTEXT_LENGTH`].
pub open spec fn chosen_context_length(
    info: Option<Seq<(Seq<char>, crate::ollama::JsonFieldView)>>,
    details: crate::ollama::JsonFieldView,
) -> u64 {
    let from_info = match info {
        Some(members) => first_context_length(members),
        None => None,
    };
    match from_info {
        Some(n) => n,
        None => match details {
            crate::ollama::JsonFieldView::Unsigned(n) => n,
            _ => FALLBACK_CONTEXT_LENGTH,
        },
    }
}

/// The members with their values read as JSON fields.
pub open spec fn member_fields(members: Seq<(Seq<char>, Seq<char>)>) -> Seq<(Seq<char>, crate::ollama::JsonFieldView)> {
    members.map_values(|m: (Seq<char>, Seq<char>)| (m.0, crate::ollama::json_field_at(m.1, Seq::empty())))
}

/// The context length described by a raw `/api/show` reply.
pub open spec fn show_context_length(show: Seq<char>) -> u64 {
    chosen_context_length(
        match crate::ollama::json_members_at(show, "/model_info"@) {
            Some(members) => Some(member_fields(members)),
            None => None,
        },
        crate::ollama::json_field_at(show, "/details/context_length"@),
    )
}

/// The models of members with field values.
pub open spec fn fields_view(members: Seq<(String, crate::ollama::JsonField)>) -> Seq<(Seq<char>, crate::ollama::JsonFieldView)> {
    members.map_values(|m: (String, crate::ollama::JsonField)| (m.0@, m.1@))
}

/// Pick the context length from the `model_info` members (with their values
/// read as JSON fields) and the `details.context_length` field.
pub fn pick_context_length(info: &Option<Vec<(String, crate::ollama::JsonField)>>, details: &crate::ollama::JsonField) -> (result: u64)
    ensures
        result == chosen_context_length(
            match info {
                Some(members) => Some(fields_view(members@)),
                None => None,
            },
            details@,
        ),
{
    if let Some(members) = info {
        let ghost ms = fields_view(members@);
        let suffix = crate::chars::chars_of(CONTEXT_LENGTH_KEY_SUFFIX);
        let mut i: usize = 0;
        assert(ms.skip(0) =~= ms);
        while i < members.len()
            invariant
                0 <= i <= members.len(),
                suffix@ == CONTEXT_LENGTH_KEY_SUFFIX@,
                ms == fields_view(members@),
                match info {
                    Some(m) => fields_view(m@) == ms,
                    None => false,
                },
                first_context_length(ms) == first_context_length(ms.skip(i as int)),
            decreases members.len() - i,
        {
            let key = crate::chars::chars_of(members[i].0.as_str());
            let ghost rest = ms.skip(i as int);
            assert(rest[0] == (members@[i as int].0@, members@[i as int].1@));
            assert(ms.skip(i + 1) =~= rest.skip(1));
            if suffix.len() <= key.len() && crate::chars::matches_at(&key, &suffix, key.len() - suffix.len()) {
                assert(key@.subrange(key@.len() - suffix@.len(), key@.len() as int) =~= key@.skip(
                    key@.len() - suffix@.len(),
                ));
                assert(ends_with(rest[0].0, CONTEXT_LENGTH_KEY_SUFFIX@));
                match &members[i].1 {
                    crate::ollama::JsonField::Unsigned(n) => {
                        assert(rest[0].1 == crate::ollama::JsonFieldView::Unsigned(*n));
                        assert(first_context_length(rest) == Some(*n));
                        assert(first_context_length(ms) == Some(*n));
                        assert(chosen_context_length(Some(ms), details@) == *n);
                        return *n;
                    },
                    _ => {},
                }
            } else {
                assert(suffix@.len() <= key@.len() ==> key@.subrange(
                    key@.len() - suffix@.len(),
                    key@.len() as int,
                ) =~= key@.skip(key@.len() - suffix@.len()));
            }
            i += 1;
        }
        assert(ms.skip(i as int) =~= Seq::<(Seq<char>, crate::ollama::JsonFieldView)>::empty());
    }
    match details {
        crate::ollama::JsonField::Unsigned(n) => *n,
        _ => FALLBACK_CONTEXT_LENGTH,
    }
}

/// Extract the model context length from a raw `/api/show` JSON body.
pub fn context_length_from_show(show: &str) -> (result: u64)
    ensures
        result == show_context_length(show@),
{
    proof {
        reveal_strlit("");
    }
    let info = match crate::ollama::json_members(show, "/model_info") {
        Some(members) => {
            let ghost raw = members@.map_values(|m: (String, String)| (m.0@, m.1@));
            let mut fields: Vec<(String, crate::ollama::JsonField)> = Vec::new();
            let mut i: usize = 0;
            while i < members.len()
                invariant
                    0 <= i <= members.len(),
                    raw == members@.map_values(|m: (String, String)| (m.0@, m.1@)),
                    ""@ == Seq::<char>::empty(),
                    fields_view(fields@) == member_fields(raw.take(i as int)),
                decreases members.len() - i,
            {
                let value = crate::ollama::json_field(members[i].1.as_str(), "");
                let ghost before = fields@;
                fields.push((members[i].0.clone(), value));
                assert(fields_view(fields@) =~= fields_view(before).push((members@[i as int].0@, value@)));
                assert(member_fields(raw.take(i + 1)) =~= member_fields(raw.take(i as int)).push(
                    (raw[i as int].0, crate::ollama::json_field_at(raw[i as int].1, Seq::empty())),
                ));
                i += 1;
            }
            assert(raw.take(members.len() as int) =~= raw);
            Some(fields)
        },
        None => None,
    };
    let details = crate::ollama::json_field(show, "/details/context_length");
    pick_context_length(&info, &details)
}

} // verus!
