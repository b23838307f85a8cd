use openbatrangs::commands::{
    check_explicit_model, doctor_lines_from_tags, is_installed, list_models_lines_from_tags,
    needs_fallback, select_move, small_context_text, BestModel, Candidates, ModelRow,
    SelectionMove,
};

#[test]
fn empty_tags_report_mentions_no_models() {
    let lines = doctor_lines_from_tags("http://localhost:11434", 0, &None, 8_192);
    assert!(lines[0].contains("localhost"));
    assert!(lines[1].contains("0"));
    assert!(lines.iter().any(|line| line.contains("No model meets")));
}

#[test]
fn best_model_is_reported() {
    let best = BestModel {
        name: "best:7b".to_string(),
        score: "87".to_string(),
        size_gb: "4.7".to_string(),
        parameter_size: "7.6B".to_string(),
        context_length: 32_768,
        quantization: "Q4_K_M".to_string(),
    };
    let lines = doctor_lines_from_tags("http://localhost:11434", 2, &Some(best), 8_192);
    assert_eq!(lines[1], "Installed models: 2");
    assert_eq!(lines[2], "🏆 Best model for agentic coding: best:7b (score 87/100)");
    assert_eq!(lines[3], "   4.7 GB, 7.6B params, 32768 context, Q4_K_M");
    assert_eq!(lines.len(), 9);
}

#[test]
fn empty_tags_returns_friendly_message() {
    let lines = list_models_lines_from_tags(0, &vec![]);
    assert_eq!(lines.len(), 1);
    assert!(lines[0].contains("No models installed"));
}

#[test]
fn model_table_contains_header_and_rows() {
    let rows = vec![ModelRow {
        name: "qwen2.5-coder:7b".to_string(),
        size_gb: "4.7".to_string(),
        parameter_size: "7.6B".to_string(),
        context_length: 32_768,
        quantization: "Q4_K_M".to_string(),
        score: "88".to_string(),
        reasons: vec!["fits memory".to_string(), "coder".to_string()],
    }];
    let lines = list_models_lines_from_tags(2, &rows);
    assert_eq!(lines.len(), 2);
    assert_eq!(
        lines[0],
        format!(
            "{:<28} {:>9} {:>8} {:>8} {:>8} {:>6}  Notes",
            "MODEL", "SIZE", "PARAMS", "CTX", "QUANT", "SCORE"
        )
    );
    assert_eq!(
        lines[1],
        format!(
            "{:<28} {:>7}G {:>8} {:>7}K {:>8} {:>6}  {}",
            "qwen2.5-coder:7b", "4.7", "7.6B", 32, "Q4_K_M", "88", "fits memory; coder"
        )
    );
}

#[test]
fn installed_models_below_min_context_leave_only_the_header() {
    let lines = list_models_lines_from_tags(1, &vec![]);
    assert_eq!(lines.len(), 1);
    assert!(lines[0].starts_with("MODEL"));
}

#[test]
fn selection_follows_the_candidates() {
    assert_eq!(select_move(1, Candidates::Best { weak: false }, false, 8_192), SelectionMove::UseBest);
    assert_eq!(select_move(1, Candidates::Best { weak: true }, false, 8_192), SelectionMove::PullFallback);
    assert_eq!(select_move(1, Candidates::Best { weak: true }, true, 8_192), SelectionMove::UseBest);
    assert_eq!(select_move(2, Candidates::NoneInstalled, false, 8_192), SelectionMove::PullFallback);
    assert_eq!(
        select_move(1, Candidates::NoneInstalled, true, 8_192),
        SelectionMove::GiveUp("no models installed and --no-auto-pull is set".to_string())
    );
    assert_eq!(
        select_move(1, Candidates::NoneSuitable, true, 8_192),
        SelectionMove::GiveUp("no installed model meets --min-context=8192".to_string())
    );
    assert_eq!(
        select_move(4, Candidates::Best { weak: false }, false, 8_192),
        SelectionMove::GiveUp("could not find a suitable model after auto-pulling".to_string())
    );
}

#[test]
fn needs_fallback_only_when_weak_and_pulling_allowed() {
    assert!(needs_fallback(true, false));
    assert!(!needs_fallback(true, true));
    assert!(!needs_fallback(false, false));
}

#[test]
fn explicit_models_are_checked() {
    let installed = vec!["a:1b".to_string(), "b:7b".to_string()];
    assert_eq!(check_explicit_model("b:7b", &installed), Ok(1));
    assert_eq!(
        check_explicit_model("c:3b", &installed),
        Err("Model 'c:3b' is not installed. Run `openbatrangs pull c:3b` to download it.".to_string())
    );
    assert!(check_explicit_model("./model.gguf", &installed)
        .unwrap_err()
        .contains("looks like a file path"));
    assert_eq!(
        small_context_text("a:1b"),
        "model 'a:1b' has context below --min-context"
    );
    assert!(is_installed(&installed, "a:1b"));
    assert!(!is_installed(&installed, "a:1"));
}

use openbatrangs::commands::{context_length_from_show, pick_context_length, FALLBACK_CONTEXT_LENGTH};
use openbatrangs::ollama::JsonField;

#[test]
fn extracts_context_from_model_info_key() {
    let show = r#"{"model_info": {"llama.context_length": 32768, "other": 1}}"#;
    assert_eq!(context_length_from_show(show), 32_768);
}

#[test]
fn extracts_context_from_details_fallback() {
    let show = r#"{"details": {"context_length": 8192}}"#;
    assert_eq!(context_length_from_show(show), 8_192);
}

#[test]
fn falls_back_when_context_unknown() {
    assert_eq!(context_length_from_show("{}"), FALLBACK_CONTEXT_LENGTH);
    assert_eq!(
        context_length_from_show(r#"{"model_info": {}}"#),
        FALLBACK_CONTEXT_LENGTH
    );
}

#[test]
fn model_info_takes_precedence_over_details() {
    let show = r#"{"model_info": {"llama.context_length": 16384}, "details": {"context_length": 4096}}"#;
    assert_eq!(context_length_from_show(show), 16_384);
}

#[test]
fn non_numeric_context_entries_are_skipped() {
    let show = r#"{"model_info": {"a.context_length": "big", "b.context_length": 2048}}"#;
    assert_eq!(context_length_from_show(show), 2_048);
    assert_eq!(context_length_from_show("not json"), FALLBACK_CONTEXT_LENGTH);
    let picked = pick_context_length(
        &Some(vec![("x.context_length".to_string(), JsonField::OtherNumber)]),
        &JsonField::Unsigned(1_000),
    );
    assert_eq!(picked, 1_000);
}
