use openbatrangs::models::{
    coding_keyword, looks_like_path, looks_like_path_given, meets_min_context, memory_fit, parameter_count, parameter_label,
    path_like, quant_keyword, quantization_label, recommended_fallback_model, scoring_context,
    MemoryFit, CODING_KEYWORDS, FALLBACK_MODEL_3B, FALLBACK_MODEL_7B, QUANT_KEYWORDS,
};
use openbatrangs::ollama::{ModelDetails, OllamaModel};

fn model(name: &str, context: Option<u64>, params: &str, quant: &str) -> OllamaModel {
    OllamaModel {
        name: name.to_string(),
        size: 500_000_000,
        details: Some(ModelDetails {
            parameter_size: Some(params.to_string()),
            quantization_level: Some(quant.to_string()),
            context_length: context,
        }),
    }
}

fn bare_model(name: &str) -> OllamaModel {
    OllamaModel { name: name.to_string(), size: 0, details: None }
}

#[test]
fn looks_like_path_detects_paths() {
    assert!(looks_like_path("./model.gguf"));
    assert!(looks_like_path("/tmp/foo"));
    assert!(looks_like_path("C:\\models\\foo"));
    assert!(looks_like_path("../secret"));
    assert!(!looks_like_path("qwen2.5-coder:7b"));
}

#[test]
fn namespaced_ollama_tags_are_not_paths() {
    assert!(!looks_like_path("sebdg/emotional_llama:latest"));
    assert!(!looks_like_path("ALIENTELLIGENCE/psychologist"));
    assert!(!looks_like_path("models/foo"));
}

#[test]
fn recommended_fallback_model_chooses_bigger_model_on_large_memory() {
    let small = recommended_fallback_model(8 * 1024 * 1024 * 1024);
    let large = recommended_fallback_model(24 * 1024 * 1024 * 1024);
    assert_eq!(small, "qwen2.5-coder:3b");
    assert_eq!(large, "qwen2.5-coder:7b");
}

#[test]
fn fallback_threshold_is_inclusive() {
    assert_eq!(recommended_fallback_model(12 * 1024 * 1024 * 1024), FALLBACK_MODEL_7B);
    assert_eq!(recommended_fallback_model(12 * 1024 * 1024 * 1024 - 1), FALLBACK_MODEL_3B);
    assert_eq!(recommended_fallback_model(16 * 1024 * 1024 * 1024), FALLBACK_MODEL_7B);
}

#[test]
fn gguf_names_read_as_paths() {
    assert!(path_like("llama.gguf"));
    assert!(!path_like("gguf"));
    assert!(!path_like(""));
}

#[test]
fn scoring_context_defaults_and_floors() {
    assert_eq!(scoring_context(&bare_model("legacy:latest")), 4_096);
    assert_eq!(scoring_context(&model("a", None, "1B", "Q4_0")), 4_096);
    assert_eq!(scoring_context(&model("a", Some(1_024), "1B", "Q4_0")), 2_048);
    assert_eq!(scoring_context(&model("a", Some(32_768), "7B", "Q4_K_M")), 32_768);
}

#[test]
fn models_below_min_context_are_not_eligible() {
    let tiny = model("tiny:1b", Some(2_048), "1B", "Q4_0");
    assert!(!meets_min_context(&tiny, 8_192));
    assert!(meets_min_context(&tiny, 2_048));
    assert!(meets_min_context(&bare_model("legacy:latest"), 4_096));
    assert!(!meets_min_context(&bare_model("legacy:latest"), 4_097));
}

#[test]
fn missing_labels_read_unknown() {
    let bare = bare_model("legacy:latest");
    assert_eq!(parameter_label(&bare), "unknown");
    assert_eq!(quantization_label(&bare), "unknown");
    let m = model("best:7b", Some(32_768), "7.6B", "Q4_K_M");
    assert_eq!(parameter_label(&m), "7.6B");
    assert_eq!(quantization_label(&m), "Q4_K_M");
}

#[test]
fn memory_fit_classifies_against_budget() {
    let budget: u64 = 16_000_000_000;
    assert_eq!(memory_fit(0, budget), MemoryFit::Unknown);
    assert_eq!(memory_fit(4_000_000_000, budget), MemoryFit::Comfortable);
    assert_eq!(memory_fit(8_000_000_000, budget), MemoryFit::Comfortable);
    assert_eq!(memory_fit(8_000_000_001, budget), MemoryFit::Tight);
    assert_eq!(memory_fit(16_000_000_000, budget), MemoryFit::Tight);
    assert_eq!(memory_fit(16_000_000_001, budget), MemoryFit::Overflow);
}

#[test]
fn coding_keyword_takes_the_first_listed_match() {
    assert_eq!(coding_keyword("qwen2.5-coder:7b"), Some(0));
    assert_eq!(CODING_KEYWORDS[0], "coder");
    assert_eq!(coding_keyword("DeepSeek-R1:8b"), Some(1));
    assert_eq!(coding_keyword("codellama:7b"), Some(3));
    assert_eq!(coding_keyword("qwen3:8b"), Some(6));
    assert_eq!(coding_keyword("llama3:8b"), None);
}

#[test]
fn quant_keyword_matches_case_insensitively() {
    assert_eq!(quant_keyword("q4_k_m"), Some(0));
    assert_eq!(quant_keyword("Q8_0"), Some(5));
    assert_eq!(quant_keyword("F16"), Some(6));
    assert_eq!(quant_keyword("FP16"), Some(7));
    assert_eq!(QUANT_KEYWORDS[7], "FP16");
    assert_eq!(quant_keyword("unknown"), None);
}

#[test]
fn parameter_count_splits_number_and_unit() {
    let b = parameter_count(" 7.6B ");
    assert_eq!(b.digits, "7.6");
    assert!(!b.in_millions);
    let m = parameter_count("873.44M");
    assert_eq!(m.digits, "873.44");
    assert!(m.in_millions);
    let u = parameter_count("unknown");
    assert_eq!(u.digits, "");
    assert!(!u.in_millions);
}

#[test]
fn path_verdict_uses_the_disk_answer_only_for_tags() {
    assert!(looks_like_path_given("./model.gguf", false));
    assert!(looks_like_path_given("qwen2.5-coder:7b", true));
    assert!(!looks_like_path_given("qwen2.5-coder:7b", false));
}
