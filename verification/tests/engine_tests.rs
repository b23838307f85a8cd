use openbatrangs::engine::{
    is_path_candidate, resolve_engine_kinds, trtexec_args, EngineConfig, EngineKind,
    TensorRtBackend, TRTEXEC_CANDIDATES, TRTEXEC_DEFAULT_AVG_RUNS, TRTEXEC_DEFAULT_SEQ_LEN,
    TRTEXEC_DEFAULT_WARMUP_MILLIS,
};

#[test]
fn parses_engine_names_case_insensitively() {
    assert_eq!(EngineKind::parse("Ollama"), Some(EngineKind::Ollama));
    assert_eq!(EngineKind::parse("trt"), Some(EngineKind::TensorRt));
    assert_eq!(EngineKind::parse("trtexec"), Some(EngineKind::TensorRt));
    assert_eq!(EngineKind::parse("vllm"), None);
    assert_eq!(EngineKind::parse("unknown"), None);
}

#[test]
fn all_engine_names_round_trip() {
    for kind in EngineKind::all() {
        assert_eq!(EngineKind::parse(kind.as_str()), Some(*kind));
    }
}

#[test]
fn empty_engine_list_resolves_to_all() {
    assert_eq!(
        resolve_engine_kinds(&[]).unwrap().len(),
        EngineKind::all().len()
    );
}

#[test]
fn unknown_engine_list_is_rejected() {
    assert!(resolve_engine_kinds(&["nope".to_string()]).is_err());
}

#[test]
fn trtexec_defaults_are_sane() {
    assert!(TRTEXEC_DEFAULT_SEQ_LEN > 0);
    assert!(TRTEXEC_DEFAULT_AVG_RUNS > 0);
    assert!(TRTEXEC_DEFAULT_WARMUP_MILLIS > 0);
}

#[test]
fn engine_names_and_display_names() {
    assert_eq!(EngineKind::Ollama.as_str(), "ollama");
    assert_eq!(EngineKind::TensorRt.as_str(), "tensorrt");
    assert_eq!(EngineKind::parse("  TensorRT  "), Some(EngineKind::TensorRt));
    assert!(!EngineKind::Ollama.display_name().is_empty());
}

#[test]
fn unknown_engine_error_names_the_engine() {
    let error = resolve_engine_kinds(&["ollama".to_string(), "nope".to_string()]).unwrap_err();
    assert!(error.message().contains("nope"));
}

#[test]
fn listed_engines_keep_their_order() {
    let kinds =
        resolve_engine_kinds(&["tensorrt".to_string(), "ollama".to_string()]).unwrap();
    assert_eq!(kinds, vec![EngineKind::TensorRt, EngineKind::Ollama]);
}

#[test]
fn tensorrt_backend_takes_the_config_settings() {
    let config = EngineConfig::new(
        EngineKind::TensorRt,
        "http://localhost:11434",
        Some("model.onnx".to_string()),
    );
    let backend = TensorRtBackend::new(&config);
    assert_eq!(backend.onnx_model.as_deref(), Some("model.onnx"));
    assert_eq!(backend.seq_len, TRTEXEC_DEFAULT_SEQ_LEN);
    assert_eq!(backend.avg_runs, TRTEXEC_DEFAULT_AVG_RUNS);
}

#[test]
fn find_trtexec_takes_the_first_present_candidate() {
    let found = TensorRtBackend::find_trtexec(|candidate: &str| candidate.contains('/'));
    assert_eq!(found, Some(TRTEXEC_CANDIDATES[1]));
    assert_eq!(TensorRtBackend::find_trtexec(|_: &str| false), None);
    assert_eq!(
        TensorRtBackend::find_trtexec(|_: &str| true),
        Some(TRTEXEC_CANDIDATES[0])
    );
}

#[test]
fn path_candidates_hold_a_slash() {
    assert!(!is_path_candidate("trtexec"));
    assert!(is_path_candidate("/usr/src/tensorrt/bin/trtexec"));
}

#[test]
fn trtexec_arguments_follow_the_settings() {
    let args = trtexec_args("m.onnx", 20, &None);
    assert_eq!(
        args,
        vec!["--onnx=m.onnx", "--fp16", "--avgRuns=20", "--warmUp=500"]
    );
    let with_shapes = trtexec_args("m.onnx", 3, &Some("input:1x128".to_string()));
    assert_eq!(with_shapes.len(), 5);
    assert_eq!(with_shapes[4], "--shapes=input:1x128");
}

#[test]
fn parse_matches_trimmed_uppercase_form() {
    for name in [" oLLama\t", "trt ", "  TrtExec", "vllm", ""] {
        assert_eq!(
            EngineKind::parse(name),
            EngineKind::parse(&name.trim().to_ascii_uppercase())
        );
    }
}
