use openbatrangs::cli::{
    agent_config_for, agent_run_config, model_prefs_from_cli, validate_task, AgentMode, Cli,
    DEFAULT_MAX_STEPS, DEFAULT_MIN_CONTEXT, DEFAULT_OLLAMA_URL, OLLAMA_POLL_INTERVAL_MILLIS,
    OLLAMA_START_POLL_ATTEMPTS, SETUP_START_POLL_ATTEMPTS,
};

fn default_cli() -> Cli {
    Cli {
        task: Vec::new(),
        ollama_url: DEFAULT_OLLAMA_URL.to_string(),
        model: None,
        cwd: ".".to_string(),
        max_steps: DEFAULT_MAX_STEPS,
        is_read_only: false,
        should_confirm: false,
        is_auto_pull_disabled: false,
        min_context: DEFAULT_MIN_CONTEXT,
        max_ctx: 8_192,
        engine: "ollama".to_string(),
    }
}

fn sample_cli() -> Cli {
    Cli {
        model: Some("qwen2.5-coder:3b".to_string()),
        max_steps: 4,
        is_read_only: true,
        should_confirm: true,
        is_auto_pull_disabled: true,
        min_context: 4096,
        ..default_cli()
    }
}

#[test]
fn model_prefs_reflect_cli_options() {
    let prefs = model_prefs_from_cli(&sample_cli());
    assert_eq!(prefs.model.as_deref(), Some("qwen2.5-coder:3b"));
    assert!(prefs.is_auto_pull_disabled);
    assert_eq!(prefs.min_context, 4_096);
}

#[test]
fn agent_run_config_uses_agent_mode_and_thinking() {
    let config = agent_run_config(&sample_cli());
    assert_eq!(config.mode, AgentMode::Agent);
    assert!(config.show_thinking);
    assert!(config.is_read_only);
    assert!(config.should_confirm);
    assert_eq!(config.max_steps, 4);
}

#[test]
fn agent_mode_variants_are_distinct() {
    assert_ne!(AgentMode::Agent, AgentMode::Plan);
    assert_ne!(AgentMode::Plan, AgentMode::Chat);
    assert_ne!(AgentMode::Chat, AgentMode::Agent);
}

#[test]
fn model_prefs_default_when_model_omitted() {
    let prefs = model_prefs_from_cli(&default_cli());
    assert!(prefs.model.is_none());
    assert!(!prefs.is_auto_pull_disabled);
    assert_eq!(prefs.min_context, 8_192);
}

#[test]
fn plan_mode_runs_read_only() {
    let mut run = agent_run_config(&default_cli());
    assert!(!agent_config_for(&run).is_read_only);
    run.mode = AgentMode::Plan;
    let config = agent_config_for(&run);
    assert!(config.is_read_only);
    assert!(config.show_thinking);
    assert_eq!(config.cwd, ".");
}

#[test]
fn empty_task_is_rejected() {
    assert!(validate_task("").is_err());
    assert!(validate_task("   ").is_err());
    assert!(validate_task("\n\t").is_err());
}

#[test]
fn task_is_trimmed() {
    assert_eq!(validate_task("  fix build  ").unwrap(), "fix build");
}

#[test]
fn valid_task_is_accepted() {
    assert_eq!(validate_task("write tests").unwrap(), "write tests");
}

#[test]
fn poll_constants_are_sane() {
    assert!(OLLAMA_START_POLL_ATTEMPTS > 0);
    assert!(SETUP_START_POLL_ATTEMPTS >= OLLAMA_START_POLL_ATTEMPTS);
    assert!(OLLAMA_POLL_INTERVAL_MILLIS > 0);
}
