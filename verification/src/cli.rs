//! Command-line settings and the runtime configuration built from them.
//!
//! The binary parses the command line; the parsed values arrive here as a
//! [`Cli`], from which the one-shot agent and the TUI build the same
//! [`AgentRunConfig`] and [`ModelPrefs`], so their behaviour cannot drift.

use crate::agent::AgentConfig;
use crate::chars::{chars_of, string_of, trim, trim_chars};
use vstd::prelude::*;

verus! {

/// Default Ollama server address.
pub const DEFAULT_OLLAMA_URL: &'static str = "http://localhost:11434";

/// Default maximum agent iterations.
pub const DEFAULT_MAX_STEPS: usize = 12;

/// Default minimum acceptable context window for auto model selection.
pub const DEFAULT_MIN_CONTEXT: usize = 8_192;

/// How many times to poll Ollama while waiting for it to start.
pub const OLLAMA_START_POLL_ATTEMPTS: u32 = 20;

/// How many times to poll Ollama during `setup` while waiting for it to start.
pub const SETUP_START_POLL_ATTEMPTS: u32 = 40;

/// Delay between Ollama availability checks, in milliseconds.
pub const OLLAMA_POLL_INTERVAL_MILLIS: u64 = 500;

/// Executable name of the Ollama server.
pub const OLLAMA_BINARY: &'static str = "ollama";

/// Official Ollama Linux install script URL.
pub const OLLAMA_INSTALL_SCRIPT_URL: &'static str = "https://ollama.com/install.sh";

/// The parsed command line.
#[derive(Debug)]
pub struct Cli {
    /// Task words for the coding agent; none starts the interactive TUI.
    pub task: Vec<String>,
    /// Ollama server URL.
    pub ollama_url: String,
    /// Model to use; auto-discovered when omitted.
    pub model: Option<String>,
    /// Working directory for the agent.
    pub cwd: String,
    /// Maximum agent steps.
    pub max_steps: usize,
    /// Read-only mode: no file writes or shell commands.
    pub is_read_only: bool,
    /// Ask before each file write or shell command.
    pub should_confirm: bool,
    /// Do not auto-pull a recommended model when none is suitable.
    pub is_auto_pull_disabled: bool,
    /// Minimum context window for auto model selection.
    pub min_context: usize,
    /// Maximum context window sent to the model.
    pub max_ctx: u64,
    /// Inference engine name.
    pub engine: String,
}

/// Agent execution mode selected in the TUI.
#[derive(Clone, Copy, Debug, PartialEq, Eq, Structural)]
pub enum AgentMode {
    /// Full agentic loop with tools.
    Agent,
    /// Planning-only: read-only, no writes or shell commands.
    Plan,
    /// Plain chat: no tools, just conversation and code.
    Chat,
}

/// Preferences used for automatic model selection.
#[derive(Debug)]
pub struct ModelPrefs {
    /// Explicit model tag; `None` means auto-select.
    pub model: Option<String>,
    /// If `true`, never auto-pull a model.
    pub is_auto_pull_disabled: bool,
    /// Minimum acceptable context window.
    pub min_context: u64,
}

/// Runtime settings shared by the one-shot agent and the TUI worker.
#[derive(Debug)]
pub struct AgentRunConfig {
    /// Workspace directory for the agent.
    pub cwd: String,
    /// Maximum agent iterations.
    pub max_steps: usize,
    /// Disable file writes and shell commands.
    pub is_read_only: bool,
    /// Ask before mutating actions.
    pub should_confirm: bool,
    /// Agent vs planning vs chat mode.
    pub mode: AgentMode,
    /// Stream the model's internal reasoning in agent mode.
    pub show_thinking: bool,
    /// Maximum context window sent to the model.
    pub max_ctx: u64,
}

/// A copy of an optional string.
fn copy_option(o: &Option<String>) -> (result: Option<String>)
    ensures
        match (o, result) {
            (Some(a), Some(b)) => a@ == b@,
            (None, None) => true,
            _ => false,
        },
{
    match o {
        Some(s) => Some(s.clone()),
        None => None,
    }
}

/// Build model-selection preferences from parsed CLI arguments.
pub fn model_prefs_from_cli(cli: &Cli) -> (result: ModelPrefs)
    ensures
        match (cli.model, result.model) {
            (Some(a), Some(b)) => a@ == b@,
            (None, None) => true,
            _ => false,
        },
        result.is_auto_pull_disabled == cli.is_auto_pull_disabled,
        result.min_context == cli.min_context,
{
    ModelPrefs {
        model: copy_option(&cli.model),
        is_auto_pull_disabled: cli.is_auto_pull_disabled,
        min_context: cli.min_context as u64,
    }
}

/// Build the shared agent runtime configuration from parsed CLI arguments:
/// agent mode, with thinking shown.
pub fn agent_run_config(cli: &Cli) -> (result: AgentRunConfig)
    ensures
        result.cwd@ == cli.cwd@,
        result.max_steps == cli.max_steps,
        result.is_read_only == cli.is_read_only,
        result.should_confirm == cli.should_confirm,
        result.mode == AgentMode::Agent,
        result.show_thinking,
        result.max_ctx == cli.max_ctx,
{
    AgentRunConfig {
        cwd: cli.cwd.clone(),
        max_steps: cli.max_steps,
        is_read_only: cli.is_read_only,
        should_confirm: cli.should_confirm,
        mode: AgentMode::Agent,
        show_thinking: true,
        max_ctx: cli.max_ctx,
    }
}

/// The agent loop's settings for a run: planning mode is read-only, and
/// thinking is always shown.
pub fn agent_config_for(run: &AgentRunConfig) -> (result: AgentConfig)
    ensures
        result.cwd@ == run.cwd@,
        result.max_steps == run.max_steps,
        result.is_read_only == (run.is_read_only || run.mode == AgentMode::Plan),
        result.should_confirm == run.should_confirm,
        result.show_thinking,
        result.max_ctx == run.max_ctx,
{
    AgentConfig {
        cwd: run.cwd.clone(),
        max_steps: run.max_steps,
        is_read_only: run.is_read_only || run.mode == AgentMode::Plan,
        should_confirm: run.should_confirm,
        show_thinking: true,
        max_ctx: run.max_ctx,
    }
}

/// Trim a task and reject empty input.
pub fn validate_task(task: &str) -> (result: Result<String, String>)
    ensures
        trim(task@).len() == 0 <==> result is Err,
        result matches Ok(t) ==> t@ == trim(task@),
        result matches Err(message) ==> message@ == "empty task"@,
{
    let t = trim_chars(&chars_of(task));
    if t.len() == 0 {
        return Err(String::from_str("empty task"));
    }
    Ok(string_of(t.as_slice()))
}

} // verus!
