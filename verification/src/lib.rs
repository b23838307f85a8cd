//! openBatarangs: the verified core of an agentic coding CLI for local models.
//!
//! The library holds the logic of the tool, each function with a contract
//! proved by Verus: path safety for agent-supplied paths, output truncation,
//! incremental extraction of JSON fields from a streaming model reply, NDJSON
//! line draining for the Ollama API, tool-call decoding, the agent loop as a
//! state machine, the text every tool hands back, the interactive UI's
//! reactions to keys and events, model selection decisions, and the small
//! parsers used by the hardware probes. Network, terminal, process and
//! filesystem work stays with the binary.

mod chars;
pub mod agent;
pub mod files;
pub mod cli;
pub mod commands;
pub mod tui;
pub mod text;
pub mod path;
pub mod stream;
pub mod ollama;
pub mod tool;
pub mod hardware;
pub mod engine;
pub mod models;
pub mod banner;
