//! The decision logic of a bridge between an agent client and a Codex session.
pub mod text;
pub mod collections;
pub mod json;
pub mod protocol;
pub mod events;
pub mod paths;
pub mod permissions;
pub mod title;
pub mod session_config;
pub mod command_safety;
pub mod agent;
pub mod models;
pub mod backend;
pub mod client;
pub mod prompt_state;
pub mod tool_events;
pub mod command_events;
pub mod approval_events;
pub mod prompt_events;
pub mod title_flow;
pub mod config_options;
pub mod settings;
pub mod replay;
pub mod prompts;
pub mod actor;
pub mod laws;
