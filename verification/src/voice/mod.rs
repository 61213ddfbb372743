//! The plain dictation tool: configuration and session state machine.

pub mod config;
pub mod ollama;
pub mod session;
pub mod pipeline;
