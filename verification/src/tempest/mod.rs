//! The menu-bar dictation app: configuration, session state machine,
//! transcript processing and language-model requests.

pub mod config;
pub mod session;
pub mod ollama;
pub mod transcript;
pub mod pipeline;
