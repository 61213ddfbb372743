//! Decision logic of a push-to-talk dictation tool: hotkey configuration,
//! the recording session state machine, transcript clean-up and the requests
//! sent to a local language model.

pub mod text;
pub mod ui;
pub mod keys;
pub mod memo;
pub mod sound;
pub mod tempest;
pub mod voice;
