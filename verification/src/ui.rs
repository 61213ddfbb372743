//! What the menu-bar icon shows.

use vstd::prelude::*;

verus! {

/// The icon title shown in the menu bar.
#[derive(Clone, Copy, Debug, PartialEq, Eq, Structural)]
pub enum TrayTitle {
    /// Microphone: waiting for the hotkey.
    Idle,
    /// Red dot: dictation is being recorded.
    Recording,
    /// Memo pad: a meeting memo is being recorded.
    Memo,
    /// Hourglass: the recording is being transcribed.
    Processing,
    /// Brain: the language model is working.
    Thinking,
}

} // verus!
