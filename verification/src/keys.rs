//! The keys that can serve as the push-to-talk hotkey.

use vstd::prelude::*;

verus! {

/// A keyboard key that a configuration can name as its hotkey.
#[derive(Clone, Copy, Debug, PartialEq, Eq, Structural)]
pub enum Key {
    AltGr,
    Alt,
    ControlLeft,
    ControlRight,
    ShiftLeft,
    ShiftRight,
    MetaLeft,
    MetaRight,
    CapsLock,
    F1,
    F2,
    F3,
    F4,
    F5,
    F6,
    F7,
    F8,
    F9,
    F10,
    F11,
    F12,
    Space,
    Tab,
    KeyA,
    KeyB,
}

impl Key {
    /// The lowercase name under which a configuration selects this key.
    pub open spec fn config_name(self) -> Seq<char> {
        match self {
            Key::AltGr => "altgr"@,
            Key::Alt => "alt"@,
            Key::ControlLeft => "controlleft"@,
            Key::ControlRight => "controlright"@,
            Key::ShiftLeft => "shiftleft"@,
            Key::ShiftRight => "shiftright"@,
            Key::MetaLeft => "metaleft"@,
            Key::MetaRight => "metaright"@,
            Key::CapsLock => "capslock"@,
            Key::F1 => "f1"@,
            Key::F2 => "f2"@,
            Key::F3 => "f3"@,
            Key::F4 => "f4"@,
            Key::F5 => "f5"@,
            Key::F6 => "f6"@,
            Key::F7 => "f7"@,
            Key::F8 => "f8"@,
            Key::F9 => "f9"@,
            Key::F10 => "f10"@,
            Key::F11 => "f11"@,
            Key::F12 => "f12"@,
            Key::Space => "space"@,
            Key::Tab => "tab"@,
            Key::KeyA => "keya"@,
            Key::KeyB => "keyb"@,
        }
    }
}

/// What the global keyboard listener observed, reduced to what the
/// recording logic reads: whether a key went down or up, and whether it
/// was the configured hotkey.
#[derive(Clone, Copy, Debug, PartialEq, Eq, Structural)]
pub enum KeyEvent {
    Press { is_target: bool },
    Release { is_target: bool },
    Other,
}

} // verus!
