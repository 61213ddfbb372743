//! User configuration of the plain dictation tool: hotkey and model.

use vstd::prelude::*;
use crate::keys::Key;
use crate::text::{same_text, to_lowercase, unicode_lowercase};

verus! {

/// The settings read from the configuration file.
#[derive(Debug, Clone)]
pub struct Config {
    pub hotkey: String,
    pub model: String,
}

/// The key that a lowercase hotkey name selects; an unknown name selects `AltGr`.
pub open spec fn key_for_name_spec(name: Seq<char>) -> Key {
    if name == "altgr"@ {
        Key::AltGr
    } else if name == "alt"@ {
        Key::Alt
    } else if name == "controlleft"@ {
        Key::ControlLeft
    } else if name == "controlright"@ {
        Key::ControlRight
    } else if name == "shiftleft"@ {
        Key::ShiftLeft
    } else if name == "shiftright"@ {
        Key::ShiftRight
    } else if name == "meta"@ || name == "metaleft"@ {
        Key::MetaLeft
    } else if name == "metaright"@ {
        Key::MetaRight
    } else if name == "capslock"@ {
        Key::CapsLock
    } else if name == "f1"@ {
        Key::F1
    } else if name == "f2"@ {
        Key::F2
    } else if name == "f3"@ {
        Key::F3
    } else if name == "f4"@ {
        Key::F4
    } else if name == "f5"@ {
        Key::F5
    } else if name == "f6"@ {
        Key::F6
    } else if name == "f7"@ {
        Key::F7
    } else if name == "f8"@ {
        Key::F8
    } else if name == "f9"@ {
        Key::F9
    } else if name == "f10"@ {
        Key::F10
    } else if name == "f11"@ {
        Key::F11
    } else if name == "f12"@ {
        Key::F12
    } else if name == "space"@ {
        Key::Space
    } else if name == "tab"@ {
        Key::Tab
    } else if name == "keya"@ {
        Key::KeyA
    } else if name == "keyb"@ {
        Key::KeyB
    } else {
        Key::AltGr
    }
}

/// The key that a (lowercase) hotkey name selects.
pub fn key_for_name(name: &str) -> (res: Key)
    ensures
        res == key_for_name_spec(name@),
{
    if same_text(name, "altgr") {
        Key::AltGr
    } else if same_text(name, "alt") {
        Key::Alt
    } else if same_text(name, "controlleft") {
        Key::ControlLeft
    } else if same_text(name, "controlright") {
        Key::ControlRight
    } else if same_text(name, "shiftleft") {
        Key::ShiftLeft
    } else if same_text(name, "shiftright") {
        Key::ShiftRight
    } else if same_text(name, "meta") || same_text(name, "metaleft") {
        Key::MetaLeft
    } else if same_text(name, "metaright") {
        Key::MetaRight
    } else if same_text(name, "capslock") {
        Key::CapsLock
    } else if same_text(name, "f1") {
        Key::F1
    } else if same_text(name, "f2") {
        Key::F2
    } else if same_text(name, "f3") {
        Key::F3
    } else if same_text(name, "f4") {
        Key::F4
    } else if same_text(name, "f5") {
        Key::F5
    } else if same_text(name, "f6") {
        Key::F6
    } else if same_text(name, "f7") {
        Key::F7
    } else if same_text(name, "f8") {
        Key::F8
    } else if same_text(name, "f9") {
        Key::F9
    } else if same_text(name, "f10") {
        Key::F10
    } else if same_text(name, "f11") {
        Key::F11
    } else if same_text(name, "f12") {
        Key::F12
    } else if same_text(name, "space") {
        Key::Space
    } else if same_text(name, "tab") {
        Key::Tab
    } else if same_text(name, "keya") {
        Key::KeyA
    } else if same_text(name, "keyb") {
        Key::KeyB
    } else {
        Key::AltGr
    }
}

impl Config {
    /// The push-to-talk key: the hotkey name is matched without regard to case.
    pub fn get_target_key(&self) -> (res: Key)
        ensures
            res == key_for_name_spec(unicode_lowercase(self.hotkey@)),
    {
        let lower = to_lowercase(self.hotkey.as_str());
        key_for_name(lower.as_str())
    }
}

impl Default for Config {
    fn default() -> (res: Self)
        ensures
            res.hotkey@ == "AltGr"@,
            res.model@ == "qwen2.5-coder:3b"@,
    {
        Config { hotkey: "AltGr".to_owned(), model: "qwen2.5-coder:3b".to_owned() }
    }
}

/// Hotkey names are matched without regard to case: two configurations
/// whose hotkey names have the same lowercase form select the same key.
pub proof fn lemma_hotkey_case_insensitive(a: Config, b: Config)
    requires
        unicode_lowercase(a.hotkey@) == unicode_lowercase(b.hotkey@),
    ensures
        key_for_name_spec(unicode_lowercase(a.hotkey@)) == key_for_name_spec(
            unicode_lowercase(b.hotkey@),
        ),
{
}

/// Each supported key is selected by its own name: configuring the name of a
/// key listens on that key, so distinct names select distinct keys.
pub proof fn lemma_key_name_round_trip(k: Key)
    ensures
        key_for_name_spec(k.config_name()) == k,
{
    reveal_strlit("altgr");
    reveal_strlit("alt");
    reveal_strlit("controlleft");
    reveal_strlit("controlright");
    reveal_strlit("shiftleft");
    reveal_strlit("shiftright");
    reveal_strlit("metaleft");
    reveal_strlit("metaright");
    reveal_strlit("capslock");
    reveal_strlit("f1");
    reveal_strlit("f2");
    reveal_strlit("f3");
    reveal_strlit("f4");
    reveal_strlit("f5");
    reveal_strlit("f6");
    reveal_strlit("f7");
    reveal_strlit("f8");
    reveal_strlit("f9");
    reveal_strlit("f10");
    reveal_strlit("f11");
    reveal_strlit("f12");
    reveal_strlit("space");
    reveal_strlit("tab");
    reveal_strlit("keya");
    reveal_strlit("keyb");
    reveal_strlit("meta");
    match k {
        Key::AltGr => {
        },
        Key::Alt => {
            assert("alt"@.len() != "altgr"@.len());
            assert("alt"@ != "altgr"@);
        },
        Key::ControlLeft => {
            assert("controlleft"@.len() != "altgr"@.len());
            assert("controlleft"@ != "altgr"@);
            assert("controlleft"@.len() != "alt"@.len());
            assert("controlleft"@ != "alt"@);
        },
        Key::ControlRight => {
            assert("controlright"@.len() != "altgr"@.len());
            assert("controlright"@ != "altgr"@);
            assert("controlright"@.len() != "alt"@.len());
            assert("controlright"@ != "alt"@);
            assert("controlright"@.len() != "controlleft"@.len());
            assert("controlright"@ != "controlleft"@);
        },
        Key::ShiftLeft => {
            assert("shiftleft"@.len() != "altgr"@.len());
            assert("shiftleft"@ != "altgr"@);
            assert("shiftleft"@.len() != "alt"@.len());
            assert("shiftleft"@ != "alt"@);
            assert("shiftleft"@.len() != "controlleft"@.len());
            assert("shiftleft"@ != "controlleft"@);
            assert("shiftleft"@.len() != "controlright"@.len());
            assert("shiftleft"@ != "controlright"@);
        },
        Key::ShiftRight => {
            assert("shiftright"@.len() != "altgr"@.len());
            assert("shiftright"@ != "altgr"@);
            assert("shiftright"@.len() != "alt"@.len());
            assert("shiftright"@ != "alt"@);
            assert("shiftright"@.len() != "controlleft"@.len());
            assert("shiftright"@ != "controlleft"@);
            assert("shiftright"@.len() != "controlright"@.len());
            assert("shiftright"@ != "controlright"@);
            assert("shiftright"@.len() != "shiftleft"@.len());
            assert("shiftright"@ != "shiftleft"@);
        },
        Key::MetaLeft => {
            assert("metaleft"@.len() != "altgr"@.len());
            assert("metaleft"@ != "altgr"@);
            assert("metaleft"@.len() != "alt"@.len());
            assert("metaleft"@ != "alt"@);
            assert("metaleft"@.len() != "controlleft"@.len());
            assert("metaleft"@ != "controlleft"@);
            assert("metaleft"@.len() != "controlright"@.len());
            assert("metaleft"@ != "controlright"@);
            assert("metaleft"@.len() != "shiftleft"@.len());
            assert("metaleft"@ != "shiftleft"@);
            assert("metaleft"@.len() != "shiftright"@.len());
            assert("metaleft"@ != "shiftright"@);
            assert("metaleft"@.len() != "meta"@.len());
            assert("metaleft"@ != "meta"@);
        },
        Key::MetaRight => {
            assert("metaright"@.len() != "altgr"@.len());
            assert("metaright"@ != "altgr"@);
            assert("metaright"@.len() != "alt"@.len());
            assert("metaright"@ != "alt"@);
            assert("metaright"@.len() != "controlleft"@.len());
            assert("metaright"@ != "controlleft"@);
            assert("metaright"@.len() != "controlright"@.len());
            assert("metaright"@ != "controlright"@);
            assert("metaright"@[0] != "shiftleft"@[0]);
            assert("metaright"@ != "shiftleft"@);
            assert("metaright"@.len() != "shiftright"@.len());
            assert("metaright"@ != "shiftright"@);
            assert("metaright"@.len() != "meta"@.len());
            assert("metaright"@ != "meta"@);
            assert("metaright"@.len() != "metaleft"@.len());
            assert("metaright"@ != "metaleft"@);
        },
        Key::CapsLock => {
            assert("capslock"@.len() != "altgr"@.len());
            assert("capslock"@ != "altgr"@);
            assert("capslock"@.len() != "alt"@.len());
            assert("capslock"@ != "alt"@);
            assert("capslock"@.len() != "controlleft"@.len());
            assert("capslock"@ != "controlleft"@);
            assert("capslock"@.len() != "controlright"@.len());
            assert("capslock"@ != "controlright"@);
            assert("capslock"@.len() != "shiftleft"@.len());
            assert("capslock"@ != "shiftleft"@);
            assert("capslock"@.len() != "shiftright"@.len());
            assert("capslock"@ != "shiftright"@);
            assert("capslock"@.len() != "meta"@.len());
            assert("capslock"@ != "meta"@);
            assert("capslock"@[0] != "metaleft"@[0]);
            assert("capslock"@ != "metaleft"@);
            assert("capslock"@.len() != "metaright"@.len());
            assert("capslock"@ != "metaright"@);
        },
        Key::F1 => {
            assert("f1"@.len() != "altgr"@.len());
            assert("f1"@ != "altgr"@);
            assert("f1"@.len() != "alt"@.len());
            assert("f1"@ != "alt"@);
            assert("f1"@.len() != "controlleft"@.len());
            assert("f1"@ != "controlleft"@);
            assert("f1"@.len() != "controlright"@.len());
            assert("f1"@ != "controlright"@);
            assert("f1"@.len() != "shiftleft"@.len());
            assert("f1"@ != "shiftleft"@);
            assert("f1"@.len() != "shiftright"@.len());
            assert("f1"@ != "shiftright"@);
            assert("f1"@.len() != "meta"@.len());
            assert("f1"@ != "meta"@);
            assert("f1"@.len() != "metaleft"@.len());
            assert("f1"@ != "metaleft"@);
            assert("f1"@.len() != "metaright"@.len());
            assert("f1"@ != "metaright"@);
            assert("f1"@.len() != "capslock"@.len());
            assert("f1"@ != "capslock"@);
        },
        Key::F2 => {
            assert("f2"@.len() != "altgr"@.len());
            assert("f2"@ != "altgr"@);
            assert("f2"@.len() != "alt"@.len());
            assert("f2"@ != "alt"@);
            assert("f2"@.len() != "controlleft"@.len());
            assert("f2"@ != "controlleft"@);
            assert("f2"@.len() != "controlright"@.len());
            assert("f2"@ != "controlright"@);
            assert("f2"@.len() != "shiftleft"@.len());
            assert("f2"@ != "shiftleft"@);
            assert("f2"@.len() != "shiftright"@.len());
            assert("f2"@ != "shiftright"@);
            assert("f2"@.len() != "meta"@.len());
            assert("f2"@ != "meta"@);
            assert("f2"@.len() != "metaleft"@.len());
            assert("f2"@ != "metaleft"@);
            assert("f2"@.len() != "metaright"@.len());
            assert("f2"@ != "metaright"@);
            assert("f2"@.len() != "capslock"@.len());
            assert("f2"@ != "capslock"@);
            assert("f2"@[1] != "f1"@[1]);
            assert("f2"@ != "f1"@);
        },
        Key::F3 => {
            assert("f3"@.len() != "altgr"@.len());
            assert("f3"@ != "altgr"@);
            assert("f3"@.len() != "alt"@.len());
            assert("f3"@ != "alt"@);
            assert("f3"@.len() != "controlleft"@.len());
            assert("f3"@ != "controlleft"@);
            assert("f3"@.len() != "controlright"@.len());
            assert("f3"@ != "controlright"@);
            assert("f3"@.len() != "shiftleft"@.len());
            assert("f3"@ != "shiftleft"@);
            assert("f3"@.len() != "shiftright"@.len());
            assert("f3"@ != "shiftright"@);
            assert("f3"@.len() != "meta"@.len());
            assert("f3"@ != "meta"@);
            assert("f3"@.len() != "metaleft"@.len());
            assert("f3"@ != "metaleft"@);
            assert("f3"@.len() != "metaright"@.len());
            assert("f3"@ != "metaright"@);
            assert("f3"@.len() != "capslock"@.len());
            assert("f3"@ != "capslock"@);
            assert("f3"@[1] != "f1"@[1]);
            assert("f3"@ != "f1"@);
            assert("f3"@[1] != "f2"@[1]);
            assert("f3"@ != "f2"@);
        },
        Key::F4 => {
            assert("f4"@.len() != "altgr"@.len());
            assert("f4"@ != "altgr"@);
            assert("f4"@.len() != "alt"@.len());
            assert("f4"@ != "alt"@);
            assert("f4"@.len() != "controlleft"@.len());
            assert("f4"@ != "controlleft"@);
            assert("f4"@.len() != "controlright"@.len());
            assert("f4"@ != "controlright"@);
            assert("f4"@.len() != "shiftleft"@.len());
            assert("f4"@ != "shiftleft"@);
            assert("f4"@.len() != "shiftright"@.len());
            assert("f4"@ != "shiftright"@);
            assert("f4"@.len() != "meta"@.len());
            assert("f4"@ != "meta"@);
            assert("f4"@.len() != "metaleft"@.len());
            assert("f4"@ != "metaleft"@);
            assert("f4"@.len() != "metaright"@.len());
            assert("f4"@ != "metaright"@);
            assert("f4"@.len() != "capslock"@.len());
            assert("f4"@ != "capslock"@);
            assert("f4"@[1] != "f1"@[1]);
            assert("f4"@ != "f1"@);
            assert("f4"@[1] != "f2"@[1]);
            assert("f4"@ != "f2"@);
            assert("f4"@[1] != "f3"@[1]);
            assert("f4"@ != "f3"@);
        },
        Key::F5 => {
            assert("f5"@.len() != "altgr"@.len());
            assert("f5"@ != "altgr"@);
            assert("f5"@.len() != "alt"@.len());
            assert("f5"@ != "alt"@);
            assert("f5"@.len() != "controlleft"@.len());
            assert("f5"@ != "controlleft"@);
            assert("f5"@.len() != "controlright"@.len());
            assert("f5"@ != "controlright"@);
            assert("f5"@.len() != "shiftleft"@.len());
            assert("f5"@ != "shiftleft"@);
            assert("f5"@.len() != "shiftright"@.len());
            assert("f5"@ != "shiftright"@);
            assert("f5"@.len() != "meta"@.len());
            assert("f5"@ != "meta"@);
            assert("f5"@.len() != "metaleft"@.len());
            assert("f5"@ != "metaleft"@);
            assert("f5"@.len() != "metaright"@.len());
            assert("f5"@ != "metaright"@);
            assert("f5"@.len() != "capslock"@.len());
            assert("f5"@ != "capslock"@);
            assert("f5"@[1] != "f1"@[1]);
            assert("f5"@ != "f1"@);
            assert("f5"@[1] != "f2"@[1]);
            assert("f5"@ != "f2"@);
            assert("f5"@[1] != "f3"@[1]);
            assert("f5"@ != "f3"@);
            assert("f5"@[1] != "f4"@[1]);
            assert("f5"@ != "f4"@);
        },
        Key::F6 => {
            assert("f6"@.len() != "altgr"@.len());
            assert("f6"@ != "altgr"@);
            assert("f6"@.len() != "alt"@.len());
            assert("f6"@ != "alt"@);
            assert("f6"@.len() != "controlleft"@.len());
            assert("f6"@ != "controlleft"@);
            assert("f6"@.len() != "controlright"@.len());
            assert("f6"@ != "controlright"@);
            assert("f6"@.len() != "shiftleft"@.len());
            assert("f6"@ != "shiftleft"@);
            assert("f6"@.len() != "shiftright"@.len());
            assert("f6"@ != "shiftright"@);
            assert("f6"@.len() != "meta"@.len());
            assert("f6"@ != "meta"@);
            assert("f6"@.len() != "metaleft"@.len());
            assert("f6"@ != "metaleft"@);
            assert("f6"@.len() != "metaright"@.len());
            assert("f6"@ != "metaright"@);
            assert("f6"@.len() != "capslock"@.len());
            assert("f6"@ != "capslock"@);
            assert("f6"@[1] != "f1"@[1]);
            assert("f6"@ != "f1"@);
            assert("f6"@[1] != "f2"@[1]);
            assert("f6"@ != "f2"@);
            assert("f6"@[1] != "f3"@[1]);
            assert("f6"@ != "f3"@);
            assert("f6"@[1] != "f4"@[1]);
            assert("f6"@ != "f4"@);
            assert("f6"@[1] != "f5"@[1]);
            assert("f6"@ != "f5"@);
        },
        Key::F7 => {
            assert("f7"@.len() != "altgr"@.len());
            assert("f7"@ != "altgr"@);
            assert("f7"@.len() != "alt"@.len());
            assert("f7"@ != "alt"@);
            assert("f7"@.len() != "controlleft"@.len());
            assert("f7"@ != "controlleft"@);
            assert("f7"@.len() != "controlright"@.len());
            assert("f7"@ != "controlright"@);
            assert("f7"@.len() != "shiftleft"@.len());
            assert("f7"@ != "shiftleft"@);
            assert("f7"@.len() != "shiftright"@.len());
            assert("f7"@ != "shiftright"@);
            assert("f7"@.len() != "meta"@.len());
            assert("f7"@ != "meta"@);
            assert("f7"@.len() != "metaleft"@.len());
            assert("f7"@ != "metaleft"@);
            assert("f7"@.len() != "metaright"@.len());
            assert("f7"@ != "metaright"@);
            assert("f7"@.len() != "capslock"@.len());
            assert("f7"@ != "capslock"@);
            assert("f7"@[1] != "f1"@[1]);
            assert("f7"@ != "f1"@);
            assert("f7"@[1] != "f2"@[1]);
            assert("f7"@ != "f2"@);
            assert("f7"@[1] != "f3"@[1]);
            assert("f7"@ != "f3"@);
            assert("f7"@[1] != "f4"@[1]);
            assert("f7"@ != "f4"@);
            assert("f7"@[1] != "f5"@[1]);
            assert("f7"@ != "f5"@);
            assert("f7"@[1] != "f6"@[1]);
            assert("f7"@ != "f6"@);
        },
        Key::F8 => {
            assert("f8"@.len() != "altgr"@.len());
            assert("f8"@ != "altgr"@);
            assert("f8"@.len() != "alt"@.len());
            assert("f8"@ != "alt"@);
            assert("f8"@.len() != "controlleft"@.len());
            assert("f8"@ != "controlleft"@);
            assert("f8"@.len() != "controlright"@.len());
            assert("f8"@ != "controlright"@);
            assert("f8"@.len() != "shiftleft"@.len());
            assert("f8"@ != "shiftleft"@);
            assert("f8"@.len() != "shiftright"@.len());
            assert("f8"@ != "shiftright"@);
            assert("f8"@.len() != "meta"@.len());
            assert("f8"@ != "meta"@);
            assert("f8"@.len() != "metaleft"@.len());
            assert("f8"@ != "metaleft"@);
            assert("f8"@.len() != "metaright"@.len());
            assert("f8"@ != "metaright"@);
            assert("f8"@.len() != "capslock"@.len());
            assert("f8"@ != "capslock"@);
            assert("f8"@[1] != "f1"@[1]);
            assert("f8"@ != "f1"@);
            assert("f8"@[1] != "f2"@[1]);
            assert("f8"@ != "f2"@);
            assert("f8"@[1] != "f3"@[1]);
            assert("f8"@ != "f3"@);
            assert("f8"@[1] != "f4"@[1]);
            assert("f8"@ != "f4"@);
            assert("f8"@[1] != "f5"@[1]);
            assert("f8"@ != "f5"@);
            assert("f8"@[1] != "f6"@[1]);
            assert("f8"@ != "f6"@);
            assert("f8"@[1] != "f7"@[1]);
            assert("f8"@ != "f7"@);
        },
        Key::F9 => {
            assert("f9"@.len() != "altgr"@.len());
            assert("f9"@ != "altgr"@);
            assert("f9"@.len() != "alt"@.len());
            assert("f9"@ != "alt"@);
            assert("f9"@.len() != "controlleft"@.len());
            assert("f9"@ != "controlleft"@);
            assert("f9"@.len() != "controlright"@.len());
            assert("f9"@ != "controlright"@);
            assert("f9"@.len() != "shiftleft"@.len());
            assert("f9"@ != "shiftleft"@);
            assert("f9"@.len() != "shiftright"@.len());
            assert("f9"@ != "shiftright"@);
            assert("f9"@.len() != "meta"@.len());
            assert("f9"@ != "meta"@);
            assert("f9"@.len() != "metaleft"@.len());
            assert("f9"@ != "metaleft"@);
            assert("f9"@.len() != "metaright"@.len());
            assert("f9"@ != "metaright"@);
            assert("f9"@.len() != "capslock"@.len());
            assert("f9"@ != "capslock"@);
            assert("f9"@[1] != "f1"@[1]);
            assert("f9"@ != "f1"@);
            assert("f9"@[1] != "f2"@[1]);
            assert("f9"@ != "f2"@);
            assert("f9"@[1] != "f3"@[1]);
            assert("f9"@ != "f3"@);
            assert("f9"@[1] != "f4"@[1]);
            assert("f9"@ != "f4"@);
            assert("f9"@[1] != "f5"@[1]);
            assert("f9"@ != "f5"@);
            assert("f9"@[1] != "f6"@[1]);
            assert("f9"@ != "f6"@);
            assert("f9"@[1] != "f7"@[1]);
            assert("f9"@ != "f7"@);
            assert("f9"@[1] != "f8"@[1]);
            assert("f9"@ != "f8"@);
        },
        Key::F10 => {
            assert("f10"@.len() != "altgr"@.len());
            assert("f10"@ != "altgr"@);
            assert("f10"@[0] != "alt"@[0]);
            assert("f10"@ != "alt"@);
            assert("f10"@.len() != "controlleft"@.len());
            assert("f10"@ != "controlleft"@);
            assert("f10"@.len() != "controlright"@.len());
            assert("f10"@ != "controlright"@);
            assert("f10"@.len() != "shiftleft"@.len());
            assert("f10"@ != "shiftleft"@);
            assert("f10"@.len() != "shiftright"@.len());
            assert("f10"@ != "shiftright"@);
            assert("f10"@.len() != "meta"@.len());
            assert("f10"@ != "meta"@);
            assert("f10"@.len() != "metaleft"@.len());
            assert("f10"@ != "metaleft"@);
            assert("f10"@.len() != "metaright"@.len());
            assert("f10"@ != "metaright"@);
            assert("f10"@.len() != "capslock"@.len());
            assert("f10"@ != "capslock"@);
            assert("f10"@.len() != "f1"@.len());
            assert("f10"@ != "f1"@);
            assert("f10"@.len() != "f2"@.len());
            assert("f10"@ != "f2"@);
            assert("f10"@.len() != "f3"@.len());
            assert("f10"@ != "f3"@);
            assert("f10"@.len() != "f4"@.len());
            assert("f10"@ != "f4"@);
            assert("f10"@.len() != "f5"@.len());
            assert("f10"@ != "f5"@);
            assert("f10"@.len() != "f6"@.len());
            assert("f10"@ != "f6"@);
            assert("f10"@.len() != "f7"@.len());
            assert("f10"@ != "f7"@);
            assert("f10"@.len() != "f8"@.len());
            assert("f10"@ != "f8"@);
            assert("f10"@.len() != "f9"@.len());
            assert("f10"@ != "f9"@);
        },
        Key::F11 => {
            assert("f11"@.len() != "altgr"@.len());
            assert("f11"@ != "altgr"@);
            assert("f11"@[0] != "alt"@[0]);
            assert("f11"@ != "alt"@);
            assert("f11"@.len() != "controlleft"@.len());
            assert("f11"@ != "controlleft"@);
            assert("f11"@.len() != "controlright"@.len());
            assert("f11"@ != "controlright"@);
            assert("f11"@.len() != "shiftleft"@.len());
            assert("f11"@ != "shiftleft"@);
            assert("f11"@.len() != "shiftright"@.len());
            assert("f11"@ != "shiftright"@);
            assert("f11"@.len() != "meta"@.len());
            assert("f11"@ != "meta"@);
            assert("f11"@.len() != "metaleft"@.len());
            assert("f11"@ != "metaleft"@);
            assert("f11"@.len() != "metaright"@.len());
            assert("f11"@ != "metaright"@);
            assert("f11"@.len() != "capslock"@.len());
            assert("f11"@ != "capslock"@);
            assert("f11"@.len() != "f1"@.len());
            assert("f11"@ != "f1"@);
            assert("f11"@.len() != "f2"@.len());
            assert("f11"@ != "f2"@);
            assert("f11"@.len() != "f3"@.len());
            assert("f11"@ != "f3"@);
            assert("f11"@.len() != "f4"@.len());
            assert("f11"@ != "f4"@);
            assert("f11"@.len() != "f5"@.len());
            assert("f11"@ != "f5"@);
            assert("f11"@.len() != "f6"@.len());
            assert("f11"@ != "f6"@);
            assert("f11"@.len() != "f7"@.len());
            assert("f11"@ != "f7"@);
            assert("f11"@.len() != "f8"@.len());
            assert("f11"@ != "f8"@);
            assert("f11"@.len() != "f9"@.len());
            assert("f11"@ != "f9"@);
            assert("f11"@[2] != "f10"@[2]);
            assert("f11"@ != "f10"@);
        },
        Key::F12 => {
            assert("f12"@.len() != "altgr"@.len());
            assert("f12"@ != "altgr"@);
            assert("f12"@[0] != "alt"@[0]);
            assert("f12"@ != "alt"@);
            assert("f12"@.len() != "controlleft"@.len());
            assert("f12"@ != "controlleft"@);
            assert("f12"@.len() != "controlright"@.len());
            assert("f12"@ != "controlright"@);
            assert("f12"@.len() != "shiftleft"@.len());
            assert("f12"@ != "shiftleft"@);
            assert("f12"@.len() != "shiftright"@.len());
            assert("f12"@ != "shiftright"@);
            assert("f12"@.len() != "meta"@.len());
            assert("f12"@ != "meta"@);
            assert("f12"@.len() != "metaleft"@.len());
            assert("f12"@ != "metaleft"@);
            assert("f12"@.len() != "metaright"@.len());
            assert("f12"@ != "metaright"@);
            assert("f12"@.len() != "capslock"@.len());
            assert("f12"@ != "capslock"@);
            assert("f12"@.len() != "f1"@.len());
            assert("f12"@ != "f1"@);
            assert("f12"@.len() != "f2"@.len());
            assert("f12"@ != "f2"@);
            assert("f12"@.len() != "f3"@.len());
            assert("f12"@ != "f3"@);
            assert("f12"@.len() != "f4"@.len());
            assert("f12"@ != "f4"@);
            assert("f12"@.len() != "f5"@.len());
            assert("f12"@ != "f5"@);
            assert("f12"@.len() != "f6"@.len());
            assert("f12"@ != "f6"@);
            assert("f12"@.len() != "f7"@.len());
            assert("f12"@ != "f7"@);
            assert("f12"@.len() != "f8"@.len());
            assert("f12"@ != "f8"@);
            assert("f12"@.len() != "f9"@.len());
            assert("f12"@ != "f9"@);
            assert("f12"@[2] != "f10"@[2]);
            assert("f12"@ != "f10"@);
            assert("f12"@[2] != "f11"@[2]);
            assert("f12"@ != "f11"@);
        },
        Key::Space => {
            assert("space"@[0] != "altgr"@[0]);
            assert("space"@ != "altgr"@);
            assert("space"@.len() != "alt"@.len());
            assert("space"@ != "alt"@);
            assert("space"@.len() != "controlleft"@.len());
            assert("space"@ != "controlleft"@);
            assert("space"@.len() != "controlright"@.len());
            assert("space"@ != "controlright"@);
            assert("space"@.len() != "shiftleft"@.len());
            assert("space"@ != "shiftleft"@);
            assert("space"@.len() != "shiftright"@.len());
            assert("space"@ != "shiftright"@);
            assert("space"@.len() != "meta"@.len());
            assert("space"@ != "meta"@);
            assert("space"@.len() != "metaleft"@.len());
            assert("space"@ != "metaleft"@);
            assert("space"@.len() != "metaright"@.len());
            assert("space"@ != "metaright"@);
            assert("space"@.len() != "capslock"@.len());
            assert("space"@ != "capslock"@);
            assert("space"@.len() != "f1"@.len());
            assert("space"@ != "f1"@);
            assert("space"@.len() != "f2"@.len());
            assert("space"@ != "f2"@);
            assert("space"@.len() != "f3"@.len());
            assert("space"@ != "f3"@);
            assert("space"@.len() != "f4"@.len());
            assert("space"@ != "f4"@);
            assert("space"@.len() != "f5"@.len());
            assert("space"@ != "f5"@);
            assert("space"@.len() != "f6"@.len());
            assert("space"@ != "f6"@);
            assert("space"@.len() != "f7"@.len());
            assert("space"@ != "f7"@);
            assert("space"@.len() != "f8"@.len());
            assert("space"@ != "f8"@);
            assert("space"@.len() != "f9"@.len());
            assert("space"@ != "f9"@);
            assert("space"@.len() != "f10"@.len());
            assert("space"@ != "f10"@);
            assert("space"@.len() != "f11"@.len());
            assert("space"@ != "f11"@);
            assert("space"@.len() != "f12"@.len());
            assert("space"@ != "f12"@);
        },
        Key::Tab => {
            assert("tab"@.len() != "altgr"@.len());
            assert("tab"@ != "altgr"@);
            assert("tab"@[0] != "alt"@[0]);
            assert("tab"@ != "alt"@);
            assert("tab"@.len() != "controlleft"@.len());
            assert("tab"@ != "controlleft"@);
            assert("tab"@.len() != "controlright"@.len());
            assert("tab"@ != "controlright"@);
            assert("tab"@.len() != "shiftleft"@.len());
            assert("tab"@ != "shiftleft"@);
            assert("tab"@.len() != "shiftright"@.len());
            assert("tab"@ != "shiftright"@);
            assert("tab"@.len() != "meta"@.len());
            assert("tab"@ != "meta"@);
            assert("tab"@.len() != "metaleft"@.len());
            assert("tab"@ != "metaleft"@);
            assert("tab"@.len() != "metaright"@.len());
            assert("tab"@ != "metaright"@);
            assert("tab"@.len() != "capslock"@.len());
            assert("tab"@ != "capslock"@);
            assert("tab"@.len() != "f1"@.len());
            assert("tab"@ != "f1"@);
            assert("tab"@.len() != "f2"@.len());
            assert("tab"@ != "f2"@);
            assert("tab"@.len() != "f3"@.len());
            assert("tab"@ != "f3"@);
            assert("tab"@.len() != "f4"@.len());
            assert("tab"@ != "f4"@);
            assert("tab"@.len() != "f5"@.len());
            assert("tab"@ != "f5"@);
            assert("tab"@.len() != "f6"@.len());
            assert("tab"@ != "f6"@);
            assert("tab"@.len() != "f7"@.len());
            assert("tab"@ != "f7"@);
            assert("tab"@.len() != "f8"@.len());
            assert("tab"@ != "f8"@);
            assert("tab"@.len() != "f9"@.len());
            assert("tab"@ != "f9"@);
            assert("tab"@[0] != "f10"@[0]);
            assert("tab"@ != "f10"@);
            assert("tab"@[0] != "f11"@[0]);
            assert("tab"@ != "f11"@);
            assert("tab"@[0] != "f12"@[0]);
            assert("tab"@ != "f12"@);
            assert("tab"@.len() != "space"@.len());
            assert("tab"@ != "space"@);
        },
        Key::KeyA => {
            assert("keya"@.len() != "altgr"@.len());
            assert("keya"@ != "altgr"@);
            assert("keya"@.len() != "alt"@.len());
            assert("keya"@ != "alt"@);
            assert("keya"@.len() != "controlleft"@.len());
            assert("keya"@ != "controlleft"@);
            assert("keya"@.len() != "controlright"@.len());
            assert("keya"@ != "controlright"@);
            assert("keya"@.len() != "shiftleft"@.len());
            assert("keya"@ != "shiftleft"@);
            assert("keya"@.len() != "shiftright"@.len());
            assert("keya"@ != "shiftright"@);
            assert("keya"@[0] != "meta"@[0]);
            assert("keya"@ != "meta"@);
            assert("keya"@.len() != "metaleft"@.len());
            assert("keya"@ != "metaleft"@);
            assert("keya"@.len() != "metaright"@.len());
            assert("keya"@ != "metaright"@);
            assert("keya"@.len() != "capslock"@.len());
            assert("keya"@ != "capslock"@);
            assert("keya"@.len() != "f1"@.len());
            assert("keya"@ != "f1"@);
            assert("keya"@.len() != "f2"@.len());
            assert("keya"@ != "f2"@);
            assert("keya"@.len() != "f3"@.len());
            assert("keya"@ != "f3"@);
            assert("keya"@.len() != "f4"@.len());
            assert("keya"@ != "f4"@);
            assert("keya"@.len() != "f5"@.len());
            assert("keya"@ != "f5"@);
            assert("keya"@.len() != "f6"@.len());
            assert("keya"@ != "f6"@);
            assert("keya"@.len() != "f7"@.len());
            assert("keya"@ != "f7"@);
            assert("keya"@.len() != "f8"@.len());
            assert("keya"@ != "f8"@);
            assert("keya"@.len() != "f9"@.len());
            assert("keya"@ != "f9"@);
            assert("keya"@.len() != "f10"@.len());
            assert("keya"@ != "f10"@);
            assert("keya"@.len() != "f11"@.len());
            assert("keya"@ != "f11"@);
            assert("keya"@.len() != "f12"@.len());
            assert("keya"@ != "f12"@);
            assert("keya"@.len() != "space"@.len());
            assert("keya"@ != "space"@);
            assert("keya"@.len() != "tab"@.len());
            assert("keya"@ != "tab"@);
        },
        Key::KeyB => {
            assert("keyb"@.len() != "altgr"@.len());
            assert("keyb"@ != "altgr"@);
            assert("keyb"@.len() != "alt"@.len());
            assert("keyb"@ != "alt"@);
            assert("keyb"@.len() != "controlleft"@.len());
            assert("keyb"@ != "controlleft"@);
            assert("keyb"@.len() != "controlright"@.len());
            assert("keyb"@ != "controlright"@);
            assert("keyb"@.len() != "shiftleft"@.len());
            assert("keyb"@ != "shiftleft"@);
            assert("keyb"@.len() != "shiftright"@.len());
            assert("keyb"@ != "shiftright"@);
            assert("keyb"@[0] != "meta"@[0]);
            assert("keyb"@ != "meta"@);
            assert("keyb"@.len() != "metaleft"@.len());
            assert("keyb"@ != "metaleft"@);
            assert("keyb"@.len() != "metaright"@.len());
            assert("keyb"@ != "metaright"@);
            assert("keyb"@.len() != "capslock"@.len());
            assert("keyb"@ != "capslock"@);
            assert("keyb"@.len() != "f1"@.len());
            assert("keyb"@ != "f1"@);
            assert("keyb"@.len() != "f2"@.len());
            assert("keyb"@ != "f2"@);
            assert("keyb"@.len() != "f3"@.len());
            assert("keyb"@ != "f3"@);
            assert("keyb"@.len() != "f4"@.len());
            assert("keyb"@ != "f4"@);
            assert("keyb"@.len() != "f5"@.len());
            assert("keyb"@ != "f5"@);
            assert("keyb"@.len() != "f6"@.len());
            assert("keyb"@ != "f6"@);
            assert("keyb"@.len() != "f7"@.len());
            assert("keyb"@ != "f7"@);
            assert("keyb"@.len() != "f8"@.len());
            assert("keyb"@ != "f8"@);
            assert("keyb"@.len() != "f9"@.len());
            assert("keyb"@ != "f9"@);
            assert("keyb"@.len() != "f10"@.len());
            assert("keyb"@ != "f10"@);
            assert("keyb"@.len() != "f11"@.len());
            assert("keyb"@ != "f11"@);
            assert("keyb"@.len() != "f12"@.len());
            assert("keyb"@ != "f12"@);
            assert("keyb"@.len() != "space"@.len());
            assert("keyb"@ != "space"@);
            assert("keyb"@.len() != "tab"@.len());
            assert("keyb"@ != "tab"@);
            assert("keyb"@[3] != "keya"@[3]);
            assert("keyb"@ != "keya"@);
        },
    }
}

/// "meta" is another name for the left meta key.
pub proof fn lemma_meta_alias()
    ensures
        key_for_name_spec("meta"@) == Key::MetaLeft,
{
    reveal_strlit("altgr");
    reveal_strlit("alt");
    reveal_strlit("controlleft");
    reveal_strlit("controlright");
    reveal_strlit("shiftleft");
    reveal_strlit("shiftright");
    reveal_strlit("metaleft");
    reveal_strlit("metaright");
    reveal_strlit("capslock");
    reveal_strlit("f1");
    reveal_strlit("f2");
    reveal_strlit("f3");
    reveal_strlit("f4");
    reveal_strlit("f5");
    reveal_strlit("f6");
    reveal_strlit("f7");
    reveal_strlit("f8");
    reveal_strlit("f9");
    reveal_strlit("f10");
    reveal_strlit("f11");
    reveal_strlit("f12");
    reveal_strlit("space");
    reveal_strlit("tab");
    reveal_strlit("keya");
    reveal_strlit("keyb");
    reveal_strlit("meta");
    assert("altgr"@[0] == "altgr"@[0]);
    assert("altgr"@[1] == "altgr"@[1]);
    assert("altgr"@[2] == "altgr"@[2]);
    assert("altgr"@[3] == "altgr"@[3]);
    assert("alt"@[0] == "alt"@[0]);
    assert("alt"@[1] == "alt"@[1]);
    assert("alt"@[2] == "alt"@[2]);
    assert("controlleft"@[0] == "controlleft"@[0]);
    assert("controlleft"@[1] == "controlleft"@[1]);
    assert("controlleft"@[2] == "controlleft"@[2]);
    assert("controlleft"@[3] == "controlleft"@[3]);
    assert("controlright"@[0] == "controlright"@[0]);
    assert("controlright"@[1] == "controlright"@[1]);
    assert("controlright"@[2] == "controlright"@[2]);
    assert("controlright"@[3] == "controlright"@[3]);
    assert("shiftleft"@[0] == "shiftleft"@[0]);
    assert("shiftleft"@[1] == "shiftleft"@[1]);
    assert("shiftleft"@[2] == "shiftleft"@[2]);
    assert("shiftleft"@[3] == "shiftleft"@[3]);
    assert("shiftright"@[0] == "shiftright"@[0]);
    assert("shiftright"@[1] == "shiftright"@[1]);
    assert("shiftright"@[2] == "shiftright"@[2]);
    assert("shiftright"@[3] == "shiftright"@[3]);
    assert("metaleft"@[0] == "metaleft"@[0]);
    assert("metaleft"@[1] == "metaleft"@[1]);
    assert("metaleft"@[2] == "metaleft"@[2]);
    assert("metaleft"@[3] == "metaleft"@[3]);
    assert("metaright"@[0] == "metaright"@[0]);
    assert("metaright"@[1] == "metaright"@[1]);
    assert("metaright"@[2] == "metaright"@[2]);
    assert("metaright"@[3] == "metaright"@[3]);
    assert("capslock"@[0] == "capslock"@[0]);
    assert("capslock"@[1] == "capslock"@[1]);
    assert("capslock"@[2] == "capslock"@[2]);
    assert("capslock"@[3] == "capslock"@[3]);
    assert("f1"@[0] == "f1"@[0]);
    assert("f1"@[1] == "f1"@[1]);
    assert("f2"@[0] == "f2"@[0]);
    assert("f2"@[1] == "f2"@[1]);
    assert("f3"@[0] == "f3"@[0]);
    assert("f3"@[1] == "f3"@[1]);
    assert("f4"@[0] == "f4"@[0]);
    assert("f4"@[1] == "f4"@[1]);
    assert("f5"@[0] == "f5"@[0]);
    assert("f5"@[1] == "f5"@[1]);
    assert("f6"@[0] == "f6"@[0]);
    assert("f6"@[1] == "f6"@[1]);
    assert("f7"@[0] == "f7"@[0]);
    assert("f7"@[1] == "f7"@[1]);
    assert("f8"@[0] == "f8"@[0]);
    assert("f8"@[1] == "f8"@[1]);
    assert("f9"@[0] == "f9"@[0]);
    assert("f9"@[1] == "f9"@[1]);
    assert("f10"@[0] == "f10"@[0]);
    assert("f10"@[1] == "f10"@[1]);
    assert("f10"@[2] == "f10"@[2]);
    assert("f11"@[0] == "f11"@[0]);
    assert("f11"@[1] == "f11"@[1]);
    assert("f11"@[2] == "f11"@[2]);
    assert("f12"@[0] == "f12"@[0]);
    assert("f12"@[1] == "f12"@[1]);
    assert("f12"@[2] == "f12"@[2]);
    assert("space"@[0] == "space"@[0]);
    assert("space"@[1] == "space"@[1]);
    assert("space"@[2] == "space"@[2]);
    assert("space"@[3] == "space"@[3]);
    assert("tab"@[0] == "tab"@[0]);
    assert("tab"@[1] == "tab"@[1]);
    assert("tab"@[2] == "tab"@[2]);
    assert("keya"@[0] == "keya"@[0]);
    assert("keya"@[1] == "keya"@[1]);
    assert("keya"@[2] == "keya"@[2]);
    assert("keya"@[3] == "keya"@[3]);
    assert("keyb"@[0] == "keyb"@[0]);
    assert("keyb"@[1] == "keyb"@[1]);
    assert("keyb"@[2] == "keyb"@[2]);
    assert("keyb"@[3] == "keyb"@[3]);
    assert("meta"@[0] == "meta"@[0]);
    assert("meta"@[1] == "meta"@[1]);
    assert("meta"@[2] == "meta"@[2]);
    assert("meta"@[3] == "meta"@[3]);
    assert("meta"@.len() != "altgr"@.len());
    assert("meta"@.len() != "alt"@.len());
    assert("meta"@.len() != "controlleft"@.len());
    assert("meta"@.len() != "controlright"@.len());
    assert("meta"@.len() != "shiftleft"@.len());
    assert("meta"@.len() != "shiftright"@.len());
}

/// A name that is no supported key's name (nor "meta") selects AltGr.
pub proof fn lemma_unknown_name_selects_altgr(name: Seq<char>)
    requires
        forall|k: Key| #[trigger] k.config_name() != name,
        name != "meta"@,
    ensures
        key_for_name_spec(name) == Key::AltGr,
{
    reveal_strlit("altgr");
    reveal_strlit("alt");
    reveal_strlit("controlleft");
    reveal_strlit("controlright");
    reveal_strlit("shiftleft");
    reveal_strlit("shiftright");
    reveal_strlit("metaleft");
    reveal_strlit("metaright");
    reveal_strlit("capslock");
    reveal_strlit("f1");
    reveal_strlit("f2");
    reveal_strlit("f3");
    reveal_strlit("f4");
    reveal_strlit("f5");
    reveal_strlit("f6");
    reveal_strlit("f7");
    reveal_strlit("f8");
    reveal_strlit("f9");
    reveal_strlit("f10");
    reveal_strlit("f11");
    reveal_strlit("f12");
    reveal_strlit("space");
    reveal_strlit("tab");
    reveal_strlit("keya");
    reveal_strlit("keyb");
    reveal_strlit("meta");
    assert("altgr"@[0] == "altgr"@[0]);
    assert("altgr"@[1] == "altgr"@[1]);
    assert("altgr"@[2] == "altgr"@[2]);
    assert("altgr"@[3] == "altgr"@[3]);
    assert("alt"@[0] == "alt"@[0]);
    assert("alt"@[1] == "alt"@[1]);
    assert("alt"@[2] == "alt"@[2]);
    assert("controlleft"@[0] == "controlleft"@[0]);
    assert("controlleft"@[1] == "controlleft"@[1]);
    assert("controlleft"@[2] == "controlleft"@[2]);
    assert("controlleft"@[3] == "controlleft"@[3]);
    assert("controlright"@[0] == "controlright"@[0]);
    assert("controlright"@[1] == "controlright"@[1]);
    assert("controlright"@[2] == "controlright"@[2]);
    assert("controlright"@[3] == "controlright"@[3]);
    assert("shiftleft"@[0] == "shiftleft"@[0]);
    assert("shiftleft"@[1] == "shiftleft"@[1]);
    assert("shiftleft"@[2] == "shiftleft"@[2]);
    assert("shiftleft"@[3] == "shiftleft"@[3]);
    assert("shiftright"@[0] == "shiftright"@[0]);
    assert("shiftright"@[1] == "shiftright"@[1]);
    assert("shiftright"@[2] == "shiftright"@[2]);
    assert("shiftright"@[3] == "shiftright"@[3]);
    assert("metaleft"@[0] == "metaleft"@[0]);
    assert("metaleft"@[1] == "metaleft"@[1]);
    assert("metaleft"@[2] == "metaleft"@[2]);
    assert("metaleft"@[3] == "metaleft"@[3]);
    assert("metaright"@[0] == "metaright"@[0]);
    assert("metaright"@[1] == "metaright"@[1]);
    assert("metaright"@[2] == "metaright"@[2]);
    assert("metaright"@[3] == "metaright"@[3]);
    assert("capslock"@[0] == "capslock"@[0]);
    assert("capslock"@[1] == "capslock"@[1]);
    assert("capslock"@[2] == "capslock"@[2]);
    assert("capslock"@[3] == "capslock"@[3]);
    assert("f1"@[0] == "f1"@[0]);
    assert("f1"@[1] == "f1"@[1]);
    assert("f2"@[0] == "f2"@[0]);
    assert("f2"@[1] == "f2"@[1]);
    assert("f3"@[0] == "f3"@[0]);
    assert("f3"@[1] == "f3"@[1]);
    assert("f4"@[0] == "f4"@[0]);
    assert("f4"@[1] == "f4"@[1]);
    assert("f5"@[0] == "f5"@[0]);
    assert("f5"@[1] == "f5"@[1]);
    assert("f6"@[0] == "f6"@[0]);
    assert("f6"@[1] == "f6"@[1]);
    assert("f7"@[0] == "f7"@[0]);
    assert("f7"@[1] == "f7"@[1]);
    assert("f8"@[0] == "f8"@[0]);
    assert("f8"@[1] == "f8"@[1]);
    assert("f9"@[0] == "f9"@[0]);
    assert("f9"@[1] == "f9"@[1]);
    assert("f10"@[0] == "f10"@[0]);
    assert("f10"@[1] == "f10"@[1]);
    assert("f10"@[2] == "f10"@[2]);
    assert("f11"@[0] == "f11"@[0]);
    assert("f11"@[1] == "f11"@[1]);
    assert("f11"@[2] == "f11"@[2]);
    assert("f12"@[0] == "f12"@[0]);
    assert("f12"@[1] == "f12"@[1]);
    assert("f12"@[2] == "f12"@[2]);
    assert("space"@[0] == "space"@[0]);
    assert("space"@[1] == "space"@[1]);
    assert("space"@[2] == "space"@[2]);
    assert("space"@[3] == "space"@[3]);
    assert("tab"@[0] == "tab"@[0]);
    assert("tab"@[1] == "tab"@[1]);
    assert("tab"@[2] == "tab"@[2]);
    assert("keya"@[0] == "keya"@[0]);
    assert("keya"@[1] == "keya"@[1]);
    assert("keya"@[2] == "keya"@[2]);
    assert("keya"@[3] == "keya"@[3]);
    assert("keyb"@[0] == "keyb"@[0]);
    assert("keyb"@[1] == "keyb"@[1]);
    assert("keyb"@[2] == "keyb"@[2]);
    assert("keyb"@[3] == "keyb"@[3]);
    assert("meta"@[0] == "meta"@[0]);
    assert("meta"@[1] == "meta"@[1]);
    assert("meta"@[2] == "meta"@[2]);
    assert("meta"@[3] == "meta"@[3]);
    assert(name != Key::AltGr.config_name());
    assert(name != Key::Alt.config_name());
    assert(name != Key::ControlLeft.config_name());
    assert(name != Key::ControlRight.config_name());
    assert(name != Key::ShiftLeft.config_name());
    assert(name != Key::ShiftRight.config_name());
    assert(name != Key::MetaLeft.config_name());
    assert(name != Key::MetaRight.config_name());
    assert(name != Key::CapsLock.config_name());
    assert(name != Key::F1.config_name());
    assert(name != Key::F2.config_name());
    assert(name != Key::F3.config_name());
    assert(name != Key::F4.config_name());
    assert(name != Key::F5.config_name());
    assert(name != Key::F6.config_name());
    assert(name != Key::F7.config_name());
    assert(name != Key::F8.config_name());
    assert(name != Key::F9.config_name());
    assert(name != Key::F10.config_name());
    assert(name != Key::F11.config_name());
    assert(name != Key::F12.config_name());
    assert(name != Key::Space.config_name());
    assert(name != Key::Tab.config_name());
    assert(name != Key::KeyA.config_name());
    assert(name != Key::KeyB.config_name());
}

} // verus!
