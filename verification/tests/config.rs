use tempest_type::keys::Key;
use tempest_type::tempest::config::{key_for_name, Config};
use tempest_type::voice::config::{key_for_name as voice_key_for_name, Config as VoiceConfig};

fn tempest_config(hotkey: &str) -> Config {
    Config { hotkey: hotkey.to_string(), model: "m".to_string() }
}

fn voice_config(hotkey: &str) -> VoiceConfig {
    VoiceConfig { hotkey: hotkey.to_string(), model: "m".to_string() }
}

#[test]
fn default_config_uses_altgr_and_coder_model() {
    let c = Config::default();
    assert_eq!(c.hotkey, "AltGr");
    assert_eq!(c.model, "qwen2.5-coder:3b");
    let v = VoiceConfig::default();
    assert_eq!(v.hotkey, "AltGr");
    assert_eq!(v.model, "qwen2.5-coder:3b");
}

#[test]
fn default_hotkey_is_altgr() {
    assert_eq!(Config::default().get_target_key(), Key::AltGr);
}

#[test]
fn hotkey_names_are_case_insensitive() {
    assert_eq!(tempest_config("CapsLock").get_target_key(), Key::CapsLock);
    assert_eq!(tempest_config("CAPSLOCK").get_target_key(), Key::CapsLock);
    assert_eq!(tempest_config("capslock").get_target_key(), Key::CapsLock);
    assert_eq!(tempest_config("ControlRight").get_target_key(), Key::ControlRight);
    assert_eq!(voice_config("KeyA").get_target_key(), Key::KeyA);
}

#[test]
fn documented_hotkeys_are_supported() {
    assert_eq!(tempest_config("AltGr").get_target_key(), Key::AltGr);
    assert_eq!(tempest_config("ControlLeft").get_target_key(), Key::ControlLeft);
    assert_eq!(tempest_config("ShiftLeft").get_target_key(), Key::ShiftLeft);
    assert_eq!(tempest_config("ShiftRight").get_target_key(), Key::ShiftRight);
    assert_eq!(tempest_config("MetaLeft").get_target_key(), Key::MetaLeft);
    assert_eq!(tempest_config("F1").get_target_key(), Key::F1);
    assert_eq!(tempest_config("F5").get_target_key(), Key::F5);
    assert_eq!(tempest_config("F12").get_target_key(), Key::F12);
    assert_eq!(tempest_config("Space").get_target_key(), Key::Space);
    assert_eq!(tempest_config("Tab").get_target_key(), Key::Tab);
}

#[test]
fn meta_means_left_meta() {
    assert_eq!(tempest_config("Meta").get_target_key(), Key::MetaLeft);
    assert_eq!(tempest_config("MetaRight").get_target_key(), Key::MetaRight);
    assert_eq!(voice_config("meta").get_target_key(), Key::MetaLeft);
}

#[test]
fn unknown_hotkey_falls_back_to_altgr() {
    assert_eq!(tempest_config("Hyper").get_target_key(), Key::AltGr);
    assert_eq!(tempest_config("").get_target_key(), Key::AltGr);
    assert_eq!(tempest_config(" f1").get_target_key(), Key::AltGr);
    // letter keys are only known to the plain dictation tool
    assert_eq!(tempest_config("KeyB").get_target_key(), Key::AltGr);
    assert_eq!(voice_config("KeyB").get_target_key(), Key::KeyB);
}

#[test]
fn key_for_name_expects_lowercase() {
    assert_eq!(key_for_name("alt"), Key::Alt);
    assert_eq!(key_for_name("Alt"), Key::AltGr);
    assert_eq!(voice_key_for_name("f7"), Key::F7);
    assert_eq!(voice_key_for_name("keya"), Key::KeyA);
}
