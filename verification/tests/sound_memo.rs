use tempest_type::memo::{memo_content, memo_filename};
use tempest_type::sound::{sound_for_name, Sound};

#[test]
fn sound_names_select_clips() {
    assert_eq!(sound_for_name("Tink"), Sound::Start);
    assert_eq!(sound_for_name("Start"), Sound::Start);
    assert_eq!(sound_for_name("Pop"), Sound::Stop);
    assert_eq!(sound_for_name("Stop"), Sound::Stop);
    assert_eq!(sound_for_name("Success"), Sound::Success);
    assert_eq!(sound_for_name("Boom"), Sound::Start);
}

#[test]
fn sound_name_round_trip() {
    for s in [Sound::Start, Sound::Stop, Sound::Success] {
        assert_eq!(sound_for_name(s.name()), s);
    }
}

#[test]
fn memo_file_layout() {
    assert_eq!(memo_filename("2024-01-02_03-04-05"), "Memo_2024-01-02_03-04-05.md");
    assert_eq!(
        memo_content("T", "- point", "raw words"),
        "# Meeting Memo - T\n\n- point\n\n---\n### Raw Transcript\n\nraw words"
    );
}
