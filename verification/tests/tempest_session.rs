use tempest_type::tempest::pipeline::{after_reply, after_transcription};
use tempest_type::keys::KeyEvent;
use tempest_type::sound::Sound;
use tempest_type::tempest::session::{
    on_capture_started, on_copied, on_key_event, on_memo_written, AppEvent, Command, MenuItem, Session,
};
use tempest_type::ui::TrayTitle;

fn finished(text: &str, raw: &str, is_memo: bool) -> AppEvent {
    AppEvent::ProcessingFinished { text: text.to_string(), raw: raw.to_string(), is_memo }
}

#[test]
fn new_session_is_idle() {
    let s = Session::new();
    assert!(!s.is_recording());
    assert!(!s.is_memo());
    assert_eq!(s.last_transcription(), "");
    assert_eq!(s.title(), TrayTitle::Idle);
}

#[test]
fn start_dictation_updates_menu_and_captures() {
    let mut s = Session::new();
    let cmds = s.on_event(AppEvent::StartRecording(false));
    assert!(s.is_recording());
    assert!(!s.is_memo());
    assert_eq!(s.title(), TrayTitle::Recording);
    assert_eq!(cmds.len(), 3);
    assert!(matches!(cmds[0], Command::SetTitle(TrayTitle::Recording)));
    assert!(matches!(&cmds[1], Command::SetRecordItemText(t) if t == "Stop Recording"));
    assert!(matches!(cmds[2], Command::StartCapture));
}

#[test]
fn start_memo_relabels_memo_entry() {
    let mut s = Session::new();
    let cmds = s.on_event(AppEvent::StartRecording(true));
    assert!(s.is_memo());
    assert!(matches!(cmds[0], Command::SetTitle(TrayTitle::Memo)));
    assert!(matches!(&cmds[1], Command::SetMemoItemText(t) if t == "Stop Meeting Memo"));
}

#[test]
fn start_while_recording_is_ignored() {
    let mut s = Session::new();
    s.on_event(AppEvent::StartRecording(false));
    let cmds = s.on_event(AppEvent::StartRecording(true));
    assert!(cmds.is_empty());
    assert!(!s.is_memo());
    assert_eq!(s.title(), TrayTitle::Recording);
}

#[test]
fn stop_while_idle_is_ignored() {
    let mut s = Session::new();
    assert!(s.on_event(AppEvent::StopRecording).is_empty());
    assert!(!s.is_recording());
}

#[test]
fn start_then_stop_hands_audio_to_processing() {
    let mut s = Session::new();
    s.on_event(AppEvent::StartRecording(true));
    let cmds = s.on_event(AppEvent::StopRecording);
    assert!(!s.is_recording());
    assert_eq!(s.title(), TrayTitle::Processing);
    assert_eq!(cmds.len(), 7);
    assert!(matches!(cmds[0], Command::SetTitle(TrayTitle::Idle)));
    assert!(matches!(&cmds[1], Command::SetRecordItemText(t) if t == "Start Recording"));
    assert!(matches!(&cmds[2], Command::SetMemoItemText(t) if t == "Start Meeting Memo"));
    assert!(matches!(cmds[3], Command::StopCapture));
    assert!(matches!(cmds[4], Command::PlaySound(Sound::Stop)));
    assert!(matches!(cmds[5], Command::SetTitle(TrayTitle::Processing)));
    assert!(matches!(cmds[6], Command::Process { is_memo: true }));
}

#[test]
fn menu_record_and_memo_toggle() {
    let mut s = Session::new();
    let c = s.on_menu(MenuItem::Record);
    assert!(matches!(c[0], Command::SendEvent(AppEvent::StartRecording(false))));
    let c = s.on_menu(MenuItem::Memo);
    assert!(matches!(c[0], Command::SendEvent(AppEvent::StartRecording(true))));
    s.on_event(AppEvent::StartRecording(false));
    let c = s.on_menu(MenuItem::Memo);
    assert!(matches!(c[0], Command::SendEvent(AppEvent::StopRecording)));
    let c = s.on_menu(MenuItem::Record);
    assert!(matches!(c[0], Command::SendEvent(AppEvent::StopRecording)));
}

#[test]
fn menu_quit_exits() {
    let s = Session::new();
    let c = s.on_menu(MenuItem::Quit);
    assert_eq!(c.len(), 1);
    assert!(matches!(c[0], Command::Exit));
}

#[test]
fn copy_does_nothing_before_a_dictation() {
    let s = Session::new();
    assert!(s.on_menu(MenuItem::Copy).is_empty());
}

#[test]
fn typed_dictation_is_what_copy_copies() {
    let mut s = Session::new();
    let cmds = s.on_event(finished("Hello there.", "hello there", false));
    assert_eq!(cmds.len(), 3);
    assert!(matches!(cmds[1], Command::EnableCopyItem));
    assert!(matches!(&cmds[2], Command::TypeText(t) if t == "Hello there."));
    assert_eq!(s.last_transcription(), "Hello there.");
    let c = s.on_menu(MenuItem::Copy);
    assert!(matches!(&c[0], Command::CopyToClipboard(t) if t == "Hello there."));
}

#[test]
fn empty_result_is_not_typed() {
    let mut s = Session::new();
    let cmds = s.on_event(finished("", "noise", false));
    assert_eq!(cmds.len(), 1);
    assert_eq!(s.last_transcription(), "");
}

#[test]
fn finished_memo_is_saved_not_typed() {
    let mut s = Session::new();
    s.on_event(finished("first", "first", false));
    let cmds = s.on_event(finished("- summary", "raw talk", true));
    assert_eq!(cmds.len(), 2);
    assert!(matches!(&cmds[1], Command::WriteMemo { summary, raw } if summary == "- summary" && raw == "raw talk"));
    assert_eq!(s.last_transcription(), "first");
}

#[test]
fn status_and_error_notify() {
    let mut s = Session::new();
    let cmds = s.on_event(AppEvent::StatusUpdate("Thinking...".to_string()));
    assert!(matches!(&cmds[0], Command::Notify { summary, body } if summary == "Tempest Type" && body == "Thinking..."));
    assert_eq!(s.title(), TrayTitle::Thinking);
    let cmds = s.on_event(AppEvent::ProcessingError("boom".to_string()));
    assert!(matches!(&cmds[1], Command::Notify { summary, body } if summary == "Tempest Type Error" && body == "boom"));
    assert_eq!(s.title(), TrayTitle::Idle);
}

#[test]
fn hotkey_hold_and_release() {
    let mut s = Session::new();
    let press = on_key_event(KeyEvent::Press { is_target: true }).unwrap();
    assert!(matches!(press, AppEvent::StartRecording(false)));
    s.on_event(press);
    assert!(s.is_recording());
    let release = on_key_event(KeyEvent::Release { is_target: true }).unwrap();
    let cmds = s.on_event(release);
    assert!(!s.is_recording());
    assert!(matches!(cmds[6], Command::Process { is_memo: false }));
    assert!(on_key_event(KeyEvent::Press { is_target: false }).is_none());
    assert!(on_key_event(KeyEvent::Release { is_target: false }).is_none());
    assert!(on_key_event(KeyEvent::Other).is_none());
}

#[test]
fn follow_ups_of_outside_work() {
    let c = on_capture_started(true);
    assert!(matches!(c[0], Command::RefreshAudio));
    assert!(matches!(c[1], Command::PlaySound(Sound::Start)));
    assert!(on_capture_started(false).is_empty());
    assert!(matches!(on_copied(true)[0], Command::PlaySound(Sound::Success)));
    assert!(on_copied(false).is_empty());
    let c = on_memo_written(true, "Memo_X.md");
    assert!(matches!(&c[0], Command::Notify { summary, body } if summary == "Memo Saved" && body == "Saved as Memo_X.md"));
    assert!(matches!(c[1], Command::PlaySound(Sound::Success)));
    assert!(matches!(c[2], Command::OpenMemo));
    assert!(on_memo_written(false, "Memo_X.md").is_empty());
}

#[test]
fn title_follows_state() {
    let mut s = Session::new();
    for e in [
        AppEvent::StartRecording(false),
        AppEvent::StopRecording,
        AppEvent::StatusUpdate("Thinking...".to_string()),
        finished("x", "x", false),
    ] {
        let cmds = s.on_event(e);
        let last = cmds.iter().rev().find_map(|c| match c {
            Command::SetTitle(t) => Some(*t),
            _ => None,
        });
        assert_eq!(last, Some(s.title()));
    }
}

#[test]
fn hold_speak_release_types_the_text() {
    let mut s = Session::new();
    s.on_event(on_key_event(KeyEvent::Press { is_target: true }).unwrap());
    let cmds = s.on_event(on_key_event(KeyEvent::Release { is_target: true }).unwrap());
    assert!(matches!(cmds.last(), Some(Command::Process { is_memo: false })));
    let next = after_transcription(Ok("hello world".to_string()), false, "m");
    assert!(next.request.is_some());
    for e in next.events {
        s.on_event(e);
    }
    let mut typed = Vec::new();
    for e in after_reply("hello world".to_string(), false, Err("Ollama error: down".to_string())) {
        for c in s.on_event(e) {
            if let Command::TypeText(t) = c {
                typed.push(t);
            }
        }
    }
    assert_eq!(typed, vec!["hello world".to_string()]);
    assert_eq!(s.title(), TrayTitle::Idle);
}
