use tempest_type::keys::KeyEvent;
use tempest_type::sound::Sound;
use tempest_type::voice::ollama::{check_status, cleanup_request, finish_response, summary_request, GENERATE_MODEL};
use tempest_type::voice::pipeline::{after_reply, after_transcription, audio_long_enough, ReplyAction};
use tempest_type::voice::session::{on_capture_started, on_key_event, AppEvent, Command, MenuItem, Session};

#[test]
fn voice_requires_more_than_a_second() {
    assert!(!audio_long_enough(16000));
    assert!(audio_long_enough(16001));
}

#[test]
fn voice_prompts() {
    let r = cleanup_request("um hello comma there");
    assert_eq!(r.model, GENERATE_MODEL);
    assert_eq!(r.model, "qwen2.5-coder:7b");
    assert!(!r.stream);
    assert_eq!(
        r.prompt,
        "Clean up this voice transcription. Fix grammar and punctuation.\n- Convert \"comma\" and \"period\" to punctuation\n- Fix speech-to-text errors\n- Output ONLY the cleaned text\n\nRaw: um hello comma there\n\nClean:"
    );
    assert_eq!(r.temperature_tenths, 1);
    assert_eq!(r.num_predict, 500);
    let s = summary_request("talk");
    assert_eq!(
        s.prompt,
        "Summarize this meeting transcript into clear bullet points and action items.\nTranscript:\ntalk\n\nSummary:"
    );
    assert_eq!(s.temperature_tenths, 2);
    assert_eq!(s.num_predict, 1000);
}

#[test]
fn status_codes() {
    assert_eq!(check_status(200), Ok(()));
    assert_eq!(check_status(299), Ok(()));
    assert_eq!(check_status(500), Err("Ollama error: 500 Internal Server Error".to_string()));
    assert_eq!(check_status(404), Err("Ollama error: 404 Not Found".to_string()));
    assert_eq!(check_status(199), Err("Ollama error: 199 <unknown status code>".to_string()));
    assert!(check_status(300).is_err());
}

#[test]
fn voice_response_is_trimmed() {
    assert_eq!(finish_response("\n Clean text. \n"), "Clean text.");
}

#[test]
fn voice_transcription_outcomes() {
    let r = after_transcription(Err("x".to_string()), true);
    assert!(!r.thinking);
    assert!(r.request.is_none());
    let r = after_transcription(Ok("talk".to_string()), true);
    assert!(r.thinking);
    assert!(r.request.unwrap().prompt.contains("Transcript:\ntalk"));
    let r = after_transcription(Ok("hi".to_string()), false);
    assert!(!r.thinking);
    assert!(r.request.unwrap().prompt.contains("Raw: hi"));
}

#[test]
fn voice_reply_outcomes() {
    assert!(matches!(after_reply("raw".into(), false, Ok("Clean.".into())), ReplyAction::Type(t) if t == "Clean."));
    assert!(matches!(after_reply("raw".into(), false, Err("e".into())), ReplyAction::Type(t) if t == "raw"));
    assert!(matches!(after_reply("raw".into(), true, Ok("- s".into())), ReplyAction::SaveMemo { summary, raw } if summary == "- s" && raw == "raw"));
    assert!(matches!(after_reply("raw".into(), true, Err("e".into())), ReplyAction::Nothing));
}

#[test]
fn voice_session_round_trip() {
    let mut s = Session::new();
    assert!(matches!(s.on_menu(MenuItem::Memo)[0], Command::SendEvent(AppEvent::StartRecording(true))));
    let c = s.on_event(AppEvent::StartRecording(true));
    assert!(matches!(c[2], Command::StartCapture));
    assert!(s.is_recording() && s.is_memo());
    assert!(s.on_event(AppEvent::StartRecording(false)).is_empty());
    assert!(matches!(s.on_menu(MenuItem::Record)[0], Command::SendEvent(AppEvent::StopRecording)));
    let c = s.on_event(AppEvent::StopRecording);
    assert!(matches!(c[6], Command::Process { is_memo: true }));
    assert!(!s.is_recording());
    assert!(s.on_event(AppEvent::StopRecording).is_empty());
    assert!(matches!(s.on_menu(MenuItem::Quit)[0], Command::Exit));
}

#[test]
fn voice_hotkey_and_capture() {
    assert_eq!(on_key_event(KeyEvent::Press { is_target: true }), Some(AppEvent::StartRecording(false)));
    assert_eq!(on_key_event(KeyEvent::Release { is_target: true }), Some(AppEvent::StopRecording));
    assert_eq!(on_key_event(KeyEvent::Other), None);
    assert!(matches!(on_capture_started(true)[0], Command::PlaySound(Sound::Start)));
    assert!(on_capture_started(false).is_empty());
}
