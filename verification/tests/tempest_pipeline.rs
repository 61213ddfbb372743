use tempest_type::tempest::ollama::{cleanup_request, finish_reply, memo_request, CLEANUP_SYSTEM_PROMPT, MEMO_SYSTEM_PROMPT};
use tempest_type::tempest::pipeline::{after_reply, after_transcription, audio_long_enough, has_speech};
use tempest_type::tempest::session::AppEvent;
use tempest_type::tempest::transcript::assemble_transcript;

#[test]
fn short_audio_is_dropped() {
    assert!(!audio_long_enough(0));
    assert!(!audio_long_enough(6399));
    assert!(audio_long_enough(6400));
    assert!(audio_long_enough(100000));
}

#[test]
fn speech_detection() {
    assert!(has_speech(" Hello world. "));
    assert!(!has_speech("   "));
    assert!(!has_speech("..."));
    assert!(!has_speech("so [BLANK_AUDIO] then"));
    // a lone marker loses its brackets to the trim, and then counts as speech
    assert!(has_speech("[BLANK_AUDIO]"));
}

#[test]
fn cleanup_request_layout() {
    let r = cleanup_request("hello wrld", "qwen2.5-coder:3b");
    assert_eq!(r.model, "qwen2.5-coder:3b");
    assert_eq!(r.system, CLEANUP_SYSTEM_PROMPT);
    assert!(r.system.starts_with("You are an ultra-conservative transcription-correction assistant.\n\nCRITICAL RULES:\n1. "));
    assert_eq!(r.user, "Correct spelling only, keep all words: hello wrld");
    assert_eq!(r.temperature_tenths, 1);
    assert_eq!(r.num_predict, 500);
}

#[test]
fn memo_request_layout() {
    let r = memo_request("we agreed", "m");
    assert_eq!(r.system, MEMO_SYSTEM_PROMPT);
    assert_eq!(r.user, "Summarize this: we agreed");
    assert_eq!(r.temperature_tenths, 2);
    assert_eq!(r.num_predict, 1000);
}

#[test]
fn replies_are_trimmed_and_errors_prefixed() {
    assert_eq!(finish_reply(Ok("  Hi.\n".to_string())), Ok("Hi.".to_string()));
    assert_eq!(finish_reply(Err("timeout".to_string())), Err("Ollama error: timeout".to_string()));
}

#[test]
fn failed_transcription_is_an_error() {
    let r = after_transcription(Err("bad model".to_string()), false, "m");
    assert!(r.request.is_none());
    assert_eq!(r.events.len(), 1);
    assert!(matches!(&r.events[0], AppEvent::ProcessingError(m) if m == "Transcription failed: bad model"));
}

#[test]
fn silent_transcript_stops_quietly() {
    let r = after_transcription(Ok(" ... ".to_string()), false, "m");
    assert!(r.request.is_none());
    assert!(r.events.is_empty());
}

#[test]
fn dictation_goes_to_cleanup() {
    let r = after_transcription(Ok("hello".to_string()), false, "m");
    assert!(matches!(&r.events[0], AppEvent::StatusUpdate(m) if m == "Thinking..."));
    let plan = r.request.unwrap();
    assert_eq!(plan.user, "Correct spelling only, keep all words: hello");
    assert_eq!(plan.model, "m");
}

#[test]
fn memo_goes_to_summary() {
    let r = after_transcription(Ok("long talk".to_string()), true, "m");
    assert!(matches!(&r.events[0], AppEvent::StatusUpdate(m) if m == "Analyzing meeting memo..."));
    assert_eq!(r.request.unwrap().user, "Summarize this: long talk");
}

#[test]
fn cleanup_failure_falls_back_to_raw_text() {
    let ev = after_reply("hello".to_string(), false, Err("Ollama error: down".to_string()));
    assert_eq!(ev.len(), 2);
    assert!(matches!(&ev[0], AppEvent::StatusUpdate(m) if m == "Using raw transcription (Ollama error)"));
    assert!(matches!(&ev[1], AppEvent::ProcessingFinished { text, raw, is_memo: false } if text == "hello" && raw.is_empty()));
}

#[test]
fn cleanup_success_is_finished() {
    let ev = after_reply("hello".to_string(), false, Ok("Hello.".to_string()));
    assert!(matches!(&ev[0], AppEvent::ProcessingFinished { text, raw, is_memo: false } if text == "Hello." && raw == "hello"));
}

#[test]
fn memo_outcomes() {
    let ev = after_reply("talk".to_string(), true, Ok("- a".to_string()));
    assert!(matches!(&ev[0], AppEvent::ProcessingFinished { text, raw, is_memo: true } if text == "- a" && raw == "talk"));
    let ev = after_reply("talk".to_string(), true, Err("Ollama error: x".to_string()));
    assert!(matches!(&ev[0], AppEvent::ProcessingError(m) if m == "Memo analysis failed: Ollama error: x"));
}

#[test]
fn transcript_segments_are_joined_and_trimmed() {
    let segs = vec![Some(" Hello".to_string()), None, Some(" world. ".to_string())];
    assert_eq!(assemble_transcript(&segs), "Hello world.");
    assert_eq!(assemble_transcript(&vec![]), "");
}
