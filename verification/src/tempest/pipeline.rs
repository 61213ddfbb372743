//! The background processing of a recording: which recordings are
//! transcribed, which transcripts go to the language model, and which app
//! events report the outcome.

use vstd::prelude::*;
use crate::tempest::ollama::{cleanup_request, memo_request, ChatPlan, CLEANUP_SYSTEM_PROMPT, MEMO_SYSTEM_PROMPT};
use crate::keys::KeyEvent;
use crate::tempest::session::{event_spec, key_event_spec, wf_view, AppEvent, AppEventView, CommandView, SessionView};
use crate::text::{
    contains, contains_spec, join, lemma_trim_by_bounds, result_view, to_lowercase, trim,
    trim_non_alphanumeric, trim_non_alphanumeric_spec, trim_spec, unicode_alphanumeric,
    unicode_lowercase, unicode_white_space,
};

verus! {

/// Recordings shorter than this many samples (0.4 s at 16 kHz) are dropped.
pub const MIN_SAMPLES: usize = 6400;

/// Whether a recording of `n_samples` samples is long enough to transcribe.
pub fn audio_long_enough(n_samples: usize) -> (res: bool)
    ensures
        res == (n_samples >= MIN_SAMPLES),
{
    n_samples >= MIN_SAMPLES
}

/// The transcript with white space, then non-alphanumeric characters, cut
/// from both ends.
pub open spec fn core_text(raw: Seq<char>) -> Seq<char> {
    trim_non_alphanumeric_spec(trim_spec(raw))
}

/// A transcript holds speech unless, once its ends are cut, it is empty or
/// contains the blank-audio marker.
pub open spec fn has_speech_spec(raw: Seq<char>) -> bool {
    core_text(raw).len() > 0 && !contains_spec(unicode_lowercase(core_text(raw)), "[blank_audio]"@)
}

/// Whether a transcript holds speech worth sending on.
pub fn has_speech(raw: &str) -> (res: bool)
    ensures
        res == has_speech_spec(raw@),
{
    let trimmed = trim(raw);
    let core = trim_non_alphanumeric(trimmed.as_str());
    if core.as_str().is_empty() {
        return false;
    }
    let lower = to_lowercase(core.as_str());
    !contains(lower.as_str(), "[blank_audio]")
}

/// What to do once the transcription has returned: events to post, and the
/// chat request to send, if any.
pub struct AfterTranscription {
    pub events: Vec<AppEvent>,
    pub request: Option<ChatPlan>,
}

/// The events posted once the transcription has returned.
pub open spec fn transcription_events_spec(result: Result<Seq<char>, Seq<char>>, is_memo: bool) -> Seq<AppEventView> {
    match result {
        Err(e) => seq![AppEventView::ProcessingError("Transcription failed: "@ + e)],
        Ok(raw) => if !has_speech_spec(raw) {
            Seq::empty()
        } else if is_memo {
            seq![AppEventView::StatusUpdate("Analyzing meeting memo..."@)]
        } else {
            seq![AppEventView::StatusUpdate("Thinking..."@)]
        },
    }
}

/// Whether a chat request goes out once the transcription has returned:
/// exactly when it succeeded with a transcript that holds speech.
pub open spec fn sends_request_spec(result: Result<Seq<char>, Seq<char>>) -> bool {
    result matches Ok(raw) && has_speech_spec(raw)
}

/// Decides what follows a transcription (its text, or the text of its error).
pub fn after_transcription(result: Result<String, String>, is_memo: bool, model: &str) -> (res: AfterTranscription)
    ensures
        res.events.deep_view() == transcription_events_spec(result_view(result), is_memo),
        res.request is Some <==> sends_request_spec(result_view(result)),
        res.request matches Some(plan) ==> {
            &&& result matches Ok(raw)
            &&& plan.model@ == model@
            &&& if is_memo {
                &&& plan.system@ == MEMO_SYSTEM_PROMPT@
                &&& plan.user@ == "Summarize this: "@ + raw@
                &&& plan.temperature_tenths == 2
                &&& plan.num_predict == 1000
            } else {
                &&& plan.system@ == CLEANUP_SYSTEM_PROMPT@
                &&& plan.user@ == "Correct spelling only, keep all words: "@ + raw@
                &&& plan.temperature_tenths == 1
                &&& plan.num_predict == 500
            }
        },
{
    let ghost rv = result_view(result);
    let mut events: Vec<AppEvent> = Vec::new();
    match result {
        Err(e) => {
            events.push(AppEvent::ProcessingError(join("Transcription failed: ", e.as_str())));
            assert(events.deep_view() =~= transcription_events_spec(rv, is_memo));
            AfterTranscription { events, request: None }
        },
        Ok(raw) => {
            if !has_speech(raw.as_str()) {
                assert(events.deep_view() =~= transcription_events_spec(rv, is_memo));
                AfterTranscription { events, request: None }
            } else if is_memo {
                events.push(AppEvent::StatusUpdate("Analyzing meeting memo...".to_owned()));
                assert(events.deep_view() =~= transcription_events_spec(rv, is_memo));
                AfterTranscription { events, request: Some(memo_request(raw.as_str(), model)) }
            } else {
                events.push(AppEvent::StatusUpdate("Thinking...".to_owned()));
                assert(events.deep_view() =~= transcription_events_spec(rv, is_memo));
                AfterTranscription { events, request: Some(cleanup_request(raw.as_str(), model)) }
            }
        },
    }
}

/// The events posted once the language model has replied (`reply` as read
/// by `finish_reply`): a memo's summary is saved, a failed summary is an
/// error; a cleaned dictation is typed, and when cleaning fails the raw
/// transcript is typed instead.
pub open spec fn reply_events_spec(raw: Seq<char>, is_memo: bool, reply: Result<Seq<char>, Seq<char>>) -> Seq<AppEventView> {
    if is_memo {
        match reply {
            Ok(summary) => seq![AppEventView::ProcessingFinished { text: summary, raw, is_memo: true }],
            Err(e) => seq![AppEventView::ProcessingError("Memo analysis failed: "@ + e)],
        }
    } else {
        match reply {
            Ok(cleaned) => seq![AppEventView::ProcessingFinished { text: cleaned, raw, is_memo: false }],
            Err(_) => seq![
                AppEventView::StatusUpdate("Using raw transcription (Ollama error)"@),
                AppEventView::ProcessingFinished { text: raw, raw: Seq::empty(), is_memo: false },
            ],
        }
    }
}

/// Decides what follows the language model's reply to the request made for
/// transcript `raw`.
pub fn after_reply(raw: String, is_memo: bool, reply: Result<String, String>) -> (res: Vec<AppEvent>)
    ensures
        res.deep_view() == reply_events_spec(raw@, is_memo, result_view(reply)),
{
    let ghost rv = result_view(reply);
    let ghost raw_view = raw@;
    let mut events: Vec<AppEvent> = Vec::new();
    if is_memo {
        match reply {
            Ok(summary) => {
                events.push(AppEvent::ProcessingFinished { text: summary, raw, is_memo: true });
            },
            Err(e) => {
                events.push(AppEvent::ProcessingError(join("Memo analysis failed: ", e.as_str())));
            },
        }
    } else {
        match reply {
            Ok(cleaned) => {
                events.push(AppEvent::ProcessingFinished { text: cleaned, raw, is_memo: false });
            },
            Err(_) => {
                events.push(AppEvent::StatusUpdate("Using raw transcription (Ollama error)".to_owned()));
                events.push(AppEvent::ProcessingFinished { text: raw, raw: String::new(), is_memo: false });
            },
        }
    }
    assert(events.deep_view() =~= reply_events_spec(raw_view, is_memo, rv));
    events
}

/// A transcript that holds speech is not empty.
pub proof fn lemma_speech_is_not_empty(raw: Seq<char>)
    requires
        has_speech_spec(raw),
    ensures
        raw.len() > 0,
{
    lemma_trim_by_bounds(raw, |c: char| unicode_white_space(c));
    lemma_trim_by_bounds(trim_spec(raw), |c: char| !unicode_alphanumeric(c));
}

/// When the language model fails on a dictation, the dictation is not lost:
/// the raw transcript is typed at the cursor.
pub proof fn lemma_cleanup_failure_types_raw(s: SessionView, raw: Seq<char>, e: Seq<char>)
    requires
        has_speech_spec(raw),
    ensures
        ({
            let events = reply_events_spec(raw, false, Err(e));
            let finished = AppEventView::ProcessingFinished { text: raw, raw: Seq::empty(), is_memo: false };
            &&& events.last() == finished
            &&& event_spec(s, finished).1.contains(CommandView::TypeText(raw))
        }),
{
    lemma_speech_is_not_empty(raw);
    let finished = AppEventView::ProcessingFinished { text: raw, raw: Seq::empty(), is_memo: false };
    assert(event_spec(s, finished).1[2] == CommandView::TypeText(raw));
}

/// When the language model cleans a dictation, the cleaned text is what is
/// typed, provided it is not empty.
pub proof fn lemma_cleanup_success_types_cleaned(s: SessionView, raw: Seq<char>, cleaned: Seq<char>)
    requires
        cleaned.len() > 0,
    ensures
        ({
            let events = reply_events_spec(raw, false, Ok(cleaned));
            &&& events.len() == 1
            &&& event_spec(s, events[0]).1.contains(CommandView::TypeText(cleaned))
        }),
{
    let finished = AppEventView::ProcessingFinished { text: cleaned, raw, is_memo: false };
    assert(event_spec(s, finished).1[2] == CommandView::TypeText(cleaned));
}

/// Hold the hotkey, speak, let go, and the text is typed at the cursor: the
/// recording goes to processing as a dictation, a transcript with speech is
/// sent to the language model, and the reply is typed, or the raw
/// transcript when the model fails.
pub proof fn lemma_hold_speak_release_types_text(
    s: SessionView,
    raw: Seq<char>,
    reply: Result<Seq<char>, Seq<char>>,
)
    requires
        wf_view(s),
        !s.is_recording,
        has_speech_spec(raw),
        reply matches Ok(c) ==> c.len() > 0,
    ensures
        ({
            let (s1, _) = event_spec(s, key_event_spec(KeyEvent::Press { is_target: true })->0);
            let (s2, c2) = event_spec(s1, key_event_spec(KeyEvent::Release { is_target: true })->0);
            let typed = match reply {
                Ok(c) => c,
                Err(_) => raw,
            };
            let events = reply_events_spec(raw, false, reply);
            &&& c2.last() == CommandView::Process { is_memo: false }
            &&& sends_request_spec(Ok(raw))
            &&& forall|t: SessionView| #[trigger]
                event_spec(t, events.last()).1.contains(CommandView::TypeText(typed))
        }),
{
    lemma_speech_is_not_empty(raw);
    let typed = match reply {
        Ok(c) => c,
        Err(_) => raw,
    };
    let events = reply_events_spec(raw, false, reply);
    assert forall|t: SessionView| #[trigger]
        event_spec(t, events.last()).1.contains(CommandView::TypeText(typed)) by {
        assert(event_spec(t, events.last()).1[2] == CommandView::TypeText(typed));
    }
}

/// The model's answer is what the processing reports, whatever its length:
/// a cleaned dictation finishes with exactly the answer (and the transcript
/// as its raw text), a memo finishes with exactly the summary.
pub proof fn lemma_answer_is_reported(raw: Seq<char>, a: Seq<char>)
    ensures
        reply_events_spec(raw, false, Ok(a)) == seq![
            AppEventView::ProcessingFinished { text: a, raw, is_memo: false },
        ],
        reply_events_spec(raw, true, Ok(a)) == seq![
            AppEventView::ProcessingFinished { text: a, raw, is_memo: true },
        ],
{
}

/// A failed transcription is reported as one error carrying the failure's
/// text at its end; a transcript without speech posts nothing and sends
/// nothing; a transcript with speech posts one status update and is sent.
pub proof fn lemma_transcription_outcomes(result: Result<Seq<char>, Seq<char>>, is_memo: bool)
    ensures
        result matches Err(e) ==> ({
            &&& transcription_events_spec(result, is_memo).len() == 1
            &&& transcription_events_spec(result, is_memo)[0] matches AppEventView::ProcessingError(m)
                && m.len() >= e.len() && m.subrange(m.len() - e.len(), m.len() as int) == e
            &&& !sends_request_spec(result)
        }),
        result matches Ok(raw) ==> (sends_request_spec(result) <==> has_speech_spec(raw)),
        result matches Ok(raw) ==> (!has_speech_spec(raw) ==> transcription_events_spec(result, is_memo).len() == 0),
        result matches Ok(raw) ==> (has_speech_spec(raw) ==> (transcription_events_spec(result, is_memo).len() == 1
            && transcription_events_spec(result, is_memo)[0] is StatusUpdate)),
{
    if let Err(e) = result {
        let m = "Transcription failed: "@ + e;
        assert(m.subrange(m.len() - e.len(), m.len() as int) =~= e);
    }
}

/// A transcript made only of white space holds no speech.
pub proof fn lemma_blank_transcript_is_silent(raw: Seq<char>)
    requires
        forall|k: int| 0 <= k < raw.len() ==> unicode_white_space(#[trigger] raw[k]),
    ensures
        !has_speech_spec(raw),
{
    let ws = |c: char| unicode_white_space(c);
    lemma_trim_by_bounds(raw, ws);
    let t = trim_spec(raw);
    if t.len() > 0 {
        assert(t[0] == raw[crate::text::trim_start(raw, ws)]);
    }
    lemma_trim_by_bounds(t, |c: char| !unicode_alphanumeric(c));
}

/// A transcript whose trimmed text contains the blank-audio marker (in any
/// letter case) holds no speech.
pub proof fn lemma_blank_marker_is_silent(raw: Seq<char>)
    requires
        contains_spec(unicode_lowercase(core_text(raw)), "[blank_audio]"@),
    ensures
        !has_speech_spec(raw),
{
}

/// A transcript without any letter or digit holds no speech.
pub proof fn lemma_no_alphanumeric_is_silent(raw: Seq<char>)
    requires
        forall|k: int| 0 <= k < raw.len() ==> !unicode_alphanumeric(#[trigger] raw[k]),
    ensures
        !has_speech_spec(raw),
{
    let ws = |c: char| unicode_white_space(c);
    let na = |c: char| !unicode_alphanumeric(c);
    lemma_trim_by_bounds(raw, ws);
    let t = trim_spec(raw);
    let i = crate::text::trim_start(raw, ws);
    assert forall|k: int| 0 <= k < t.len() implies !unicode_alphanumeric(#[trigger] t[k]) by {
        assert(t[k] == raw[i + k]);
    }
    lemma_trim_by_bounds(t, na);
    let c = trim_non_alphanumeric_spec(t);
    if c.len() > 0 {
        let j = crate::text::trim_start(t, na);
        assert(c[0] == t[j]);
    }
}

/// A failed summary is reported as an error whose message ends with the
/// failure's text; the memo and dictation modes announce themselves with
/// different status texts.
pub proof fn lemma_memo_failure_and_status(raw: Seq<char>, e: Seq<char>)
    ensures
        reply_events_spec(raw, true, Err(e)).len() == 1,
        reply_events_spec(raw, true, Err(e))[0] matches AppEventView::ProcessingError(m)
            && m.len() >= e.len() && m.subrange(m.len() - e.len(), m.len() as int) == e,
        has_speech_spec(raw) ==> transcription_events_spec(Ok(raw), true) != transcription_events_spec(
            Ok(raw),
            false,
        ),
{
    let m = "Memo analysis failed: "@ + e;
    assert(m.subrange(m.len() - e.len(), m.len() as int) =~= e);
    reveal_strlit("Analyzing meeting memo...");
    reveal_strlit("Thinking...");
    if has_speech_spec(raw) {
        assert("Analyzing meeting memo..."@.len() != "Thinking..."@.len());
        assert(transcription_events_spec(Ok(raw), true)[0] != transcription_events_spec(Ok(raw), false)[0]);
    }
}

} // verus!
