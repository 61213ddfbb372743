//! The processing of a recording in the plain dictation tool: which
//! recordings are transcribed, which request follows a transcript, and what
//! is done with the model's answer.

use vstd::prelude::*;
use crate::voice::ollama::{cleanup_prompt_spec, cleanup_request, summary_prompt_spec, summary_request, GenerateRequest, GENERATE_MODEL};
use crate::text::result_view;

verus! {

/// Recordings of at most this many samples (one second at 16 kHz) are dropped.
pub const MAX_DROPPED_SAMPLES: usize = 16000;

/// Whether a recording of `n_samples` samples is long enough to transcribe:
/// it must be longer than one second.
pub fn audio_long_enough(n_samples: usize) -> (res: bool)
    ensures
        res == (n_samples > MAX_DROPPED_SAMPLES),
{
    n_samples > MAX_DROPPED_SAMPLES
}

/// What follows a transcription: whether the icon shows that the model is
/// thinking, and the request to send, if any.
pub struct AfterTranscription {
    pub thinking: bool,
    pub request: Option<GenerateRequest>,
}

/// Decides what follows a transcription (its text, or the text of its
/// error): a memo is summarised, a dictation is cleaned up, a failure ends
/// the processing.
pub fn after_transcription(result: Result<String, String>, is_memo: bool) -> (res: AfterTranscription)
    ensures
        res.thinking == (result is Ok && is_memo),
        res.request is Some <==> result is Ok,
        res.request matches Some(req) ==> {
            &&& result matches Ok(text)
            &&& req.prompt@ == if is_memo {
                summary_prompt_spec(text@)
            } else {
                cleanup_prompt_spec(text@)
            }
            &&& req.temperature_tenths == if is_memo { 2u32 } else { 1u32 }
            &&& req.num_predict == if is_memo { 1000u32 } else { 500u32 }
            &&& !req.stream
            &&& req.model@ == GENERATE_MODEL@
        },
{
    match result {
        Err(_) => AfterTranscription { thinking: false, request: None },
        Ok(text) => if is_memo {
            AfterTranscription { thinking: true, request: Some(summary_request(text.as_str())) }
        } else {
            AfterTranscription { thinking: false, request: Some(cleanup_request(text.as_str())) }
        },
    }
}

/// What is done with the model's answer.
#[derive(Debug)]
pub enum ReplyAction {
    /// Save a meeting memo with this summary and raw transcript, then open it.
    SaveMemo { summary: String, raw: String },
    /// Type this text at the cursor.
    Type(String),
    /// Nothing (the failure is only reported).
    Nothing,
}

/// A [`ReplyAction`] with its texts as character sequences.
pub enum ReplyActionView {
    SaveMemo { summary: Seq<char>, raw: Seq<char> },
    Type(Seq<char>),
    Nothing,
}

impl DeepView for ReplyAction {
    type V = ReplyActionView;

    open spec fn deep_view(&self) -> ReplyActionView {
        match self {
            ReplyAction::SaveMemo { summary, raw } => ReplyActionView::SaveMemo {
                summary: summary@,
                raw: raw@,
            },
            ReplyAction::Type(t) => ReplyActionView::Type(t@),
            ReplyAction::Nothing => ReplyActionView::Nothing,
        }
    }
}

/// A memo's summary is saved with its transcript; a dictation is typed as
/// cleaned, or as transcribed when cleaning failed; a failed summary does nothing.
pub open spec fn reply_action_spec(raw: Seq<char>, is_memo: bool, reply: Result<Seq<char>, Seq<char>>) -> ReplyActionView {
    match reply {
        Ok(answer) => if is_memo {
            ReplyActionView::SaveMemo { summary: answer, raw }
        } else {
            ReplyActionView::Type(answer)
        },
        Err(_) => if is_memo {
            ReplyActionView::Nothing
        } else {
            ReplyActionView::Type(raw)
        },
    }
}

/// Decides what is done with the model's answer to the request made for
/// transcript `raw`.
pub fn after_reply(raw: String, is_memo: bool, reply: Result<String, String>) -> (res: ReplyAction)
    ensures
        res.deep_view() == reply_action_spec(raw@, is_memo, result_view(reply)),
{
    match reply {
        Ok(answer) => if is_memo {
            ReplyAction::SaveMemo { summary: answer, raw }
        } else {
            ReplyAction::Type(answer)
        },
        Err(_) => if is_memo {
            ReplyAction::Nothing
        } else {
            ReplyAction::Type(raw)
        },
    }
}

/// A dictation is always typed, whatever the model answers: the answer
/// itself when there is one (whatever its length), the raw transcript when
/// the request failed.
pub proof fn lemma_dictation_always_typed(raw: Seq<char>, reply: Result<Seq<char>, Seq<char>>)
    ensures
        reply_action_spec(raw, false, reply) is Type,
        reply is Err ==> reply_action_spec(raw, false, reply) == ReplyActionView::Type(raw),
        reply matches Ok(a) ==> reply_action_spec(raw, false, reply) == ReplyActionView::Type(a),
{
}

/// A memo's summary is saved together with the transcript it summarises,
/// and a failed summary saves nothing.
pub proof fn lemma_memo_summary_saved(raw: Seq<char>, reply: Result<Seq<char>, Seq<char>>)
    ensures
        reply matches Ok(a) ==> (reply_action_spec(raw, true, reply) == (ReplyActionView::SaveMemo {
            summary: a,
            raw,
        })),
        (reply is Err) ==> (reply_action_spec(raw, true, reply) == ReplyActionView::Nothing),
{
}

} // verus!
