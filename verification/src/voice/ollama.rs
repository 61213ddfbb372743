//! The generation requests sent to the local language model's HTTP API,
//! and how its answers are read.

use vstd::prelude::*;
use crate::text::{contains_spec, join, occurs_at, trim, trim_spec};

verus! {

/// The model that the plain dictation tool always asks.
pub const GENERATE_MODEL: &'static str = "qwen2.5-coder:7b";

/// The address of the generation endpoint.
pub const GENERATE_URL: &'static str = "http://localhost:11434/api/generate";

/// The body of a request to the generation endpoint.
pub struct GenerateRequest {
    pub model: String,
    pub prompt: String,
    pub stream: bool,
    /// Sampling temperature, in tenths.
    pub temperature_tenths: u32,
    /// Upper bound on the number of tokens generated.
    pub num_predict: u32,
}

/// The prompt that asks for a cleaned-up dictation.
pub open spec fn cleanup_prompt_spec(raw: Seq<char>) -> Seq<char> {
    "Clean up this voice transcription. Fix grammar and punctuation.\n- Convert \"comma\" and \"period\" to punctuation\n- Fix speech-to-text errors\n- Output ONLY the cleaned text\n\nRaw: "@
        + raw + "\n\nClean:"@
}

/// The prompt that asks for a meeting summary.
pub open spec fn summary_prompt_spec(raw: Seq<char>) -> Seq<char> {
    "Summarize this meeting transcript into clear bullet points and action items.\nTranscript:\n"@
        + raw + "\n\nSummary:"@
}

/// The request that cleans up a raw dictation.
pub fn cleanup_request(raw_text: &str) -> (res: GenerateRequest)
    ensures
        res.model@ == GENERATE_MODEL@,
        res.prompt@ == cleanup_prompt_spec(raw_text@),
        !res.stream,
        res.temperature_tenths == 1,
        res.num_predict == 500,
{
    let head = join(
        "Clean up this voice transcription. Fix grammar and punctuation.\n- Convert \"comma\" and \"period\" to punctuation\n- Fix speech-to-text errors\n- Output ONLY the cleaned text\n\nRaw: ",
        raw_text,
    );
    GenerateRequest {
        model: GENERATE_MODEL.to_owned(),
        prompt: join(head.as_str(), "\n\nClean:"),
        stream: false,
        temperature_tenths: 1,
        num_predict: 500,
    }
}

/// The request that summarises a meeting transcript.
pub fn summary_request(raw_text: &str) -> (res: GenerateRequest)
    ensures
        res.model@ == GENERATE_MODEL@,
        res.prompt@ == summary_prompt_spec(raw_text@),
        !res.stream,
        res.temperature_tenths == 2,
        res.num_predict == 1000,
{
    let head = join(
        "Summarize this meeting transcript into clear bullet points and action items.\nTranscript:\n",
        raw_text,
    );
    GenerateRequest {
        model: GENERATE_MODEL.to_owned(),
        prompt: join(head.as_str(), "\n\nSummary:"),
        stream: false,
        temperature_tenths: 2,
        num_predict: 1000,
    }
}

/// How an HTTP status code is written out: the number and its reason phrase
/// (as `reqwest::StatusCode` displays it).
pub uninterp spec fn http_status_text(code: u16) -> Seq<char>;

/// Calls `reqwest::StatusCode::is_success` on the status with this code;
/// the crate documents it as "within 200-299".
#[verifier::external_body]
fn status_is_success(code: u16) -> (res: bool)
    requires
        100 <= code <= 999,
    ensures
        res == (200 <= code && code <= 299),
{
    reqwest::StatusCode::from_u16(code).unwrap().is_success()
}

/// Calls the `Display` impl of `reqwest::StatusCode` on the status with this
/// code; the contract claims only that the text is a fixed function of the
/// code (the source writes the number, a space and the reason phrase).
#[verifier::external_body]
fn status_display(code: u16) -> (res: String)
    requires
        100 <= code <= 999,
    ensures
        res@ == http_status_text(code),
{
    reqwest::StatusCode::from_u16(code).unwrap().to_string()
}

/// Accepts a response by its status: a success status lets the body be read,
/// any other is the error "Ollama error: " and the status.
pub fn check_status(code: u16) -> (res: Result<(), String>)
    requires
        100 <= code <= 999,
    ensures
        res is Ok <==> 200 <= code <= 299,
        res matches Err(m) ==> m@ == "Ollama error: "@ + http_status_text(code),
{
    if status_is_success(code) {
        Ok(())
    } else {
        let shown = status_display(code);
        Err(join("Ollama error: ", shown.as_str()))
    }
}

/// The generated text as reported: without surrounding white space.
pub fn finish_response(response: &str) -> (res: String)
    ensures
        res@ == trim_spec(response@),
{
    trim(response)
}

/// Both prompts carry the transcript verbatim: each contains the raw text
/// as a contiguous part, after the instructions and before the cue.
pub proof fn lemma_prompts_carry_transcript(raw: Seq<char>)
    ensures
        contains_spec(cleanup_prompt_spec(raw), raw),
        contains_spec(summary_prompt_spec(raw), raw),
{
    let a = "Clean up this voice transcription. Fix grammar and punctuation.\n- Convert \"comma\" and \"period\" to punctuation\n- Fix speech-to-text errors\n- Output ONLY the cleaned text\n\nRaw: "@;
    let p = cleanup_prompt_spec(raw);
    assert(p.subrange(a.len() as int, a.len() + raw.len() as int) =~= raw);
    assert(occurs_at(p, raw, a.len() as int));
    let b = "Summarize this meeting transcript into clear bullet points and action items.\nTranscript:\n"@;
    let q = summary_prompt_spec(raw);
    assert(q.subrange(b.len() as int, b.len() + raw.len() as int) =~= raw);
    assert(occurs_at(q, raw, b.len() as int));
}

} // verus!
