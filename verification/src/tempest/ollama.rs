//! The chat requests sent to the local language model, and how its replies
//! are read.

use vstd::prelude::*;
use crate::text::{
    join, lemma_trim_by_bounds, lemma_trim_by_removes_only, lemma_trim_by_unique, result_view, trim,
    trim_spec, trim_start, unicode_white_space,
};

verus! {

/// System prompt for cleaning up a dictation.
pub const CLEANUP_SYSTEM_PROMPT: &'static str = "You are an ultra-conservative transcription-correction assistant.\n\nCRITICAL RULES:\n1. DO NOT REWRITE. RETAIN every single word from the raw input.\n2. DO NOT change vocabulary, word order, or tone.\n3. DO NOT expand, summarize, or explain.\n4. Your ONLY task is to fix obvious speech-to-text spelling errors and add punctuation.\n5. If the input is clear, return it EXACTLY as it is.\n6. If the input is empty or nonsensical noise, return an EMPTY STRING.\n7. NEVER use 'Thinking' blocks or meta-comments.";

/// System prompt for summarising a meeting memo.
pub const MEMO_SYSTEM_PROMPT: &'static str = "You are a professional assistant. Summarize meeting transcripts into clear bullet points and action items.\nOutput ONLY the summary. Do not use 'Thinking' blocks.";

/// A chat request: a system message, a user message and the sampling options.
pub struct ChatPlan {
    pub model: String,
    pub system: String,
    pub user: String,
    /// Sampling temperature, in tenths.
    pub temperature_tenths: u32,
    /// Upper bound on the number of tokens generated.
    pub num_predict: u32,
}

/// The request that cleans up a raw dictation.
pub fn cleanup_request(raw_text: &str, model: &str) -> (res: ChatPlan)
    ensures
        res.model@ == model@,
        res.system@ == CLEANUP_SYSTEM_PROMPT@,
        res.user@ == "Correct spelling only, keep all words: "@ + raw_text@,
        res.temperature_tenths == 1,
        res.num_predict == 500,
{
    ChatPlan {
        model: model.to_owned(),
        system: CLEANUP_SYSTEM_PROMPT.to_owned(),
        user: join("Correct spelling only, keep all words: ", raw_text),
        temperature_tenths: 1,
        num_predict: 500,
    }
}

/// The request that summarises a meeting transcript.
pub fn memo_request(raw_text: &str, model: &str) -> (res: ChatPlan)
    ensures
        res.model@ == model@,
        res.system@ == MEMO_SYSTEM_PROMPT@,
        res.user@ == "Summarize this: "@ + raw_text@,
        res.temperature_tenths == 2,
        res.num_predict == 1000,
{
    ChatPlan {
        model: model.to_owned(),
        system: MEMO_SYSTEM_PROMPT.to_owned(),
        user: join("Summarize this: ", raw_text),
        temperature_tenths: 2,
        num_predict: 1000,
    }
}

/// How a reply is reported: the message content without surrounding white
/// space, or the client's error prefixed with "Ollama error: ".
pub open spec fn finish_reply_spec(reply: Result<Seq<char>, Seq<char>>) -> Result<Seq<char>, Seq<char>> {
    match reply {
        Ok(content) => Ok(trim_spec(content)),
        Err(e) => Err("Ollama error: "@ + e),
    }
}

/// Reads the reply to a chat request (its message content, or the text of
/// the client's error).
pub fn finish_reply(reply: Result<String, String>) -> (res: Result<String, String>)
    ensures
        result_view(res) == finish_reply_spec(result_view(reply)),
{
    match reply {
        Ok(content) => Ok(trim(content.as_str())),
        Err(e) => Err(join("Ollama error: ", e.as_str())),
    }
}

/// A successful reply is reported as its whole content less the white space
/// around it: the reported text is a contiguous part `content[i..j]` of the
/// content, everything before `i` and from `j` on is white space, and the
/// reported text neither starts nor ends with white space. In particular a
/// content without surrounding white space (say, several lines of bullet
/// points) is reported unchanged, inner line breaks included.
pub proof fn lemma_finish_reply_ok(content: Seq<char>)
    ensures
        finish_reply_spec(Ok(content)) matches Ok(r) && exists|i: int, j: int|
            0 <= i <= j <= content.len() && r == #[trigger] content.subrange(i, j) && (forall|k: int|
                0 <= k < i ==> unicode_white_space(#[trigger] content[k])) && (forall|k: int|
                j <= k < content.len() ==> unicode_white_space(#[trigger] content[k])) && (i < j
                ==> !unicode_white_space(content[i]) && !unicode_white_space(content[j - 1])),
        (content.len() == 0 || (!unicode_white_space(content[0]) && !unicode_white_space(
            content.last(),
        ))) ==> finish_reply_spec(Ok(content)) == Ok::<Seq<char>, Seq<char>>(content),
{
    let ws = |c: char| unicode_white_space(c);
    let r = trim_spec(content);
    lemma_trim_by_bounds(content, ws);
    lemma_trim_by_removes_only(content, ws);
    let i = trim_start(content, ws);
    let j = i + r.len();
    assert(r == content.subrange(i, j));
    if r.len() > 0 {
        assert(content[i] == r[0]);
        assert(content[j - 1] == r.last());
    }
    if content.len() == 0 || (!unicode_white_space(content[0]) && !unicode_white_space(content.last())) {
        lemma_trim_by_unique(content, ws, 0, content.len() as int);
        assert(content.subrange(0, content.len() as int) =~= content);
    }
}

/// A failed reply is reported as the client's error, prefixed: the message
/// ends with the client's error text.
pub proof fn lemma_finish_reply_err(e: Seq<char>)
    ensures
        finish_reply_spec(Err(e)) matches Err(m) && m.len() >= e.len() && m.subrange(
            m.len() - e.len(),
            m.len() as int,
        ) == e,
{
    let m = "Ollama error: "@ + e;
    assert(m.subrange(m.len() - e.len(), m.len() as int) =~= e);
}

} // verus!
