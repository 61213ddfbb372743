//! The Markdown file in which a meeting memo is saved.

use vstd::prelude::*;
use crate::text::join;

verus! {

/// The file name of the memo saved at time `stamp`.
pub open spec fn memo_filename_spec(stamp: Seq<char>) -> Seq<char> {
    "Memo_"@ + stamp + ".md"@
}

/// The text of the memo saved at time `stamp`: a title, the summary, a rule
/// and the raw transcript.
pub open spec fn memo_content_spec(stamp: Seq<char>, summary: Seq<char>, raw: Seq<char>) -> Seq<char> {
    "# Meeting Memo - "@ + stamp + "\n\n"@ + summary + "\n\n---\n### Raw Transcript\n\n"@ + raw
}

/// The file name of the memo saved at time `stamp`.
pub fn memo_filename(stamp: &str) -> (res: String)
    ensures
        res@ == memo_filename_spec(stamp@),
{
    let head = join("Memo_", stamp);
    join(head.as_str(), ".md")
}

/// The text of the memo saved at time `stamp`.
pub fn memo_content(stamp: &str, summary: &str, raw: &str) -> (res: String)
    ensures
        res@ == memo_content_spec(stamp@, summary@, raw@),
{
    let a = join("# Meeting Memo - ", stamp);
    let b = join(a.as_str(), "\n\n");
    let c = join(b.as_str(), summary);
    let d = join(c.as_str(), "\n\n---\n### Raw Transcript\n\n");
    join(d.as_str(), raw)
}

/// A memo file is named after its time stamp: "Memo_" + stamp + ".md".
/// Its text starts with a title carrying the stamp, holds the summary right
/// after the title, and ends with the raw transcript.
pub proof fn lemma_memo_layout(stamp: Seq<char>, summary: Seq<char>, raw: Seq<char>)
    ensures
        ({
            let name = memo_filename_spec(stamp);
            &&& name.len() == stamp.len() + 8
            &&& name.subrange(5, 5 + stamp.len() as int) == stamp
        }),
        ({
            let c = memo_content_spec(stamp, summary, raw);
            let head = "# Meeting Memo - "@ + stamp + "\n\n"@;
            &&& c.len() >= head.len() + summary.len() + raw.len()
            &&& c.subrange(0, head.len() as int) == head
            &&& c.subrange(head.len() as int, head.len() + summary.len() as int) == summary
            &&& c.subrange(c.len() - raw.len(), c.len() as int) == raw
        }),
{
    reveal_strlit("Memo_");
    reveal_strlit(".md");
    let name = memo_filename_spec(stamp);
    assert("Memo_"@.len() == 5);
    assert(".md"@.len() == 3);
    assert(name.subrange(5, 5 + stamp.len() as int) =~= stamp);
    let c = memo_content_spec(stamp, summary, raw);
    let head = "# Meeting Memo - "@ + stamp + "\n\n"@;
    let mid = "\n\n---\n### Raw Transcript\n\n"@;
    assert(c =~= head + summary + mid + raw);
    assert(c.subrange(0, head.len() as int) =~= head);
    assert(c.subrange(head.len() as int, head.len() + summary.len() as int) =~= summary);
    assert(c.subrange(c.len() - raw.len(), c.len() as int) =~= raw);
}

} // verus!
