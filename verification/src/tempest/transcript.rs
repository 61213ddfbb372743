//! Assembling the text of a transcription from its segments.

use vstd::prelude::*;
use crate::text::{join, trim, trim_spec};

verus! {

/// The segments that could be read, in order, joined together.
pub open spec fn join_present(segments: Seq<Option<Seq<char>>>) -> Seq<char>
    decreases segments.len(),
{
    if segments.len() == 0 {
        Seq::empty()
    } else {
        let rest = join_present(segments.drop_last());
        match segments.last() {
            Some(t) => rest + t,
            None => rest,
        }
    }
}

/// The transcript: the readable segments joined, without surrounding white
/// space; a segment that could not be read (`None`) is left out.
pub fn assemble_transcript(segments: &Vec<Option<String>>) -> (res: String)
    ensures
        res@ == trim_spec(join_present(segments.deep_view())),
{
    let mut acc = String::new();
    let n = segments.len();
    let mut i: usize = 0;
    while i < n
        invariant
            i <= n == segments.len(),
            acc@ == join_present(segments.deep_view().take(i as int)),
        decreases n - i,
    {
        let ghost before = segments.deep_view().take(i as int);
        assert(segments.deep_view().take(i + 1).drop_last() =~= before);
        match &segments[i] {
            Some(t) => {
                acc = join(acc.as_str(), t.as_str());
            },
            None => {},
        }
        i = i + 1;
    }
    assert(segments.deep_view().take(n as int) =~= segments.deep_view());
    trim(acc.as_str())
}

/// Appending a readable segment appends its text to the joined transcript,
/// and appending an unreadable one changes nothing, however many segments
/// came before.
pub proof fn lemma_join_present_push(segments: Seq<Option<Seq<char>>>, t: Seq<char>)
    ensures
        join_present(segments.push(Some(t))) == join_present(segments) + t,
        join_present(segments.push(None)) == join_present(segments),
{
    assert(segments.push(Some(t)).drop_last() =~= segments);
    assert(segments.push(None).drop_last() =~= segments);
}

/// Joining is compatible with splitting the segments anywhere: the
/// transcript of `a + b` is the transcript of `a` followed by that of `b`.
pub proof fn lemma_join_present_append(a: Seq<Option<Seq<char>>>, b: Seq<Option<Seq<char>>>)
    ensures
        join_present(a + b) == join_present(a) + join_present(b),
    decreases b.len(),
{
    if b.len() == 0 {
        assert(a + b =~= a);
        assert(join_present(a) + Seq::<char>::empty() =~= join_present(a));
    } else {
        lemma_join_present_append(a, b.drop_last());
        assert((a + b).drop_last() =~= a + b.drop_last());
        match b.last() {
            Some(t) => {
                assert(join_present(a) + join_present(b.drop_last()) + t =~= join_present(a) + (
                join_present(b.drop_last()) + t));
            },
            None => {},
        }
    }
}

/// A single readable segment is transcribed as its text, an unreadable one
/// as nothing.
pub proof fn lemma_join_present_single(t: Seq<char>)
    ensures
        join_present(seq![Some(t)]) == t,
        join_present(seq![None::<Seq<char>>]) == Seq::<char>::empty(),
{
    assert(seq![Some(t)].drop_last() =~= Seq::<Option<Seq<char>>>::empty());
    assert(seq![None::<Seq<char>>].drop_last() =~= Seq::<Option<Seq<char>>>::empty());
    assert(join_present(Seq::<Option<Seq<char>>>::empty()) == Seq::<char>::empty());
    assert(Seq::<char>::empty() + t =~= t);
}

} // verus!
