//! Character-level text utilities: Unicode predicates and case mapping taken
//! from the standard library, and verified trimming and searching built on them.

use vstd::prelude::*;

verus! {

broadcast use vstd::string::group_string_axioms;

/// Whether `c` has the Unicode `White_Space` property (as `char::is_whitespace` decides it).
pub uninterp spec fn unicode_white_space(c: char) -> bool;

/// Whether `c` is alphabetic or numeric in Unicode's sense (as `char::is_alphanumeric` decides it).
pub uninterp spec fn unicode_alphanumeric(c: char) -> bool;

/// The full Unicode lowercase mapping of a string (as `str::to_lowercase` computes it).
pub uninterp spec fn unicode_lowercase(s: Seq<char>) -> Seq<char>;

/// Calls `char::is_whitespace`; the contract claims only that the answer is the
/// fixed Unicode `White_Space` property of `c`, which is left unnamed here.
#[verifier::external_body]
pub(crate) fn is_white_space(c: char) -> (res: bool)
    ensures
        res == unicode_white_space(c),
{
    c.is_whitespace()
}

/// Calls `char::is_alphanumeric`; the contract claims only that the answer is
/// a fixed property of `c`.
#[verifier::external_body]
pub(crate) fn is_alphanumeric(c: char) -> (res: bool)
    ensures
        res == unicode_alphanumeric(c),
{
    c.is_alphanumeric()
}

/// Calls `str::to_lowercase`; the contract claims only that the result is a
/// fixed function of the characters of `s`.
#[verifier::external_body]
pub(crate) fn to_lowercase(s: &str) -> (res: String)
    ensures
        res@ == unicode_lowercase(s@),
{
    s.to_lowercase()
}

/// The characters of `s` as a vector.
pub fn chars_of(s: &str) -> (v: Vec<char>)
    ensures
        v@ == s@,
{
    let mut v: Vec<char> = Vec::new();
    for c in it: s.chars()
        invariant
            v@ == it.seq().take(it.index() as int),
    {
        v.push(c);
        assert(v@ =~= it.seq().take(it.index() + 1));
    }
    assert(v@ =~= s@);
    v
}

/// `s` without its longest prefix of characters satisfying `p`.
pub open spec fn drop_leading(s: Seq<char>, p: spec_fn(char) -> bool) -> Seq<char>
    decreases s.len(),
{
    if s.len() > 0 && p(s[0]) {
        drop_leading(s.drop_first(), p)
    } else {
        s
    }
}

/// `s` without its longest suffix of characters satisfying `p`.
pub open spec fn drop_trailing(s: Seq<char>, p: spec_fn(char) -> bool) -> Seq<char>
    decreases s.len(),
{
    if s.len() > 0 && p(s.last()) {
        drop_trailing(s.drop_last(), p)
    } else {
        s
    }
}

/// `s` with every leading and trailing character satisfying `p` removed.
pub open spec fn trim_by(s: Seq<char>, p: spec_fn(char) -> bool) -> Seq<char> {
    drop_trailing(drop_leading(s, p), p)
}

/// What `str::trim` returns: `s` without leading and trailing white space.
pub open spec fn trim_spec(s: Seq<char>) -> Seq<char> {
    trim_by(s, |c: char| unicode_white_space(c))
}

/// `s` without the leading and trailing characters that are not alphanumeric.
pub open spec fn trim_non_alphanumeric_spec(s: Seq<char>) -> Seq<char> {
    trim_by(s, |c: char| !unicode_alphanumeric(c))
}

/// Which characters a trim removes from the ends of a string.
enum Strip {
    WhiteSpace,
    NonAlphanumeric,
}

impl Strip {
    spec fn pred(self) -> spec_fn(char) -> bool {
        match self {
            Strip::WhiteSpace => |c: char| unicode_white_space(c),
            Strip::NonAlphanumeric => |c: char| !unicode_alphanumeric(c),
        }
    }

    fn strips(&self, c: char) -> (res: bool)
        ensures
            res == (self.pred())(c),
    {
        match self {
            Strip::WhiteSpace => is_white_space(c),
            Strip::NonAlphanumeric => !is_alphanumeric(c),
        }
    }
}

proof fn lemma_drop_leading_step(s: Seq<char>, p: spec_fn(char) -> bool, i: int)
    requires
        0 <= i < s.len(),
        p(s[i]),
    ensures
        drop_leading(s.subrange(i, s.len() as int), p) == drop_leading(
            s.subrange(i + 1, s.len() as int),
            p,
        ),
{
    let a = s.subrange(i, s.len() as int);
    assert(a.drop_first() =~= s.subrange(i + 1, s.len() as int));
}

proof fn lemma_drop_trailing_step(s: Seq<char>, p: spec_fn(char) -> bool, i: int, j: int)
    requires
        0 <= i < j <= s.len(),
        p(s[j - 1]),
    ensures
        drop_trailing(s.subrange(i, j), p) == drop_trailing(s.subrange(i, j - 1), p),
{
    let a = s.subrange(i, j);
    assert(a.drop_last() =~= s.subrange(i, j - 1));
}

/// The bounds `(i, j)` such that `v[i..j]` is `v` trimmed by `strip`.
fn trim_bounds(v: &Vec<char>, strip: &Strip) -> (res: (usize, usize))
    ensures
        res.0 <= res.1 <= v.len(),
        v@.subrange(res.0 as int, res.1 as int) == trim_by(v@, strip.pred()),
{
    let n = v.len();
    let ghost p = strip.pred();
    let mut i: usize = 0;
    assert(v@.subrange(0, n as int) =~= v@);
    while i < n && strip.strips(v[i])
        invariant
            i <= n == v.len(),
            p == strip.pred(),
            drop_leading(v@, p) == drop_leading(v@.subrange(i as int, n as int), p),
        decreases n - i,
    {
        proof {
            lemma_drop_leading_step(v@, p, i as int);
        }
        i = i + 1;
    }
    assert(drop_leading(v@, p) == v@.subrange(i as int, n as int));
    let mut j: usize = n;
    while j > i && strip.strips(v[j - 1])
        invariant
            i <= j <= n == v.len(),
            p == strip.pred(),
            drop_leading(v@, p) == v@.subrange(i as int, n as int),
            trim_by(v@, p) == drop_trailing(v@.subrange(i as int, j as int), p),
        decreases j - i,
    {
        proof {
            lemma_drop_trailing_step(v@, p, i as int, j as int);
        }
        j = j - 1;
    }
    (i, j)
}

/// `s` trimmed by `strip`, as a new string.
fn trim_with(s: &str, strip: &Strip) -> (res: String)
    ensures
        res@ == trim_by(s@, strip.pred()),
{
    let v = chars_of(s);
    let (i, j) = trim_bounds(&v, strip);
    s.substring_char(i, j).to_owned()
}

/// `s` without leading and trailing white space (`str::trim`).
pub fn trim(s: &str) -> (res: String)
    ensures
        res@ == trim_spec(s@),
{
    trim_with(s, &Strip::WhiteSpace)
}

/// `s` without the leading and trailing characters that are not
/// alphanumeric (`str::trim_matches(|c| !c.is_alphanumeric())`).
pub fn trim_non_alphanumeric(s: &str) -> (res: String)
    ensures
        res@ == trim_non_alphanumeric_spec(s@),
{
    trim_with(s, &Strip::NonAlphanumeric)
}

/// `pat` occurs in `s` starting at position `i`.
pub open spec fn occurs_at(s: Seq<char>, pat: Seq<char>, i: int) -> bool {
    0 <= i && i + pat.len() <= s.len() && s.subrange(i, i + pat.len()) == pat
}

/// `pat` occurs somewhere in `s` (`str::contains` with a string pattern).
pub open spec fn contains_spec(s: Seq<char>, pat: Seq<char>) -> bool {
    exists|i: int| occurs_at(s, pat, i)
}

fn occurs_at_exec(v: &Vec<char>, pat: &Vec<char>, i: usize) -> (res: bool)
    requires
        i + pat.len() <= v.len(),
    ensures
        res == occurs_at(v@, pat@, i as int),
{
    let m = pat.len();
    let mut k: usize = 0;
    while k < m
        invariant
            k <= m == pat.len(),
            i + m <= v.len(),
            forall|t: int| 0 <= t < k ==> v@[i + t] == pat@[t],
        decreases m - k,
    {
        if v[i + k] != pat[k] {
            assert(v@.subrange(i as int, i + m)[k as int] != pat@[k as int]);
            return false;
        }
        k = k + 1;
    }
    assert(v@.subrange(i as int, i + m) =~= pat@);
    true
}

/// Whether `pat` occurs in `s`.
pub fn contains(s: &str, pat: &str) -> (res: bool)
    ensures
        res == contains_spec(s@, pat@),
{
    let v = chars_of(s);
    let w = chars_of(pat);
    if w.len() > v.len() {
        return false;
    }
    let last = v.len() - w.len();
    let mut i: usize = 0;
    while i <= last
        invariant
            last + w.len() == v.len(),
            v@ == s@,
            w@ == pat@,
            forall|t: int| 0 <= t < i ==> !occurs_at(v@, w@, t),
        decreases last + 1 - i,
    {
        if occurs_at_exec(&v, &w, i) {
            return true;
        }
        if i == last {
            return false;
        }
        i = i + 1;
    }
    false
}

/// Whether two strings hold the same characters.
pub fn same_text(a: &str, b: &str) -> (res: bool)
    ensures
        res == (a@ == b@),
{
    a.to_owned() == b.to_owned()
}

/// `a` followed by `b`, as a new string.
pub fn join(a: &str, b: &str) -> (res: String)
    ensures
        res@ == a@ + b@,
{
    let mut r = a.to_owned();
    r.append(b);
    r
}

/// A result whose two sides are texts, seen as character sequences.
pub open spec fn result_view(r: Result<String, String>) -> Result<Seq<char>, Seq<char>> {
    match r {
        Ok(t) => Ok(t@),
        Err(e) => Err(e@),
    }
}

proof fn lemma_drop_leading_suffix(s: Seq<char>, p: spec_fn(char) -> bool)
    ensures
        drop_leading(s, p).len() <= s.len(),
        drop_leading(s, p) == s.subrange(s.len() - drop_leading(s, p).len(), s.len() as int),
        drop_leading(s, p).len() > 0 ==> !p(drop_leading(s, p)[0]),
        forall|k: int| 0 <= k < s.len() - drop_leading(s, p).len() ==> p(#[trigger] s[k]),
    decreases s.len(),
{
    if s.len() > 0 && p(s[0]) {
        lemma_drop_leading_suffix(s.drop_first(), p);
        let r = drop_leading(s, p);
        assert forall|k: int| 0 <= k < s.len() - r.len() implies p(#[trigger] s[k]) by {
            if k > 0 {
                assert(s[k] == s.drop_first()[k - 1]);
            }
        }
        assert(s.drop_first().subrange(s.len() - 1 - r.len(), s.len() - 1) =~= s.subrange(
            s.len() - r.len(),
            s.len() as int,
        ));
    } else {
        assert(s.subrange(0, s.len() as int) =~= s);
    }
}

proof fn lemma_drop_trailing_prefix(s: Seq<char>, p: spec_fn(char) -> bool)
    ensures
        drop_trailing(s, p).len() <= s.len(),
        drop_trailing(s, p) == s.subrange(0, drop_trailing(s, p).len() as int),
        drop_trailing(s, p).len() > 0 ==> !p(drop_trailing(s, p).last()),
        forall|k: int| drop_trailing(s, p).len() <= k < s.len() ==> p(#[trigger] s[k]),
    decreases s.len(),
{
    if s.len() > 0 && p(s.last()) {
        lemma_drop_trailing_prefix(s.drop_last(), p);
        let r = drop_trailing(s, p);
        assert forall|k: int| r.len() <= k < s.len() implies p(#[trigger] s[k]) by {
            if k < s.len() - 1 {
                assert(s[k] == s.drop_last()[k]);
            }
        }
        assert(s.drop_last().subrange(0, r.len() as int) =~= s.subrange(0, r.len() as int));
    } else {
        assert(s.subrange(0, s.len() as int) =~= s);
    }
}

/// Where the part kept by `trim_by` starts in `s`.
pub open spec fn trim_start(s: Seq<char>, p: spec_fn(char) -> bool) -> int {
    s.len() - drop_leading(s, p).len()
}

/// Trimming keeps a contiguous part of the text, never more, and what it
/// keeps starts and ends with characters that are not trimmed.
pub proof fn lemma_trim_by_bounds(s: Seq<char>, p: spec_fn(char) -> bool)
    ensures
        trim_by(s, p).len() <= s.len(),
        0 <= trim_start(s, p) <= s.len() - trim_by(s, p).len(),
        trim_by(s, p) == s.subrange(trim_start(s, p), trim_start(s, p) + trim_by(s, p).len()),
        trim_by(s, p).len() > 0 ==> !p(trim_by(s, p)[0]) && !p(trim_by(s, p).last()),
{
    let l = drop_leading(s, p);
    let t = trim_by(s, p);
    lemma_drop_leading_suffix(s, p);
    lemma_drop_trailing_prefix(l, p);
    let i = s.len() - l.len();
    assert(t =~= s.subrange(i, i + t.len()));
    if t.len() > 0 {
        assert(t[0] == l[0]);
    }
}

/// Trimming removes only characters that satisfy `p`: everything before and
/// after the kept part is trimmed material.
pub proof fn lemma_trim_by_removes_only(s: Seq<char>, p: spec_fn(char) -> bool)
    ensures
        forall|k: int| 0 <= k < trim_start(s, p) ==> p(#[trigger] s[k]),
        forall|k: int|
            trim_start(s, p) + trim_by(s, p).len() <= k < s.len() ==> p(#[trigger] s[k]),
{
    let l = drop_leading(s, p);
    let t = trim_by(s, p);
    let i = trim_start(s, p);
    lemma_drop_leading_suffix(s, p);
    lemma_drop_trailing_prefix(l, p);
    assert forall|k: int| i + t.len() <= k < s.len() implies p(#[trigger] s[k]) by {
        assert(s[k] == l[k - i]);
    }
}

/// The trim is the only part of `s` that is cut out by trimmed material on
/// both sides and starts and ends with a character that is kept: any
/// `s[i..j]` with only `p`-characters outside it, and with untrimmed first
/// and last characters (or empty, when every character satisfies `p`), is
/// `trim_by(s, p)`.
pub proof fn lemma_trim_by_unique(s: Seq<char>, p: spec_fn(char) -> bool, i: int, j: int)
    requires
        0 <= i <= j <= s.len(),
        forall|k: int| 0 <= k < i ==> p(#[trigger] s[k]),
        forall|k: int| j <= k < s.len() ==> p(#[trigger] s[k]),
        i < j ==> !p(s[i]) && !p(s[j - 1]),
    ensures
        trim_by(s, p) == s.subrange(i, j),
{
    let t = trim_by(s, p);
    let t0 = trim_start(s, p);
    lemma_trim_by_bounds(s, p);
    lemma_trim_by_removes_only(s, p);
    if t.len() == 0 {
        if i < j {
            assert(p(s[i]));
        }
        assert(s.subrange(i, j) =~= t);
    } else {
        assert(s[t0] == t[0]);
        assert(s[t0 + t.len() - 1] == t.last());
        if i < j {
            if t0 < i {
                assert(p(s[t0]));
            }
            if t0 > i {
                assert(p(s[i]));
            }
            let e = t0 + t.len();
            if e > j {
                assert(p(s[e - 1]));
            }
            if e < j {
                assert(p(s[j - 1]));
            }
            assert(s.subrange(i, j) =~= t);
        } else {
            if t0 < i {
                assert(p(s[t0]));
            } else {
                assert(p(s[t0]));
            }
        }
    }
}

/// Trimming twice is trimming once.
pub proof fn lemma_trim_by_idempotent(s: Seq<char>, p: spec_fn(char) -> bool)
    ensures
        trim_by(trim_by(s, p), p) == trim_by(s, p),
{
    let t = trim_by(s, p);
    lemma_trim_by_bounds(s, p);
    if t.len() > 0 {
        assert(drop_leading(t, p) == t);
        assert(drop_trailing(t, p) == t);
    } else {
        assert(drop_leading(t, p) == t);
        assert(drop_trailing(t, p) == t);
    }
}

} // verus!
