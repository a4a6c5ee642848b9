//! Assembling the transcriber's output.
//!
//! The recognition engine produces text in segments. The final transcript
//! is the segments concatenated in order with surrounding whitespace
//! trimmed; the engine calls themselves live in the host layer, which hands
//! the segment texts here.

use vstd::prelude::*;
use vstd::string::{StrSliceExecFns, StringExecFns};

verus! {

/// The views of a sequence of owned strings.
pub open spec fn seq_views(segs: Seq<String>) -> Seq<Seq<char>> {
    segs.map_values(|s: String| s@)
}

/// The segments joined in order, with nothing between them.
pub open spec fn concat_spec(segs: Seq<Seq<char>>) -> Seq<char>
    decreases segs.len(),
{
    if segs.len() == 0 {
        Seq::empty()
    } else {
        concat_spec(segs.drop_last()) + segs.last()
    }
}

/// An ASCII whitespace character, the kind the engine pads segments with.
pub open spec fn is_space(c: char) -> bool {
    c == ' ' || c == '\t' || c == '\n' || c == '\r'
}

/// The first index at or after `i` holding a non-space character, or the
/// length when there is none.
pub open spec fn first_non_space(s: Seq<char>, i: int) -> int
    decreases s.len() - i,
{
    if i >= s.len() || !is_space(s[i]) {
        i
    } else {
        first_non_space(s, i + 1)
    }
}

/// The end of the text once trailing spaces before `j` are dropped: the
/// least prefix length at or below `j` whose last character is not a space.
pub open spec fn last_non_space_end(s: Seq<char>, j: int) -> int
    decreases j,
{
    if j <= 0 || !is_space(s[j - 1]) {
        j
    } else {
        last_non_space_end(s, j - 1)
    }
}

/// Dropping trailing spaces never lengthens the text.
proof fn lemma_last_non_space_le(s: Seq<char>, j: int)
    requires
        0 <= j,
    ensures
        0 <= last_non_space_end(s, j) <= j,
    decreases j,
{
    if !(j <= 0 || !is_space(s[j - 1])) {
        lemma_last_non_space_le(s, j - 1);
    }
}

/// The text with leading and trailing whitespace removed.
pub open spec fn trim_spec(s: Seq<char>) -> Seq<char> {
    let a = first_non_space(s, 0);
    let e = last_non_space_end(s, s.len() as int);
    if a >= e {
        Seq::empty()
    } else {
        s.subrange(a, e)
    }
}

/// Tests for an ASCII whitespace character.
pub fn is_space_exec(c: char) -> (r: bool)
    ensures
        r == is_space(c),
{
    c == ' ' || c == '\t' || c == '\n' || c == '\r'
}

/// Joins the recognition segments in order.
pub fn concat_segments(segments: &Vec<String>) -> (r: String)
    ensures
        r@ == concat_spec(seq_views(segments@)),
{
    let mut s = String::new();
    let mut i: usize = 0;
    while i < segments.len()
        invariant
            i <= segments@.len(),
            s@ == concat_spec(seq_views(segments@).take(i as int)),
        decreases segments@.len() - i,
    {
        proof {
            let views = seq_views(segments@);
            assert(views.take(i + 1).drop_last() =~= views.take(i as int));
            assert(views.take(i + 1).last() == segments@[i as int]@);
        }
        s.append(segments[i].as_str());
        i = i + 1;
    }
    proof {
        assert(seq_views(segments@).take(segments@.len() as int) =~= seq_views(segments@));
    }
    s
}

/// Removes surrounding whitespace.
pub fn trim_whitespace(s: &str) -> (r: String)
    ensures
        r@ == trim_spec(s@),
{
    let n = s.unicode_len();
    let mut a: usize = 0;
    while a < n && is_space_exec(s.get_char(a))
        invariant
            a <= n,
            n == s@.len(),
            first_non_space(s@, 0) == first_non_space(s@, a as int),
        decreases n - a,
    {
        a = a + 1;
    }
    let mut e: usize = n;
    while e > a && is_space_exec(s.get_char(e - 1))
        invariant
            a <= e <= n,
            n == s@.len(),
            a == n || (a < n && !is_space(s@[a as int])),
            first_non_space(s@, 0) == first_non_space(s@, a as int),
            last_non_space_end(s@, n as int) == last_non_space_end(s@, e as int),
        decreases e,
    {
        e = e - 1;
    }
    if a >= e {
        proof {
            assert(first_non_space(s@, a as int) == a);
            lemma_last_non_space_le(s@, e as int);
        }
        String::new()
    } else {
        let piece = s.substring_char(a, e);
        proof {
            assert(first_non_space(s@, a as int) == a);
            assert(last_non_space_end(s@, e as int) == e);
        }
        String::from_str(piece)
    }
}

/// The whole post-processing of a transcription: the segments joined in
/// order, then trimmed of surrounding whitespace.
pub fn finish_transcription(segments: &Vec<String>) -> (r: String)
    ensures
        r@ == trim_spec(concat_spec(seq_views(segments@))),
{
    let joined = concat_segments(segments);
    trim_whitespace(joined.as_str())
}

} // verus!
