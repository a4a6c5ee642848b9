//! The document outline: heading extraction from markdown text.
//!
//! The text is split into lines; outside fenced code blocks, a line whose
//! trimmed form starts with one to four hash marks followed by non-empty
//! text is a heading. Fence lines toggle the code state and are never
//! headings themselves.

use crate::text::push_char;
use crate::transcript::{trim_spec, trim_whitespace};
use vstd::prelude::*;
use vstd::string::{StrSliceExecFns, StringExecFns};

verus! {

/// One extracted heading.
pub struct Heading {
    /// The heading depth: how many hash marks introduced it, one to four.
    pub level: u8,
    /// The heading text, trimmed.
    pub text: String,
    /// The heading's position in the document outline, counted from zero.
    pub index: usize,
}

/// A line with its single line-ending carriage return removed.
pub open spec fn strip_cr(l: Seq<char>) -> Seq<char> {
    if l.len() > 0 && l.last() == '\r' {
        l.drop_last()
    } else {
        l
    }
}

/// The lines of the text from position `i` on, with `cur` the partial
/// line read so far: split at every line feed, one carriage return
/// stripped before each, the final line ending optional.
pub open spec fn split_lines_from(s: Seq<char>, i: int, cur: Seq<char>) -> Seq<Seq<char>>
    decreases s.len() - i,
{
    if i < 0 || i >= s.len() {
        if cur.len() == 0 {
            Seq::empty()
        } else {
            seq![cur]
        }
    } else if s[i] == '\n' {
        seq![strip_cr(cur)] + split_lines_from(s, i + 1, Seq::empty())
    } else {
        split_lines_from(s, i + 1, cur.push(s[i]))
    }
}

/// The lines of the whole text.
pub open spec fn split_lines_spec(s: Seq<char>) -> Seq<Seq<char>> {
    split_lines_from(s, 0, Seq::empty())
}

/// The first index at or after `i` not holding a hash mark.
pub open spec fn first_non_hash(t: Seq<char>, i: int) -> int
    decreases t.len() - i,
{
    if i >= t.len() || t[i] != '#' {
        i
    } else {
        first_non_hash(t, i + 1)
    }
}

/// Whether a trimmed line opens or closes a fenced code block.
pub open spec fn is_fence(t: Seq<char>) -> bool {
    t.len() >= 3 && t.take(3) == "```"@
}

/// The heading a trimmed line yields, if any: its hash-mark depth must be
/// one to four, and the text after the marks must be non-empty once
/// trimmed.
pub open spec fn line_heading(t: Seq<char>) -> Option<(int, Seq<char>)> {
    let lv = first_non_hash(t, 0);
    if 1 <= lv <= 4 && t.len() > lv {
        let text = trim_spec(t.skip(lv));
        if text.len() > 0 {
            Option::Some((lv, text))
        } else {
            Option::None
        }
    } else {
        Option::None
    }
}

/// The headings of the lines from `i` on, given the fenced-code state.
pub open spec fn headings_from(lines: Seq<Seq<char>>, i: int, in_code: bool) -> Seq<
    (int, Seq<char>),
>
    decreases lines.len() - i,
{
    if i < 0 || i >= lines.len() {
        Seq::empty()
    } else {
        let t = trim_spec(lines[i]);
        if is_fence(t) {
            headings_from(lines, i + 1, !in_code)
        } else if in_code {
            headings_from(lines, i + 1, in_code)
        } else {
            match line_heading(t) {
                Option::Some(h) => seq![h] + headings_from(lines, i + 1, in_code),
                Option::None => headings_from(lines, i + 1, in_code),
            }
        }
    }
}

/// The outline of a whole text.
pub open spec fn headings_spec(s: Seq<char>) -> Seq<(int, Seq<char>)> {
    headings_from(split_lines_spec(s), 0, false)
}

/// The views of a line list.
pub open spec fn line_views(lines: Seq<String>) -> Seq<Seq<char>> {
    lines.map_values(|l: String| l@)
}

/// Mapping to views commutes with appending a line.
proof fn lemma_line_views_push(lines: Seq<String>, l: String)
    ensures
        line_views(lines.push(l)) =~= line_views(lines).push(l@),
{
}

/// Removes one trailing carriage return.
fn strip_cr_exec(l: &String) -> (r: String)
    ensures
        r@ == strip_cr(l@),
{
    let n = l.as_str().unicode_len();
    if n > 0 && l.as_str().get_char(n - 1) == '\r' {
        let piece = l.as_str().substring_char(0, n - 1);
        proof {
            assert(l@.subrange(0, n - 1) =~= l@.drop_last());
        }
        String::from_str(piece)
    } else {
        let r = l.clone();
        r
    }
}

/// Splits the text into its lines.
pub fn split_lines(s: &str) -> (r: Vec<String>)
    ensures
        line_views(r@) == split_lines_spec(s@),
{
    let n = s.unicode_len();
    let mut lines: Vec<String> = Vec::new();
    let mut cur = String::new();
    let mut i: usize = 0;
    while i < n
        invariant
            i <= n,
            n == s@.len(),
            split_lines_spec(s@) =~= line_views(lines@) + split_lines_from(s@, i as int, cur@),
        decreases n - i,
    {
        let c = s.get_char(i);
        if c == '\n' {
            let ghost lv = line_views(lines@);
            let finished = strip_cr_exec(&cur);
            proof {
                lemma_line_views_push(lines@, finished);
                assert((lv + (seq![strip_cr(cur@)] + split_lines_from(s@, i + 1, Seq::empty())))
                    =~= (lv.push(strip_cr(cur@)) + split_lines_from(s@, i + 1, Seq::empty())));
            }
            lines.push(finished);
            cur = String::new();
        } else {
            push_char(&mut cur, c);
        }
        i = i + 1;
    }
    if cur.as_str().unicode_len() > 0 {
        let ghost lv = line_views(lines@);
        proof {
            lemma_line_views_push(lines@, cur);
            assert((lv + seq![cur@]) =~= lv.push(cur@));
        }
        lines.push(cur);
    } else {
        proof {
            assert(line_views(lines@) + Seq::<Seq<char>>::empty() =~= line_views(lines@));
        }
    }
    lines
}

/// Counts the leading hash marks of a trimmed line.
fn count_hashes(t: &str) -> (r: usize)
    ensures
        r == first_non_hash(t@, 0),
        r <= t@.len(),
{
    let n = t.unicode_len();
    let mut i: usize = 0;
    while i < n && t.get_char(i) == '#'
        invariant
            i <= n,
            n == t@.len(),
            first_non_hash(t@, 0) == first_non_hash(t@, i as int),
        decreases n - i,
    {
        i = i + 1;
    }
    proof {
        assert(first_non_hash(t@, i as int) == i);
    }
    i
}

/// Whether a trimmed line is a code fence.
fn is_fence_exec(t: &str) -> (r: bool)
    ensures
        r == is_fence(t@),
{
    let n = t.unicode_len();
    if n >= 3 && t.get_char(0) == '`' && t.get_char(1) == '`' && t.get_char(2) == '`' {
        proof {
            reveal_strlit("```");
            assert(t@.take(3) =~= "```"@);
        }
        true
    } else {
        proof {
            if n >= 3 {
                reveal_strlit("```");
                if t@.take(3) == "```"@ {
                    assert(t@[0] == t@.take(3)[0]);
                    assert(t@[1] == t@.take(3)[1]);
                    assert(t@[2] == t@.take(3)[2]);
                }
            }
        }
        false
    }
}

/// Extracts the document outline: every heading outside fenced code, in
/// order, each carrying its position in the outline.
pub fn extract_headings(markdown: &str) -> (r: Vec<Heading>)
    ensures
        r@.len() == headings_spec(markdown@).len(),
        forall|k: int|
            0 <= k < r@.len() ==> {
                &&& (#[trigger] r@[k]).level as int == headings_spec(markdown@)[k].0
                &&& r@[k].text@ == headings_spec(markdown@)[k].1
                &&& r@[k].index == k
            },
{
    let lines = split_lines(markdown);
    let ghost hs = headings_spec(markdown@);
    let ghost lvs = line_views(lines@);
    let mut out: Vec<Heading> = Vec::new();
    let mut in_code: bool = false;
    let mut i: usize = 0;
    while i < lines.len()
        invariant
            i <= lines@.len(),
            lvs == line_views(lines@),
            hs == headings_spec(markdown@),
            hs =~= headings_from(lvs, 0, false),
            hs.len() >= out@.len(),
            hs =~= hs.take(out@.len() as int) + headings_from(lvs, i as int, in_code),
            forall|k: int|
                0 <= k < out@.len() ==> {
                    &&& (#[trigger] out@[k]).level as int == hs[k].0
                    &&& out@[k].text@ == hs[k].1
                    &&& out@[k].index == k
                },
        decreases lines@.len() - i,
    {
        let trimmed = trim_whitespace(lines[i].as_str());
        proof {
            assert(lvs[i as int] == lines@[i as int]@);
        }
        if is_fence_exec(trimmed.as_str()) {
            in_code = !in_code;
        } else if !in_code {
            let lv = count_hashes(trimmed.as_str());
            let tn = trimmed.as_str().unicode_len();
            if 1 <= lv && lv <= 4 && tn > lv {
                let tail = trimmed.as_str().substring_char(lv, tn);
                let text = trim_whitespace(tail);
                if text.as_str().unicode_len() > 0 {
                    proof {
                        assert(tail@ =~= trim_spec(lvs[i as int]).skip(lv as int));
                        assert(line_heading(trim_spec(lvs[i as int])) == Option::Some(
                            (lv as int, text@),
                        ));
                        assert(headings_from(lvs, i as int, in_code) =~= seq![(lv as int, text@)]
                            + headings_from(lvs, i + 1, in_code));
                        assert(hs[out@.len() as int] == (lv as int, text@));
                        assert(hs.take(out@.len() as int + 1) =~= hs.take(out@.len() as int).push(
                            (lv as int, text@),
                        ));
                        assert(hs =~= hs.take(out@.len() as int + 1) + headings_from(
                            lvs,
                            i + 1,
                            in_code,
                        ));
                    }
                    let index = out.len();
                    out.push(Heading { level: lv as u8, text, index });
                } else {
                    proof {
                        assert(line_heading(trim_spec(lvs[i as int])) is None);
                    }
                }
            } else {
                proof {
                    assert(line_heading(trim_spec(lvs[i as int])) is None);
                }
            }
        }
        i = i + 1;
    }
    proof {
        assert(headings_from(lvs, lines@.len() as int, in_code) =~= Seq::<(int, Seq<char>)>::empty());
        assert(hs =~= hs.take(out@.len() as int));
        assert(hs.len() == out@.len());
    }
    out
}

} // verus!
