//! The line buffer: an ordered, read-only sequence of text lines.
//!
//! A buffer is created empty or loaded once from the full text of a source;
//! loading splits the text at line terminators (`"\n"` or `"\r\n"`),
//! discarding the terminator characters. After that the buffer only answers
//! lookups: there is no mutation interface.

use vstd::prelude::*;
use vstd::string::*;

verus! {

/// Index of the first `'\n'` in `s`, or `s.len()` if there is none.
pub open spec fn first_newline(s: Seq<char>) -> int
    decreases s.len(),
{
    if s.len() <= 0 {
        0
    } else if s[0] == '\n' {
        0
    } else {
        1 + first_newline(s.subrange(1, s.len() as int))
    }
}

/// The content of one raw line with a terminating carriage return removed:
/// only a `'\r'` that stood immediately before the `'\n'` is dropped.
pub open spec fn strip_cr(line: Seq<char>) -> Seq<char> {
    if line.len() > 0 && line[line.len() - 1] == '\r' {
        line.subrange(0, line.len() - 1)
    } else {
        line
    }
}

/// The document rows of a character stream: split at each `'\n'`, dropping
/// the `'\n'` and a `'\r'` immediately before it. Text after the last
/// terminator still forms a row, and a terminator at the very end adds no
/// empty row.
pub open spec fn spec_lines(s: Seq<char>) -> Seq<Seq<char>>
    decreases s.len(),
    when s.len() >= 0
    via spec_lines_decreases
{
    if s.len() == 0 {
        Seq::empty()
    } else {
        let i = first_newline(s);
        if i == s.len() {
            seq![s]
        } else {
            seq![strip_cr(s.subrange(0, i))] + spec_lines(s.subrange(i + 1, s.len() as int))
        }
    }
}

#[via_fn]
proof fn spec_lines_decreases(s: Seq<char>) {
    lemma_first_newline_bounds(s);
}

/// `first_newline` points into the sequence (or just past it), at a `'\n'`
/// when one exists, and nothing before it is a `'\n'`.
pub proof fn lemma_first_newline_bounds(s: Seq<char>)
    ensures
        0 <= first_newline(s) <= s.len(),
        first_newline(s) < s.len() ==> s[first_newline(s)] == '\n',
        forall|j: int| 0 <= j < first_newline(s) ==> s[j] != '\n',
    decreases s.len(),
{
    if s.len() == 0 {
    } else if s[0] == '\n' {
    } else {
        let sub = s.subrange(1, s.len() as int);
        lemma_first_newline_bounds(sub);
        assert forall|j: int| 0 <= j < first_newline(s) implies s[j] != '\n' by {
            if j >= 1 {
                assert(s[j] == sub[j - 1]);
            }
        }
    }
}

/// The scan position that sees no `'\n'` strictly before it and a `'\n'`
/// (or the end) at it is exactly `first_newline`.
pub proof fn lemma_first_newline_at(s: Seq<char>, k: int)
    requires
        0 <= k <= s.len(),
        forall|j: int| 0 <= j < k ==> s[j] != '\n',
        k < s.len() ==> s[k] == '\n',
    ensures
        first_newline(s) == k,
    decreases s.len(),
{
    if s.len() == 0 {
    } else if s[0] == '\n' {
        assert(k == 0);
    } else {
        assert(s[0] != '\n');
        assert(k >= 1);
        let sub = s.subrange(1, s.len() as int);
        assert forall|j: int| 0 <= j < k - 1 implies sub[j] != '\n' by {
            assert(sub[j] == s[j + 1]);
        }
        assert(k - 1 < sub.len() ==> sub[k - 1] == s[k]);
        lemma_first_newline_at(sub, k - 1);
    }
}

/// Splitting distributes over concatenation at a terminator: when `a` is
/// empty or ends in `'\n'`, the rows of `a + b` are the rows of `a`
/// followed by the rows of `b`.
pub proof fn lemma_lines_append(a: Seq<char>, b: Seq<char>)
    requires
        a.len() == 0 || a[a.len() - 1] == '\n',
    ensures
        spec_lines(a + b) == spec_lines(a) + spec_lines(b),
    decreases a.len(),
{
    if a.len() == 0 {
        assert(a + b =~= b);
        assert(spec_lines(a) + spec_lines(b) =~= spec_lines(b));
    } else {
        lemma_first_newline_bounds(a);
        let i = first_newline(a);
        assert(i < a.len()) by {
            if i == a.len() {
                assert(a[a.len() - 1] != '\n');
            }
        }
        let ab = a + b;
        assert forall|j: int| 0 <= j < i implies ab[j] != '\n' by {
            assert(ab[j] == a[j]);
        }
        assert(ab[i] == a[i]);
        lemma_first_newline_at(ab, i);
        assert(ab.subrange(0, i) =~= a.subrange(0, i));
        let a2 = a.subrange(i + 1, a.len() as int);
        assert(ab.subrange(i + 1, ab.len() as int) =~= a2 + b);
        if a2.len() > 0 {
            assert(a2[a2.len() - 1] == a[a.len() - 1]);
        }
        lemma_lines_append(a2, b);
        assert(spec_lines(ab) =~= spec_lines(a) + spec_lines(b));
    }
}

/// A nonempty stream without a `'\n'` is a single row, kept verbatim.
pub proof fn lemma_lines_single(s: Seq<char>)
    requires
        s.len() > 0,
        forall|j: int| 0 <= j < s.len() ==> s[j] != '\n',
    ensures
        spec_lines(s) == seq![s],
{
    lemma_first_newline_at(s, s.len() as int);
}

/// A stream that is one terminated line — no `'\n'` except at the very
/// end — is the single row it carries, with the terminator stripped.
pub proof fn lemma_lines_terminated(s: Seq<char>)
    requires
        s.len() > 0,
        s[s.len() - 1] == '\n',
        forall|j: int| 0 <= j < s.len() - 1 ==> s[j] != '\n',
    ensures
        spec_lines(s) == seq![strip_cr(s.subrange(0, s.len() - 1))],
{
    lemma_first_newline_at(s, s.len() - 1);
    let rest = s.subrange(s.len() as int, s.len() as int);
    assert(rest =~= Seq::<char>::empty());
    assert(rest.len() == 0);
    assert(spec_lines(rest) =~= Seq::<Seq<char>>::empty());
    assert(spec_lines(s) == seq![strip_cr(s.subrange(0, s.len() - 1))] + spec_lines(rest));
    assert(spec_lines(s) =~= seq![strip_cr(s.subrange(0, s.len() - 1))]);
}

/// An in-memory document: line `i` of the vector is document row `i`.
pub struct Buffer {
    pub lines: Vec<String>,
}

impl Buffer {
    /// The mathematical contents: one character sequence per line.
    pub open spec fn view(&self) -> Seq<Seq<char>> {
        self.lines.deep_view()
    }

    /// Split the full text of a source into a buffer, one row per line,
    /// discarding the `"\n"` / `"\r\n"` terminators.
    pub fn from_contents(contents: &str) -> (b: Buffer)
        ensures
            b.view() == spec_lines(contents@),
    {
        let n = contents.unicode_len();
        let mut lines: Vec<String> = Vec::new();
        let mut start: usize = 0;
        let mut i: usize = 0;
        proof {
            assert(contents@.subrange(0, 0) =~= Seq::<char>::empty());
            assert(lines.deep_view() =~= spec_lines(contents@.subrange(0, 0)));
        }
        while i < n
            invariant
                n == contents@.len(),
                0 <= start <= i <= n,
                lines.deep_view() == spec_lines(contents@.subrange(0, start as int)),
                start == 0 || contents@[start - 1] == '\n',
                forall|j: int| start <= j < i ==> contents@[j] != '\n',
            decreases n - i,
        {
            let c = contents.get_char(i);
            if c == '\n' {
                let line_end = if i > start && contents.get_char(i - 1) == '\r' {
                    i - 1
                } else {
                    i
                };
                let line = contents.substring_char(start, line_end).to_owned();
                let ghost old_dv = lines.deep_view();
                lines.push(line);
                proof {
                    let s = contents@;
                    let prefix = s.subrange(0, start as int);
                    let seg = s.subrange(start as int, i + 1);
                    assert(s.subrange(0, i + 1) =~= prefix + seg);
                    assert(seg[seg.len() - 1] == s[i as int]);
                    assert forall|j: int| 0 <= j < seg.len() - 1 implies seg[j] != '\n' by {
                        assert(seg[j] == s[start + j]);
                    }
                    lemma_lines_terminated(seg);
                    lemma_lines_append(prefix, seg);
                    assert(seg.subrange(0, seg.len() - 1) =~= s.subrange(start as int, i as int));
                    assert(strip_cr(s.subrange(start as int, i as int)) =~= line@);
                    assert(lines.deep_view() =~= old_dv.push(line@));
                    assert(lines.deep_view() =~= spec_lines(s.subrange(0, i + 1)));
                }
                start = i + 1;
            }
            i = i + 1;
        }
        if start < n {
            let line = contents.substring_char(start, n).to_owned();
            let ghost old_dv = lines.deep_view();
            lines.push(line);
            proof {
                let s = contents@;
                let prefix = s.subrange(0, start as int);
                let tail = s.subrange(start as int, n as int);
                assert(s =~= prefix + tail);
                assert forall|j: int| 0 <= j < tail.len() implies tail[j] != '\n' by {
                    assert(tail[j] == s[start + j]);
                }
                lemma_lines_single(tail);
                lemma_lines_append(prefix, tail);
                assert(lines.deep_view() =~= old_dv.push(line@));
                assert(lines.deep_view() =~= spec_lines(s));
            }
        } else {
            proof {
                assert(contents@.subrange(0, start as int) =~= contents@);
            }
        }
        Buffer { lines }
    }

    /// The line at document row `index`, or nothing when the row is past
    /// the end of the document.
    pub fn get_line(&self, index: usize) -> (r: Option<&String>)
        ensures
            (match r {
                Some(line) => index < self.view().len() && line@ == self.view()[index as int],
                None => index >= self.view().len(),
            }),
    {
        if index < self.lines.len() {
            Some(&self.lines[index])
        } else {
            None
        }
    }

    /// Whether the buffer holds no lines at all.
    pub fn is_empty(&self) -> (r: bool)
        ensures
            r == (self.view().len() == 0),
    {
        self.lines.len() == 0
    }
}

impl Default for Buffer {
    /// An empty buffer.
    fn default() -> (b: Buffer)
        ensures
            b.view().len() == 0,
    {
        Buffer { lines: Vec::new() }
    }
}

} // verus!
