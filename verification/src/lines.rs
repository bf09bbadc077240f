//! Splitting text into lines.

use crate::text::chars_of;
use vstd::prelude::*;

verus! {

/// Where the first line of `s` ends: the index of its first line feed, or the
/// length of `s` where it holds none.
pub open spec fn line_end(s: Seq<char>) -> nat
    decreases s.len(),
{
    if s.len() == 0 || s[0] == '\n' {
        0
    } else {
        1 + line_end(s.drop_first())
    }
}

/// `line` without the carriage return that a line feed followed.
pub open spec fn without_cr(line: Seq<char>) -> Seq<char> {
    if line.len() > 0 && line.last() == '\r' {
        line.drop_last()
    } else {
        line
    }
}

/// The lines of `s`. A line ends at a line feed, or at a carriage return
/// directly followed by one; neither is part of the line. What follows the
/// last line feed is a line too, unless it is empty.
pub open spec fn lines_of(s: Seq<char>) -> Seq<Seq<char>>
    decreases s.len(),
{
    if s.len() == 0 {
        Seq::empty()
    } else {
        let n = line_end(s);
        if n >= s.len() {
            seq![s]
        } else {
            seq![without_cr(s.take(n as int))] + lines_of(s.skip(n as int + 1))
        }
    }
}

/// `line_end` is the one position up to which no line feed occurs and at
/// which the text ends or a line feed stands.
pub proof fn lemma_line_end(s: Seq<char>, k: int)
    requires
        0 <= k <= s.len(),
        forall|j: int| 0 <= j < k ==> s[j] != '\n',
        k == s.len() || s[k] == '\n',
    ensures
        line_end(s) == k,
    decreases k,
{
    if k > 0 {
        let t = s.drop_first();
        assert forall|j: int| 0 <= j < k - 1 implies t[j] != '\n' by {
            assert(t[j] == s[j + 1]);
        }
        lemma_line_end(t, k - 1);
    }
}

/// Splits `text` into its lines.
pub fn split_lines(text: &str) -> (r: Vec<String>)
    ensures
        r.deep_view() == lines_of(text@),
{
    let chars = chars_of(text);
    let n = chars.len();
    let mut out: Vec<String> = Vec::new();
    let mut start: usize = 0;
    let mut i: usize = 0;
    assert(text@.skip(0) == text@);
    while i < n
        invariant
            chars@ == text@,
            n == chars.len(),
            0 <= start <= i <= n,
            forall|j: int| start <= j < i ==> chars[j] != '\n',
            lines_of(text@) == out.deep_view() + lines_of(text@.skip(start as int)),
        decreases n - i,
    {
        if chars[i] == '\n' {
            let end = if i > start && chars[i - 1] == '\r' {
                i - 1
            } else {
                i
            };
            let line = text.substring_char(start, end).to_owned();
            proof {
                let rest = text@.skip(start as int);
                lemma_line_end(rest, i - start);
                assert(rest.take(i - start) == text@.subrange(start as int, i as int));
                assert(without_cr(rest.take(i - start)) == line@);
                assert(rest.skip(i - start + 1) == text@.skip(i + 1));
                assert(out.deep_view().push(line@) + lines_of(text@.skip(i + 1))
                    == out.deep_view() + lines_of(rest));
            }
            let ghost before = out.deep_view();
            out.push(line);
            assert(out.deep_view() == before.push(line@));
            start = i + 1;
        }
        i += 1;
    }
    if start < n {
        let line = text.substring_char(start, n).to_owned();
        proof {
            let rest = text@.skip(start as int);
            lemma_line_end(rest, n - start);
            assert(line@ == rest);
            assert(lines_of(rest) == seq![rest]);
        }
        let ghost before = out.deep_view();
        out.push(line);
        assert(out.deep_view() == before.push(line@));
    } else {
        assert(lines_of(text@.skip(start as int)) == Seq::<Seq<char>>::empty());
    }
    out
}

} // verus!
