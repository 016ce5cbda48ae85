//! Splitting text into lines the way a buffered line reader does.

use vstd::prelude::*;
use vstd::std_specs::iter::IteratorSpec;

verus! {

broadcast use vstd::string::next_postcondition, vstd::string::axiom_spec_iter;

/// Number of characters before the first line feed of `s` (all of `s` when it has none).
pub open spec fn line_end(s: Seq<char>) -> nat
    decreases s.len(),
{
    if s.len() == 0 {
        0
    } else if s[0] == '\n' {
        0
    } else {
        1 + line_end(s.drop_first())
    }
}

/// A line that was ended by a line feed loses one carriage return before it.
pub open spec fn trim_cr(l: Seq<char>) -> Seq<char> {
    if l.len() > 0 && l.last() == '\r' {
        l.drop_last()
    } else {
        l
    }
}

/// The lines of `s`: each line feed ends a line (a `"\r\n"` ending is dropped
/// whole); a last line without a line feed counts only when it is not empty.
pub open spec fn lines_of(s: Seq<char>) -> Seq<Seq<char>>
    decreases s.len(),
{
    if s.len() == 0 {
        seq![]
    } else if line_end(s) < s.len() {
        seq![trim_cr(s.take(line_end(s) as int))] + lines_of(s.skip(line_end(s) + 1int))
    } else {
        seq![s]
    }
}

/// What each string of `v` holds.
pub open spec fn line_views(v: Seq<String>) -> Seq<Seq<char>> {
    v.map_values(|l: String| l@)
}

/// `m` characters free of line feeds, then a line feed or the end: the line ends at `m`.
pub proof fn lemma_line_end(t: Seq<char>, m: int)
    requires
        0 <= m <= t.len(),
        forall|j: int| 0 <= j < m ==> t[j] != '\n',
        m == t.len() || t[m] == '\n',
    ensures
        line_end(t) == m,
    decreases m,
{
    if m > 0 {
        lemma_line_end(t.drop_first(), m - 1);
    }
}

/// The text made of each line of `ls` followed by a line feed.
pub open spec fn terminated(ls: Seq<Seq<char>>) -> Seq<char>
    decreases ls.len(),
{
    if ls.len() == 0 {
        seq![]
    } else {
        ls[0] + seq!['\n'] + terminated(ls.drop_first())
    }
}

/// A line that a reader hands back unchanged: no line feed in it, and no
/// carriage return at its end (that one would be read as part of a `"\r\n"`).
pub open spec fn plain_line(l: Seq<char>) -> bool {
    &&& forall|j: int| 0 <= j < l.len() ==> l[j] != '\n'
    &&& !(l.len() > 0 && l.last() == '\r')
}

/// Text of `n` lines, each ended by a line feed, splits into exactly those
/// `n` lines, in the order in which they stand.
pub proof fn lemma_terminated_lines(ls: Seq<Seq<char>>)
    requires
        forall|i: int| 0 <= i < ls.len() ==> plain_line(#[trigger] ls[i]),
    ensures
        lines_of(terminated(ls)) == ls,
        lines_of(terminated(ls)).len() == ls.len(),
    decreases ls.len(),
{
    if ls.len() > 0 {
        let s = terminated(ls);
        let l = ls[0];
        let rest = ls.drop_first();
        assert(plain_line(ls[0]));
        assert forall|i: int| 0 <= i < rest.len() implies plain_line(#[trigger] rest[i]) by {
            assert(rest[i] == ls[i + 1]);
        }
        lemma_terminated_lines(rest);
        assert(s[l.len() as int] == '\n');
        lemma_line_end(s, l.len() as int);
        assert(s.take(l.len() as int) =~= l);
        assert(s.skip(l.len() + 1int) =~= terminated(rest));
        assert(lines_of(s) =~= ls);
    }
}

/// Text splits into no lines exactly when it is empty.
pub proof fn lemma_no_lines_iff_empty(s: Seq<char>)
    ensures
        lines_of(s).len() == 0 <==> s.len() == 0,
{
    if s.len() > 0 {
        if line_end(s) < s.len() {
            assert(lines_of(s) == seq![trim_cr(s.take(line_end(s) as int))] + lines_of(
                s.skip(line_end(s) + 1int),
            ));
        }
    }
}

/// Relies on `String::push`: one character is appended.
#[verifier::external_body]
fn push_char(s: &mut String, c: char)
    ensures
        final(s)@ == old(s)@.push(c),
{
    s.push(c)
}

/// Splits `text` into its lines, without their `"\n"` or `"\r\n"` endings.
pub fn split_lines(text: &str) -> (r: Vec<String>)
    ensures
        line_views(r@) == lines_of(text@),
{
    let ghost s = text@;
    let mut chars = text.chars();
    let mut out: Vec<String> = Vec::new();
    let mut cur = String::new();
    // A carriage return is held back until the next character shows whether
    // it belongs to a "\r\n" ending.
    let mut pending_cr = false;
    let mut in_line = false;
    let ghost mut start: int = 0;
    let ghost mut k: int = 0;
    loop
        invariant
            s == text@,
            0 <= start <= k <= s.len(),
            chars.obeys_prophetic_iter_laws(),
            chars.remaining() == s.skip(k),
            forall|j: int| start <= j < k ==> s[j] != '\n',
            cur@ + (if pending_cr { seq!['\r'] } else { seq![] }) == s.subrange(start, k),
            pending_cr <==> (start < k && s[k - 1] == '\r'),
            in_line <==> start < k,
            line_views(out@) + lines_of(s.skip(start)) == lines_of(s),
        decreases s.len() - k,
    {
        let next = chars.next();
        match next {
            None => {
                if pending_cr {
                    push_char(&mut cur, '\r');
                }
                let ghost before = out@;
                proof {
                    let t = s.skip(start);
                    assert(k == s.len());
                    assert(cur@ =~= t);
                    lemma_line_end(t, t.len() as int);
                }
                if in_line {
                    out.push(cur);
                    proof {
                        assert(line_views(out@) =~= line_views(before)
                            + lines_of(s.skip(start)));
                    }
                } else {
                    assert(s.skip(start).len() == 0);
                    assert(lines_of(s.skip(start)) =~= Seq::<Seq<char>>::empty());
                    assert(line_views(out@) =~= line_views(before)
                        + lines_of(s.skip(start)));
                }
                return out;
            },
            Some(c) => {
                assert(c == s[k] && chars.remaining() =~= s.skip(k + 1));
                assert(s.subrange(start, k + 1) =~= s.subrange(start, k).push(c));
                if c == '\n' {
                    let ghost before = out@;
                    proof {
                        let t = s.skip(start);
                        let l = s.subrange(start, k);
                        if pending_cr {
                            assert(cur@ =~= l.drop_last());
                        } else {
                            assert(cur@ =~= l);
                        }
                        assert(cur@ == trim_cr(l));
                        lemma_line_end(t, k - start);
                        assert(t.take(k - start) == s.subrange(start, k));
                        assert(s.skip(start).skip(k - start + 1) == s.skip(k + 1));
                    }
                    out.push(cur);
                    proof {
                        let t = s.skip(start);
                        assert(line_views(out@) =~= line_views(before)
                            + seq![trim_cr(t.take(k - start))]);
                    }
                    cur = String::new();
                    pending_cr = false;
                    proof {
                        start = k + 1;
                    }
                } else if c == '\r' {
                    if pending_cr {
                        push_char(&mut cur, '\r');
                    }
                    pending_cr = true;
                } else {
                    if pending_cr {
                        push_char(&mut cur, '\r');
                    }
                    push_char(&mut cur, c);
                    pending_cr = false;
                }
                in_line = c != '\n';
                proof {
                    k = k + 1;
                }
            },
        }
    }
}

} // verus!
