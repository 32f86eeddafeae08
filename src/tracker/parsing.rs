//! Splitting element sets (TLEs) into their lines.
use vstd::prelude::*;

use crate::text::{chars_of, string_of, trim, trim_chars};
use crate::tracker::error::TrackerError;

verus! {

/// The lines of `s`, split at each line feed (the last one may be empty).
pub open spec fn split_lines(s: Seq<char>) -> Seq<Seq<char>>
    decreases s.len(),
{
    if s.len() == 0 {
        seq![Seq::<char>::empty()]
    } else {
        let prev = split_lines(s.drop_last());
        if s.last() == '\n' {
            prev.push(Seq::empty())
        } else {
            prev.update(prev.len() - 1, prev.last().push(s.last()))
        }
    }
}

/// The trimmed lines that are not blank, in order.
pub open spec fn nonblank(lines: Seq<Seq<char>>) -> Seq<Seq<char>>
    decreases lines.len(),
{
    if lines.len() == 0 {
        Seq::empty()
    } else {
        let r = nonblank(lines.drop_last());
        if trim(lines.last()).len() > 0 {
            r.push(trim(lines.last()))
        } else {
            r
        }
    }
}

/// The non-blank lines of a text, trimmed.
pub open spec fn text_lines(s: Seq<char>) -> Seq<Seq<char>> {
    nonblank(split_lines(s))
}

/// Views of the characters of each line.
pub open spec fn line_views(v: Seq<Vec<char>>) -> Seq<Seq<char>> {
    Seq::new(v.len(), |i: int| v[i]@)
}

/// The non-blank lines of `s`, trimmed, as characters.
pub fn nonblank_line_chars(s: &str) -> (r: Vec<Vec<char>>)
    ensures
        line_views(r@) == text_lines(s@),
{
    let cs = chars_of(s);
    let n = cs.len();
    let mut out: Vec<Vec<char>> = Vec::new();
    let mut cur: Vec<char> = Vec::new();
    let ghost mut done: Seq<Seq<char>> = Seq::empty();
    let mut i: usize = 0;
    assert(cs@.subrange(0, 0) =~= Seq::<char>::empty());
    assert(line_views(out@) =~= Seq::<Seq<char>>::empty());
    assert(split_lines(Seq::<char>::empty()) =~= done.push(cur@));
    while i < n
        invariant
            n == cs@.len(),
            i <= n,
            split_lines(cs@.subrange(0, i as int)) == done.push(cur@),
            line_views(out@) == nonblank(done),
        decreases n - i,
    {
        let c = cs[i];
        assert(cs@.subrange(0, i + 1).drop_last() =~= cs@.subrange(0, i as int));
        if c == '\n' {
            let t = trim_chars(&cur);
            let ghost old_out = line_views(out@);
            assert(done.push(cur@).drop_last() =~= done);
            if t.len() > 0 {
                out.push(t);
                assert(line_views(out@) =~= old_out.push(t@));
            }
            proof {
                done = done.push(cur@);
            }
            cur = Vec::new();
            assert(split_lines(cs@.subrange(0, i + 1)) =~= done.push(cur@));
        } else {
            let ghost old_cur = cur@;
            cur.push(c);
            assert(split_lines(cs@.subrange(0, i + 1)) =~= done.push(cur@));
        }
        i += 1;
    }
    assert(cs@.subrange(0, n as int) =~= cs@);
    let t = trim_chars(&cur);
    let ghost old_out = line_views(out@);
    assert(done.push(cur@).drop_last() =~= done);
    if t.len() > 0 {
        out.push(t);
        assert(line_views(out@) =~= old_out.push(t@));
    }
    out
}

/// Splits an element set into its optional name line and its two element lines.
pub fn parse_tle_lines(tle: &str) -> (r: Result<(Option<String>, String, String), TrackerError>)
    ensures
        match r {
            Ok((name, l1, l2)) => {
                let ls = text_lines(tle@);
                (ls.len() == 2 && name is None && l1@ == ls[0] && l2@ == ls[1]) || (ls.len() == 3
                    && name is Some && name->Some_0@ == ls[0] && l1@ == ls[1] && l2@ == ls[2])
            },
            Err(e) => e is InvalidTleFormat && text_lines(tle@).len() != 2 && text_lines(tle@).len()
                != 3,
        },
{
    let lines = nonblank_line_chars(tle);
    assert(lines@.len() == line_views(lines@).len());
    if lines.len() == 2 {
        assert(line_views(lines@)[0] == lines@[0]@);
        assert(line_views(lines@)[1] == lines@[1]@);
        Ok((None, string_of(&lines[0]), string_of(&lines[1])))
    } else if lines.len() == 3 {
        assert(line_views(lines@)[0] == lines@[0]@);
        assert(line_views(lines@)[1] == lines@[1]@);
        assert(line_views(lines@)[2] == lines@[2]@);
        Ok((Some(string_of(&lines[0])), string_of(&lines[1]), string_of(&lines[2])))
    } else {
        Err(TrackerError::InvalidTleFormat)
    }
}

} // verus!
