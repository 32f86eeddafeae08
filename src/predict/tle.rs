//! Files holding several element sets.
use vstd::prelude::*;

use crate::text::{begins_with, starts_with, string_of};
use crate::tracker::parsing::{line_views, nonblank_line_chars, text_lines};

verus! {

#[derive(Debug, Clone, PartialEq)]
pub enum PredictError {
    DirectoryNotFound(String),
    FileRead(String),
    InvalidTle { file: String, message: String },
    Propagation(String),
    NoSatellites,
}

/// A satellite known from an element set.
#[derive(Debug, Clone, PartialEq)]
pub struct SatelliteInfo {
    pub name: String,
    pub norad_id: u32,
    pub tle_source: String,
}

pub open spec fn is_line1(l: Seq<char>) -> bool {
    starts_with(l, seq!['1', ' '])
}

pub open spec fn is_line2(l: Seq<char>) -> bool {
    starts_with(l, seq!['2', ' '])
}

/// The element sets among the lines, read from the top: two element lines, or a name and two
/// element lines; any other line is skipped.
pub open spec fn tle_groups(ls: Seq<Seq<char>>) -> Seq<(Option<Seq<char>>, Seq<char>, Seq<char>)>
    decreases ls.len(),
{
    if ls.len() == 0 {
        Seq::empty()
    } else if ls.len() >= 2 && is_line1(ls[0]) && is_line2(ls[1]) {
        seq![(None, ls[0], ls[1])] + tle_groups(ls.subrange(2, ls.len() as int))
    } else if ls.len() >= 3 && is_line1(ls[1]) && is_line2(ls[2]) {
        seq![(Some(ls[0]), ls[1], ls[2])] + tle_groups(ls.subrange(3, ls.len() as int))
    } else {
        tle_groups(ls.drop_first())
    }
}

pub open spec fn group_view(g: (Option<String>, String, String)) -> (Option<Seq<char>>, Seq<char>, Seq<char>) {
    (
        match g.0 {
            Some(n) => Some(n@),
            None => None,
        },
        g.1@,
        g.2@,
    )
}

/// The element sets in a text holding several of them.
pub fn parse_multi_tle(content: &str) -> (r: Vec<(Option<String>, String, String)>)
    ensures
        r@.map_values(|g: (Option<String>, String, String)| group_view(g)) == tle_groups(text_lines(content@)),
{
    let lines = nonblank_line_chars(content);
    let ghost ls = line_views(lines@);
    let n = lines.len();
    let mut out: Vec<(Option<String>, String, String)> = Vec::new();
    let mut i: usize = 0;
    assert(ls.subrange(0, n as int) =~= ls);
    assert(out@.map_values(|g: (Option<String>, String, String)| group_view(g)) =~= Seq::empty());
    while i < n
        invariant
            n == lines@.len(),
            ls == line_views(lines@),
            i <= n,
            out@.map_values(|g: (Option<String>, String, String)| group_view(g)) + tle_groups(ls.subrange(i as int, n as int))
                == tle_groups(ls),
        decreases n - i,
    {
        let ghost rest = ls.subrange(i as int, n as int);
        let ghost before = out@.map_values(|g: (Option<String>, String, String)| group_view(g));
        if i + 1 < n && begins_with(&lines[i], "1 ") && begins_with(&lines[i + 1], "2 ") {
            proof {
                reveal_strlit("1 ");
                reveal_strlit("2 ");
                assert("1 "@ =~= seq!['1', ' ']);
                assert("2 "@ =~= seq!['2', ' ']);
                assert(rest[0] == lines@[i as int]@);
                assert(rest[1] == lines@[i + 1]@);
                assert(rest.subrange(2, rest.len() as int) =~= ls.subrange(i + 2, n as int));
            }
            let g = (None, string_of(&lines[i]), string_of(&lines[i + 1]));
            out.push(g);
            assert(out@.map_values(|g: (Option<String>, String, String)| group_view(g)) =~= before.push(group_view(g)));
            i += 2;
        } else if n - i > 2 && begins_with(&lines[i + 1], "1 ") && begins_with(&lines[i + 2], "2 ") {
            proof {
                reveal_strlit("1 ");
                reveal_strlit("2 ");
                assert("1 "@ =~= seq!['1', ' ']);
                assert("2 "@ =~= seq!['2', ' ']);
                assert(rest[0] == lines@[i as int]@);
                assert(rest[1] == lines@[i + 1]@);
                assert(rest[2] == lines@[i + 2]@);
                assert(rest.subrange(3, rest.len() as int) =~= ls.subrange(i + 3, n as int));
            }
            let g = (Some(string_of(&lines[i])), string_of(&lines[i + 1]), string_of(&lines[i + 2]));
            out.push(g);
            assert(out@.map_values(|g: (Option<String>, String, String)| group_view(g)) =~= before.push(group_view(g)));
            i += 3;
        } else {
            proof {
                reveal_strlit("1 ");
                reveal_strlit("2 ");
                assert("1 "@ =~= seq!['1', ' ']);
                assert("2 "@ =~= seq!['2', ' ']);
                if i + 1 < n {
                    assert(rest[0] == lines@[i as int]@);
                    assert(rest[1] == lines@[i + 1]@);
                }
                if i + 2 < n {
                    assert(rest[2] == lines@[i + 2]@);
                }
                assert(rest.drop_first() =~= ls.subrange(i + 1, n as int));
            }
            i += 1;
        }
    }
    assert(ls.subrange(n as int, n as int) =~= Seq::<Seq<char>>::empty());
    assert(out@.map_values(|g: (Option<String>, String, String)| group_view(g)) + Seq::<(Option<Seq<char>>, Seq<char>, Seq<char>)>::empty() =~= out@.map_values(|g: (Option<String>, String, String)| group_view(g)));
    out
}

} // verus!
