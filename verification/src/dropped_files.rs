//! The list of files dropped onto the window, as the web view hands it over:
//! one path per line.

use vstd::prelude::*;

use crate::lyrics_parser::split_lines;
use crate::text::{chars_of, string_of_range, trim, trim_bounds};

verus! {

broadcast use vstd::string::group_string_axioms;

/// The trimmed lines that are not empty, in order.
pub open spec fn kept_paths(lines: Seq<Seq<char>>) -> Seq<Seq<char>>
    decreases lines.len(),
{
    if lines.len() == 0 {
        Seq::empty()
    } else {
        let r = kept_paths(lines.drop_last());
        let t = trim(lines.last());
        if t.len() > 0 {
            r.push(t)
        } else {
            r
        }
    }
}

/// `out` with the trimmed `line` appended when that is not empty.
fn push_trimmed(out: &mut Vec<String>, line: &Vec<char>)
    ensures
        final(out).deep_view() == (if trim(line@).len() > 0 {
            old(out).deep_view().push(trim(line@))
        } else {
            old(out).deep_view()
        }),
{
    let (lo, hi) = trim_bounds(line, 0, line.len());
    proof {
        assert(line@.subrange(0, line@.len() as int) =~= line@);
    }
    if lo < hi {
        let p = string_of_range(line, lo, hi);
        let ghost before = out.deep_view();
        out.push(p);
        proof {
            assert(out.deep_view() =~= before.push(trim(line@)));
        }
    }
}

/// The paths of a dropped-file list: split at `'\n'`, trimmed, empty lines
/// left out.
pub fn dropped_paths(list: &str) -> (out: Vec<String>)
    ensures
        out.deep_view() == kept_paths(split_lines(list@)),
{
    let s = chars_of(list);
    let mut out: Vec<String> = Vec::new();
    let mut cur: Vec<char> = Vec::new();
    let ghost mut done: Seq<Seq<char>> = Seq::empty();
    let mut i: usize = 0;
    proof {
        assert(s@.take(0) =~= Seq::<char>::empty());
        assert(cur@ =~= Seq::<char>::empty());
        assert(split_lines(s@.take(0)) =~= done.push(cur@));
        assert(out.deep_view() =~= Seq::<Seq<char>>::empty());
    }
    while i < s.len()
        invariant
            i <= s.len(),
            s@ == list@,
            split_lines(s@.take(i as int)) == done.push(cur@),
            out.deep_view() == kept_paths(done),
        decreases s.len() - i,
    {
        let c = s[i];
        proof {
            assert(s@.take(i + 1).drop_last() =~= s@.take(i as int));
            assert(s@.take(i + 1).last() == c);
        }
        if c == '\n' {
            push_trimmed(&mut out, &cur);
            proof {
                assert(done.push(cur@).drop_last() =~= done);
                done = done.push(cur@);
            }
            cur = Vec::new();
            proof {
                assert(cur@ =~= Seq::<char>::empty());
                assert(split_lines(s@.take(i + 1)) == done.push(cur@));
            }
        } else {
            let ghost old_cur = cur@;
            cur.push(c);
            proof {
                assert(done.push(old_cur).update(done.len() as int, old_cur.push(c)) =~= done.push(
                    cur@,
                ));
            }
        }
        i = i + 1;
    }
    push_trimmed(&mut out, &cur);
    proof {
        assert(s@.take(s.len() as int) =~= s@);
        assert(done.push(cur@).drop_last() =~= done);
    }
    out
}

} // verus!
