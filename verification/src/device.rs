//! Output-device names as offered for selection: each name once, in the
//! order the host reports them.

use vstd::prelude::*;

verus! {

/// `names` with later repetitions of a name left out.
pub open spec fn first_occurrences(names: Seq<Seq<char>>) -> Seq<Seq<char>>
    decreases names.len(),
{
    if names.len() == 0 {
        names
    } else {
        let r = first_occurrences(names.drop_last());
        if r.contains(names.last()) {
            r
        } else {
            r.push(names.last())
        }
    }
}

/// Whether `v` holds a name equal to `x`.
fn holds_name(v: &Vec<String>, x: &String) -> (b: bool)
    ensures
        b == v.deep_view().contains(x@),
{
    let mut i: usize = 0;
    while i < v.len()
        invariant
            i <= v.len(),
            forall|k: int| 0 <= k < i ==> v.deep_view()[k] != x@,
        decreases v.len() - i,
    {
        if v[i] == *x {
            proof {
                assert(v.deep_view()[i as int] == x@);
            }
            return true;
        }
        i = i + 1;
    }
    false
}

/// The device names with duplicates removed, first occurrences kept in order.
pub fn unique_names(names: Vec<String>) -> (r: Vec<String>)
    ensures
        r.deep_view() == first_occurrences(names.deep_view()),
{
    let mut r: Vec<String> = Vec::new();
    let mut i: usize = 0;
    proof {
        assert(names.deep_view().take(0) =~= Seq::<Seq<char>>::empty());
        assert(r.deep_view() =~= Seq::<Seq<char>>::empty());
    }
    while i < names.len()
        invariant
            i <= names.len(),
            r.deep_view() == first_occurrences(names.deep_view().take(i as int)),
        decreases names.len() - i,
    {
        proof {
            assert(names.deep_view().take(i + 1).drop_last() =~= names.deep_view().take(i as int));
        }
        if !holds_name(&r, &names[i]) {
            let ghost before = r.deep_view();
            let n = names[i].clone();
            r.push(n);
            proof {
                assert(r.deep_view() =~= before.push(names.deep_view()[i as int]));
            }
        }
        i = i + 1;
    }
    proof {
        assert(names.deep_view().take(names.len() as int) =~= names.deep_view());
    }
    r
}

} // verus!
