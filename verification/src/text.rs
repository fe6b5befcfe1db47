//! Views of the values that the library passes around: lines, names, and
//! the optional captures that the scanners hand back.

use vstd::prelude::*;

verus! {

/// The character sequences of a list of strings, in order.
pub open spec fn texts(items: Seq<String>) -> Seq<Seq<char>> {
    items.map_values(|s: String| s@)
}

/// The character sequences of a list of optional strings, in order.
pub open spec fn marks_view(marks: Seq<Option<String>>) -> Seq<Option<Seq<char>>> {
    marks.map_values(
        |m: Option<String>|
            match m {
                Some(s) => Some(s@),
                None => None,
            },
    )
}

/// The last entry of `marks` that holds a value, if any does.
pub open spec fn last_present(marks: Seq<Option<Seq<char>>>) -> Option<Seq<char>>
    decreases marks.len(),
{
    if marks.len() == 0 {
        None
    } else {
        match marks.last() {
            Some(name) => Some(name),
            None => last_present(marks.drop_last()),
        }
    }
}

/// The values that `marks` holds, in order, the empty entries left out.
pub open spec fn present(marks: Seq<Option<Seq<char>>>) -> Seq<Seq<char>>
    decreases marks.len(),
{
    if marks.len() == 0 {
        Seq::empty()
    } else {
        match marks.last() {
            Some(name) => present(marks.drop_last()).push(name),
            None => present(marks.drop_last()),
        }
    }
}

/// Returns the last entry of `marks` that holds a value.
pub fn last_present_of(marks: &Vec<Option<String>>) -> (r: Option<String>)
    ensures
        match r {
            Some(name) => last_present(marks_view(marks@)) == Some(name@),
            None => last_present(marks_view(marks@)) is None,
        },
{
    let ghost all = marks_view(marks@);
    let mut i: usize = marks.len();
    proof {
        assert(all.take(marks.len() as int) =~= all);
    }
    while i > 0
        invariant
            i <= marks.len(),
            all == marks_view(marks@),
            last_present(all) == last_present(all.take(i as int)),
        decreases i,
    {
        proof {
            assert(all.take(i as int).drop_last() =~= all.take(i as int - 1));
        }
        match &marks[i - 1] {
            Some(name) => {
                return Some(name.clone());
            },
            None => {},
        }
        i = i - 1;
    }
    proof {
        assert(all.take(0).len() == 0);
    }
    None
}

/// Collects the values that `marks` holds, in order.
pub fn present_of(marks: &Vec<Option<String>>) -> (r: Vec<String>)
    ensures
        texts(r@) == present(marks_view(marks@)),
{
    let ghost all = marks_view(marks@);
    let mut out: Vec<String> = Vec::new();
    let mut i: usize = 0;
    proof {
        assert(texts(out@) =~= present(all.take(0)));
    }
    while i < marks.len()
        invariant
            i <= marks.len(),
            all == marks_view(marks@),
            texts(out@) == present(all.take(i as int)),
        decreases marks.len() - i,
    {
        proof {
            assert(all.take(i as int + 1).drop_last() =~= all.take(i as int));
        }
        let ghost before = out@;
        match &marks[i] {
            Some(name) => {
                out.push(name.clone());
                proof {
                    assert(texts(out@) =~= texts(before).push(name@));
                }
            },
            None => {},
        }
        i = i + 1;
    }
    proof {
        assert(all.take(marks.len() as int) =~= all);
    }
    out
}

} // verus!
