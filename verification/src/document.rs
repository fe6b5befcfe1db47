//! The document as it is written back: its lines, each closed by a newline.

use vstd::prelude::*;
use vstd::string::StringExecFns;
use crate::text::texts;

verus! {

/// What stands between two lines, and after the last one.
pub const LINE_END: &'static str = "\n";

/// The lines of a document with one line end between each two of them.
pub open spec fn joined(lines: Seq<Seq<char>>) -> Seq<char>
    decreases lines.len(),
{
    if lines.len() == 0 {
        Seq::empty()
    } else if lines.len() == 1 {
        lines[0]
    } else {
        joined(lines.drop_last()) + LINE_END@ + lines.last()
    }
}

/// The text of a document: its lines joined, and a line end after them.
pub open spec fn rendered(lines: Seq<Seq<char>>) -> Seq<char> {
    joined(lines) + LINE_END@
}

/// Writes the document out as one text, ready to be stored.
pub fn render_document(lines: &Vec<String>) -> (r: String)
    ensures
        r@ == rendered(texts(lines@)),
{
    let ghost all = texts(lines@);
    let mut out = String::new();
    let mut i: usize = 0;
    proof {
        assert(all.take(0).len() == 0);
    }
    while i < lines.len()
        invariant
            i <= lines.len(),
            all == texts(lines@),
            out@ == joined(all.take(i as int)),
        decreases lines.len() - i,
    {
        proof {
            assert(all.take(i as int + 1).drop_last() =~= all.take(i as int));
            assert(all.take(i as int + 1).last() == lines@[i as int]@);
            assert(all.take(1)[0] == all[0]);
        }
        if i > 0 {
            out.append(LINE_END);
        }
        out.append(lines[i].as_str());
        proof {
            if i == 0 {
                assert(out@ =~= lines@[0]@);
            }
        }
        i = i + 1;
    }
    proof {
        assert(all.take(lines.len() as int) =~= all);
    }
    out.append(LINE_END);
    out
}

} // verus!
