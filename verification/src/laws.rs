//! What holds of the library's functions taken together, stated over the
//! spec functions of their contracts.

use vstd::prelude::*;
use crate::catalog::{anchors_outcome, declared_anchors, document_well_formed};
use crate::cycler::{
    cycle_outcome, is_active_reference, is_first_position, lemma_active_line_unique,
    lemma_first_position_unique, lemma_successor_in_list, no_reference, pattern_valid,
    reference_line, successor, CS_LINE_PATTERN,
};
use crate::error::CycleError;
use crate::text::texts;

verus! {

/// Reading the same text twice gives the same outcome: both readings fail,
/// or both give the same names in the same order.
pub proof fn law_reread_is_stable(
    text: Seq<char>,
    first: Result<Vec<String>, CycleError>,
    second: Result<Vec<String>, CycleError>,
)
    requires
        anchors_outcome(text, first),
        anchors_outcome(text, second),
    ensures
        first is Ok <==> second is Ok,
        first is Ok ==> texts(first->Ok_0@) == texts(second->Ok_0@),
        first is Err ==> first->Err_0 is MalformedDocument && second->Err_0 is MalformedDocument,
{
}

/// Cycling is total on the list: for an anchor that the list holds there is
/// a next one, and the list holds it too. For any other there is none.
pub proof fn law_successor_is_member(names: Seq<Seq<char>>, current: Seq<char>)
    ensures
        names.contains(current) <==> successor(names, current) is Some,
        names.contains(current) ==> names.contains(successor(names, current).unwrap()),
{
    if names.contains(current) {
        lemma_successor_in_list(names, current);
    }
}

/// The anchor after the first occurrence of `current` is the one at the
/// next position, and the one at the start where that occurrence is the
/// last position.
pub proof fn law_successor_position(names: Seq<Seq<char>>, current: Seq<char>, index: int)
    requires
        is_first_position(names, current, index),
    ensures
        index + 1 < names.len() ==> successor(names, current) == Some(names[index + 1]),
        index + 1 == names.len() ==> successor(names, current) == Some(names[0]),
{
    lemma_first_position_unique(names, current, index);
    let n = names.len() as int;
    if index + 1 < n {
        assert((index + 1) % n == index + 1) by (nonlinear_arith)
            requires
                0 <= index + 1 < n,
        ;
    } else {
        assert((index + 1) % n == 0) by (nonlinear_arith)
            requires
                index + 1 == n,
                n > 0,
        ;
    }
}

/// After the last anchor comes the first, where the last anchor's name does
/// not stand earlier in the list as well.
pub proof fn law_wraparound(names: Seq<Seq<char>>)
    requires
        names.len() > 0,
        forall|j: int| 0 <= j < names.len() - 1 ==> names[j] != names.last(),
    ensures
        successor(names, names.last()) == Some(names[0]),
{
    assert(is_first_position(names, names.last(), names.len() - 1));
    law_successor_position(names, names.last(), names.len() - 1);
}

/// In a list of one anchor, that anchor follows itself.
pub proof fn law_single_anchor_fixed(anchor: Seq<char>)
    ensures
        successor(seq![anchor], anchor) == Some(anchor),
{
    let names = seq![anchor];
    assert(names[0] == anchor);
    assert(is_first_position(names, anchor, 0));
    law_successor_position(names, anchor, 0);
}

/// In an empty list no anchor has a successor.
pub proof fn law_empty_catalog_has_no_successor(current: Seq<char>)
    ensures
        successor(Seq::<Seq<char>>::empty(), current) is None,
{
}

/// A run changes the active line and nothing else: the result has as many
/// lines as the document, the active one selects the next anchor, and each
/// other line is the line that stood there.
pub proof fn law_only_active_line_changes(
    text: Seq<char>,
    lines: Seq<String>,
    r: Result<Vec<String>, CycleError>,
    index: int,
    anchor: Seq<char>,
)
    requires
        cycle_outcome(text, lines, r),
        r is Ok,
        is_active_reference(CS_LINE_PATTERN@, texts(lines), index, anchor),
    ensures
        r->Ok_0@.len() == lines.len(),
        successor(declared_anchors(text), anchor) is Some,
        r->Ok_0@[index]@ == reference_line(successor(declared_anchors(text), anchor).unwrap()),
        forall|j: int| 0 <= j < lines.len() && j != index ==> r->Ok_0@[j] == lines[j],
{
    lemma_active_line_unique(CS_LINE_PATTERN@, texts(lines), index, anchor);
}

/// A document without a reference line gives `NoActiveSchemeFound`,
/// whatever anchors it declares.
pub proof fn law_no_reference_fails(
    text: Seq<char>,
    lines: Seq<String>,
    r: Result<Vec<String>, CycleError>,
)
    requires
        cycle_outcome(text, lines, r),
        document_well_formed(text),
        pattern_valid(CS_LINE_PATTERN@),
        no_reference(CS_LINE_PATTERN@, texts(lines)),
    ensures
        r is Err,
        r->Err_0 is NoActiveSchemeFound,
{
}

/// A reference to an anchor that the document does not declare gives
/// `AnchorNotInCatalog` with the reference line; so does any reference
/// where the document declares no anchor at all.
pub proof fn law_unknown_anchor_fails(
    text: Seq<char>,
    lines: Seq<String>,
    r: Result<Vec<String>, CycleError>,
    index: int,
    anchor: Seq<char>,
)
    requires
        cycle_outcome(text, lines, r),
        document_well_formed(text),
        pattern_valid(CS_LINE_PATTERN@),
        is_active_reference(CS_LINE_PATTERN@, texts(lines), index, anchor),
        !declared_anchors(text).contains(anchor),
    ensures
        r is Err,
        r->Err_0 matches CycleError::AnchorNotInCatalog(line) && line == lines[index],
{
    lemma_active_line_unique(CS_LINE_PATTERN@, texts(lines), index, anchor);
}

/// A reference line in a document that declares no anchor gives
/// `AnchorNotInCatalog`: nothing is found in an empty list.
pub proof fn law_empty_catalog_fails(
    text: Seq<char>,
    lines: Seq<String>,
    r: Result<Vec<String>, CycleError>,
)
    requires
        cycle_outcome(text, lines, r),
        document_well_formed(text),
        pattern_valid(CS_LINE_PATTERN@),
        !no_reference(CS_LINE_PATTERN@, texts(lines)),
        declared_anchors(text).len() == 0,
    ensures
        r is Err,
        r->Err_0 is AnchorNotInCatalog,
{
}

} // verus!
