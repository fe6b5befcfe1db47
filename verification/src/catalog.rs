//! The anchors that a document declares, in the order of their declaration.

use vstd::prelude::*;
use crate::error::CycleError;
use crate::text::{marks_view, present, present_of, texts};

verus! {

/// Whether `YamlLoader::load_from_str` of yaml-rust accepts `text`: whether
/// its parser reads the text to the end as a stream of YAML documents.
pub uninterp spec fn document_well_formed(text: Seq<char>) -> bool;

/// What yaml-rust's `Scanner` makes of `text`: one entry for each token that
/// it yields, in the order in which it yields them, up to the end of the
/// stream or its first error. The entry of a token that declares an anchor
/// holds the anchor's name; the entry of any other token is empty.
pub uninterp spec fn anchor_marks(text: Seq<char>) -> Seq<Option<Seq<char>>>;

/// The names of the anchors that `text` declares, one for each declaration,
/// in the order in which the scanner comes upon them.
pub open spec fn declared_anchors(text: Seq<char>) -> Seq<Seq<char>> {
    present(anchor_marks(text))
}

/// What reading the anchors of `text` owes: the declared names in order for
/// a well-formed text, `MalformedDocument` for any other.
pub open spec fn anchors_outcome(text: Seq<char>, r: Result<Vec<String>, CycleError>) -> bool {
    match r {
        Ok(names) => document_well_formed(text) && texts(names@) == declared_anchors(text),
        Err(e) => !document_well_formed(text) && e is MalformedDocument,
    }
}

/// Calls `YamlLoader::load_from_str` and drops the documents that it built.
/// Claimed of it: whether the call succeeds depends on the text alone;
/// `document_well_formed` is the name of that.
#[verifier::external_body]
fn load_document(text: &str) -> (r: Result<(), yaml_rust::ScanError>)
    ensures
        r is Ok <==> document_well_formed(text@),
{
    yaml_rust::YamlLoader::load_from_str(text).map(|_docs| ())
}

/// Runs yaml-rust's `Scanner` over `text` and turns each token into an
/// entry: the name for `TokenType::Anchor`, nothing for the others.
/// Claimed of it: the entries are those that `anchor_marks` names. It is
/// called on texts that the parser has read to the end, which drives this
/// same scanner over them.
#[verifier::external_body]
fn scan_anchor_marks(text: &str) -> (r: Vec<Option<String>>)
    requires
        document_well_formed(text@),
    ensures
        marks_view(r@) == anchor_marks(text@),
{
    yaml_rust::scanner::Scanner::new(text.chars())
        .map(|token| match token.1 {
            yaml_rust::scanner::TokenType::Anchor(name) => Some(name),
            _ => None,
        })
        .collect()
}

/// Lists the anchors that the document declares, in declaration order.
///
/// A text that is not well-formed YAML gives `MalformedDocument` with the
/// parser's own error. A well-formed text without anchors gives an empty list.
/// A name that is declared twice stands twice in the list.
pub fn get_cs_anchors(config_text: &str) -> (r: Result<Vec<String>, CycleError>)
    ensures
        anchors_outcome(config_text@, r),
{
    match load_document(config_text) {
        Err(e) => Err(CycleError::MalformedDocument(e)),
        Ok(_) => {
            let marks = scan_anchor_marks(config_text);
            Ok(present_of(&marks))
        },
    }
}

} // verus!
