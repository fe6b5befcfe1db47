//! The ways in which a cycling run fails.

use vstd::prelude::*;
use vstd::string::StringExecFns;

verus! {

/// The YAML scanner's error: where the document stopped making sense, and why.
#[verifier::external_type_specification]
#[verifier::external_body]
pub struct ExScanError(yaml_rust::ScanError);

/// The regex compiler's error for a pattern that it does not accept.
#[verifier::external_type_specification]
#[verifier::external_body]
pub struct ExRegexError(regex::Error);

/// Why no new line sequence was produced.
#[derive(Debug)]
pub enum CycleError {
    /// The document text is not well-formed YAML; the parser's error is kept as it came.
    MalformedDocument(yaml_rust::ScanError),
    /// The reference pattern is not a regular expression that the engine accepts.
    InvalidPattern(regex::Error),
    /// No line of the document selects a color scheme.
    NoActiveSchemeFound,
    /// The selected anchor is not declared in the document. Holds the text that
    /// named it: the anchor asked for, or the whole reference line.
    AnchorNotInCatalog(String),
}

/// What the message says where no line selects a color scheme.
pub const NOT_FOUND_TEXT: &'static str = "Could not find set colorscheme inside config";

/// The message for a reference that names no declared anchor.
pub open spec fn not_in_catalog_text(reference: Seq<char>) -> Seq<char> {
    "Anchor `"@ + reference + "` not found"@
}

/// Calls `to_string` on the YAML scanner's error, which gives its `Display`
/// text. Nothing is claimed of that text.
#[verifier::external_body]
fn scan_error_text(e: &yaml_rust::ScanError) -> (r: String) {
    e.to_string()
}

/// Calls `to_string` on the regex compiler's error, which gives its
/// `Display` text. Nothing is claimed of that text.
#[verifier::external_body]
fn pattern_error_text(e: &regex::Error) -> (r: String) {
    e.to_string()
}

impl CycleError {
    /// The message to show for this failure. For a failure of the parser
    /// or of the regex compiler it is that component's own message, unchanged.
    pub fn message(&self) -> (r: String)
        ensures
            self is NoActiveSchemeFound ==> r@ == NOT_FOUND_TEXT@,
            self matches CycleError::AnchorNotInCatalog(reference) ==> r@ == not_in_catalog_text(
                reference@,
            ),
    {
        match self {
            CycleError::MalformedDocument(e) => scan_error_text(e),
            CycleError::InvalidPattern(e) => pattern_error_text(e),
            CycleError::NoActiveSchemeFound => String::from_str(NOT_FOUND_TEXT),
            CycleError::AnchorNotInCatalog(reference) => String::from_str("Anchor `").concat(
                reference.as_str(),
            ).concat("` not found"),
        }
    }
}

} // verus!
