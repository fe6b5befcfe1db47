//! Finding the line that selects the active color scheme, choosing the
//! anchor that follows it, and rewriting that line.

use vstd::prelude::*;
use vstd::string::StringExecFns;
use crate::catalog::{declared_anchors, document_well_formed, get_cs_anchors};
use crate::error::CycleError;
use crate::text::{last_present, last_present_of, marks_view, texts};

verus! {

/// A compiled regular expression of the regex crate.
#[verifier::external_type_specification]
#[verifier::external_body]
pub struct ExRegex(regex::Regex);

/// Whether `Regex::new` of the regex crate accepts `pattern`.
pub uninterp spec fn pattern_valid(pattern: Seq<char>) -> bool;

/// The pattern text that `re` holds: what `Regex::as_str` returns, the
/// string that the regex was compiled from.
pub uninterp spec fn pattern_of(re: regex::Regex) -> Seq<char>;

/// What `Regex::captures_iter` finds in `line` for the regex compiled from
/// `pattern`: one entry for each match, in the order of the matches. An
/// entry holds the text of the first capture group, or nothing where the
/// pattern has no such group or the group took no part in the match.
pub uninterp spec fn line_captures(pattern: Seq<char>, line: Seq<char>) -> Seq<Option<Seq<char>>>;

/// The pattern of a line that selects a color scheme: the field marker, the
/// reference sigil, and the anchor's name as the one capture group.
pub const CS_LINE_PATTERN: &'static str = "colors: \\*(\\S+)";

/// What a newly written reference line starts with, before the anchor's name.
pub const CS_LINE_PREFIX: &'static str = "colors: *";

/// A compiled pattern that recognizes reference lines. Its regex is made
/// by `compile_reference_pattern` and by nothing else, with the regex
/// crate's default options.
#[derive(Debug)]
pub struct ReferencePattern {
    regex: regex::Regex,
}

impl ReferencePattern {
    /// The pattern text that this pattern was compiled from.
    pub closed spec fn source(&self) -> Seq<char> {
        pattern_of(self.regex)
    }
}

/// The line of the document that selects the active color scheme.
#[derive(Debug)]
pub struct ActiveReference {
    /// The position of the line in the document.
    pub line_index: usize,
    /// The anchor that the line names.
    pub anchor: String,
}

/// The anchor that `line` refers to under `pattern`: the capture of the last
/// match in the line.
pub open spec fn line_reference(pattern: Seq<char>, line: Seq<char>) -> Option<Seq<char>> {
    last_present(line_captures(pattern, line))
}

/// No line of `lines` refers to an anchor.
pub open spec fn no_reference(pattern: Seq<char>, lines: Seq<Seq<char>>) -> bool {
    forall|j: int| 0 <= j < lines.len() ==> line_reference(pattern, #[trigger] lines[j]) is None
}

/// `index` is the last line of `lines` that refers to an anchor.
pub open spec fn is_last_reference(pattern: Seq<char>, lines: Seq<Seq<char>>, index: int) -> bool {
    &&& 0 <= index < lines.len()
    &&& line_reference(pattern, lines[index]) is Some
    &&& forall|j: int| index < j < lines.len() ==> line_reference(pattern, #[trigger] lines[j]) is None
}

/// `index` is the last line of `lines` that refers to an anchor, and `anchor` is what it names.
pub open spec fn is_active_reference(
    pattern: Seq<char>,
    lines: Seq<Seq<char>>,
    index: int,
    anchor: Seq<char>,
) -> bool {
    &&& is_last_reference(pattern, lines, index)
    &&& line_reference(pattern, lines[index]) == Some(anchor)
}

/// The position of the active line, where some line refers to an anchor.
pub open spec fn active_line(pattern: Seq<char>, lines: Seq<Seq<char>>) -> int {
    choose|i: int| is_last_reference(pattern, lines, i)
}

/// The anchor that the active line names, where some line refers to an anchor.
pub open spec fn active_anchor(pattern: Seq<char>, lines: Seq<Seq<char>>) -> Seq<char> {
    line_reference(pattern, lines[active_line(pattern, lines)]).unwrap()
}

/// `index` is the first position of `names` that holds `current`.
pub open spec fn is_first_position(names: Seq<Seq<char>>, current: Seq<char>, index: int) -> bool {
    &&& 0 <= index < names.len()
    &&& names[index] == current
    &&& forall|j: int| 0 <= j < index ==> names[j] != current
}

/// The first position of `names` that holds `current`, where there is one.
pub open spec fn first_position(names: Seq<Seq<char>>, current: Seq<char>) -> int {
    choose|i: int| is_first_position(names, current, i)
}

/// The name that follows the first occurrence of `current` in `names`, the
/// list taken as a circle; nothing where `current` does not occur.
pub open spec fn successor(names: Seq<Seq<char>>, current: Seq<char>) -> Option<Seq<char>> {
    if names.contains(current) {
        Some(names[(first_position(names, current) + 1) % (names.len() as int)])
    } else {
        None
    }
}

/// The reference line that selects `anchor`.
pub open spec fn reference_line(anchor: Seq<char>) -> Seq<char> {
    CS_LINE_PREFIX@ + anchor
}

/// A list holds at most one first position of a name.
pub proof fn lemma_first_position_unique(names: Seq<Seq<char>>, current: Seq<char>, i: int)
    requires
        is_first_position(names, current, i),
    ensures
        names.contains(current),
        first_position(names, current) == i,
{
    let k = first_position(names, current);
    assert(is_first_position(names, current, k));
    if k < i {
        assert(names[k] != current);
    } else if i < k {
        assert(names[i] != current);
    }
}

/// A name that occurs in a list has a first position there.
pub proof fn lemma_first_position_exists(names: Seq<Seq<char>>, current: Seq<char>)
    requires
        names.contains(current),
    ensures
        is_first_position(names, current, first_position(names, current)),
    decreases names.len(),
{
    let k = choose|k: int| 0 <= k < names.len() && names[k] == current;
    if exists|j: int| 0 <= j < k && names[j] == current {
        let j = choose|j: int| 0 <= j < k && names[j] == current;
        let shorter = names.take(k);
        assert(shorter[j] == current);
        lemma_first_position_exists(shorter, current);
        let f = first_position(shorter, current);
        assert(names[f] == shorter[f]);
        assert forall|i: int| 0 <= i < f implies names[i] != current by {
            assert(names[i] == shorter[i]);
        }
        assert(is_first_position(names, current, f));
    } else {
        assert(is_first_position(names, current, k));
    }
}

/// The successor of a name that a list holds is in the list too.
pub proof fn lemma_successor_in_list(names: Seq<Seq<char>>, current: Seq<char>)
    requires
        names.contains(current),
    ensures
        successor(names, current) is Some,
        names.contains(successor(names, current).unwrap()),
{
    lemma_first_position_exists(names, current);
    let n = names.len() as int;
    let k = (first_position(names, current) + 1) % n;
    assert(0 <= k < n);
    assert(names[k] == successor(names, current).unwrap());
}

/// A document has at most one active line.
pub proof fn lemma_active_line_unique(
    pattern: Seq<char>,
    lines: Seq<Seq<char>>,
    index: int,
    anchor: Seq<char>,
)
    requires
        is_active_reference(pattern, lines, index, anchor),
    ensures
        !no_reference(pattern, lines),
        active_line(pattern, lines) == index,
        active_anchor(pattern, lines) == anchor,
{
    let k = active_line(pattern, lines);
    assert(is_last_reference(pattern, lines, k));
    if k < index {
        assert(line_reference(pattern, lines[index]) is None);
    } else if index < k {
        assert(line_reference(pattern, lines[k]) is None);
    }
}

/// Calls `Regex::new`. Claimed of it: whether it succeeds depends on the
/// pattern alone (`pattern_valid` is the name of that), and the regex that
/// it returns gives back, as its source, the pattern that it was made from.
#[verifier::external_body]
fn compile(pattern: &str) -> (r: Result<regex::Regex, regex::Error>)
    ensures
        r is Ok <==> pattern_valid(pattern@),
        r matches Ok(re) ==> pattern_of(re) == pattern@,
{
    regex::Regex::new(pattern)
}

/// Calls `Regex::as_str`. Claimed of it: it returns the pattern text that
/// the regex holds, which `pattern_of` names.
#[verifier::external_body]
fn regex_source<'a>(re: &'a regex::Regex) -> (r: &'a str)
    ensures
        r@ == pattern_of(*re),
{
    re.as_str()
}

/// Calls `Regex::captures_iter` on one line and takes from each match the
/// text of capture group 1, by `Captures::get`. Claimed of it, for a regex
/// that `Regex::new` made: the entries are those that `line_captures` names
/// for the regex's pattern and the line.
#[verifier::external_body]
fn captures_in(re: &regex::Regex, line: &str) -> (r: Vec<Option<String>>)
    ensures
        marks_view(r@) == line_captures(pattern_of(*re), line@),
{
    re.captures_iter(line).map(|caps| caps.get(1).map(|m| m.as_str().to_owned())).collect()
}

impl ReferencePattern {
    /// The pattern text that this pattern was compiled from.
    pub fn as_str(&self) -> (r: &str)
        ensures
            r@ == self.source(),
    {
        regex_source(&self.regex)
    }
}

/// Compiles a reference pattern. The anchor's name is what its first
/// capture group takes.
pub fn compile_reference_pattern(pattern: &str) -> (r: Result<ReferencePattern, CycleError>)
    ensures
        match r {
            Ok(compiled) => pattern_valid(pattern@) && compiled.source() == pattern@,
            Err(e) => !pattern_valid(pattern@) && e is InvalidPattern,
        },
{
    match compile(pattern) {
        Ok(regex) => Ok(ReferencePattern { regex }),
        Err(e) => Err(CycleError::InvalidPattern(e)),
    }
}

/// Finds the line that selects the active color scheme.
///
/// The lines are read from first to last, and each line that matches takes
/// the place of the one found before it: the last matching line is the
/// active one. Within a line, the last match counts.
pub fn find_active_reference(lines: &Vec<String>, pattern: &ReferencePattern) -> (r: Result<
    ActiveReference,
    CycleError,
>)
    ensures
        match r {
            Ok(found) => is_active_reference(
                pattern.source(),
                texts(lines@),
                found.line_index as int,
                found.anchor@,
            ),
            Err(e) => e is NoActiveSchemeFound && no_reference(pattern.source(), texts(lines@)),
        },
{
    let ghost source = pattern.source();
    let ghost all = texts(lines@);
    let mut found: Option<ActiveReference> = None;
    let mut i: usize = 0;
    while i < lines.len()
        invariant
            i <= lines.len(),
            source == pattern.source(),
            all == texts(lines@),
            match found {
                Some(a) => {
                    &&& a.line_index < i
                    &&& line_reference(source, all[a.line_index as int]) == Some(a.anchor@)
                    &&& forall|j: int|
                        a.line_index < j < i ==> line_reference(source, #[trigger] all[j]) is None
                },
                None => forall|j: int|
                    0 <= j < i ==> line_reference(source, #[trigger] all[j]) is None,
            },
        decreases lines.len() - i,
    {
        let captures = captures_in(&pattern.regex, lines[i].as_str());
        assert(all[i as int] == lines@[i as int]@);
        match last_present_of(&captures) {
            Some(name) => {
                found = Some(ActiveReference { line_index: i, anchor: name });
            },
            None => {},
        }
        i = i + 1;
    }
    match found {
        Some(a) => Ok(a),
        None => Err(CycleError::NoActiveSchemeFound),
    }
}

/// Chooses the anchor that follows `current_anchor` in `anchors`.
///
/// The first occurrence of `current_anchor` counts. After the last anchor
/// comes the first, so a list of one anchor gives that anchor again. Where
/// `current_anchor` is not in the list, the error holds its name.
pub fn next_anchor(anchors: &Vec<String>, current_anchor: &str) -> (r: Result<String, CycleError>)
    ensures
        r is Ok <==> texts(anchors@).contains(current_anchor@),
        r matches Ok(next) ==> texts(anchors@).contains(next@),
        forall|i: int| #[trigger]
            is_first_position(texts(anchors@), current_anchor@, i) ==> (r matches Ok(next) && next@
                == texts(anchors@)[(i + 1) % (anchors@.len() as int)]),
        match r {
            Ok(next) => successor(texts(anchors@), current_anchor@) == Some(next@),
            Err(e) => successor(texts(anchors@), current_anchor@) is None && (e matches CycleError::AnchorNotInCatalog(
                named,
            ) && named@ == current_anchor@),
        },
{
    let ghost names = texts(anchors@);
    let current = String::from_str(current_anchor);
    let mut i: usize = 0;
    while i < anchors.len()
        invariant
            i <= anchors.len(),
            names == texts(anchors@),
            current@ == current_anchor@,
            forall|j: int| 0 <= j < i ==> names[j] != current@,
        decreases anchors.len() - i,
    {
        if anchors[i] == current {
            let next_index: usize = (i + 1) % anchors.len();
            proof {
                assert(names[i as int] == anchors@[i as int]@);
                assert(names[next_index as int] == anchors@[next_index as int]@);
                lemma_first_position_unique(names, current@, i as int);
                lemma_successor_in_list(names, current@);
                assert forall|k: int| #[trigger] is_first_position(names, current@, k) implies k
                    == i by {
                    lemma_first_position_unique(names, current@, k);
                }
            }
            return Ok(anchors[next_index].clone());
        }
        proof {
            assert(names[i as int] == anchors@[i as int]@);
        }
        i = i + 1;
    }
    Err(CycleError::AnchorNotInCatalog(current))
}

/// Writes the reference line that selects `anchor`: the marker, the sigil
/// and the name, with nothing before or after.
pub fn make_reference_line(anchor: &str) -> (r: String)
    ensures
        r@ == reference_line(anchor@),
{
    String::from_str(CS_LINE_PREFIX).concat(anchor)
}

/// Puts a reference line for `new_anchor` in the place of the active one.
///
/// Every other line stays as it is, at its place.
pub fn apply_substitution(
    lines: Vec<String>,
    reference: &ActiveReference,
    new_anchor: &str,
) -> (r: Vec<String>)
    requires
        reference.line_index < lines.len(),
    ensures
        r@.len() == lines@.len(),
        r@[reference.line_index as int]@ == reference_line(new_anchor@),
        forall|j: int| 0 <= j < lines@.len() && j != reference.line_index ==> r@[j] == lines@[j],
{
    let mut lines = lines;
    lines.set(reference.line_index, make_reference_line(new_anchor));
    lines
}

/// What a cycling run owes for a document given as its text and as its
/// lines: the lines with the active one rewritten to select the next
/// anchor, or the first failure on the way from parsing to substitution.
pub open spec fn cycle_outcome(
    text: Seq<char>,
    lines: Seq<String>,
    r: Result<Vec<String>, CycleError>,
) -> bool {
    let pattern = CS_LINE_PATTERN@;
    let index = active_line(pattern, texts(lines));
    let next = successor(declared_anchors(text), active_anchor(pattern, texts(lines)));
    if !document_well_formed(text) {
        r matches Err(e) && e is MalformedDocument
    } else if !pattern_valid(pattern) {
        r matches Err(e) && e is InvalidPattern
    } else if no_reference(pattern, texts(lines)) {
        r matches Err(e) && e is NoActiveSchemeFound
    } else if next is None {
        r matches Err(e) && (e matches CycleError::AnchorNotInCatalog(line) && line == lines[index])
    } else {
        r matches Ok(out) && {
            &&& out@.len() == lines.len()
            &&& out@[index]@ == reference_line(next.unwrap())
            &&& forall|j: int| 0 <= j < lines.len() && j != index ==> out@[j] == lines[j]
        }
    }
}

/// Cycles the color scheme of a document: lists its anchors, finds the
/// active reference line, chooses the next anchor and rewrites the line.
///
/// `config_text` and `config_lines` are the same document, once whole and
/// once line by line. On any failure no lines are returned, so there is
/// nothing to write back. The error for an anchor that the document does not
/// declare holds the reference line as it stood.
pub fn cycle_color_scheme(config_text: &str, config_lines: Vec<String>) -> (r: Result<
    Vec<String>,
    CycleError,
>)
    ensures
        cycle_outcome(config_text@, config_lines@, r),
{
    let anchors = match get_cs_anchors(config_text) {
        Ok(anchors) => anchors,
        Err(e) => {
            return Err(e);
        },
    };
    let pattern = match compile_reference_pattern(CS_LINE_PATTERN) {
        Ok(pattern) => pattern,
        Err(e) => {
            return Err(e);
        },
    };
    let active = match find_active_reference(&config_lines, &pattern) {
        Ok(active) => active,
        Err(e) => {
            return Err(e);
        },
    };
    proof {
        lemma_active_line_unique(
            CS_LINE_PATTERN@,
            texts(config_lines@),
            active.line_index as int,
            active.anchor@,
        );
    }
    match next_anchor(&anchors, active.anchor.as_str()) {
        Ok(next) => Ok(apply_substitution(config_lines, &active, next.as_str())),
        Err(_) => Err(CycleError::AnchorNotInCatalog(config_lines[active.line_index].clone())),
    }
}

} // verus!
