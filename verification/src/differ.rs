//! The sequence differ: edit scripts and the unified rendering, as computed by
//! the `similar` crate's Myers alignment.

use crate::change::{all_equal, new_side, old_side, script_of, unit_segments, Change, ChangeTag};
use vstd::prelude::*;

verus! {

/// The edit script that aligns the lines of `before` with those of `after`.
pub uninterp spec fn line_script(before: Seq<char>, after: Seq<char>) -> Seq<(ChangeTag, Seq<char>)>;

/// The edit script that aligns the characters of `before` with those of `after`.
pub uninterp spec fn char_script(before: Seq<char>, after: Seq<char>) -> Seq<(ChangeTag, Seq<char>)>;

/// The unified rendering of the line-level differences of two texts, under a
/// header that names the old and the new text.
pub uninterp spec fn unified_text(
    before: Seq<char>,
    after: Seq<char>,
    old_name: Seq<char>,
    new_name: Seq<char>,
) -> Seq<char>;

/// The unit that an alignment compares.
#[derive(Clone, Copy, Debug, PartialEq, Eq, Structural)]
pub enum Granularity {
    /// Whole lines, each with its terminator.
    Line,
    /// Single characters.
    Char,
}

/// The edit script of two texts at a granularity.
pub open spec fn edit_script(before: Seq<char>, after: Seq<char>, granularity: Granularity) -> Seq<
    (ChangeTag, Seq<char>),
> {
    match granularity {
        Granularity::Line => line_script(before, after),
        Granularity::Char => char_script(before, after),
    }
}

/// Calls `similar::TextDiff::from_lines` and flattens it with
/// `iter_all_changes`, each change by its tag and its `value`.
///
/// Trusted: the operations are a function of the two texts; their segments are
/// the lines of the texts with the terminators kept, so that the segments not
/// inserted spell `before` and those not deleted spell `after`; and equal texts
/// align as one common prefix, with no insertion or deletion.
#[verifier::external_body]
pub(crate) fn diff_lines(before: &str, after: &str) -> (ops: Vec<Change>)
    ensures
        script_of(ops@) == line_script(before@, after@),
        old_side(script_of(ops@)) == before@,
        new_side(script_of(ops@)) == after@,
        before@ == after@ ==> all_equal(script_of(ops@)),
{
    let diff = similar::TextDiff::from_lines(before, after);
    let mut ops = Vec::new();
    for c in diff.iter_all_changes() {
        let tag = match c.tag() {
            similar::ChangeTag::Equal => ChangeTag::Equal,
            similar::ChangeTag::Insert => ChangeTag::Insert,
            similar::ChangeTag::Delete => ChangeTag::Delete,
        };
        ops.push(Change { tag, text: c.value().to_string() });
    }
    ops
}

/// Calls `similar::TextDiff::from_chars` and flattens it with
/// `iter_all_changes`, each change by its tag and its `value`.
///
/// Trusted: as for lines, with every segment a single character.
#[verifier::external_body]
pub(crate) fn diff_chars(before: &str, after: &str) -> (ops: Vec<Change>)
    ensures
        script_of(ops@) == char_script(before@, after@),
        unit_segments(script_of(ops@)),
        old_side(script_of(ops@)) == before@,
        new_side(script_of(ops@)) == after@,
        before@ == after@ ==> all_equal(script_of(ops@)),
{
    let diff = similar::TextDiff::from_chars(before, after);
    let mut ops = Vec::new();
    for c in diff.iter_all_changes() {
        let tag = match c.tag() {
            similar::ChangeTag::Equal => ChangeTag::Equal,
            similar::ChangeTag::Insert => ChangeTag::Insert,
            similar::ChangeTag::Delete => ChangeTag::Delete,
        };
        ops.push(Change { tag, text: c.value().to_string() });
    }
    ops
}

/// Calls `similar::TextDiff::from_lines`, then `unified_diff` on it with
/// `header`, and writes the result out.
///
/// Trusted: the rendering is a function of the two texts and the two names.
#[verifier::external_body]
pub(crate) fn render_unified(before: &str, after: &str, old_name: &str, new_name: &str) -> (text:
    String)
    ensures
        text@ == unified_text(before@, after@, old_name@, new_name@),
{
    let diff = similar::TextDiff::from_lines(before, after);
    format!("{}", diff.unified_diff().header(old_name, new_name))
}

/// Aligns two texts and returns the edit script in order: what is kept, what
/// is deleted from `before` and what is inserted from `after`. The script
/// depends on the two texts and the granularity alone, spells both texts
/// exactly, and changes nothing where they are equal.
pub fn diff(before: &str, after: &str, granularity: Granularity) -> (ops: Vec<Change>)
    ensures
        script_of(ops@) == edit_script(before@, after@, granularity),
        old_side(script_of(ops@)) == before@,
        new_side(script_of(ops@)) == after@,
        before@ == after@ ==> all_equal(script_of(ops@)),
        granularity == Granularity::Char ==> unit_segments(script_of(ops@)),
{
    match granularity {
        Granularity::Line => diff_lines(before, after),
        Granularity::Char => diff_chars(before, after),
    }
}

} // verus!
