//! The single-pair operations: the result record of a comparison and the list
//! of changed lines.

use crate::change::{all_equal, count_tag, lemma_all_equal_counts, script_of, Change, ChangeTag};
use crate::differ::{diff_lines, line_script, render_unified, unified_text};
use crate::summary::{
    chars_added,
    chars_deleted,
    is_significant,
    length_delta,
    significant,
    summary_string,
    summary_text,
    threshold_of,
    DEFAULT_THRESHOLD,
};
use vstd::prelude::*;

verus! {

/// What a comparison of two texts found.
#[derive(Clone, Debug, PartialEq, Eq)]
pub struct DiffResult {
    /// The absolute difference of the two byte lengths.
    pub diff_size: usize,
    /// Whether `diff_size` reaches the threshold.
    pub is_significant: bool,
    /// The length delta in words.
    pub summary: String,
    /// The number of inserted lines.
    pub lines_added: usize,
    /// The number of deleted lines.
    pub lines_removed: usize,
    /// By how many bytes the new text is longer.
    pub chars_added: usize,
    /// By how many bytes the new text is shorter.
    pub chars_deleted: usize,
    /// The new text.
    pub after_content: String,
    /// The unified rendering, where it was asked for.
    pub unified_diff: Option<String>,
}

/// A `DiffResult` as contracts speak of it.
pub struct DiffResultView {
    pub diff_size: nat,
    pub is_significant: bool,
    pub summary: Seq<char>,
    pub lines_added: nat,
    pub lines_removed: nat,
    pub chars_added: nat,
    pub chars_deleted: nat,
    pub after_content: Seq<char>,
    pub unified_diff: Option<Seq<char>>,
}

/// A text that may be absent, by its characters.
pub open spec fn text_of(text: Option<String>) -> Option<Seq<char>> {
    match text {
        Some(t) => Some(t@),
        None => None,
    }
}

impl View for DiffResult {
    type V = DiffResultView;

    open spec fn view(&self) -> DiffResultView {
        DiffResultView {
            diff_size: self.diff_size as nat,
            is_significant: self.is_significant,
            summary: self.summary@,
            lines_added: self.lines_added as nat,
            lines_removed: self.lines_removed as nat,
            chars_added: self.chars_added as nat,
            chars_deleted: self.chars_deleted as nat,
            after_content: self.after_content@,
            unified_diff: text_of(self.unified_diff),
        }
    }
}

/// The result record for two texts, the line script that aligns them, a
/// threshold and the rendering to carry along.
pub open spec fn diff_result(
    script: Seq<(ChangeTag, Seq<char>)>,
    before: Seq<char>,
    after: Seq<char>,
    threshold: int,
    unified: Option<Seq<char>>,
) -> DiffResultView {
    DiffResultView {
        diff_size: length_delta(before, after),
        is_significant: significant(length_delta(before, after), threshold),
        summary: summary_text(chars_added(before, after), chars_deleted(before, after)),
        lines_added: count_tag(script, ChangeTag::Insert),
        lines_removed: count_tag(script, ChangeTag::Delete),
        chars_added: chars_added(before, after),
        chars_deleted: chars_deleted(before, after),
        after_content: after,
        unified_diff: unified,
    }
}

/// What a record says of two equal texts: no delta, no changed line, and
/// significance only under a threshold below 1.
pub open spec fn unchanged(r: DiffResultView, threshold: int) -> bool {
    &&& r.diff_size == 0
    &&& r.chars_added == 0
    &&& r.chars_deleted == 0
    &&& r.summary == "no change"@
    &&& r.lines_added == 0
    &&& r.lines_removed == 0
    &&& threshold >= 1 ==> !r.is_significant
}

/// Whether a caller asked for the unified rendering; by default not.
pub open spec fn wants_unified(include_unified: Option<bool>) -> bool {
    match include_unified {
        Some(b) => b,
        None => false,
    }
}

/// The rendering that `calculate_diff` carries for two texts.
pub open spec fn unified_of(before: Seq<char>, after: Seq<char>, include_unified: Option<bool>)
    -> Option<Seq<char>> {
    if wants_unified(include_unified) {
        Some(unified_text(before, after, "before"@, "after"@))
    } else {
        None
    }
}

/// What a line stopped being or became.
#[derive(Clone, Copy, Debug, PartialEq, Eq, Structural)]
pub enum ChangeType {
    Insert,
    Delete,
}

impl ChangeType {
    /// The name of the change in lower case.
    pub open spec fn name(self) -> Seq<char> {
        match self {
            ChangeType::Insert => "insert"@,
            ChangeType::Delete => "delete"@,
        }
    }

    /// Writes the name of the change in lower case.
    pub fn as_str(&self) -> (s: &'static str)
        ensures
            s@ == self.name(),
    {
        match self {
            ChangeType::Insert => "insert",
            ChangeType::Delete => "delete",
        }
    }
}

/// One changed line of a comparison.
#[derive(Clone, Debug, PartialEq, Eq)]
pub struct LineChange {
    /// The position of the operation in the edit script, counted from 1 over
    /// all operations, the unchanged lines included.
    pub line_number: usize,
    pub change_type: ChangeType,
    /// The line as it stands in its text, with its terminator if it has one.
    pub content: String,
}

/// A `LineChange` as contracts speak of it.
pub struct LineChangeView {
    pub line_number: nat,
    pub change_type: ChangeType,
    pub content: Seq<char>,
}

impl View for LineChange {
    type V = LineChangeView;

    open spec fn view(&self) -> LineChangeView {
        LineChangeView {
            line_number: self.line_number as nat,
            change_type: self.change_type,
            content: self.content@,
        }
    }
}

/// A list of changed lines, each by its view.
pub open spec fn changes_of(changes: Seq<LineChange>) -> Seq<LineChangeView> {
    changes.map_values(|c: LineChange| c@)
}

/// The changed lines of a script: one entry for each operation that is not
/// `Equal`, in the script's order, numbered by the operation's position.
pub open spec fn line_changes(script: Seq<(ChangeTag, Seq<char>)>) -> Seq<LineChangeView>
    decreases script.len(),
{
    if script.len() == 0 {
        Seq::empty()
    } else if script.last().0 == ChangeTag::Equal {
        line_changes(script.drop_last())
    } else {
        line_changes(script.drop_last()).push(
            LineChangeView {
                line_number: script.len(),
                change_type: if script.last().0 == ChangeTag::Insert {
                    ChangeType::Insert
                } else {
                    ChangeType::Delete
                },
                content: script.last().1,
            },
        )
    }
}

/// Counts the inserted and the deleted operations of a script, in this order.
pub fn count_line_changes(ops: &Vec<Change>) -> (counts: (usize, usize))
    ensures
        counts.0 == count_tag(script_of(ops@), ChangeTag::Insert),
        counts.1 == count_tag(script_of(ops@), ChangeTag::Delete),
{
    let ghost script = script_of(ops@);
    let mut added: usize = 0;
    let mut removed: usize = 0;
    let mut i: usize = 0;
    while i < ops.len()
        invariant
            i <= ops.len(),
            script == script_of(ops@),
            added == count_tag(script.take(i as int), ChangeTag::Insert),
            removed == count_tag(script.take(i as int), ChangeTag::Delete),
            added <= i,
            removed <= i,
        decreases ops.len() - i,
    {
        proof {
            assert(script.take(i + 1).drop_last() =~= script.take(i as int));
            assert(script.take(i + 1).last() == ops@[i as int]@);
        }
        match ops[i].tag {
            ChangeTag::Insert => {
                added = added + 1;
            },
            ChangeTag::Delete => {
                removed = removed + 1;
            },
            ChangeTag::Equal => {},
        }
        i = i + 1;
    }
    proof {
        assert(script.take(i as int) =~= script);
    }
    (added, removed)
}

/// Builds the result record of a comparison from the line script of the two
/// texts: the counts from the script, the deltas from the byte lengths.
pub fn summarize(
    ops: &Vec<Change>,
    before: &str,
    after: String,
    threshold: i32,
    unified: Option<String>,
) -> (r: DiffResult)
    ensures
        r@ == diff_result(script_of(ops@), before@, after@, threshold as int, text_of(unified)),
{
    let before_len = before.as_bytes().len();
    let after_len = after.as_str().as_bytes().len();
    let added: usize = if after_len > before_len {
        after_len - before_len
    } else {
        0
    };
    let deleted: usize = if before_len > after_len {
        before_len - after_len
    } else {
        0
    };
    let diff_size: usize = added + deleted;
    let counts = count_line_changes(ops);
    let r = DiffResult {
        diff_size,
        is_significant: is_significant(diff_size, threshold),
        summary: summary_string(added, deleted),
        lines_added: counts.0,
        lines_removed: counts.1,
        chars_added: added,
        chars_deleted: deleted,
        after_content: after,
        unified_diff: unified,
    };
    r
}

/// Compares two texts line by line. The threshold defaults to
/// `DEFAULT_THRESHOLD`; the unified rendering is made only on request. Equal
/// texts give a record without added or removed lines.
pub fn calculate_diff(
    text1: String,
    text2: String,
    threshold: Option<i32>,
    include_unified: Option<bool>,
) -> (r: DiffResult)
    ensures
        r@ == diff_result(
            line_script(text1@, text2@),
            text1@,
            text2@,
            threshold_of(threshold),
            unified_of(text1@, text2@, include_unified),
        ),
        text1@ == text2@ ==> unchanged(r@, threshold_of(threshold)),
{
    let diff_threshold = match threshold {
        Some(t) => t,
        None => DEFAULT_THRESHOLD,
    };
    let with_unified = match include_unified {
        Some(b) => b,
        None => false,
    };
    let ops = diff_lines(text1.as_str(), text2.as_str());
    let unified = if with_unified {
        Some(render_unified(text1.as_str(), text2.as_str(), "before", "after"))
    } else {
        None
    };
    proof {
        if text1@ == text2@ {
            lemma_all_equal_counts(script_of(ops@), ChangeTag::Insert);
            lemma_all_equal_counts(script_of(ops@), ChangeTag::Delete);
        }
    }
    summarize(&ops, text1.as_str(), text2, diff_threshold, unified)
}

/// Lists the operations of a script that are not `Equal`, in order, each with
/// its position in the script counted from 1.
pub fn line_changes_from(ops: &Vec<Change>) -> (changes: Vec<LineChange>)
    ensures
        changes_of(changes@) == line_changes(script_of(ops@)),
{
    let ghost script = script_of(ops@);
    let mut changes: Vec<LineChange> = Vec::new();
    let mut i: usize = 0;
    while i < ops.len()
        invariant
            i <= ops.len(),
            script == script_of(ops@),
            changes_of(changes@) == line_changes(script.take(i as int)),
        decreases ops.len() - i,
    {
        let ghost prev = changes@;
        proof {
            assert(script.take(i + 1).drop_last() =~= script.take(i as int));
            assert(script.take(i + 1).last() == ops@[i as int]@);
        }
        match ops[i].tag {
            ChangeTag::Equal => {},
            ChangeTag::Insert => {
                let entry = LineChange {
                    line_number: i + 1,
                    change_type: ChangeType::Insert,
                    content: ops[i].text.clone(),
                };
                changes.push(entry);
                proof {
                    assert(changes_of(changes@) =~= changes_of(prev).push(entry@));
                }
            },
            ChangeTag::Delete => {
                let entry = LineChange {
                    line_number: i + 1,
                    change_type: ChangeType::Delete,
                    content: ops[i].text.clone(),
                };
                changes.push(entry);
                proof {
                    assert(changes_of(changes@) =~= changes_of(prev).push(entry@));
                }
            },
        }
        i = i + 1;
    }
    proof {
        assert(script.take(i as int) =~= script);
    }
    changes
}

/// Lists the lines that differ between two texts: the deleted and the inserted
/// lines of their line script, in the script's order.
pub fn get_line_changes(text1: String, text2: String) -> (changes: Vec<LineChange>)
    ensures
        changes_of(changes@) == line_changes(line_script(text1@, text2@)),
{
    let ops = diff_lines(text1.as_str(), text2.as_str());
    line_changes_from(&ops)
}

} // verus!
