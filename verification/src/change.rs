//! The operations of an edit script and what can be read off a script.

use vstd::prelude::*;

verus! {

/// What one operation of an edit script does with its segment.
#[derive(Clone, Copy, Debug, PartialEq, Eq, Structural)]
pub enum ChangeTag {
    /// The segment stands in both texts.
    Equal,
    /// The segment stands in the new text only.
    Insert,
    /// The segment stands in the old text only.
    Delete,
}

/// One operation of an edit script: a tag and the segment it applies to.
#[derive(Clone, Debug, PartialEq, Eq)]
pub struct Change {
    pub tag: ChangeTag,
    pub text: String,
}

impl View for Change {
    type V = (ChangeTag, Seq<char>);

    open spec fn view(&self) -> (ChangeTag, Seq<char>) {
        (self.tag, self.text@)
    }
}

/// A script as contracts speak of it: each operation by its view.
pub open spec fn script_of(ops: Seq<Change>) -> Seq<(ChangeTag, Seq<char>)> {
    ops.map_values(|c: Change| c@)
}

/// How many operations of `script` carry `tag`.
pub open spec fn count_tag(script: Seq<(ChangeTag, Seq<char>)>, tag: ChangeTag) -> nat
    decreases script.len(),
{
    if script.len() == 0 {
        0
    } else {
        count_tag(script.drop_last(), tag) + if script.last().0 == tag {
            1nat
        } else {
            0nat
        }
    }
}

/// The old text as the script spells it: the segments that are not inserted.
pub open spec fn old_side(script: Seq<(ChangeTag, Seq<char>)>) -> Seq<char>
    decreases script.len(),
{
    if script.len() == 0 {
        Seq::empty()
    } else if script.last().0 == ChangeTag::Insert {
        old_side(script.drop_last())
    } else {
        old_side(script.drop_last()) + script.last().1
    }
}

/// The new text as the script spells it: the segments that are not deleted.
pub open spec fn new_side(script: Seq<(ChangeTag, Seq<char>)>) -> Seq<char>
    decreases script.len(),
{
    if script.len() == 0 {
        Seq::empty()
    } else if script.last().0 == ChangeTag::Delete {
        new_side(script.drop_last())
    } else {
        new_side(script.drop_last()) + script.last().1
    }
}

/// Every operation keeps its segment.
pub open spec fn all_equal(script: Seq<(ChangeTag, Seq<char>)>) -> bool {
    forall|i: int| 0 <= i < script.len() ==> (#[trigger] script[i]).0 == ChangeTag::Equal
}

/// Every segment is a single character.
pub open spec fn unit_segments(script: Seq<(ChangeTag, Seq<char>)>) -> bool {
    forall|i: int| 0 <= i < script.len() ==> (#[trigger] script[i]).1.len() == 1
}

/// A script without changes counts no operation under another tag.
pub proof fn lemma_all_equal_counts(script: Seq<(ChangeTag, Seq<char>)>, tag: ChangeTag)
    requires
        all_equal(script),
    ensures
        tag != ChangeTag::Equal ==> count_tag(script, tag) == 0,
        count_tag(script, ChangeTag::Equal) == script.len(),
    decreases script.len(),
{
    if script.len() > 0 {
        assert(script.last() == script[script.len() - 1]);
        lemma_all_equal_counts(script.drop_last(), tag);
    }
}

/// With single-character segments the two sides have as many characters as
/// the script has operations that are not inserted, or not deleted.
pub proof fn lemma_unit_sides(script: Seq<(ChangeTag, Seq<char>)>)
    requires
        unit_segments(script),
    ensures
        old_side(script).len() == script.len() - count_tag(script, ChangeTag::Insert),
        new_side(script).len() == script.len() - count_tag(script, ChangeTag::Delete),
    decreases script.len(),
{
    if script.len() > 0 {
        assert(script.last() == script[script.len() - 1]);
        lemma_unit_sides(script.drop_last());
    }
}

/// The three tags share the operations of a script among them.
pub proof fn lemma_counts_sum(script: Seq<(ChangeTag, Seq<char>)>)
    ensures
        count_tag(script, ChangeTag::Equal) + count_tag(script, ChangeTag::Insert) + count_tag(
            script,
            ChangeTag::Delete,
        ) == script.len(),
    decreases script.len(),
{
    if script.len() > 0 {
        lemma_counts_sum(script.drop_last());
    }
}

} // verus!
