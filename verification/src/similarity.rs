//! The similarity of two texts, as the counts its ratio is made of.

use crate::change::{
    all_equal,
    count_tag,
    lemma_all_equal_counts,
    lemma_counts_sum,
    lemma_unit_sides,
    script_of,
    Change,
    ChangeTag,
};
use crate::diff::count_line_changes;
use crate::differ::{char_script, diff_chars};
use vstd::prelude::*;

verus! {

/// The counts behind a similarity ratio. The ratio is twice `matched` over
/// `old_len + new_len`, and 1 where both texts are empty.
#[derive(Clone, Copy, Debug, PartialEq, Eq)]
pub struct SimilarityCounts {
    /// The number of characters that the alignment keeps.
    pub matched: usize,
    /// The number of characters of the first text.
    pub old_len: usize,
    /// The number of characters of the second text.
    pub new_len: usize,
}

impl SimilarityCounts {
    /// The ratio lies between 0 and 1: no more is matched than either text holds.
    pub open spec fn in_bounds(self) -> bool {
        self.matched <= self.old_len && self.matched <= self.new_len
    }

    /// The ratio is 1: every character of both texts is matched.
    pub open spec fn is_one(self) -> bool {
        2 * self.matched == self.old_len + self.new_len
    }
}

/// Counts, in a script, the kept operations and the operations on either side.
pub fn similarity_counts(ops: &Vec<Change>) -> (c: SimilarityCounts)
    ensures
        c.matched == count_tag(script_of(ops@), ChangeTag::Equal),
        c.old_len == script_of(ops@).len() - count_tag(script_of(ops@), ChangeTag::Insert),
        c.new_len == script_of(ops@).len() - count_tag(script_of(ops@), ChangeTag::Delete),
        c.in_bounds(),
{
    let counts = count_line_changes(ops);
    proof {
        lemma_counts_sum(script_of(ops@));
    }
    let old_len: usize = ops.len() - counts.0;
    SimilarityCounts { matched: old_len - counts.1, old_len, new_len: ops.len() - counts.1 }
}

/// Aligns two texts character by character and counts what matches. Equal
/// texts, the empty ones among them, match in full.
pub fn calculate_similarity(text1: String, text2: String) -> (c: SimilarityCounts)
    ensures
        c.matched == count_tag(char_script(text1@, text2@), ChangeTag::Equal),
        c.old_len == text1@.len(),
        c.new_len == text2@.len(),
        c.in_bounds(),
        text1@ == text2@ ==> c.is_one(),
{
    let ops = diff_chars(text1.as_str(), text2.as_str());
    proof {
        lemma_unit_sides(script_of(ops@));
        if text1@ == text2@ {
            lemma_all_equal_counts(script_of(ops@), ChangeTag::Insert);
            lemma_all_equal_counts(script_of(ops@), ChangeTag::Delete);
        }
    }
    similarity_counts(&ops)
}

} // verus!
