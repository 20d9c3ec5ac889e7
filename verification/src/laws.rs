//! What holds of the library as a whole, beyond the contract of one function.

use crate::change::{script_of, Change};
use crate::differ::{edit_script, Granularity};
use crate::summary::{chars_added, chars_deleted, length_delta, significant};
use vstd::prelude::*;

verus! {

/// Two runs of the differ on the same texts at the same granularity give the
/// same script.
pub proof fn law_diff_deterministic(
    first: Seq<Change>,
    second: Seq<Change>,
    before: Seq<char>,
    after: Seq<char>,
    granularity: Granularity,
)
    requires
        script_of(first) == edit_script(before, after, granularity),
        script_of(second) == edit_script(before, after, granularity),
    ensures
        script_of(first) == script_of(second),
        first.len() == second.len(),
        forall|i: int| 0 <= i < first.len() ==> (#[trigger] first[i]).text@ == second[i].text@,
        forall|i: int| 0 <= i < first.len() ==> (#[trigger] first[i]).tag == second[i].tag,
{
    assert(script_of(first).len() == first.len());
    assert(script_of(second).len() == second.len());
    assert forall|i: int| 0 <= i < first.len() implies (#[trigger] first[i])@ == second[i]@ by {
        assert(script_of(first)[i] == first[i]@);
        assert(script_of(second)[i] == second[i]@);
    }
}

/// What one direction adds, the other deletes.
pub proof fn law_delta_symmetry(a: Seq<char>, b: Seq<char>)
    ensures
        chars_added(a, b) == chars_deleted(b, a),
        chars_deleted(a, b) == chars_added(b, a),
        length_delta(a, b) == length_delta(b, a),
{
}

/// At most one of the two deltas is not zero.
pub proof fn law_one_sided_delta(a: Seq<char>, b: Seq<char>)
    ensures
        chars_added(a, b) == 0 || chars_deleted(a, b) == 0,
{
}

/// A delta equal to the threshold is significant; one below it by 1 is not.
pub proof fn law_significance_boundary(diff_size: nat, threshold: int)
    ensures
        diff_size == threshold ==> significant(diff_size, threshold),
        diff_size == threshold - 1 ==> !significant(diff_size, threshold),
{
}

} // verus!
