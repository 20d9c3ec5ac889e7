//! Comparison of many pairs at once, with one result slot per pair.

use crate::diff::{calculate_diff, diff_result, DiffResult};
use crate::differ::line_script;
use crate::summary::threshold_of;
use rayon::iter::{IntoParallelRefIterator, ParallelIterator};
use vstd::prelude::*;
use vstd::utf8::{decode_utf8, valid_utf8};

verus! {

/// Why a pair could not be compared.
#[derive(Clone, Copy, Debug, PartialEq, Eq, Structural)]
pub enum DiffError {
    /// One of the two buffers is not text in UTF-8.
    InvalidInput,
}

/// The slot that a pair of buffers fills: the result record of the two texts
/// without the unified rendering, or `InvalidInput` where one is not UTF-8.
pub open spec fn slot_for(
    before: Seq<u8>,
    after: Seq<u8>,
    threshold: int,
    slot: Result<DiffResult, DiffError>,
) -> bool {
    if valid_utf8(before) && valid_utf8(after) {
        match slot {
            Ok(r) => r@ == diff_result(
                line_script(decode_utf8(before), decode_utf8(after)),
                decode_utf8(before),
                decode_utf8(after),
                threshold,
                None,
            ),
            Err(_) => false,
        }
    } else {
        slot == Err::<DiffResult, DiffError>(DiffError::InvalidInput)
    }
}

/// Calls `std::str::from_utf8`.
///
/// Trusted: it accepts exactly the byte strings that are UTF-8, and the text
/// it returns is the one they encode.
#[verifier::external_body]
fn decode_text(bytes: &Vec<u8>) -> (text: Option<&str>)
    ensures
        text is Some <==> valid_utf8(bytes@),
        text is Some ==> text->0@ == decode_utf8(bytes@),
{
    match std::str::from_utf8(bytes) {
        Ok(s) => Some(s),
        Err(_) => None,
    }
}

/// Compares one pair of buffers: `InvalidInput` where one of them is not
/// UTF-8, else the result record of the two texts.
pub fn diff_pair(before: &Vec<u8>, after: &Vec<u8>, threshold: i32) -> (slot: Result<
    DiffResult,
    DiffError,
>)
    ensures
        slot_for(before@, after@, threshold as int, slot),
{
    match decode_text(before) {
        Some(a) => match decode_text(after) {
            Some(b) => Ok(calculate_diff(a.to_owned(), b.to_owned(), Some(threshold), Some(false))),
            None => Err(DiffError::InvalidInput),
        },
        None => Err(DiffError::InvalidInput),
    }
}

/// Calls rayon's `par_iter`, `map` and `collect` on the pairs, with `diff_pair`
/// as the work on each.
///
/// Trusted: a parallel iterator of known length is collected into a `Vec` by
/// writing each item at its index, so that slot `i` is what the closure
/// returned for pair `i`, whichever worker ran it.
#[verifier::external_body]
fn diff_each(pairs: &Vec<(Vec<u8>, Vec<u8>)>, threshold: i32) -> (slots: Vec<
    Result<DiffResult, DiffError>,
>)
    ensures
        slots@.len() == pairs@.len(),
        forall|i: int|
            0 <= i < pairs@.len() ==> slot_for(
                pairs@[i].0@,
                pairs@[i].1@,
                threshold as int,
                #[trigger] slots@[i],
            ),
{
    pairs.par_iter().map(|p| diff_pair(&p.0, &p.1, threshold)).collect()
}

/// Compares every pair of a batch, in parallel. The output has one slot per
/// pair, in the order of the input: slot `i` holds the result for pair `i`, or
/// the error of that pair alone.
pub fn batch_calculate_diffs(pairs: Vec<(Vec<u8>, Vec<u8>)>, threshold: Option<i32>) -> (slots: Vec<
    Result<DiffResult, DiffError>,
>)
    ensures
        slots@.len() == pairs@.len(),
        forall|i: int|
            0 <= i < pairs@.len() ==> slot_for(
                pairs@[i].0@,
                pairs@[i].1@,
                threshold_of(threshold),
                #[trigger] slots@[i],
            ),
{
    let diff_threshold = match threshold {
        Some(t) => t,
        None => crate::summary::DEFAULT_THRESHOLD,
    };
    diff_each(&pairs, diff_threshold)
}

} // verus!
