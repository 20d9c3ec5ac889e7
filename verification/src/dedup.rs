//! Removal of repeated texts from a list, with the texts seen so far kept in
//! an `ahash` map.

use crate::patterns::strings_of;
use ahash::AHashMap;
use vstd::prelude::*;

verus! {

#[verifier::external_type_specification]
#[verifier::external_body]
#[verifier::reject_recursive_types(K)]
#[verifier::reject_recursive_types(V)]
#[verifier::reject_recursive_types(S)]
pub struct ExAHashMap<K, V, S>(ahash::AHashMap<K, V, S>);

#[verifier::external_type_specification]
#[verifier::external_body]
pub struct ExRandomState(ahash::RandomState);

/// The texts that a map holds as keys.
pub uninterp spec fn seen_texts(seen: AHashMap<String, bool>) -> Set<Seq<char>>;

/// Calls `AHashMap::new`.
///
/// Trusted: the new map holds no key.
#[verifier::external_body]
fn seen_new() -> (seen: AHashMap<String, bool>)
    ensures
        seen_texts(seen) == Set::<Seq<char>>::empty(),
{
    AHashMap::new()
}

/// Calls `contains_key`, which the map has from std's `HashMap`.
///
/// Trusted: it tells whether the text is among the keys.
#[verifier::external_body]
fn seen_contains(seen: &AHashMap<String, bool>, text: &String) -> (b: bool)
    ensures
        b == seen_texts(*seen).contains(text@),
{
    seen.contains_key(text)
}

/// Calls `AHashMap::insert` with the text as the key.
///
/// Trusted: afterwards the keys are those from before and the text.
#[verifier::external_body]
fn seen_insert(seen: &mut AHashMap<String, bool>, text: String)
    ensures
        seen_texts(*final(seen)) == seen_texts(*old(seen)).insert(text@),
{
    seen.insert(text, true);
}

/// A list without its repetitions: of equal texts the first stays, and what
/// stays keeps its order.
pub open spec fn first_occurrences(texts: Seq<Seq<char>>) -> Seq<Seq<char>>
    decreases texts.len(),
{
    if texts.len() == 0 {
        Seq::empty()
    } else if texts.drop_last().contains(texts.last()) {
        first_occurrences(texts.drop_last())
    } else {
        first_occurrences(texts.drop_last()).push(texts.last())
    }
}

/// Removes from a list every text that occurred earlier in it.
pub fn deduplicate_strings(strings: Vec<String>) -> (result: Vec<String>)
    ensures
        strings_of(result@) == first_occurrences(strings_of(strings@)),
{
    let ghost all = strings_of(strings@);
    let mut seen = seen_new();
    let mut result: Vec<String> = Vec::new();
    let mut i: usize = 0;
    while i < strings.len()
        invariant
            i <= strings.len(),
            all == strings_of(strings@),
            strings_of(result@) == first_occurrences(all.take(i as int)),
            forall|t: Seq<char>| seen_texts(seen).contains(t) <==> all.take(i as int).contains(t),
        decreases strings.len() - i,
    {
        let ghost prev = result@;
        let ghost before = all.take(i as int);
        let ghost now = all.take(i + 1);
        proof {
            assert(now.drop_last() =~= before);
            assert(now.last() == strings@[i as int]@);
        }
        if !seen_contains(&seen, &strings[i]) {
            seen_insert(&mut seen, strings[i].clone());
            let kept = strings[i].clone();
            result.push(kept);
            proof {
                assert(strings_of(result@) =~= strings_of(prev).push(kept@));
            }
        }
        proof {
            assert forall|t: Seq<char>| seen_texts(seen).contains(t) <==> now.contains(t) by {
                if now.contains(t) {
                    let j = choose|j: int| 0 <= j < now.len() && now[j] == t;
                    if j < i {
                        assert(before[j] == t);
                    }
                }
                if before.contains(t) {
                    let j = choose|j: int| 0 <= j < before.len() && before[j] == t;
                    assert(now[j] == t);
                }
                assert(now[i as int] == now.last());
            }
        }
        i = i + 1;
    }
    proof {
        assert(all.take(i as int) =~= all);
    }
    result
}

/// What is left of a list holds no text twice.
pub proof fn law_first_occurrences_distinct(texts: Seq<Seq<char>>)
    ensures
        first_occurrences(texts).no_duplicates(),
        forall|t: Seq<char>| first_occurrences(texts).contains(t) <==> texts.contains(t),
    decreases texts.len(),
{
    if texts.len() > 0 {
        let front = texts.drop_last();
        law_first_occurrences_distinct(front);
        let kept = first_occurrences(texts);
        assert forall|t: Seq<char>| kept.contains(t) <==> texts.contains(t) by {
            if texts.contains(t) {
                let j = choose|j: int| 0 <= j < texts.len() && texts[j] == t;
                if j < front.len() {
                    assert(front[j] == t);
                }
                if !front.contains(t) {
                    assert(kept.last() == t);
                    assert(kept[kept.len() - 1] == t);
                } else {
                    let k = choose|k: int|
                        0 <= k < first_occurrences(front).len() && first_occurrences(front)[k] == t;
                    assert(kept[k] == t);
                }
            }
            if kept.contains(t) {
                let k = choose|k: int| 0 <= k < kept.len() && kept[k] == t;
                if k < first_occurrences(front).len() {
                    assert(first_occurrences(front)[k] == t);
                    assert(first_occurrences(front).contains(t));
                    assert(front.contains(t));
                    let j = choose|j: int| 0 <= j < front.len() && front[j] == t;
                    assert(texts[j] == t);
                } else {
                    assert(texts[texts.len() - 1] == t);
                }
            }
        }
    }
}

} // verus!
