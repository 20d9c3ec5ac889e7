//! Regular expressions over a text, as the `regex` crate matches them.

use vstd::prelude::*;

verus! {

/// Whether a text is a regular expression that can be compiled.
pub uninterp spec fn pattern_compiles(pattern: Seq<char>) -> bool;

/// The number of matches of a pattern in a text, none of them overlapping.
pub uninterp spec fn match_count(pattern: Seq<char>, content: Seq<char>) -> nat;

/// For each match of a pattern in a text, what its first group captured, if
/// it took part in the match.
pub uninterp spec fn first_groups(pattern: Seq<char>, content: Seq<char>) -> Seq<Option<Seq<char>>>;

/// Calls `regex::Regex::new` and counts what `find_iter` yields.
///
/// Trusted: whether the pattern compiles depends on the pattern alone, and the
/// number of matches on the pattern and the text alone.
#[verifier::external_body]
pub(crate) fn count_matches(pattern: &str, content: &str) -> (count: Option<usize>)
    ensures
        count is Some <==> pattern_compiles(pattern@),
        count is Some ==> count->0 == match_count(pattern@, content@),
{
    match regex::Regex::new(pattern) {
        Ok(re) => Some(re.find_iter(content).count()),
        Err(_) => None,
    }
}

/// Calls `regex::Regex::new`, then `captures_iter`, and takes group 1 of each
/// match with `get`.
///
/// Trusted: whether the pattern compiles depends on the pattern alone, and
/// what is captured on the pattern and the text alone.
#[verifier::external_body]
pub(crate) fn capture_first_groups(pattern: &str, content: &str) -> (groups: Option<
    Vec<Option<String>>,
>)
    ensures
        groups is Some <==> pattern_compiles(pattern@),
        groups is Some ==> captured_of(groups->0@) == first_groups(pattern@, content@),
{
    match regex::Regex::new(pattern) {
        Ok(re) => Some(
            re.captures_iter(content).map(|c| c.get(1).map(|m| m.as_str().to_string())).collect(),
        ),
        Err(_) => None,
    }
}

/// A list of captures, each by its characters.
pub open spec fn captured_of(groups: Seq<Option<String>>) -> Seq<Option<Seq<char>>> {
    groups.map_values(
        |g: Option<String>|
            match g {
                Some(t) => Some(t@),
                None => None,
            },
    )
}

/// A pattern with the number of its matches.
#[derive(Clone, Debug, PartialEq, Eq)]
pub struct PatternCount {
    pub pattern: String,
    pub count: usize,
}

impl View for PatternCount {
    type V = (Seq<char>, nat);

    open spec fn view(&self) -> (Seq<char>, nat) {
        (self.pattern@, self.count as nat)
    }
}

/// A list of counts, each by its view.
pub open spec fn counts_of(counts: Seq<PatternCount>) -> Seq<(Seq<char>, nat)> {
    counts.map_values(|c: PatternCount| c@)
}

/// A list of texts, each by its characters.
pub open spec fn strings_of(texts: Seq<String>) -> Seq<Seq<char>> {
    texts.map_values(|t: String| t@)
}

/// The patterns that compile, in their order, each with the number of its
/// matches in `content`.
pub open spec fn pattern_counts(patterns: Seq<Seq<char>>, content: Seq<char>) -> Seq<
    (Seq<char>, nat),
>
    decreases patterns.len(),
{
    if patterns.len() == 0 {
        Seq::empty()
    } else if pattern_compiles(patterns.last()) {
        pattern_counts(patterns.drop_last(), content).push(
            (patterns.last(), match_count(patterns.last(), content)),
        )
    } else {
        pattern_counts(patterns.drop_last(), content)
    }
}

/// The captures that are present, in their order.
pub open spec fn present(groups: Seq<Option<Seq<char>>>) -> Seq<Seq<char>>
    decreases groups.len(),
{
    if groups.len() == 0 {
        Seq::empty()
    } else {
        match groups.last() {
            Some(t) => present(groups.drop_last()).push(t),
            None => present(groups.drop_last()),
        }
    }
}

/// Counts the matches of each pattern in a text. A pattern that does not
/// compile is left out; the others keep their order.
pub fn search_patterns(content: String, patterns: Vec<String>) -> (counts: Vec<PatternCount>)
    ensures
        counts_of(counts@) == pattern_counts(strings_of(patterns@), content@),
{
    let ghost all = strings_of(patterns@);
    let mut counts: Vec<PatternCount> = Vec::new();
    let mut i: usize = 0;
    while i < patterns.len()
        invariant
            i <= patterns.len(),
            all == strings_of(patterns@),
            counts_of(counts@) == pattern_counts(all.take(i as int), content@),
        decreases patterns.len() - i,
    {
        let ghost prev = counts@;
        proof {
            assert(all.take(i + 1).drop_last() =~= all.take(i as int));
            assert(all.take(i + 1).last() == patterns@[i as int]@);
        }
        match count_matches(patterns[i].as_str(), content.as_str()) {
            Some(count) => {
                let entry = PatternCount { pattern: patterns[i].clone(), count };
                counts.push(entry);
                proof {
                    assert(counts_of(counts@) =~= counts_of(prev).push(entry@));
                }
            },
            None => {},
        }
        i = i + 1;
    }
    proof {
        assert(all.take(i as int) =~= all);
    }
    counts
}

/// Keeps the captures that are present, in their order.
pub fn present_groups(groups: Vec<Option<String>>) -> (names: Vec<String>)
    ensures
        strings_of(names@) == present(captured_of(groups@)),
{
    let ghost all = captured_of(groups@);
    let mut names: Vec<String> = Vec::new();
    let mut i: usize = 0;
    while i < groups.len()
        invariant
            i <= groups.len(),
            all == captured_of(groups@),
            strings_of(names@) == present(all.take(i as int)),
        decreases groups.len() - i,
    {
        let ghost prev = names@;
        proof {
            assert(all.take(i + 1).drop_last() =~= all.take(i as int));
            assert(all.take(i + 1).last() == all[i as int]);
        }
        match &groups[i] {
            Some(name) => {
                let kept = name.clone();
                names.push(kept);
                proof {
                    assert(strings_of(names@) =~= strings_of(prev).push(kept@));
                }
            },
            None => {},
        }
        i = i + 1;
    }
    proof {
        assert(all.take(i as int) =~= all);
    }
    names
}

} // verus!
