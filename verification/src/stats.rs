//! Counts over a single text: lines, bytes, words, blank lines and comment
//! lines.

use crate::summary::byte_len;
use vstd::prelude::*;

verus! {

/// The lines of a text, without their terminators.
pub uninterp spec fn lines_of(content: Seq<char>) -> Seq<Seq<char>>;

/// A text without the white space at its two ends.
pub uninterp spec fn trimmed(text: Seq<char>) -> Seq<char>;

/// The number of words in a text: its parts between white space.
pub uninterp spec fn word_count(text: Seq<char>) -> nat;

/// A list of texts, each by its characters.
pub open spec fn slices_of(lines: Seq<&str>) -> Seq<Seq<char>> {
    lines.map_values(|l: &str| l@)
}

/// Calls `str::lines` of std and collects what it yields.
///
/// Trusted: the lines are a function of the text.
#[verifier::external_body]
fn split_lines(content: &str) -> (lines: Vec<&str>)
    ensures
        slices_of(lines@) == lines_of(content@),
{
    content.lines().collect()
}

/// Calls `str::trim` of std.
///
/// Trusted: the result is a function of the text.
#[verifier::external_body]
fn trim_text(text: &str) -> (inner: &str)
    ensures
        inner@ == trimmed(text@),
{
    text.trim()
}

/// Calls `str::split_whitespace` of std and counts what it yields.
///
/// Trusted: the count is a function of the text.
#[verifier::external_body]
fn count_words(text: &str) -> (n: usize)
    ensures
        n == word_count(text@),
{
    text.split_whitespace().count()
}

/// `text` begins with `prefix`.
pub open spec fn starts_with(text: Seq<char>, prefix: Seq<char>) -> bool {
    prefix.len() <= text.len() && text.subrange(0, prefix.len() as int) == prefix
}

/// Calls `str::starts_with` of std with a text as the pattern.
///
/// Trusted: it tells whether the text begins with the pattern.
#[verifier::external_body]
fn text_starts_with(text: &str, prefix: &str) -> (b: bool)
    ensures
        b == starts_with(text@, prefix@),
{
    text.starts_with(prefix)
}

/// A line without content.
pub open spec fn is_blank(line: Seq<char>) -> bool {
    trimmed(line).len() == 0
}

/// A line that opens a comment in one of the common notations.
pub open spec fn is_comment(line: Seq<char>) -> bool {
    !is_blank(line) && (starts_with(trimmed(line), "//"@) || starts_with(trimmed(line), "#"@)
        || starts_with(trimmed(line), "/*"@))
}

/// The number of blank lines among `lines`.
pub open spec fn blank_total(lines: Seq<Seq<char>>) -> nat
    decreases lines.len(),
{
    if lines.len() == 0 {
        0
    } else {
        blank_total(lines.drop_last()) + if is_blank(lines.last()) {
            1nat
        } else {
            0nat
        }
    }
}

/// The number of comment lines among `lines`.
pub open spec fn comment_total(lines: Seq<Seq<char>>) -> nat
    decreases lines.len(),
{
    if lines.len() == 0 {
        0
    } else {
        comment_total(lines.drop_last()) + if is_comment(lines.last()) {
            1nat
        } else {
            0nat
        }
    }
}

/// The number of words in `lines`, line by line.
pub open spec fn words_total(lines: Seq<Seq<char>>) -> nat
    decreases lines.len(),
{
    if lines.len() == 0 {
        0
    } else {
        words_total(lines.drop_last()) + word_count(trimmed(lines.last()))
    }
}

/// The counts of a text.
#[derive(Clone, Copy, Debug, PartialEq, Eq)]
pub struct FileStats {
    /// The number of lines.
    pub lines: usize,
    /// The length in bytes.
    pub chars: usize,
    /// The number of words.
    pub words: u128,
    /// The number of lines without content.
    pub blank_lines: usize,
    /// The number of lines that open a comment.
    pub comment_lines: usize,
}

/// Counts blank lines, comment lines and words over the lines of a text.
pub fn count_lines(lines: &Vec<&str>, chars: usize) -> (stats: FileStats)
    ensures
        stats.lines == lines@.len(),
        stats.chars == chars,
        stats.words == words_total(slices_of(lines@)),
        stats.blank_lines == blank_total(slices_of(lines@)),
        stats.comment_lines == comment_total(slices_of(lines@)),
{
    let ghost all = slices_of(lines@);
    let mut blank_lines: usize = 0;
    let mut comment_lines: usize = 0;
    let mut words: u128 = 0;
    let mut i: usize = 0;
    while i < lines.len()
        invariant
            i <= lines.len(),
            all == slices_of(lines@),
            blank_lines == blank_total(all.take(i as int)),
            comment_lines == comment_total(all.take(i as int)),
            words == words_total(all.take(i as int)),
            blank_lines <= i,
            comment_lines <= i,
            words <= i * 0xffff_ffff_ffff_ffff,
        decreases lines.len() - i,
    {
        proof {
            assert(all.take(i + 1).drop_last() =~= all.take(i as int));
            assert(all.take(i + 1).last() == lines@[i as int]@);
        }
        let inner = trim_text(lines[i]);
        if inner.is_empty() {
            blank_lines = blank_lines + 1;
        } else if text_starts_with(inner, "//") || text_starts_with(inner, "#")
            || text_starts_with(inner, "/*") {
            comment_lines = comment_lines + 1;
        }
        let n = count_words(inner);
        words = words + (n as u128);
        i = i + 1;
    }
    proof {
        assert(all.take(i as int) =~= all);
    }
    FileStats { lines: lines.len(), chars, words, blank_lines, comment_lines }
}

/// Counts the lines, bytes and words of a text, and its blank and comment
/// lines.
pub fn calculate_file_stats(content: String) -> (stats: FileStats)
    ensures
        stats.lines == lines_of(content@).len(),
        stats.chars == byte_len(content@),
        stats.words == words_total(lines_of(content@)),
        stats.blank_lines == blank_total(lines_of(content@)),
        stats.comment_lines == comment_total(lines_of(content@)),
{
    let lines = split_lines(content.as_str());
    count_lines(&lines, content.as_str().as_bytes().len())
}

} // verus!
