//! Differences between two versions of a text: an edit script over lines or
//! characters, the counts and the summary derived from it, a significance
//! test against a threshold, similarity counts, and the same work over a
//! batch of pairs with one result slot per pair.

pub mod batch;
pub mod change;
pub mod dedup;
pub mod diff;
pub mod differ;
pub mod language;
pub mod laws;
pub mod patterns;
pub mod permissions;
pub mod similarity;
pub mod stats;
pub mod summary;

pub use batch::{batch_calculate_diffs, diff_pair, DiffError};
pub use change::{Change, ChangeTag};
pub use dedup::deduplicate_strings;
pub use diff::{
    calculate_diff, count_line_changes, get_line_changes, line_changes_from, summarize,
    ChangeType, DiffResult, LineChange,
};
pub use differ::{diff, Granularity};
pub use language::{
    detect_language, extract_functions, language_by_content, language_by_name, pattern_for, Language,
};
pub use patterns::{present_groups, search_patterns, PatternCount};
pub use permissions::{
    get_permission_status_message, join, permission_settings_url, PermissionStatus,
};
pub use similarity::{calculate_similarity, similarity_counts, SimilarityCounts};
pub use stats::{calculate_file_stats, count_lines, FileStats};
pub use summary::{decimal_string, is_significant, summary_string, DEFAULT_THRESHOLD};
