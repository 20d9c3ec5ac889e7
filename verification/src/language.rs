//! Heuristics on source text: which language a file is written in, and which
//! functions it declares.

use crate::patterns::{
    capture_first_groups,
    first_groups,
    pattern_compiles,
    present,
    present_groups,
    strings_of,
};
use vstd::prelude::*;

verus! {

/// A language that the heuristics know, or none of them.
#[derive(Clone, Copy, Debug, PartialEq, Eq, Structural)]
pub enum Language {
    Rust,
    JavaScript,
    TypeScript,
    Python,
    Go,
    Java,
    Cpp,
    C,
    Unknown,
}

impl Language {
    /// The name of the language in lower case.
    pub open spec fn name(self) -> Seq<char> {
        match self {
            Language::Rust => "rust"@,
            Language::JavaScript => "javascript"@,
            Language::TypeScript => "typescript"@,
            Language::Python => "python"@,
            Language::Go => "go"@,
            Language::Java => "java"@,
            Language::Cpp => "cpp"@,
            Language::C => "c"@,
            Language::Unknown => "unknown"@,
        }
    }

    /// Writes the name of the language in lower case.
    pub fn as_str(&self) -> (s: &'static str)
        ensures
            s@ == self.name(),
    {
        match self {
            Language::Rust => "rust",
            Language::JavaScript => "javascript",
            Language::TypeScript => "typescript",
            Language::Python => "python",
            Language::Go => "go",
            Language::Java => "java",
            Language::Cpp => "cpp",
            Language::C => "c",
            Language::Unknown => "unknown",
        }
    }
}

/// `text` ends with `suffix`.
pub open spec fn ends_with(text: Seq<char>, suffix: Seq<char>) -> bool {
    suffix.len() <= text.len() && text.subrange(text.len() - suffix.len(), text.len() as int)
        == suffix
}

/// `part` stands somewhere in `text`.
pub open spec fn contains(text: Seq<char>, part: Seq<char>) -> bool {
    exists|i: int| 0 <= i && i + part.len() <= text.len() && #[trigger] text.subrange(i, i + part.len()) == part
}

/// Calls `str::ends_with` of std with a text as the pattern.
///
/// Trusted: it tells whether the text ends with the pattern.
#[verifier::external_body]
fn text_ends_with(text: &str, suffix: &str) -> (b: bool)
    ensures
        b == ends_with(text@, suffix@),
{
    text.ends_with(suffix)
}

/// Calls `str::contains` of std with a text as the pattern.
///
/// Trusted: it tells whether the pattern occurs in the text.
#[verifier::external_body]
fn text_contains(text: &str, part: &str) -> (b: bool)
    ensures
        b == contains(text@, part@),
{
    text.contains(part)
}

/// The language that a file name's extension stands for.
pub open spec fn language_of_name(name: Seq<char>) -> Option<Language> {
    if ends_with(name, ".rs"@) {
        Some(Language::Rust)
    } else if ends_with(name, ".js"@) || ends_with(name, ".jsx"@) {
        Some(Language::JavaScript)
    } else if ends_with(name, ".ts"@) || ends_with(name, ".tsx"@) {
        Some(Language::TypeScript)
    } else if ends_with(name, ".py"@) {
        Some(Language::Python)
    } else if ends_with(name, ".go"@) {
        Some(Language::Go)
    } else if ends_with(name, ".java"@) {
        Some(Language::Java)
    } else if ends_with(name, ".cpp"@) || ends_with(name, ".cc"@) || ends_with(name, ".cxx"@) {
        Some(Language::Cpp)
    } else if ends_with(name, ".c"@) || ends_with(name, ".h"@) {
        Some(Language::C)
    } else {
        None
    }
}

/// The language that the words of a text point to.
pub open spec fn language_of_content(content: Seq<char>) -> Language {
    if contains(content, "fn main()"@) || contains(content, "impl "@) {
        Language::Rust
    } else if contains(content, "def "@) && contains(content, "import "@) {
        Language::Python
    } else if contains(content, "function "@) || contains(content, "const "@) || contains(
        content,
        "=>"@,
    ) {
        Language::JavaScript
    } else if contains(content, "package main"@) {
        Language::Go
    } else {
        Language::Unknown
    }
}

/// The language of a file: by the extension of its name where that is known,
/// else by its content.
pub open spec fn detected(content: Seq<char>, filename: Option<Seq<char>>) -> Language {
    match filename {
        Some(name) => match language_of_name(name) {
            Some(language) => language,
            None => language_of_content(content),
        },
        None => language_of_content(content),
    }
}

/// Reads the language off the extension of a file name.
pub fn language_by_name(name: &str) -> (language: Option<Language>)
    ensures
        language == language_of_name(name@),
{
    if text_ends_with(name, ".rs") {
        Some(Language::Rust)
    } else if text_ends_with(name, ".js") || text_ends_with(name, ".jsx") {
        Some(Language::JavaScript)
    } else if text_ends_with(name, ".ts") || text_ends_with(name, ".tsx") {
        Some(Language::TypeScript)
    } else if text_ends_with(name, ".py") {
        Some(Language::Python)
    } else if text_ends_with(name, ".go") {
        Some(Language::Go)
    } else if text_ends_with(name, ".java") {
        Some(Language::Java)
    } else if text_ends_with(name, ".cpp") || text_ends_with(name, ".cc") || text_ends_with(
        name,
        ".cxx",
    ) {
        Some(Language::Cpp)
    } else if text_ends_with(name, ".c") || text_ends_with(name, ".h") {
        Some(Language::C)
    } else {
        None
    }
}

/// Guesses the language of a text from words that it holds.
pub fn language_by_content(content: &str) -> (language: Language)
    ensures
        language == language_of_content(content@),
{
    if text_contains(content, "fn main()") || text_contains(content, "impl ") {
        Language::Rust
    } else if text_contains(content, "def ") && text_contains(content, "import ") {
        Language::Python
    } else if text_contains(content, "function ") || text_contains(content, "const ")
        || text_contains(content, "=>") {
        Language::JavaScript
    } else if text_contains(content, "package main") {
        Language::Go
    } else {
        Language::Unknown
    }
}

/// A file name that may be absent, by its characters.
pub open spec fn name_of(filename: Option<String>) -> Option<Seq<char>> {
    match filename {
        Some(name) => Some(name@),
        None => None,
    }
}

/// Names the language of a file: by the extension of its name where that is
/// known, else by its content, else `unknown`.
pub fn detect_language(content: String, filename: Option<String>) -> (name: String)
    ensures
        name@ == detected(content@, name_of(filename)).name(),
{
    let by_name = match &filename {
        Some(name) => language_by_name(name.as_str()),
        None => None,
    };
    let language = match by_name {
        Some(language) => language,
        None => language_by_content(content.as_str()),
    };
    language.as_str().to_owned()
}

/// The pattern that finds the declared functions of a language, with the
/// function's name as its first group.
pub open spec fn declaration_pattern(language: Seq<char>) -> Option<Seq<char>> {
    if language == "javascript"@ || language == "typescript"@ {
        Some("(?m)^\\s*(?:function|const|let|var)\\s+(\\w+)\\s*[=\\(]"@)
    } else if language == "python"@ {
        Some("(?m)^\\s*def\\s+(\\w+)\\s*\\("@)
    } else if language == "rust"@ {
        Some("(?m)^\\s*(?:pub\\s+)?fn\\s+(\\w+)\\s*[<\\(]"@)
    } else if language == "go"@ {
        Some("(?m)^\\s*func\\s+(?:\\([^)]*\\)\\s+)?(\\w+)\\s*\\("@)
    } else {
        None
    }
}

/// The names of the functions that a text declares, for a language by its
/// name: what the language's pattern captures, where it has one that compiles.
pub open spec fn declared_functions(content: Seq<char>, language: Seq<char>) -> Seq<Seq<char>> {
    match declaration_pattern(language) {
        Some(pattern) => if pattern_compiles(pattern) {
            present(first_groups(pattern, content))
        } else {
            Seq::empty()
        },
        None => Seq::empty(),
    }
}

/// Picks the declaration pattern of a language by its name.
pub fn pattern_for(language: &String) -> (pattern: Option<&'static str>)
    ensures
        match pattern {
            Some(p) => declaration_pattern(language@) == Some(p@),
            None => declaration_pattern(language@).is_none(),
        },
{
    if *language == "javascript".to_owned() || *language == "typescript".to_owned() {
        Some("(?m)^\\s*(?:function|const|let|var)\\s+(\\w+)\\s*[=\\(]")
    } else if *language == "python".to_owned() {
        Some("(?m)^\\s*def\\s+(\\w+)\\s*\\(")
    } else if *language == "rust".to_owned() {
        Some("(?m)^\\s*(?:pub\\s+)?fn\\s+(\\w+)\\s*[<\\(]")
    } else if *language == "go".to_owned() {
        Some("(?m)^\\s*func\\s+(?:\\([^)]*\\)\\s+)?(\\w+)\\s*\\(")
    } else {
        None
    }
}

/// Lists the names of the functions that a text declares, in their order.
/// A language without a pattern has none.
pub fn extract_functions(content: String, language: String) -> (functions: Vec<String>)
    ensures
        strings_of(functions@) == declared_functions(content@, language@),
{
    match pattern_for(&language) {
        Some(pattern) => match capture_first_groups(pattern, content.as_str()) {
            Some(groups) => present_groups(groups),
            None => Vec::new(),
        },
        None => Vec::new(),
    }
}

} // verus!
