use diff_engine::{
    calculate_file_stats, count_lines, deduplicate_strings, detect_language, extract_functions,
    get_permission_status_message, join, permission_settings_url, language_by_content, language_by_name, pattern_for,
    present_groups, search_patterns, FileStats, Language, PatternCount, PermissionStatus,
};

fn strings(items: &[&str]) -> Vec<String> {
    items.iter().map(|s| s.to_string()).collect()
}

fn status(disk: bool, access: bool, screen: Option<bool>) -> PermissionStatus {
    PermissionStatus {
        full_disk_access: disk,
        accessibility: access,
        automation: None,
        screen_recording: screen,
    }
}

#[test]
fn all_permissions_granted() {
    assert_eq!(
        get_permission_status_message(status(true, true, Some(true))),
        "\u{2705} All permissions granted!"
    );
    assert_eq!(
        get_permission_status_message(status(true, true, None)),
        "\u{2705} All permissions granted!"
    );
}

#[test]
fn automation_is_never_reported() {
    let s = PermissionStatus {
        full_disk_access: true,
        accessibility: true,
        automation: Some(false),
        screen_recording: Some(true),
    };
    assert_eq!(get_permission_status_message(s), "\u{2705} All permissions granted!");
}

#[test]
fn missing_permissions_are_listed_one_per_line() {
    assert_eq!(
        get_permission_status_message(status(false, true, Some(true))),
        "\u{274c} Full Disk Access - Required for reading Cursor database"
    );
    assert_eq!(
        get_permission_status_message(status(true, false, Some(false))),
        "\u{274c} Accessibility - Required for IDE state capture\n\u{26a0}\u{fe0f}  Screen Recording - Optional for screenshot capture"
    );
    assert_eq!(
        get_permission_status_message(status(false, false, Some(false))),
        "\u{274c} Full Disk Access - Required for reading Cursor database\n\u{274c} Accessibility - Required for IDE state capture\n\u{26a0}\u{fe0f}  Screen Recording - Optional for screenshot capture"
    );
    assert_eq!(
        get_permission_status_message(status(false, false, None)),
        "\u{274c} Full Disk Access - Required for reading Cursor database\n\u{274c} Accessibility - Required for IDE state capture"
    );
}

#[test]
fn join_puts_the_separator_between_lines() {
    assert_eq!(join(&Vec::new(), ", "), "");
    assert_eq!(join(&vec!["a"], ", "), "a");
    assert_eq!(join(&vec!["a", "b", "c"], ", "), "a, b, c");
    assert_eq!(join(&vec!["", ""], "-"), "-");
}

#[test]
fn language_by_extension() {
    let cases = [
        ("main.rs", "rust"),
        ("app.js", "javascript"),
        ("App.jsx", "javascript"),
        ("mod.ts", "typescript"),
        ("View.tsx", "typescript"),
        ("run.py", "python"),
        ("srv.go", "go"),
        ("Main.java", "java"),
        ("a.cpp", "cpp"),
        ("a.cc", "cpp"),
        ("a.cxx", "cpp"),
        ("a.c", "c"),
        ("a.h", "c"),
    ];
    for (name, language) in cases {
        assert_eq!(detect_language("fn main() {}".to_string(), Some(name.to_string())), language);
    }
    assert_eq!(language_by_name("notes.txt"), None);
    assert_eq!(language_by_name("x.rs"), Some(Language::Rust));
    assert_eq!(language_by_name("rs"), None);
}

#[test]
fn language_by_content_when_the_name_does_not_tell() {
    assert_eq!(detect_language("fn main() {}".to_string(), None), "rust");
    assert_eq!(detect_language("impl Foo {}".to_string(), Some("notes.txt".to_string())), "rust");
    assert_eq!(detect_language("import os\ndef f():\n".to_string(), None), "python");
    assert_eq!(detect_language("def f():\n".to_string(), None), "unknown");
    assert_eq!(detect_language("function f() {}".to_string(), None), "javascript");
    assert_eq!(detect_language("const x = 1".to_string(), None), "javascript");
    assert_eq!(detect_language("x => x".to_string(), None), "javascript");
    assert_eq!(detect_language("package main\n".to_string(), None), "go");
    assert_eq!(detect_language("plain words".to_string(), None), "unknown");
    assert_eq!(detect_language("".to_string(), None), "unknown");
    assert_eq!(language_by_content("package main"), Language::Go);
    assert_eq!(Language::Cpp.as_str(), "cpp");
}

#[test]
fn functions_of_each_language() {
    assert_eq!(
        extract_functions(
            "function one() {}\nconst two = () => 1;\n  let three = 3\nvar four(\n".to_string(),
            "javascript".to_string()
        ),
        strings(&["one", "two", "three", "four"])
    );
    assert_eq!(
        extract_functions("function one() {}\n".to_string(), "typescript".to_string()),
        strings(&["one"])
    );
    assert_eq!(
        extract_functions("def a():\n    pass\n  def b(x):\nclass C:\n".to_string(), "python".to_string()),
        strings(&["a", "b"])
    );
    assert_eq!(
        extract_functions("fn a() {}\npub fn b<T>() {}\nstruct S;\n".to_string(), "rust".to_string()),
        strings(&["a", "b"])
    );
    assert_eq!(
        extract_functions("func a() {}\nfunc (r *T) b() {}\n".to_string(), "go".to_string()),
        strings(&["a", "b"])
    );
    assert_eq!(
        extract_functions("fn a() {}\n".to_string(), "cobol".to_string()),
        Vec::<String>::new()
    );
    assert_eq!(pattern_for(&"cobol".to_string()), None);
    assert_eq!(pattern_for(&"python".to_string()), Some("(?m)^\\s*def\\s+(\\w+)\\s*\\("));
}

#[test]
fn present_groups_drops_what_is_absent() {
    assert_eq!(
        present_groups(vec![Some("a".to_string()), None, Some("b".to_string()), None]),
        strings(&["a", "b"])
    );
    assert_eq!(present_groups(Vec::new()), Vec::<String>::new());
}

#[test]
fn patterns_are_counted_and_bad_ones_left_out() {
    let counts = search_patterns(
        "foo bar foo baz 123 foo".to_string(),
        strings(&["foo", "(unclosed", "\\d+", "nothing", "ba."]),
    );
    assert_eq!(
        counts,
        vec![
            PatternCount { pattern: "foo".to_string(), count: 3 },
            PatternCount { pattern: "\\d+".to_string(), count: 1 },
            PatternCount { pattern: "nothing".to_string(), count: 0 },
            PatternCount { pattern: "ba.".to_string(), count: 2 },
        ]
    );
    assert_eq!(search_patterns("x".to_string(), Vec::new()), Vec::new());
}

#[test]
fn repeated_strings_are_removed() {
    assert_eq!(
        deduplicate_strings(strings(&["a", "b", "a", "c", "b", "a"])),
        strings(&["a", "b", "c"])
    );
    assert_eq!(deduplicate_strings(Vec::new()), Vec::<String>::new());
    assert_eq!(deduplicate_strings(strings(&["x", "x", "x"])), strings(&["x"]));
    assert_eq!(deduplicate_strings(strings(&["", "A", "a", ""])), strings(&["", "A", "a"]));
}

#[test]
fn stats_of_a_small_file() {
    let content = "fn main() {\n    // comment\n\n    let x = 1;\n}\n# note\n/* block */\n";
    let stats = calculate_file_stats(content.to_string());
    assert_eq!(
        stats,
        FileStats { lines: 7, chars: content.len(), words: 15, blank_lines: 1, comment_lines: 3 }
    );
    assert_eq!(
        calculate_file_stats(String::new()),
        FileStats { lines: 0, chars: 0, words: 0, blank_lines: 0, comment_lines: 0 }
    );
}

#[test]
fn stats_from_lines() {
    let lines = vec!["  a b  ", "", "   ", "#x", "c"];
    assert_eq!(
        count_lines(&lines, 42),
        FileStats { lines: 5, chars: 42, words: 4, blank_lines: 2, comment_lines: 1 }
    );
}

#[test]
fn settings_pane_by_permission() {
    let base = "x-apple.systempreferences:com.apple.preference.security";
    assert_eq!(permission_settings_url(&"full_disk_access".to_string()), format!("{}?Privacy_AllFiles", base));
    assert_eq!(permission_settings_url(&"accessibility".to_string()), format!("{}?Privacy_Accessibility", base));
    assert_eq!(permission_settings_url(&"screen_recording".to_string()), format!("{}?Privacy_ScreenCapture", base));
    assert_eq!(permission_settings_url(&"automation".to_string()), format!("{}?Privacy_Automation", base));
    assert_eq!(permission_settings_url(&"camera".to_string()), base);
    assert_eq!(permission_settings_url(&"".to_string()), base);
}
