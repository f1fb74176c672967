use mcp_ast_grep::paths::{is_absolute, join};
use mcp_ast_grep::text::{
    chars_of, contains, decimal, ends_with, eq_ignore_ascii_case, join_strings, parse_usize,
    replace, split, split_once, split_whitespace, starts_with, str_eq, string_of, strip_prefix,
    to_title_case, trim,
};

#[test]
fn chars_and_strings_round_trip() {
    let v = chars_of("héllo");
    assert_eq!(v, vec!['h', 'é', 'l', 'l', 'o']);
    assert_eq!(string_of(&v, 1, 4), "éll");
    assert_eq!(string_of(&v, 2, 2), "");
}

#[test]
fn str_eq_compares_characters() {
    assert!(str_eq("rust", "rust"));
    assert!(!str_eq("rust", "rusty"));
    assert!(!str_eq("rust", "ruse"));
    assert!(str_eq("", ""));
}

#[test]
fn prefixes_suffixes_and_occurrences() {
    assert!(starts_with("file:///tmp", "file://"));
    assert!(!starts_with("fil", "file://"));
    assert!(starts_with("abc", ""));
    assert!(ends_with("bin/ast-grep", "ast-grep"));
    assert!(!ends_with("ast-grep.txt", "ast-grep"));
    assert!(contains("hello world", "lo wo"));
    assert!(!contains("hello", "world"));
    assert!(contains("hello", ""));
    assert_eq!(strip_prefix("file:///tmp", "file://"), Some("/tmp".to_string()));
    assert_eq!(strip_prefix("/tmp", "file://"), None);
}

#[test]
fn trim_removes_white_space_at_both_ends() {
    assert_eq!(trim("  /usr/bin/ast-grep\n"), "/usr/bin/ast-grep");
    assert_eq!(trim("\t a b \r\n"), "a b");
    assert_eq!(trim("   "), "");
    assert_eq!(trim(""), "");
    assert_eq!(trim("\u{2003}x\u{00A0}"), "x");
}

#[test]
fn join_strings_puts_separator_between_parts() {
    let parts = vec!["id".to_string(), "language".to_string(), "rule".to_string()];
    assert_eq!(join_strings(&parts, ", "), "id, language, rule");
    assert_eq!(join_strings(&vec!["x".to_string()], ", "), "x");
    assert_eq!(join_strings(&Vec::new(), ", "), "");
}

#[test]
fn decimal_writes_numbers() {
    assert_eq!(decimal(0), "0");
    assert_eq!(decimal(7), "7");
    assert_eq!(decimal(10), "10");
    assert_eq!(decimal(1234567890), "1234567890");
    assert_eq!(decimal(u64::MAX), "18446744073709551615");
}

#[test]
fn replace_replaces_every_occurrence() {
    assert_eq!(replace("a {x} b {x}", "{x}", "1"), "a 1 b 1");
    assert_eq!(replace("var to const", " ", "-"), "var-to-const");
    assert_eq!(replace("aaa", "aa", "b"), "ba");
    assert_eq!(replace("abc", "", "x"), "abc");
    assert_eq!(replace("abc", "abcd", "x"), "abc");
    assert_eq!(replace("{a}", "{a}", "{a}{a}"), "{a}{a}");
}

#[test]
fn split_once_splits_at_first_separator() {
    assert_eq!(split_once("a=b=c", '='), Some(("a".to_string(), "b=c".to_string())));
    assert_eq!(split_once("=b", '='), Some(("".to_string(), "b".to_string())));
    assert_eq!(split_once("abc", '='), None);
}

#[test]
fn split_keeps_empty_parts() {
    assert_eq!(split("a&b&c", '&'), vec!["a", "b", "c"]);
    assert_eq!(split("a&&c&", '&'), vec!["a", "", "c", ""]);
    assert_eq!(split("", '&'), vec![""]);
}

#[test]
fn split_whitespace_gives_words() {
    assert_eq!(split_whitespace("  find all\tfunction\n declarations "), vec![
        "find",
        "all",
        "function",
        "declarations"
    ]);
    assert!(split_whitespace(" \n ").is_empty());
}

#[test]
fn eq_ignore_ascii_case_ignores_only_ascii_case() {
    assert!(eq_ignore_ascii_case("Rust", "rUST"));
    assert!(!eq_ignore_ascii_case("rust", "ruby"));
    assert!(!eq_ignore_ascii_case("É", "é"));
    assert!(eq_ignore_ascii_case("é", "é"));
    assert!(!eq_ignore_ascii_case("a", "ab"));
    assert!(!eq_ignore_ascii_case("@", "`"));
}

#[test]
fn to_title_case_raises_first_and_lowers_rest() {
    assert_eq!(to_title_case("javaSCRIPT"), "Javascript");
    assert_eq!(to_title_case(""), "");
    assert_eq!(to_title_case("ßa"), "SSa");
}

#[test]
fn parse_usize_reads_decimal_numbers() {
    assert_eq!(parse_usize("0"), Some(0));
    assert_eq!(parse_usize("25"), Some(25));
    assert_eq!(parse_usize("+7"), Some(7));
    assert_eq!(parse_usize("007"), Some(7));
    assert_eq!(parse_usize(""), None);
    assert_eq!(parse_usize("+"), None);
    assert_eq!(parse_usize("-1"), None);
    assert_eq!(parse_usize("1a"), None);
    assert_eq!(parse_usize(" 1"), None);
    assert_eq!(parse_usize("99999999999999999999999999"), None);
    assert_eq!(parse_usize("18446744073709551615"), "18446744073709551615".parse::<usize>().ok());
    assert_eq!(parse_usize("18446744073709551616"), "18446744073709551616".parse::<usize>().ok());
}

#[test]
fn paths_join_like_the_platform() {
    for (base, path) in [
        ("/a", "b"),
        ("/a/", "b"),
        ("", "b"),
        ("/a", "/b"),
        ("/a", ""),
        ("a/b", "c/d"),
        ("/", "x"),
    ] {
        let expected = std::path::Path::new(base).join(path);
        assert_eq!(join(base, path), expected.to_string_lossy(), "{base} + {path}");
    }
}

#[test]
fn absolute_paths_begin_with_the_separator() {
    assert!(is_absolute("/tmp/test.rs"));
    assert!(!is_absolute("src/main.rs"));
    assert!(!is_absolute(""));
    assert!(!is_absolute("./x"));
}
