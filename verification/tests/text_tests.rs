use rustitles::text::{
    find_char, str_contains, str_eq, str_starts_with, to_lowercase, trim_spaces_exec,
    usize_to_string,
};

#[test]
fn string_equality_is_exact() {
    assert!(str_eq("abc", "abc"));
    assert!(!str_eq("abc", "abd"));
    assert!(!str_eq("abc", "ab"));
    assert!(str_eq("", ""));
}

#[test]
fn substring_search_finds_inner_patterns() {
    assert!(str_contains("downloaded 0 subtitles", "downloaded 0 subtitle"));
    assert!(str_contains("abcabc", "cab"));
    assert!(!str_contains("abc", "abd"));
    assert!(str_contains("anything", ""));
    assert!(!str_contains("", "x"));
}

#[test]
fn prefix_test() {
    assert!(str_starts_with("Python 3.13.5", "Python 3."));
    assert!(!str_starts_with("Python 2.7", "Python 3."));
    assert!(!str_starts_with("Py", "Python"));
}

#[test]
fn case_folding_lowers_ascii_only() {
    assert_eq!(to_lowercase("Downloaded 0 Subtitles!"), "downloaded 0 subtitles!");
    assert_eq!(to_lowercase("MiXeD"), "mixed");
    assert_eq!(to_lowercase(""), "");
}

#[test]
fn decimal_formatting() {
    assert_eq!(usize_to_string(0), "0");
    assert_eq!(usize_to_string(7), "7");
    assert_eq!(usize_to_string(10), "10");
    assert_eq!(usize_to_string(90123), "90123");
}

#[test]
fn trimming_removes_edge_blanks() {
    assert_eq!(trim_spaces_exec("  eng\r"), "eng");
    assert_eq!(trim_spaces_exec("\t x y \t"), "x y");
    assert_eq!(trim_spaces_exec("   "), "");
    assert_eq!(trim_spaces_exec("plain"), "plain");
}

#[test]
fn find_char_returns_first_position_or_length() {
    assert_eq!(find_char("a,b,c", ','), 1);
    assert_eq!(find_char("abc", ','), 3);
    assert_eq!(find_char("", ','), 0);
}
