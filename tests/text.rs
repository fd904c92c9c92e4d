use casaos_installer::host::{disk_sufficient, memory_sufficient};
use casaos_installer::paths::{destination, file_name, is_script, starts_with};
use casaos_installer::text::{decimal_string, parse_u64, replace_all, same_text};

#[test]
fn decimal_strings() {
    assert_eq!(decimal_string(0), "0");
    assert_eq!(decimal_string(7), "7");
    assert_eq!(decimal_string(50), "50");
    assert_eq!(decimal_string(u64::MAX), "18446744073709551615");
}

#[test]
fn parse_decimal_fields() {
    assert_eq!(parse_u64("42"), Some(42));
    assert_eq!(parse_u64("007"), Some(7));
    assert_eq!(parse_u64(" 42"), None);
}

#[test]
fn replace_all_left_to_right() {
    assert_eq!(replace_all("aXbXc", "X", "--"), "a--b--c");
    assert_eq!(replace_all("aaa", "aa", "b"), "ba");
    assert_eq!(replace_all("none", "X", "y"), "none");
    assert_eq!(replace_all("", "X", "y"), "");
    assert_eq!(replace_all("abc", "", "x"), "abc".replace("", "x"));
    assert_eq!(replace_all("abc", "", "x"), "xaxbxcx");
    assert_eq!(replace_all("", "", "x"), "x");
    assert_eq!(replace_all("aaa", "aa", "b"), "aaa".replace("aa", "b"));
}

#[test]
fn text_helpers() {
    assert!(same_text("abc", "abc"));
    assert!(!same_text("abc", "abd"));
    assert!(!same_text("abc", "ab"));
    assert!(starts_with("/a/b", "/a"));
    assert!(!starts_with("/a", "/a/b"));
    assert_eq!(file_name("a/b/c.tar.gz"), "c.tar.gz");
    assert_eq!(file_name("plain"), "plain");
    assert_eq!(file_name("dir/"), "");
    assert!(is_script("/x/run.sh"));
    assert!(!is_script("/x/.sh"));
    assert!(!is_script("/x/run.sh/y"));
    assert_eq!(destination("/r", "/r/a/b"), Some("/a/b".to_string()));
    assert_eq!(destination("/r", "/r"), None);
    assert_eq!(destination("/r", "/rx/a"), None);
}

#[test]
fn host_capacity() {
    assert!(memory_sufficient(409600));
    assert!(!memory_sufficient(409599));
    assert!(disk_sufficient(5 * 1024 * 1024));
    assert!(!disk_sufficient(5 * 1024 * 1024 - 1));
}
