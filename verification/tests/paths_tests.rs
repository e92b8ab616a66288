use media_acquire::paths::{decimal_string, join_with, parent_dir, resolve_uri};

#[test]
fn decimal_rendering() {
    assert_eq!(decimal_string(0), "0");
    assert_eq!(decimal_string(7), "7");
    assert_eq!(decimal_string(10), "10");
    assert_eq!(decimal_string(42), "42");
    assert_eq!(decimal_string(1234567890), "1234567890");
    assert_eq!(decimal_string(u64::MAX), "18446744073709551615");
}

#[test]
fn joining_strings() {
    let none: Vec<String> = vec![];
    assert_eq!(join_with(&none, "|"), "");
    let one = vec![String::from("a")];
    assert_eq!(join_with(&one, "|"), "a");
    let three = vec![String::from("a"), String::from("b"), String::from("c")];
    assert_eq!(join_with(&three, "|"), "a|b|c");
    assert_eq!(join_with(&three, ", "), "a, b, c");
}

#[test]
fn parent_of_url() {
    assert_eq!(
        parent_dir("http://host/v/playlist.m3u8"),
        Some(String::from("http://host/v"))
    );
    assert_eq!(parent_dir("a/b"), Some(String::from("a")));
    assert_eq!(parent_dir("noslash"), None);
    assert_eq!(parent_dir(""), None);
}

#[test]
fn resolving_uris() {
    assert_eq!(resolve_uri("http://host/v", "seg.ts"), "http://host/v/seg.ts");
    assert_eq!(resolve_uri("http://host/v", "/abs/seg.ts"), "/abs/seg.ts");
    assert_eq!(resolve_uri("base", ""), "base/");
}
