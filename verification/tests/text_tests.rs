use novaflow::text::{chars_of, concat_str, replace_str, starts_with, str_eq};

#[test]
fn replace_every_occurrence() {
    assert_eq!(replace_str("aXbX", "X", "-"), "a-b-");
    assert_eq!(replace_str("no match", "X", "-"), "no match");
    assert_eq!(replace_str("", "X", "-"), "");
}

#[test]
fn replace_leftmost_non_overlapping_like_std() {
    for (s, p, r) in [("aaa", "aa", "b"), ("abababa", "aba", "_"), ("xxxx", "xx", "xx"), ("héhé", "é", "e")] {
        assert_eq!(replace_str(s, p, r), s.replace(p, r));
    }
}

#[test]
fn prefix_tests() {
    assert!(starts_with("/backend1/users", "/backend1"));
    assert!(starts_with("/backend1", "/backend1"));
    assert!(starts_with("/x", ""));
    assert!(!starts_with("/back", "/backend1"));
    assert!(!starts_with("/Backend1", "/backend1"));
}

#[test]
fn equality_and_concatenation() {
    assert!(str_eq("abc", "abc"));
    assert!(!str_eq("abc", "abd"));
    assert!(!str_eq("abc", "ab"));
    assert_eq!(concat_str("http://1.1.1.1", "/path"), "http://1.1.1.1/path");
    assert_eq!(chars_of("hé!"), vec!['h', 'é', '!']);
}
