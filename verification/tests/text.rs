use git_lfs_synology::text::{
    before_last_segment_of, bool_to_str, chars_of, clone_opt, find_last, join_path, last_segment_of,
    str_eq, strip_prefix, strip_suffix, u64_to_string,
};

#[test]
fn numbers_in_decimal() {
    assert_eq!(u64_to_string(0), "0");
    assert_eq!(u64_to_string(7), "7");
    assert_eq!(u64_to_string(10), "10");
    assert_eq!(u64_to_string(1024), "1024");
    assert_eq!(u64_to_string(9876543210), "9876543210");
    assert_eq!(u64_to_string(u64::MAX), "18446744073709551615");
}

#[test]
fn booleans_as_text() {
    assert_eq!(bool_to_str(true), "true");
    assert_eq!(bool_to_str(false), "false");
}

#[test]
fn strings_compare_by_characters() {
    assert!(str_eq("", ""));
    assert!(str_eq("abc", "abc"));
    assert!(!str_eq("abc", "abd"));
    assert!(!str_eq("abc", "ab"));
    assert!(!str_eq("é", "e\u{301}"));
}

#[test]
fn characters_and_last_occurrence() {
    assert_eq!(chars_of("aé/"), vec!['a', 'é', '/']);
    assert_eq!(chars_of(""), Vec::<char>::new());
    assert_eq!(find_last(&chars_of("/a/b/c"), '/'), Some(4));
    assert_eq!(find_last(&chars_of("/é/b"), '/'), Some(2));
    assert_eq!(find_last(&chars_of("/"), '/'), Some(0));
    assert_eq!(find_last(&chars_of("abc"), '/'), None);
    assert_eq!(find_last(&chars_of(""), '/'), None);
}

#[test]
fn paths_split_at_the_last_slash() {
    assert_eq!(last_segment_of("/a/b/c"), "c");
    assert_eq!(before_last_segment_of("/a/b/c"), Some("/a/b".to_string()));
    assert_eq!(last_segment_of("/a/"), "");
    assert_eq!(before_last_segment_of("/a/"), Some("/a".to_string()));
    assert_eq!(last_segment_of("c"), "c");
    assert_eq!(before_last_segment_of("c"), None);
    assert_eq!(last_segment_of("/é/üñ"), "üñ");
    assert_eq!(before_last_segment_of("/é/üñ"), Some("/é".to_string()));
}

#[test]
fn paths_join_with_one_slash() {
    assert_eq!(join_path("a", "b"), "a/b");
    assert_eq!(join_path("a/", "b"), "a/b");
    assert_eq!(join_path("", "b"), "b");
    assert_eq!(join_path("/", "b"), "/b");
    assert_eq!(join_path("a", ""), "a/");
}

#[test]
fn prefixes_and_suffixes() {
    assert_eq!(strip_prefix("abc", "ab"), Some("c".to_string()));
    assert_eq!(strip_prefix("abc", ""), Some("abc".to_string()));
    assert_eq!(strip_prefix("abc", "abc"), Some("".to_string()));
    assert_eq!(strip_prefix("abc", "abcd"), None);
    assert_eq!(strip_prefix("abc", "bc"), None);
    assert_eq!(strip_prefix("éa", "é"), Some("a".to_string()));
    assert_eq!(strip_suffix("abc", "bc"), Some("a".to_string()));
    assert_eq!(strip_suffix("abc", ""), Some("abc".to_string()));
    assert_eq!(strip_suffix("abc", "abc"), Some("".to_string()));
    assert_eq!(strip_suffix("abc", "ab"), None);
    assert_eq!(strip_suffix("aé", "é"), Some("a".to_string()));
    assert_eq!(strip_suffix("", "/"), None);
}

#[test]
fn optional_strings_are_copied() {
    assert_eq!(clone_opt(&Some("a".to_string())), Some("a".to_string()));
    assert_eq!(clone_opt(&None), None);
}
