use goods_inventory::string_utils::{sanitize_for_log, to_search_pattern, truncate};
use goods_inventory::text::{
    chars_of, contains_chars, copy_texts, count_of, decimal_string, join2, join3, occurs_at_index,
    replace_chars, same_chars, string_of, text_eq,
};

fn chars(s: &str) -> Vec<char> {
    s.chars().collect()
}

#[test]
fn chars_and_strings_round_trip() {
    assert_eq!(chars_of("héllo"), chars("héllo"));
    assert_eq!(string_of(&chars("héllo")), "héllo");
    assert_eq!(string_of(&chars("")), "");
    assert!(text_eq("abc", "abc"));
    assert!(!text_eq("abc", "abd"));
    assert!(!text_eq("abc", "ab"));
    assert!(same_chars(&chars(""), &chars("")));
}

#[test]
fn occurrences_are_found_where_they_stand() {
    let s = chars("hello world");
    assert!(occurs_at_index(&s, &chars("hello"), 0));
    assert!(occurs_at_index(&s, &chars("world"), 6));
    assert!(!occurs_at_index(&s, &chars("world"), 7));
    assert!(occurs_at_index(&s, &chars(""), 11));
    assert!(!occurs_at_index(&s, &chars(""), 12));
    assert!(contains_chars(&s, &chars("o w")));
    assert!(contains_chars(&s, &chars("d")));
    assert!(contains_chars(&s, &chars("")));
    assert!(!contains_chars(&s, &chars("worlds")));
    assert!(!contains_chars(&chars(""), &chars("a")));
    assert_eq!(count_of(&s, 'o'), 2);
    assert_eq!(count_of(&s, 'z'), 0);
}

#[test]
fn replace_agrees_with_the_standard_library() {
    for (s, pat, rep) in [
        ("a%b%c", "%", "\\%"),
        ("aaa", "aa", "b"),
        ("password and passwords", "password", "***"),
        ("abc", "abcd", "x"),
        ("", "a", "b"),
        ("xyz", "y", ""),
        ("ababab", "ab", "ab"),
    ] {
        assert_eq!(
            string_of(&replace_chars(&chars(s), &chars(pat), &chars(rep))),
            s.replace(pat, rep),
            "{} {} {}",
            s,
            pat,
            rep
        );
    }
    assert_eq!(string_of(&replace_chars(&chars("abc"), &chars(""), &chars("x"))), "abc");
}

#[test]
fn numerals_have_no_leading_zeros() {
    assert_eq!(decimal_string(0), "0");
    assert_eq!(decimal_string(7), "7");
    assert_eq!(decimal_string(10), "10");
    assert_eq!(decimal_string(1234567890), "1234567890");
    assert_eq!(decimal_string(u64::MAX), "18446744073709551615");
}

#[test]
fn texts_are_joined_in_order() {
    assert_eq!(join2("a", "b"), "ab");
    assert_eq!(join3("a", "", "c"), "ac");
    assert_eq!(copy_texts(&vec!["x".to_string(), "y".to_string()]), vec!["x".to_string(), "y".to_string()]);
}

#[test]
fn search_patterns_escape_both_wildcards() {
    assert_eq!(to_search_pattern("*"), "%");
    assert_eq!(to_search_pattern("widget"), "%widget%");
    assert_eq!(to_search_pattern("50%_off"), "%50\\%\\_off%");
    assert_eq!(to_search_pattern(""), "%%");
    assert_eq!(to_search_pattern("**"), "%**%");
}

#[test]
fn truncate_cuts_three_bytes_before_the_limit() {
    assert_eq!(truncate("hello", 10), "hello");
    assert_eq!(truncate("hello", 5), "hello");
    assert_eq!(truncate("hello world", 8), "hello...");
    assert_eq!(truncate("hello world", 3), "...");
    assert_eq!(truncate("hello world", 0), "...");
    assert_eq!(truncate("", 0), "");
}

#[test]
fn sanitize_hides_the_three_words() {
    assert_eq!(sanitize_for_log("password=abc token=xyz secret"), "***=abc ***=xyz ***");
    assert_eq!(sanitize_for_log("nothing here"), "nothing here");
    assert_eq!(sanitize_for_log("Password"), "Password");
}
