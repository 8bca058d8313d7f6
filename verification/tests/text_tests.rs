use imap_core::codec::utf7_name_wellformed;
use imap_core::text::{join_strings, lower_ascii, make_snippet, str_eq, u32_to_string, u64_to_string};

#[test]
fn snippet_of_exactly_200_chars_has_no_ellipsis() {
    let body: String = "a".repeat(200);
    let s = make_snippet(&body);
    assert_eq!(s.chars().count(), 200);
    assert!(!s.ends_with("..."));
    assert_eq!(s, body);
}

#[test]
fn snippet_of_201_chars_is_truncated_with_ellipsis() {
    let body: String = "b".repeat(201);
    let s = make_snippet(&body);
    assert_eq!(s.chars().count(), 203);
    assert!(s.ends_with("..."));
    assert_eq!(&s[..200], "b".repeat(200).as_str());
}

#[test]
fn snippet_has_no_control_whitespace() {
    let s = make_snippet("line one\nline two\ttabbed\r\nend");
    assert!(!s.contains('\n'));
    assert!(!s.contains('\t'));
    assert!(!s.contains('\r'));
    assert_eq!(s, "line one line two tabbed end");
}

#[test]
fn snippet_collapses_whitespace_runs_to_one_space() {
    assert_eq!(make_snippet("a\t\tb"), "a b");
    assert_eq!(make_snippet("a \n b"), "a b");
    assert_eq!(make_snippet("a\r\n\r\nb c"), "a b c");
    assert_eq!(make_snippet("a b"), "a b");
}

#[test]
fn snippet_trims_surrounding_whitespace() {
    assert_eq!(make_snippet("  \n hello world \t "), "hello world");
    assert_eq!(make_snippet(" \t\r\n "), "");
    assert_eq!(make_snippet(""), "");
}

#[test]
fn snippet_truncation_counts_characters_not_bytes() {
    let body: String = "é".repeat(201);
    let s = make_snippet(&body);
    assert_eq!(s.chars().count(), 203);
    assert!(s.ends_with("..."));
    assert!(s.starts_with("ééé"));
}

#[test]
fn lowercasing_touches_only_ascii_letters() {
    assert_eq!(lower_ascii("AbC-Déf"), "abc-déf");
    assert_eq!(lower_ascii(""), "");
}

#[test]
fn string_equality_is_by_characters() {
    assert!(str_eq("abc", "abc"));
    assert!(!str_eq("abc", "abd"));
    assert!(!str_eq("abc", "ab"));
    assert!(str_eq("", ""));
}

#[test]
fn joining_inserts_separator_between_entries() {
    let parts = vec![String::from("a"), String::from("b"), String::from("c")];
    assert_eq!(join_strings(&parts, ", "), "a, b, c");
    let one = vec![String::from("only")];
    assert_eq!(join_strings(&one, ", "), "only");
    let none: Vec<String> = Vec::new();
    assert_eq!(join_strings(&none, ", "), "");
}

#[test]
fn decimal_formatting_is_exact() {
    assert_eq!(u64_to_string(0), "0");
    assert_eq!(u64_to_string(7), "7");
    assert_eq!(u64_to_string(40210), "40210");
    assert_eq!(u64_to_string(u64::MAX), "18446744073709551615");
    assert_eq!(u32_to_string(u32::MAX), "4294967295");
}

#[test]
fn utf7_wellformedness_follows_the_decoder() {
    // Names whose sections decode cleanly.
    assert!(utf7_name_wellformed(""));
    assert!(utf7_name_wellformed("INBOX"));
    assert!(utf7_name_wellformed("&-"));
    assert!(utf7_name_wellformed("&APw-"));
    assert!(utf7_name_wellformed("&BB4EQgQ,BEAEMAQyBDsENQQ9BD0ESwQ1-"));
    assert!(utf7_name_wellformed("th&AOkA4g-tre"));
    assert!(utf7_name_wellformed("no closing &dash"));
    // Sections the decoder's base64 step rejects.
    assert!(!utf7_name_wellformed("&*-"));
    assert!(!utf7_name_wellformed("&A-"));
    assert!(!utf7_name_wellformed("&AB-"));
    assert!(!utf7_name_wellformed("&AAAAA-"));
    assert!(!utf7_name_wellformed("&====-"));
    assert!(!utf7_name_wellformed("&ab&cd-"));
    assert!(!utf7_name_wellformed("&AOkA4w!-"));
}
