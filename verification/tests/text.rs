use nano::text::{
    align_right, chars_of, decimal_string, has_substring, is_blank, join, replace, same_text,
    starts_with, string_of, strip_prefix, to_ascii_upper,
};

#[test]
fn decimal_string_writes_plain_digits() {
    assert_eq!(decimal_string(0), "0");
    assert_eq!(decimal_string(7), "7");
    assert_eq!(decimal_string(10), "10");
    assert_eq!(decimal_string(1000), "1000");
    assert_eq!(decimal_string(u64::MAX), "18446744073709551615");
}

#[test]
fn join_puts_separator_between_neighbours_only() {
    let none: Vec<String> = vec![];
    assert_eq!(join(&none, ", "), "");
    assert_eq!(join(&vec!["a".to_string()], ", "), "a");
    assert_eq!(
        join(&vec!["a".to_string(), "".to_string(), "c".to_string()], ", "),
        "a, , c"
    );
}

#[test]
fn replace_scans_left_to_right_without_overlap() {
    assert_eq!(replace("a\nb\n", "\n", "\n>"), "a\n>b\n>");
    assert_eq!(replace("aaa", "aa", "b"), "ba");
    assert_eq!(replace("<.x.>", "<.", "$"), "$x.>");
    assert_eq!(replace("", "x", "y"), "");
    assert_eq!(replace("abc", "abcd", "y"), "abc");
    assert_eq!(replace("héllo wörld", "ö", "oe"), "héllo woerld");
}

#[test]
fn replace_agrees_with_std_on_samples() {
    for (s, from, to) in [
        ("one two one", "one", "1"),
        ("ababab", "aba", "-"),
        ("xxxx", "x", ""),
        ("tail match ab", "ab", "cd"),
    ] {
        assert_eq!(replace(s, from, to), s.replace(from, to));
    }
}

#[test]
fn has_substring_finds_at_every_position() {
    assert!(has_substring("#ce at start", "#ce"));
    assert!(has_substring("in the #ce middle", "#ce"));
    assert!(has_substring("at the end #ce", "#ce"));
    assert!(has_substring("anything", ""));
    assert!(has_substring("", ""));
    assert!(!has_substring("#c e", "#ce"));
    assert!(!has_substring("ce", "#ce"));
}

#[test]
fn starts_with_and_strip_prefix_agree() {
    assert!(starts_with("element1", "element"));
    assert!(!starts_with("elemen", "element"));
    assert_eq!(strip_prefix("element1", "element"), Some("1".to_string()));
    assert_eq!(strip_prefix("element", "element"), Some("".to_string()));
    assert_eq!(strip_prefix("xelement", "element"), None);
}

#[test]
fn align_right_pads_to_width_in_characters() {
    assert_eq!(align_right("7", 5), "    7");
    assert_eq!(align_right("12345", 5), "12345");
    assert_eq!(align_right("123456", 5), "123456");
    assert_eq!(align_right("é", 3), "  é");
    assert_eq!(align_right("", 0), "");
}

#[test]
fn to_ascii_upper_changes_only_ascii_lower_case() {
    assert_eq!(to_ascii_upper('a'), 'A');
    assert_eq!(to_ascii_upper('z'), 'Z');
    assert_eq!(to_ascii_upper('A'), 'A');
    assert_eq!(to_ascii_upper('1'), '1');
    assert_eq!(to_ascii_upper('é'), 'é');
    assert_eq!(to_ascii_upper('`'), '`');
    assert_eq!(to_ascii_upper('{'), '{');
    for c in ['q', 'Q', 'ß', ' ', '\n'] {
        assert_eq!(to_ascii_upper(c), c.to_ascii_uppercase());
    }
}

#[test]
fn chars_and_strings_convert_both_ways() {
    let v = chars_of("héllo");
    assert_eq!(v, vec!['h', 'é', 'l', 'l', 'o']);
    assert_eq!(string_of(&v), "héllo");
}

#[test]
fn same_text_compares_characters() {
    assert!(same_text("latex", "latex"));
    assert!(!same_text("latex", "typst"));
    assert!(!same_text("latex", "late"));
    assert!(same_text("", ""));
}

#[test]
fn is_blank_sees_through_every_kind_of_white_space() {
    assert!(is_blank(""));
    assert!(is_blank(" \t\r\n"));
    assert!(is_blank("\u{a0}\u{2003}\u{3000}"));
    assert!(!is_blank(" a "));
    assert!(!is_blank("\u{200b}"));
    assert!(!is_blank("_"));
}
