use lib::text::{
    chars_of, decimal_chars, find_chars, first_word_chars, join_chars, lines_of, lower_chars,
    pad_right_chars, split_chars, str_eq, trim_char_chars, trim_str,
};

fn s(v: &[char]) -> String {
    v.iter().collect()
}

#[test]
fn trim_removes_unicode_white_space() {
    assert_eq!(trim_str("  \t a b \n"), "a b");
    assert_eq!(trim_str("\u{3000}x\u{a0}"), "x");
    assert_eq!(trim_str("   "), "");
    assert_eq!(trim_str(""), "");
}

#[test]
fn lines_follow_str_lines() {
    for t in ["", "a", "a\n", "a\n\nb", "a\r\nb\r\n", "a\r", "\n", "x\ny\r\nz"] {
        let expected: Vec<String> = t.lines().map(|l| l.to_string()).collect();
        assert_eq!(lines_of(t), expected, "text {:?}", t);
    }
}

#[test]
fn split_keeps_empty_pieces() {
    let parts: Vec<String> = split_chars(&chars_of("a::b:"), ':').iter().map(|p| s(p)).collect();
    assert_eq!(parts, vec!["a", "", "b", ""]);
    assert_eq!(split_chars(&chars_of(""), ':').len(), 1);
}

#[test]
fn find_gives_first_occurrence() {
    assert_eq!(find_chars(&chars_of("a : b : c"), &chars_of(" : ")), Some(1));
    assert_eq!(find_chars(&chars_of("abc"), &chars_of("x")), None);
}

#[test]
fn first_word_skips_leading_space() {
    assert_eq!(first_word_chars(&chars_of("  black  23.1")).map(|w| s(&w)), Some("black".to_string()));
    assert_eq!(first_word_chars(&chars_of(" \t ")), None);
}

#[test]
fn lower_changes_ascii_only() {
    assert_eq!(s(&lower_chars(&chars_of("PyYAML-Ä"))), "pyyaml-Ä");
}

#[test]
fn decimal_notation() {
    assert_eq!(s(&decimal_chars(0)), "0");
    assert_eq!(s(&decimal_chars(7)), "7");
    assert_eq!(s(&decimal_chars(120)), "120");
    assert_eq!(s(&decimal_chars(usize::MAX)), usize::MAX.to_string());
}

#[test]
fn padding_matches_format_width() {
    assert_eq!(s(&pad_right_chars(&chars_of("Name"), 12)), format!("{:<12}", "Name"));
    assert_eq!(s(&pad_right_chars(&chars_of("Home-page-long"), 12)), "Home-page-long");
}

#[test]
fn trim_quotes() {
    assert_eq!(s(&trim_char_chars(&chars_of("\"Ubuntu 22.04\""), '"')), "Ubuntu 22.04");
    assert_eq!(s(&trim_char_chars(&chars_of("\"\"\""), '"')), "");
}

#[test]
fn join_with_separator() {
    let parts = vec![chars_of("a"), chars_of("b"), chars_of("c")];
    assert_eq!(s(&join_chars(&parts, &chars_of(", "))), "a, b, c");
    assert_eq!(s(&join_chars(&Vec::new(), &chars_of(", "))), "");
}

#[test]
fn string_equality() {
    assert!(str_eq("é", "é"));
    assert!(!str_eq("a", "ab"));
}
