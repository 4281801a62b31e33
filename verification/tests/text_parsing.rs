use ftctui::text::{
    bool_string, chars_of, contains_str, decimal_string, parse_bool, parse_i8, parse_u32,
    parse_unsigned, str_eq, to_lowercase, trim,
};

fn chars(s: &str) -> Vec<char> {
    s.chars().collect()
}

#[test]
fn trims_whitespace_on_both_ends() {
    assert_eq!(trim(&chars("  echo hi \t\n")), chars("echo hi"));
    assert_eq!(trim(&chars("   ")), chars(""));
    assert_eq!(trim(&chars("x")), chars("x"));
    assert_eq!(trim(&chars("\u{3000}a\u{a0}")), chars("a"));
}

#[test]
fn parses_u32_as_std_does() {
    for s in ["0", "7", "+12", "4294967295", "007"] {
        assert_eq!(parse_u32(&chars(s)), s.parse::<u32>().ok(), "{}", s);
    }
    for s in ["", "+", "-1", "4294967296", "1 ", "12a", "99999999999999999999"] {
        assert_eq!(parse_u32(&chars(s)), None, "{}", s);
        assert!(s.parse::<u32>().is_err());
    }
}

#[test]
fn parses_unsigned_up_to_a_bound() {
    assert_eq!(parse_unsigned(&chars("255"), 255), Some(255));
    assert_eq!(parse_unsigned(&chars("256"), 255), None);
}

#[test]
fn parses_i8_as_std_does() {
    for s in ["0", "-128", "127", "+5", "-0", "3"] {
        assert_eq!(parse_i8(&chars(s)), s.parse::<i8>().ok(), "{}", s);
    }
    for s in ["128", "-129", "", "-", "2.0", " 1"] {
        assert_eq!(parse_i8(&chars(s)), None, "{}", s);
        assert!(s.parse::<i8>().is_err());
    }
}

#[test]
fn parses_bool_exactly() {
    assert_eq!(parse_bool(&chars("true")), Some(true));
    assert_eq!(parse_bool(&chars("false")), Some(false));
    assert_eq!(parse_bool(&chars("True")), None);
    assert_eq!(parse_bool(&chars("1")), None);
}

#[test]
fn writes_numbers_and_booleans_as_display_does() {
    for n in [0u32, 5, 10, 42, 100, 65535, 4294967295] {
        assert_eq!(decimal_string(n), n.to_string());
        assert_eq!(parse_u32(&chars(&decimal_string(n))), Some(n));
    }
    assert_eq!(bool_string(true), "true");
    assert_eq!(bool_string(false), "false");
}

#[test]
fn finds_substrings() {
    assert!(contains_str("Framework Laptop 16 Keyboard Module - ANSI", "Keyboard Module"));
    assert!(contains_str("abc", ""));
    assert!(contains_str("abc", "abc"));
    assert!(!contains_str("abc", "abcd"));
    assert!(!contains_str("Xbox Controller", "Keyboard"));
}

#[test]
fn compares_and_lowercases() {
    assert!(str_eq("Robot", "Robot"));
    assert!(!str_eq("Robot", "robot"));
    assert_eq!(to_lowercase("QuIt"), "quit");
    assert_eq!(to_lowercase("ŽELVA"), "želva");
    assert_eq!(chars_of("ab"), vec!['a', 'b']);
}
