use omenix::text::{
    char_is_white_space, chars_of, parse_i32_chars, push_int_decimal, str_contains, str_eq,
    str_starts_with, trimmed, word_spans,
};

#[test]
fn whitespace_is_unicode_white_space() {
    for c in [' ', '\t', '\n', '\r', '\u{b}', '\u{c}', '\u{85}', '\u{a0}', '\u{2003}', '\u{3000}'] {
        assert!(char_is_white_space(c));
        assert!(c.is_whitespace());
    }
    for c in ['a', '0', '-', '\u{200b}', '°'] {
        assert!(!char_is_white_space(c));
        assert_eq!(c.is_whitespace(), char_is_white_space(c));
    }
}

#[test]
fn trimming_matches_str_trim() {
    for s in ["  a b  ", "\n", "", "x", "\u{a0}y\u{3000}", " \t z\r\n"] {
        assert_eq!(trimmed(s), s.trim());
    }
}

#[test]
fn words_match_split_whitespace() {
    for s in ["", "  ", "set max", "  set\t max \n", "a", "ab  cd ef"] {
        let v = chars_of(s);
        let spans = word_spans(&v);
        let words: Vec<String> = spans.iter().map(|&(a, b)| v[a..b].iter().collect()).collect();
        let expected: Vec<String> = s.split_whitespace().map(|w| w.to_string()).collect();
        assert_eq!(words, expected);
    }
}

#[test]
fn searching() {
    assert!(str_starts_with("OK: done", "OK:"));
    assert!(!str_starts_with("OK", "OK:"));
    assert!(str_starts_with("anything", ""));
    assert!(str_contains("Mode: Max, Actual", "Max, A"));
    assert!(!str_contains("Mode: Bios", "Mode: Max"));
    assert!(str_contains("", ""));
    assert!(str_eq("abc", "abc"));
    assert!(!str_eq("abc", "abd"));
    assert!(!str_eq("abc", "ab"));
}

#[test]
fn decimal_formatting() {
    for v in [0i64, 7, 10, 45, -1, -45, 1234567, i64::MAX, i64::MIN] {
        let mut s = String::from("t=");
        push_int_decimal(&mut s, v);
        assert_eq!(s, format!("t={}", v));
    }
}

#[test]
fn integer_parsing_matches_std() {
    for s in ["0", "42", "+42", "-42", "", "-", "+", "1a", " 1", "2147483647", "2147483648",
        "-2147483648", "-2147483649", "0000000000000000000042", "99999999999999999999"] {
        let v = chars_of(s);
        assert_eq!(parse_i32_chars(&v), s.parse::<i32>().ok(), "input {:?}", s);
    }
}
