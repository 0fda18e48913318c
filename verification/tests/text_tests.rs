use booru_browser::text::{
    char_is_white_space, chars_of, decimal_string, is_blank, pad_end_string, pad_start_string,
    signed_decimal_string, split_whitespace, trimmed,
};

#[test]
fn white_space_matches_std_for_every_char() {
    for u in 0u32..=0x10ffff {
        if let Some(c) = char::from_u32(u) {
            assert_eq!(char_is_white_space(c), c.is_whitespace(), "code point {u:#x}");
        }
    }
}

#[test]
fn chars_round_trip() {
    let s = "héllo wörld ✓";
    let v = chars_of(s);
    assert_eq!(v, s.chars().collect::<Vec<_>>());
    assert_eq!(v.iter().collect::<String>(), s);
}

#[test]
fn decimal_notation() {
    assert_eq!(decimal_string(0), "0");
    assert_eq!(decimal_string(7), "7");
    assert_eq!(decimal_string(10), "10");
    assert_eq!(decimal_string(1234567), "1234567");
    assert_eq!(decimal_string(u64::MAX), u64::MAX.to_string());
    assert_eq!(signed_decimal_string(0), "0");
    assert_eq!(signed_decimal_string(-5), "-5");
    assert_eq!(signed_decimal_string(42), "42");
    assert_eq!(signed_decimal_string(i64::MIN), i64::MIN.to_string());
    assert_eq!(signed_decimal_string(i64::MAX), i64::MAX.to_string());
}

#[test]
fn padding_matches_format() {
    assert_eq!(pad_end_string("12".to_string(), 8), format!("{:<8}", "12"));
    assert_eq!(pad_end_string("123456789".to_string(), 8), "123456789");
    assert_eq!(pad_start_string("-5", 4), format!("{:>4}", "-5"));
    assert_eq!(pad_start_string("12345", 4), "12345");
    assert_eq!(pad_end_string("é".to_string(), 3), format!("{:<3}", "é"));
}

#[test]
fn trim_matches_std() {
    for s in ["", "   ", "  a b  ", "\u{3000}tag\u{2028}", "x", "\t\nrating:safe \r"] {
        assert_eq!(trimmed(s), s.trim());
    }
}

#[test]
fn blank_detection() {
    assert!(is_blank(""));
    assert!(is_blank(" \t\u{a0}"));
    assert!(!is_blank(" a "));
}

#[test]
fn split_matches_std() {
    for s in ["", "   ", "a", "  one two\tthree\n", "a\u{2003}b", "x  y   z "] {
        let expected: Vec<String> = s.split_whitespace().map(|w| w.to_string()).collect();
        assert_eq!(split_whitespace(s), expected);
    }
}
