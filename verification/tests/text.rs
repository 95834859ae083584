use prettyterm::text::{char_is_whitespace, parse_u32, parse_u32_str, split_str, parse_i32, parse_u16, push_decimal, push_hex, str_equal, str_starts_with, trim};

#[test]
fn integers_parse_as_std_does() {
    assert_eq!(parse_i32(b"42"), Some(42));
    assert_eq!(parse_i32(b"-12"), Some(-12));
    assert_eq!(parse_i32(b"+7"), Some(7));
    assert_eq!(parse_i32(b"007"), Some(7));
    assert_eq!(parse_i32(b"-2147483648"), Some(i32::MIN));
    assert_eq!(parse_i32(b"2147483648"), None);
    assert_eq!(parse_i32(b""), None);
    assert_eq!(parse_i32(b"-"), None);
    assert_eq!(parse_i32(b" 1"), None);
    assert_eq!(parse_i32(b"1a"), None);
    for s in ["0", "66", "-5", "+12", "99999999999", "x", ""] {
        assert_eq!(parse_i32(s.as_bytes()), s.parse::<i32>().ok(), "{s}");
    }
}

#[test]
fn unsigned_integers_parse_as_std_does() {
    assert_eq!(parse_u16(b"65535"), Some(65535));
    assert_eq!(parse_u16(b"65536"), None);
    assert_eq!(parse_u16(b"-1"), None);
    assert_eq!(parse_u16(b"+3"), Some(3));
    for s in ["0", "1", "-0", "+", "300", "70000"] {
        assert_eq!(parse_u16(s.as_bytes()), s.parse::<u16>().ok(), "{s}");
    }
}

#[test]
fn numbers_as_text() {
    let mut s = String::new();
    push_hex(&mut s, 0);
    s.push(' ');
    push_hex(&mut s, 255);
    s.push(' ');
    push_decimal(&mut s, 0);
    s.push(' ');
    push_decimal(&mut s, 1234567890);
    assert_eq!(s, "0 ff 0 1234567890");
    let mut t = String::new();
    push_hex(&mut t, 0xdeadbeef);
    assert_eq!(t, format!("{:x}", 0xdeadbeefu64));
}

#[test]
fn trimming_and_comparing() {
    assert_eq!(trim("  a b \t\n"), "a b");
    assert_eq!(trim("   "), "");
    assert_eq!(trim("x"), "x");
    assert_eq!(trim("\u{3000}y\u{3000}"), "\u{3000}y\u{3000}".trim());
    assert!(str_equal("abc", "abc"));
    assert!(!str_equal("abc", "abd"));
    assert!(!str_equal("ab", "abc"));
    assert!(str_starts_with("abc", "ab"));
    assert!(str_starts_with("abc", ""));
    assert!(!str_starts_with("ab", "abc"));
    assert!(!str_starts_with("abc", "b"));
}

#[test]
fn whitespace_is_what_std_says() {
    for n in 0u32..=0x10ffff {
        if let Some(c) = char::from_u32(n) {
            assert_eq!(char_is_whitespace(c), c.is_whitespace(), "{n:#x}");
        }
    }
}

#[test]
fn u32_parses_as_std_does() {
    for s in ["0", "4294967295", "4294967296", "+9", "-1", "", "+", "1x", "٣"] {
        assert_eq!(parse_u32(s.as_bytes()), s.parse::<u32>().ok(), "{s}");
        assert_eq!(parse_u32_str(s), s.parse::<u32>().ok(), "{s}");
    }
}

#[test]
fn split_is_str_split() {
    for s in ["", "a", "a,b", ",", "a,,b,", "é,ü"] {
        let want: Vec<String> = s.split(',').map(|p| p.to_string()).collect();
        assert_eq!(split_str(s, ','), want, "{s}");
    }
}
