use pihole_exporter::text::{parse_u16, push_signed_decimal, trimmed, to_ascii_lowercase, text_eq};

fn chars(s: &str) -> Vec<char> {
    s.chars().collect()
}

#[test]
fn parse_u16_follows_str_parse() {
    for s in ["", "+", "-1", "0", "+80", "0080", "65535", "65536", "99999", "8a", " 8", "123456789"] {
        assert_eq!(parse_u16(&chars(s)), s.parse::<u16>().ok(), "input {s:?}");
    }
}

#[test]
fn trimmed_follows_str_trim() {
    for s in ["", "  ", " a b ", "\u{3000}x\u{a0}", "\t\n y \r", "z"] {
        assert_eq!(trimmed(s), s.trim(), "input {s:?}");
    }
}

#[test]
fn lowercase_follows_std() {
    for s in ["ABC", "Grüße ÄÖÜ", "MiXeD_123"] {
        assert_eq!(to_ascii_lowercase(s), s.to_ascii_lowercase());
    }
}

#[test]
fn signed_decimal_and_equality() {
    let mut s = String::new();
    push_signed_decimal(&mut s, i64::MIN);
    assert_eq!(s, i64::MIN.to_string());
    let mut s = String::from("t=");
    push_signed_decimal(&mut s, 1700000000);
    assert_eq!(s, "t=1700000000");
    assert!(text_eq("abc", "abc"));
    assert!(!text_eq("abc", "abd"));
    assert!(!text_eq("ab", "abc"));
}
