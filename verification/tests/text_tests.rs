use kid_internet_lock::encoding::{utf16, utf16_prefix, utf16le_with_bom, wide};
use kid_internet_lock::text::{i64_to_string, parse_u32, push_dec, push_pad2, trim_text, two_digits};

#[test]
fn parse_u32_accepts_digits_and_plus() {
    assert_eq!(parse_u32("0"), Some(0));
    assert_eq!(parse_u32("42"), Some(42));
    assert_eq!(parse_u32("007"), Some(7));
    assert_eq!(parse_u32("+7"), Some(7));
    assert_eq!(parse_u32("4294967295"), Some(u32::MAX));
}

#[test]
fn parse_u32_rejects_other_text() {
    assert_eq!(parse_u32(""), None);
    assert_eq!(parse_u32("+"), None);
    assert_eq!(parse_u32("-1"), None);
    assert_eq!(parse_u32("1a"), None);
    assert_eq!(parse_u32(" 1"), None);
    assert_eq!(parse_u32("4294967296"), None);
    assert_eq!(parse_u32("99999999999999999999"), None);
}

#[test]
fn parse_u32_agrees_with_std() {
    for s in ["", "0", "12", "+3", "++3", "-0", "00", "65535", "4294967295", "4294967296", "x"] {
        assert_eq!(parse_u32(s), s.parse::<u32>().ok(), "{:?}", s);
    }
}

#[test]
fn trim_text_strips_white_space() {
    assert_eq!(trim_text("  ab c \n"), "ab c");
    assert_eq!(trim_text("\t\r\n"), "");
    assert_eq!(trim_text(""), "");
    assert_eq!(trim_text("\u{3000}x\u{a0}"), "x");
    for s in ["  a ", "b", " \u{2028} c d \u{85}", "\u{200b}z"] {
        assert_eq!(trim_text(s), s.trim(), "{:?}", s);
    }
}

#[test]
fn decimal_and_padded_numbers() {
    assert_eq!(i64_to_string(0), "0");
    assert_eq!(i64_to_string(-5), "-5");
    assert_eq!(i64_to_string(i64::MIN), i64::MIN.to_string());
    assert_eq!(i64_to_string(i64::MAX), i64::MAX.to_string());
    assert_eq!(two_digits(7), "07");
    assert_eq!(two_digits(59), "59");
    assert_eq!(two_digits(123), "123");
    let mut s = String::from("n=");
    push_dec(&mut s, 1234);
    push_pad2(&mut s, 3);
    assert_eq!(s, "n=123403");
}

#[test]
fn utf16_conversions() {
    assert_eq!(utf16("aé"), vec![0x61, 0xE9]);
    assert_eq!(utf16("🔴"), "🔴".encode_utf16().collect::<Vec<u16>>());
    assert_eq!(wide("ab"), vec![0x61, 0x62, 0]);
    assert_eq!(wide(""), vec![0]);
    assert_eq!(utf16_prefix("abcdef", 3), vec![0x61, 0x62, 0x63]);
    assert_eq!(utf16_prefix("ab", 3), vec![0x61, 0x62]);
    assert_eq!(utf16le_with_bom("A"), vec![0xFF, 0xFE, 0x41, 0x00]);
    assert_eq!(utf16le_with_bom("€"), vec![0xFF, 0xFE, 0xAC, 0x20]);
}
