use epp_extensions::text::{
    bool_text, is_whitespace, parse_bool, parse_u16, text_eq, trim, u16_text,
};

#[test]
fn text_eq_compares_characters() {
    assert!(text_eq("create", "create"));
    assert!(!text_eq("create", "Create"));
    assert!(!text_eq("create", "creat"));
    assert!(text_eq("", ""));
}

#[test]
fn whitespace_is_the_unicode_property() {
    let mut n: u32 = 0;
    while n <= 0x10FFFF {
        if let Some(c) = char::from_u32(n) {
            assert_eq!(is_whitespace(c), c.is_whitespace(), "U+{:04X}", n);
        }
        n += 1;
    }
}

#[test]
fn trim_agrees_with_std() {
    let samples = [
        "",
        " ",
        "  \t\r\n",
        "99.00",
        " 99.00",
        "99.00 ",
        "\n  99.00\t ",
        "a b",
        "  a  b  ",
        "\u{2003}1\u{3000}",
        "\u{200B}1",
        "é ",
    ];
    for s in samples {
        assert_eq!(trim(s), s.trim(), "{:?}", s);
    }
}

#[test]
fn u16_text_is_the_decimal_numeral() {
    assert_eq!(u16_text(0), "0");
    assert_eq!(u16_text(1), "1");
    assert_eq!(u16_text(10), "10");
    assert_eq!(u16_text(65535), "65535");
    let mut n: u16 = 0;
    loop {
        assert_eq!(u16_text(n), n.to_string());
        if n == u16::MAX {
            break;
        }
        n += 1;
    }
}

#[test]
fn parse_u16_agrees_with_std() {
    let samples = [
        "", "0", "1", "+1", "-1", "-0", "+", "++1", "01", "0000065535", "65535", "65536",
        "99999999999999999999", "1 ", " 1", "1_0", "0x10", "12a", "٣", "1.0", "+0",
    ];
    for s in samples {
        assert_eq!(parse_u16(s), s.parse::<u16>().ok(), "{:?}", s);
    }
    assert_eq!(parse_u16("12"), Some(12));
    assert_eq!(parse_u16("65536"), None);
}

#[test]
fn parse_u16_reads_back_every_numeral() {
    let mut n: u16 = 0;
    loop {
        assert_eq!(parse_u16(&u16_text(n)), Some(n));
        if n == u16::MAX {
            break;
        }
        n += 1;
    }
}

#[test]
fn parse_bool_takes_words_and_digits() {
    assert_eq!(parse_bool("true"), Some(true));
    assert_eq!(parse_bool("1"), Some(true));
    assert_eq!(parse_bool("false"), Some(false));
    assert_eq!(parse_bool("0"), Some(false));
    assert_eq!(parse_bool("TRUE"), None);
    assert_eq!(parse_bool(""), None);
    assert_eq!(parse_bool(" 1"), None);
    assert_eq!(parse_bool("yes"), None);
}

#[test]
fn bool_text_reads_back() {
    assert_eq!(bool_text(true), "true");
    assert_eq!(bool_text(false), "false");
    assert_eq!(parse_bool(bool_text(true)), Some(true));
    assert_eq!(parse_bool(bool_text(false)), Some(false));
}
