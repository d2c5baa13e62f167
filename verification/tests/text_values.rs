use irclog::text::{parse_u16, same_text};

#[test]
fn numbers_are_read_as_decimal() {
    assert_eq!(parse_u16("0"), Some(0));
    assert_eq!(parse_u16("7"), Some(7));
    assert_eq!(parse_u16("80"), Some(80));
    assert_eq!(parse_u16("27017"), Some(27017));
    assert_eq!(parse_u16("65535"), Some(65535));
}

#[test]
fn a_plus_sign_and_leading_zeros_are_taken() {
    assert_eq!(parse_u16("+80"), Some(80));
    assert_eq!(parse_u16("0080"), Some(80));
    assert_eq!(parse_u16("+000000000000000000000000065535"), Some(65535));
}

#[test]
fn numbers_beyond_sixteen_bits_are_refused() {
    assert_eq!(parse_u16("65536"), None);
    assert_eq!(parse_u16("70000"), None);
    assert_eq!(parse_u16("655350"), None);
    assert_eq!(parse_u16("99999999999999999999999999"), None);
}

#[test]
fn other_text_is_refused() {
    for text in ["", "+", "-", "-1", "-0", "++1", "+-1", " 80", "80 ", "8 0", "0x50", "80a", "a80",
        "notanumber", "1.0", "1e3", "\u{ff18}\u{ff10}", "8\u{0660}", "\u{e9}"] {
        assert_eq!(parse_u16(text), None, "{:?}", text);
    }
}

#[test]
fn reading_agrees_with_the_standard_library() {
    let mut texts: Vec<String> = Vec::new();
    for n in 0u32..70000 {
        if n % 7 == 0 || n > 65500 {
            texts.push(format!("{}", n));
            texts.push(format!("+{}", n));
            texts.push(format!("0{}", n));
            texts.push(format!("-{}", n));
            texts.push(format!("{} ", n));
        }
    }
    for text in texts {
        assert_eq!(parse_u16(&text), text.parse::<u16>().ok(), "{:?}", text);
    }
}

#[test]
fn texts_are_compared_by_their_characters() {
    assert!(same_text("", ""));
    assert!(same_text("true", "true"));
    assert!(!same_text("true", "True"));
    assert!(!same_text("true", "tru"));
    assert!(!same_text("tru", "true"));
    assert!(same_text("caf\u{e9}", "caf\u{e9}"));
    assert!(!same_text("caf\u{e9}", "cafe"));
}
