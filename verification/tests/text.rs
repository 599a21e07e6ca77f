use bwhc_kafka_rest_proxy::text::{is_blank, same_text, to_decimal};

#[test]
fn should_tell_blank_text() {
    for text in ["", " ", "  ", "\t", "\n", "\r\n", "\u{b}\u{c}", "\u{85}", "\u{a0}",
        "\u{1680}", "\u{2000}\u{2001}\u{2002}\u{2003}\u{2004}\u{2005}", 
        "\u{2006}\u{2007}\u{2008}\u{2009}\u{200a}", "\u{2028}\u{2029}", "\u{202f}\u{205f}\u{3000}"]
    {
        assert!(is_blank(text), "{:?}", text);
        assert_eq!(is_blank(text), text.trim().is_empty());
    }
}

#[test]
fn should_tell_text_that_is_not_blank() {
    for text in ["a", " a", "a ", " {} ", "\u{8}", "\u{e}", "\u{1f}", "\u{200b}", "\u{feff}",
        "\u{180e}", "\u{2060}", "0", "\u{0}"]
    {
        assert!(!is_blank(text), "{:?}", text);
        assert_eq!(is_blank(text), text.trim().is_empty());
    }
}

#[test]
fn should_agree_with_trim_on_every_character() {
    for code in 0u32..0x11_0000 {
        if let Some(c) = char::from_u32(code) {
            let text = c.to_string();
            assert_eq!(is_blank(&text), text.trim().is_empty(), "U+{:04X}", code);
        }
    }
}

#[test]
fn should_write_decimal_numerals() {
    for (n, numeral) in [
        (0u16, "0"),
        (1, "1"),
        (9, "9"),
        (10, "10"),
        (99, "99"),
        (100, "100"),
        (900, "900"),
        (1000, "1000"),
        (9999, "9999"),
        (10000, "10000"),
        (40302, "40302"),
        (65535, "65535"),
    ] {
        assert_eq!(to_decimal(n), numeral.to_string());
    }
}

#[test]
fn should_write_every_number_as_std_does() {
    for n in 0u16..=u16::MAX {
        assert_eq!(to_decimal(n), n.to_string());
    }
}

#[test]
fn should_compare_texts() {
    assert!(same_text("", ""));
    assert!(same_text("active", "active"));
    assert!(!same_text("active", "Active"));
    assert!(!same_text("active", "active "));
    assert!(!same_text("active", "rejected"));
}
