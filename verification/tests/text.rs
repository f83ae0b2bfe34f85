use dualsense::text::{
    begins_with, chars_of, decimal_text, has_text, hex_text, is_blank, joined,
    lower_chars, parse_byte, right_align, same_text, signed_text, split_words, text_of, trim,
    with_sign_text,
};

#[test]
fn white_space_is_unicodes() {
    for code in 0..=0x10ffff_u32 {
        if let Some(c) = char::from_u32(code) {
            assert_eq!(is_blank(c), c.is_whitespace());
        }
    }
}

#[test]
fn trimming_and_splitting_are_those_of_std() {
    for text in [
        "",
        " ",
        "a",
        "  a b\t c\n",
        "\u{2003}x\u{3000}y\u{a0}",
        "no-blank",
    ] {
        assert_eq!(trim(text), text.trim());
        let words: Vec<String> = split_words(text).iter().map(|word| text_of(word)).collect();
        let expected: Vec<&str> = text.split_whitespace().collect();
        assert_eq!(words, expected);
    }
}

#[test]
fn numbers_are_written_as_std_writes_them() {
    for n in [0, 9, 10, 42, 255, 1_000_000, u64::MAX] {
        assert_eq!(decimal_text(n), format!("{n}"));
    }
    for n in [0, 5, -5, i32::MAX, i32::MIN] {
        assert_eq!(signed_text(n), format!("{n}"));
        assert_eq!(with_sign_text(n), format!("{n:+}"));
        assert_eq!(right_align(&with_sign_text(n), 6), format!("{n:+6}"));
    }
    for b in 0..=255_u8 {
        assert_eq!(hex_text(b), format!("{b:02X}"));
    }
    assert_eq!(right_align("7", 3), format!("{:>3}", 7));
}

#[test]
fn bytes_are_read_as_std_reads_them() {
    for text in [
        "0", "7", "255", "256", "+7", "-7", "", "+", "007", "1x", "\u{663}", "99999999999",
    ] {
        assert_eq!(parse_byte(&chars_of(text)), text.parse::<u8>().ok());
    }
}

#[test]
fn texts_are_compared_by_their_characters() {
    assert!(same_text("a\u{e9}", "a\u{e9}"));
    assert!(!same_text("a\u{e9}", "a\u{e8}"));
    assert!(!same_text("a", "ab"));
    assert_eq!(joined("a", "\u{e9}b"), "a\u{e9}b");
    let lower = lower_chars("DualSENSE \u{c4}");
    assert_eq!(text_of(&lower), "DualSENSE \u{c4}".to_ascii_lowercase());
    assert!(has_text(&lower, "sense"));
    assert!(!has_text(&lower, "Sense"));
    assert!(has_text(&lower, ""));
    assert!(begins_with(&lower, "dual") && !begins_with(&lower, "sense"));
}
