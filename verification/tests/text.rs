use hephaestus_control::json::{has_field, text_field};
use hephaestus_control::text::{
    byte_length, char_range, clone_texts, copy_bytes, decimal_text, has_control, is_all_hex,
    is_blank, is_white_space, parse_u64, read_text, starts_with, strip_prefix, text_eq, text_less,
    texts_eq, to_ascii_lowercase, trim,
};

#[test]
fn white_space_agrees_with_the_standard_library() {
    for n in 0u32..=0x10ffff {
        if let Some(c) = char::from_u32(n) {
            assert_eq!(is_white_space(c), c.is_whitespace());
        }
    }
}

#[test]
fn control_characters_agree_with_the_standard_library() {
    for n in 0u32..=0x10ffff {
        if let Some(c) = char::from_u32(n) {
            assert_eq!(has_control(&c.to_string()), c.is_control());
        }
    }
}

#[test]
fn blank_texts_hold_only_white_space() {
    assert!(is_blank(""));
    assert!(is_blank(" \t\n\u{3000}"));
    assert!(!is_blank(" a "));
}

#[test]
fn numerals_are_decimal() {
    assert_eq!(decimal_text(0), "0");
    assert_eq!(decimal_text(4_294_967_295), "4294967295");
    assert_eq!(decimal_text(u64::MAX), "18446744073709551615");
}

#[test]
fn numerals_parse_like_the_standard_library() {
    let samples = [
        "0", "7", "+7", "-7", "", "+", "007", "18446744073709551615", "18446744073709551616",
        "12a", " 1", "1 ", "\u{0663}", "99999999999999999999999",
    ];
    for sample in samples {
        assert_eq!(parse_u64(sample), sample.parse::<u64>().ok(), "{sample}");
    }
}

#[test]
fn written_numerals_parse_back() {
    for n in [0, 1, 9, 10, 12_345, u64::MAX] {
        assert_eq!(parse_u64(&decimal_text(n)), Some(n));
    }
}

#[test]
fn texts_are_ordered_like_the_standard_library() {
    let samples = ["", "a", "ab", "b", "Z", "z", "\u{e9}", "\u{1f600}", "a\u{e9}"];
    for left in samples {
        for right in samples {
            assert_eq!(text_less(left, right), left < right);
            assert_eq!(text_eq(left, right), left == right);
            assert_eq!(starts_with(left, right), left.starts_with(right));
            assert_eq!(strip_prefix(left, right).as_deref(), left.strip_prefix(right));
        }
    }
}

#[test]
fn trimming_agrees_with_the_standard_library() {
    for sample in ["", " ", "a", " a ", "\t a b \n", "\u{3000}x", "x\u{a0}"] {
        assert_eq!(trim(sample), sample.trim());
    }
}

#[test]
fn lengths_count_bytes() {
    assert_eq!(byte_length("a\u{e9}\u{1f600}"), 7);
    assert_eq!(char_range("a\u{e9}\u{1f600}b", 1, 3), "\u{e9}\u{1f600}");
    assert_eq!(to_ascii_lowercase("AbC\u{c9}0"), "AbC\u{c9}0".to_ascii_lowercase());
    assert!(is_all_hex("0aF9"));
    assert!(!is_all_hex("0g"));
}

#[test]
fn lists_of_texts_are_compared_and_cloned() {
    let texts = vec!["a".to_owned(), String::new(), "\u{e9}".to_owned()];
    let copy = clone_texts(&texts);
    assert!(texts_eq(&texts, &copy));
    assert!(!texts_eq(&texts, &vec!["a".to_owned()]));
    assert!(!texts_eq(&texts, &vec!["a".to_owned(), "b".to_owned(), "\u{e9}".to_owned()]));
}

#[test]
fn only_utf8_reads_as_text() {
    assert_eq!(read_text(&vec![0xc3, 0xa9]), Some("\u{e9}".to_owned()));
    assert_eq!(read_text(&vec![0xc3]), None);
    assert_eq!(read_text(&vec![0xff, 0x61]), None);
    assert_eq!(copy_bytes(&vec![1, 2, 0xff]), vec![1, 2, 0xff]);
}

#[test]
fn fields_of_payloads_are_read() {
    let payload = br#"{"name": "x\"y", "count": 7, "name2": null}"#;
    assert_eq!(text_field(payload, "name"), Some(Some("x\"y".to_owned())));
    assert_eq!(text_field(payload, "count"), Some(None));
    assert_eq!(text_field(payload, "absent"), Some(None));
    assert_eq!(text_field(b"[1]", "name"), Some(None));
    assert_eq!(text_field(b"not json", "name"), None);
    assert_eq!(has_field(payload, "name2"), Some(true));
    assert_eq!(has_field(payload, "absent"), Some(false));
    assert_eq!(has_field(b"\"name\"", "name"), Some(false));
    assert_eq!(has_field(b"{", "name"), None);
}
