use hephaestus_control::digest::digest_prefix;
use hephaestus_control::error::{ControlError, ExecuteError};
use hephaestus_control::hex::{
    constant_time_equal, hex_decode, hex_decode_bytes, hex_encode, hex_encode_bytes, hex_nibble,
};

#[test]
fn bytes_are_written_as_lower_case_pairs() {
    assert_eq!(hex_encode_bytes(&[0x00, 0x0f, 0xa5, 0xff]), "000fa5ff");
    let mut bytes = [0u8; 32];
    bytes[0] = 0xde;
    bytes[31] = 0x01;
    let text = hex_encode(&bytes);
    assert_eq!(text.len(), 64);
    assert!(text.starts_with("de00"));
    assert!(text.ends_with("01"));
}

#[test]
fn every_byte_decodes_from_what_it_is_written_as() {
    let all: Vec<u8> = (0..=255).collect();
    assert_eq!(hex_decode_bytes(&hex_encode_bytes(&all)).ok(), Some(all));
    let key = [0x5au8; 32];
    assert_eq!(hex_decode(&hex_encode(&key)).ok(), Some(key));
}

#[test]
fn nibbles_are_lower_case_hexadecimal_digits() {
    for byte in 0..=255u8 {
        let expected = match byte {
            b'0'..=b'9' => Some(byte - b'0'),
            b'a'..=b'f' => Some(byte - b'a' + 10),
            _ => None,
        };
        assert_eq!(hex_nibble(byte).ok(), expected, "{byte}");
    }
}

#[test]
fn keys_need_exactly_sixty_four_digits() {
    let short = "00".repeat(31);
    let long = "00".repeat(33);
    let strange = format!("{}zz", "00".repeat(31));
    for text in [short.as_str(), long.as_str(), strange.as_str(), ""] {
        assert!(matches!(hex_decode(text), Err(ControlError::Protocol(_))), "{text}");
    }
}

#[test]
fn odd_or_foreign_digits_do_not_decode() {
    assert!(matches!(hex_decode_bytes("abc"), Err(ExecuteError::Invalid(_))));
    assert!(matches!(hex_decode_bytes("zz"), Err(ExecuteError::Invalid(_))));
    assert_eq!(hex_decode_bytes("").ok(), Some(Vec::new()));
}

#[test]
fn comparison_needs_equal_bytes() {
    assert!(constant_time_equal(b"token", b"token"));
    assert!(!constant_time_equal(b"token", b"tokem"));
    assert!(!constant_time_equal(b"token", b"tokens"));
    assert!(constant_time_equal(b"", b""));
}

#[test]
fn digests_are_those_of_the_hash_crate() {
    let expected = blake3::hash(b"evaluation-1").to_hex().to_string();
    assert_eq!(digest_prefix("evaluation-1", 8), expected[..8]);
    assert_eq!(digest_prefix("evaluation-1", 64), expected);
    assert_ne!(digest_prefix("evaluation-1", 64), digest_prefix("evaluation-2", 64));
}
