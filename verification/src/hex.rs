//! Hexadecimal text and comparison of secrets.

use crate::error::{ControlError, ExecuteError};
use vstd::prelude::*;
use vstd::string::*;
use vstd::utf8::*;

verus! {

/// The lower-case digit of a nibble.
pub open spec fn digit(nibble: int) -> char {
    if nibble < 10 {
        (48 + nibble) as char
    } else {
        (87 + nibble) as char
    }
}

/// The lower-case hexadecimal text of some bytes, the high nibble first.
pub open spec fn hex(bytes: Seq<u8>) -> Seq<char> {
    Seq::new(
        2 * bytes.len(),
        |i: int|
            if i % 2 == 0 {
                digit(bytes[i / 2] as int / 16)
            } else {
                digit(bytes[i / 2] as int % 16)
            },
    )
}

/// The number that a lower-case digit stands for.
pub open spec fn lower_value(byte: u8) -> Option<u8> {
    if 48 <= byte <= 57 {
        Some((byte - 48) as u8)
    } else if 97 <= byte <= 102 {
        Some((byte - 87) as u8)
    } else {
        None
    }
}

/// The number that a digit of either case stands for.
pub open spec fn digit_value(byte: u8) -> Option<u8> {
    if 65 <= byte <= 70 {
        Some((byte - 55) as u8)
    } else {
        lower_value(byte)
    }
}

/// Writes one nibble.
fn nibble_digit(nibble: u8) -> (result: char)
    requires
        nibble < 16,
    ensures
        result == digit(nibble as int),
{
    if nibble < 10 {
        (48u8 + nibble) as char
    } else {
        (87u8 + nibble) as char
    }
}

/// Writes `bytes` as lower-case hexadecimal text, which spells the same bytes.
pub fn hex_encode_bytes(bytes: &[u8]) -> (result: String)
    ensures
        result@ == hex(bytes@),
        result@.len() == 2 * bytes@.len(),
        hex_text(encode_utf8(result@)),
        unhex(encode_utf8(result@)) == bytes@,
{
    let mut out: String = String::new();
    for i in 0..bytes.len()
        invariant
            out@ == hex(bytes@.take(i as int)),
    {
        out.push(nibble_digit(bytes[i] / 16));
        out.push(nibble_digit(bytes[i] % 16));
        proof {
            let shorter = bytes@.take(i as int);
            let longer = bytes@.take(i + 1);
            assert(hex(longer) =~= hex(shorter).push(digit(bytes@[i as int] as int / 16)).push(
                digit(bytes@[i as int] as int % 16),
            )) by {
                assert forall|j: int| 0 <= j < 2 * i implies hex(longer)[j] == hex(shorter)[j] by {
                    assert(longer[j / 2] == shorter[j / 2]);
                }
                assert(longer[i as int] == bytes@[i as int]);
                assert((2 * i) / 2 == i && (2 * i + 1) / 2 == i);
            }
        }
    }
    assert(bytes@.take(bytes@.len() as int) == bytes@);
    proof {
        encoded_bytes_decode(bytes@);
    }
    out
}

/// Writes a 32-byte value as lower-case hexadecimal text.
pub fn hex_encode(bytes: &[u8; 32]) -> (result: String)
    ensures
        result@ == hex(bytes@),
{
    hex_encode_bytes(bytes.as_slice())
}

/// Reads one lower-case digit.
pub fn hex_nibble(byte: u8) -> (result: Result<u8, ControlError>)
    ensures
        result == (match lower_value(byte) {
            Some(value) => Ok(value),
            None => Err(ControlError::Protocol("operator token is malformed")),
        }),
{
    if 48 <= byte && byte <= 57 {
        Ok(byte - 48)
    } else if 97 <= byte && byte <= 102 {
        Ok(byte - 97 + 10)
    } else {
        Err(ControlError::Protocol("operator token is malformed"))
    }
}

/// Whether `bytes` spell a 32-byte value in lower-case hexadecimal.
pub open spec fn lower_hex_of_32(bytes: Seq<u8>) -> bool {
    &&& bytes.len() == 64
    &&& forall|i: int| 0 <= i < 64 ==> lower_value(#[trigger] bytes[i]) is Some
}

/// Reads a 32-byte value from lower-case hexadecimal text.
pub fn hex_decode(value: &str) -> (result: Result<[u8; 32], ControlError>)
    ensures
        match result {
            Ok(decoded) => lower_hex_of_32(value.spec_bytes()) && forall|i: int|
                0 <= i < 32 ==> #[trigger] decoded@[i] == 16 * lower_value(
                    value.spec_bytes()[2 * i],
                )->0 + lower_value(value.spec_bytes()[2 * i + 1])->0,
            Err(error) => !lower_hex_of_32(value.spec_bytes()) && error == ControlError::Protocol(
                "operator token is malformed",
            ),
        },
{
    let bytes: &[u8] = value.as_bytes();
    if bytes.len() != 64 {
        return Err(ControlError::Protocol("operator token is malformed"));
    }
    let mut decoded: [u8; 32] = [0u8;32];
    for i in 0..32usize
        invariant
            bytes@ == value.spec_bytes(),
            bytes@.len() == 64,
            forall|j: int| 0 <= j < 2 * i ==> lower_value(#[trigger] bytes@[j]) is Some,
            forall|j: int|
                0 <= j < i ==> #[trigger] decoded@[j] == 16 * lower_value(bytes@[2 * j])->0 + lower_value(
                    bytes@[2 * j + 1],
                )->0,
    {
        let high: u8 = match hex_nibble(bytes[2 * i]) {
            Ok(nibble) => nibble,
            Err(error) => {
                return Err(error);
            },
        };
        let low: u8 = match hex_nibble(bytes[2 * i + 1]) {
            Ok(nibble) => nibble,
            Err(error) => {
                return Err(error);
            },
        };
        assert((high << 4) | low == 16 * high + low) by (bit_vector)
            requires
                high < 16,
                low < 16,
        ;
        decoded[i] = (high << 4) | low;
    }
    Ok(decoded)
}

/// Whether `bytes` spell some bytes in hexadecimal of either case.
pub open spec fn hex_text(bytes: Seq<u8>) -> bool {
    &&& bytes.len() % 2 == 0
    &&& forall|i: int| 0 <= i < bytes.len() ==> digit_value(#[trigger] bytes[i]) is Some
}

/// The bytes that hexadecimal text spells.
pub open spec fn unhex(bytes: Seq<u8>) -> Seq<u8> {
    Seq::new(
        bytes.len() / 2,
        |i: int| (16 * digit_value(bytes[2 * i])->0 + digit_value(bytes[2 * i + 1])->0) as u8,
    )
}

/// Reads one digit of either case.
fn nibble_value(byte: u8) -> (result: Option<u8>)
    ensures
        result == digit_value(byte),
{
    if 65 <= byte && byte <= 70 {
        Some(byte - 55)
    } else if 48 <= byte && byte <= 57 {
        Some(byte - 48)
    } else if 97 <= byte && byte <= 102 {
        Some(byte - 87)
    } else {
        None
    }
}

/// Reads the bytes that hexadecimal text of either case spells.
pub fn hex_decode_bytes(value: &str) -> (result: Result<Vec<u8>, ExecuteError>)
    ensures
        match result {
            Ok(decoded) => hex_text(encode_utf8(value@)) && decoded@ == unhex(encode_utf8(value@)),
            Err(error) => !hex_text(encode_utf8(value@)) && error == ExecuteError::Invalid(
                "value is not valid hex",
            ),
        },
{
    let bytes: &[u8] = value.as_bytes();
    if bytes.len() % 2 != 0 {
        return Err(ExecuteError::Invalid("value is not valid hex"));
    }
    let mut decoded: Vec<u8> = Vec::new();
    let pairs: usize = bytes.len() / 2;
    for i in 0..pairs
        invariant
            bytes@ == value.spec_bytes(),
            bytes.len() == 2 * pairs,
            bytes@.len() == 2 * pairs,
            forall|j: int| 0 <= j < 2 * i ==> digit_value(#[trigger] bytes@[j]) is Some,
            decoded@ == unhex(bytes@).take(i as int),
    {
        match (nibble_value(bytes[2 * i]), nibble_value(bytes[2 * i + 1])) {
            (Some(high), Some(low)) => {
                decoded.push(16 * high + low);
                assert(decoded@ == unhex(bytes@).take(i + 1));
            },
            _ => {
                assert(digit_value(bytes@[2 * i]) is None || digit_value(bytes@[2 * i + 1]) is None);
                return Err(ExecuteError::Invalid("value is not valid hex"));
            },
        }
    }
    assert(unhex(bytes@).take(pairs as int) == unhex(bytes@));
    Ok(decoded)
}

/// Compares two secrets without stopping at the first difference.
pub fn constant_time_equal(left: &[u8], right: &[u8]) -> (result: bool)
    ensures
        result == (left@ == right@),
{
    if left.len() != right.len() {
        return false;
    }
    let mut difference: u8 = 0;
    assert(left@.take(0) == right@.take(0));
    for i in 0..left.len()
        invariant
            left@.len() == right@.len(),
            (difference == 0) == (left@.take(i as int) == right@.take(i as int)),
    {
        let a: u8 = left[i];
        let b: u8 = right[i];
        let before: u8 = difference;
        difference = before | (a ^ b);
        proof {
            assert((before | (a ^ b) == 0) == (before == 0 && a == b)) by (bit_vector);
            assert(left@.take(i + 1) == left@.take(i as int).push(a));
            assert(right@.take(i + 1) == right@.take(i as int).push(b));
            if left@.take(i + 1) == right@.take(i + 1) {
                assert(left@.take(i + 1).drop_last() == left@.take(i as int));
                assert(right@.take(i + 1).drop_last() == right@.take(i as int));
                assert(left@.take(i + 1).last() == right@.take(i + 1).last());
            }
        }
    }
    assert(left@.take(left@.len() as int) == left@);
    assert(right@.take(right@.len() as int) == right@);
    difference == 0
}

/// Every character of `hex(bytes)` is a lower-case hexadecimal digit.
pub proof fn hex_is_lower(bytes: Seq<u8>)
    ensures
        hex(bytes).len() == 2 * bytes.len(),
        is_ascii_chars(hex(bytes)),
        forall|i: int|
            0 <= i < hex(bytes).len() ==> lower_value(#[trigger] hex(bytes)[i] as u8) is Some
                && crate::text::ascii_hex_digit(hex(bytes)[i]),
{
    assert forall|i: int| 0 <= i < hex(bytes).len() implies lower_value(#[trigger] hex(bytes)[i] as u8) is Some
        && crate::text::ascii_hex_digit(hex(bytes)[i]) && (hex(bytes)[i] as nat) < 128 by {
        let b = bytes[i / 2] as int;
        assert(0 <= b / 16 < 16);
        assert(0 <= b % 16 < 16);
    }
}

/// Decoding what was encoded gives the same bytes back.
pub proof fn encoded_bytes_decode(bytes: Seq<u8>)
    ensures
        hex_text(encode_utf8(hex(bytes))),
        unhex(encode_utf8(hex(bytes))) == bytes,
        bytes.len() == 32 ==> lower_hex_of_32(encode_utf8(hex(bytes))),
{
    let text = hex(bytes);
    hex_is_lower(bytes);
    is_ascii_chars_encode_utf8(text);
    let raw = encode_utf8(text);
    assert forall|i: int| 0 <= i < raw.len() implies lower_value(#[trigger] raw[i]) is Some
        && digit_value(raw[i]) is Some by {
        assert(raw[i] == text[i] as u8);
    }
    assert(raw.len() == 2 * bytes.len());
    assert forall|i: int| 0 <= i < bytes.len() implies #[trigger] unhex(raw)[i] == bytes[i] by {
        assert(raw[2 * i] == text[2 * i] as u8);
        assert(raw[2 * i + 1] == text[2 * i + 1] as u8);
        let b = bytes[i] as int;
        assert((2 * i) / 2 == i && (2 * i + 1) / 2 == i && (2 * i) % 2 == 0 && (2 * i + 1) % 2 == 1);
        assert(0 <= b / 16 < 16);
        assert(0 <= b % 16 < 16);
        assert(16 * (b / 16) + b % 16 == b);
    }
    assert(unhex(raw) =~= bytes);
}

/// Different values have different hexadecimal text.
pub proof fn hex_is_injective(a: Seq<u8>, b: Seq<u8>)
    requires
        hex(a) == hex(b),
    ensures
        a == b,
{
    encoded_bytes_decode(a);
    encoded_bytes_decode(b);
}

} // verus!
