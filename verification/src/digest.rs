//! BLAKE3 digests and the identities derived from them.

use crate::hex;
use crate::text;
use vstd::prelude::*;
use vstd::string::*;
use vstd::utf8::*;

verus! {

/// The 32 bytes that `blake3::hash` gives for an input.
pub uninterp spec fn blake3_hash(input: Seq<u8>) -> Seq<u8>;

/// Calls `blake3::hash` and writes the hash with `Hash::to_hex`. The hash is 32 bytes
/// long, depends on the input alone, and is written in lower-case hexadecimal.
#[verifier::external_body]
pub(crate) fn blake3_hex(input: &[u8]) -> (result: String)
    ensures
        result@ == hex::hex(blake3_hash(input@)),
        result@.len() == 64,
{
    blake3::hash(input).to_hex().to_string()
}

/// The first `length` hexadecimal digits of the digest of a text.
pub open spec fn short_digest(text: Seq<char>, length: int) -> Seq<char> {
    hex::hex(blake3_hash(encode_utf8(text))).take(length)
}

/// Writes the first `length` hexadecimal digits of the digest of `text`.
pub fn digest_prefix(text: &str, length: usize) -> (result: String)
    requires
        length <= 64,
    ensures
        result@ == short_digest(text@, length as int),
        result@.len() == length,
        text::all_hex(result@),
{
    let whole: String = blake3_hex(text.as_bytes());
    proof {
        hex::hex_is_lower(blake3_hash(encode_utf8(text@)));
    }
    let result: String = text::char_range(whole.as_str(), 0, length);
    assert(result@ == short_digest(text@, length as int));
    result
}

} // verus!
