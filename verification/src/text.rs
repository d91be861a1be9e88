//! Bytes read as UTF-8 text: the identity strings of the device.

use vstd::prelude::*;
use vstd::string::StringSliceAdditionalSpecFns;
use vstd::utf8::{
    decode_utf8, decode_utf8_encode_utf8, encode_utf8, encode_utf8_decode_utf8,
    encode_utf8_valid_utf8, is_ascii_chars, is_ascii_chars_encode_utf8, valid_utf8,
};

verus! {

/// Whether `bytes` are well-formed UTF-8 that reads as `text`.
pub open spec fn spelled(bytes: Seq<u8>, text: Seq<char>) -> bool {
    valid_utf8(bytes) && decode_utf8(bytes) == text
}

/// Bytes spell a text exactly when they are its UTF-8 encoding.
pub proof fn lemma_spelled_is_encoding(bytes: Seq<u8>, text: Seq<char>)
    ensures
        spelled(bytes, text) <==> bytes == encode_utf8(text),
{
    if bytes == encode_utf8(text) {
        encode_utf8_valid_utf8(text);
        encode_utf8_decode_utf8(text);
    }
    if spelled(bytes, text) {
        decode_utf8_encode_utf8(bytes);
    }
}

/// Bytes spell an ASCII text exactly when they are its character codes.
pub proof fn lemma_spelled_ascii(bytes: Seq<u8>, text: Seq<char>)
    requires
        is_ascii_chars(text),
    ensures
        spelled(bytes, text) <==> bytes.len() == text.len() && forall|i: int|
            0 <= i < text.len() ==> bytes[i] == text[i] as u8,
{
    is_ascii_chars_encode_utf8(text);
    lemma_spelled_is_encoding(bytes, text);
    if bytes.len() == text.len() && (forall|i: int|
        0 <= i < text.len() ==> bytes[i] == text[i] as u8) {
        assert(bytes =~= encode_utf8(text));
    }
}

/// Whether `bytes` are well-formed UTF-8 that reads as `text`.
pub fn spells(bytes: &[u8], text: &str) -> (r: bool)
    ensures
        r == spelled(bytes@, text@),
{
    let expected = text.as_bytes();
    proof {
        lemma_spelled_is_encoding(bytes@, text@);
    }
    if bytes.len() != expected.len() {
        return false;
    }
    let mut i: usize = 0;
    while i < bytes.len()
        invariant
            i <= bytes.len(),
            bytes.len() == expected.len(),
            spelled(bytes@, text@) <==> bytes@ == expected@,
            forall|j: int| 0 <= j < i ==> bytes@[j] == expected@[j],
        decreases bytes.len() - i,
    {
        if bytes[i] != expected[i] {
            return false;
        }
        i += 1;
    }
    assert(bytes@ =~= expected@);
    true
}

/// `core::str::from_utf8`: the string slice over `bytes` when they are
/// well-formed UTF-8, and nothing otherwise. The slice, where there is one,
/// consists of exactly the bytes given.
#[verifier::external_body]
fn from_utf8(bytes: &[u8]) -> (r: Option<&str>)
    ensures
        r is Some <==> valid_utf8(bytes@),
        r is Some ==> r->Some_0.spec_bytes() == bytes@,
{
    match core::str::from_utf8(bytes) {
        Ok(text) => Some(text),
        Err(_) => None,
    }
}

/// Whether `bytes` are well-formed UTF-8.
pub fn is_text(bytes: &[u8]) -> (r: bool)
    ensures
        r == valid_utf8(bytes@),
{
    from_utf8(bytes).is_some()
}

/// Read well-formed UTF-8 as text.
pub fn text_of(bytes: &[u8]) -> (r: &str)
    requires
        valid_utf8(bytes@),
    ensures
        r@ == decode_utf8(bytes@),
        spelled(bytes@, r@),
{
    match from_utf8(bytes) {
        Some(text) => {
            proof {
                encode_utf8_decode_utf8(text@);
            }
            text
        },
        None => vstd::pervasive::unreached(),
    }
}

} // verus!
