//! Text decoding: byte strings from the wire must be valid UTF-8 wherever
//! a record field expects text.
use vstd::prelude::*;
use vstd::utf8::decode_utf8;
use vstd::utf8::encode_utf8;
use vstd::utf8::encode_utf8_decode_utf8;
use vstd::utf8::encode_utf8_valid_utf8;
use vstd::utf8::is_ascii_chars;
use vstd::utf8::is_ascii_chars_encode_utf8;
use vstd::utf8::valid_utf8;

verus! {

/// Relies on std's `String::from_utf8`: it succeeds exactly on valid UTF-8
/// input, and the resulting string consists of the bytes' decoded
/// characters.
#[verifier::external_body]
pub(crate) fn string_from_utf8(b: Vec<u8>) -> (r: Option<String>)
    ensures
        r is Some <==> valid_utf8(b@),
        r matches Some(s) ==> s@ == decode_utf8(b@),
{
    String::from_utf8(b).ok()
}

/// The characters an all-ASCII byte sequence decodes to: each byte as the
/// character with the same code point.
pub open spec fn ascii_chars_of(b: Seq<u8>) -> Seq<char> {
    b.map(|_i: int, c: u8| c as char)
}

/// Whether every byte of a sequence is ASCII.
pub open spec fn is_ascii_bytes(b: Seq<u8>) -> bool {
    forall|i: int| 0 <= i < b.len() ==> b[i] < 0x80
}

/// An all-ASCII byte sequence is valid UTF-8 and decodes to itself,
/// character for character.
pub proof fn lemma_ascii_bytes_decode(b: Seq<u8>)
    requires
        is_ascii_bytes(b),
    ensures
        valid_utf8(b),
        decode_utf8(b) == ascii_chars_of(b),
{
    let chars = ascii_chars_of(b);
    assert(is_ascii_chars(chars));
    is_ascii_chars_encode_utf8(chars);
    assert(encode_utf8(chars) =~= b);
    encode_utf8_valid_utf8(chars);
    encode_utf8_decode_utf8(chars);
}

} // verus!
