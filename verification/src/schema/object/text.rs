//! Text stored in byte spans.

use vstd::prelude::*;
use vstd::utf8::{decode_utf8, encode_utf8, encode_utf8_decode_utf8, valid_utf8};

verus! {

/// `String::from_utf8` of the standard library. It gives a string exactly
/// when the bytes are well-formed UTF-8, and the string's bytes are then the
/// bytes given.
#[verifier::external_body]
fn string_from_utf8(bytes: Vec<u8>) -> (text: Option<String>)
    ensures
        text is Some <==> valid_utf8(bytes@),
        text matches Some(s) ==> encode_utf8(s@) == bytes@,
{
    match String::from_utf8(bytes) {
        Ok(s) => Some(s),
        Err(_) => None,
    }
}

/// Whether `bytes` are well-formed UTF-8 that spells `text`.
pub open spec fn spells(bytes: Seq<u8>, text: Seq<char>) -> bool {
    valid_utf8(bytes) && text == decode_utf8(bytes)
}

/// The text that well-formed UTF-8 bytes spell, or nothing when the bytes
/// are malformed.
pub fn decode_text(bytes: Vec<u8>) -> (text: Option<String>)
    ensures
        match text {
            Some(s) => spells(bytes@, s@),
            None => !valid_utf8(bytes@),
        },
{
    let text = string_from_utf8(bytes);
    proof {
        if text is Some {
            encode_utf8_decode_utf8(text->Some_0@);
        }
    }
    text
}

} // verus!
