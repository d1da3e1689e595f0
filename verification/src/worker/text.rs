//! Text fields of the protocol: byte strings that must be well-formed UTF-8.

use vstd::prelude::*;
use vstd::slice::slice_to_vec;
use vstd::utf8::valid_utf8;

pub use crate::schema::object::text::spells;

verus! {

/// The text that `bytes` spell, copied out as an owned string, or nothing
/// when the bytes are not well-formed UTF-8.
pub fn decode_text(bytes: &[u8]) -> (text: Option<String>)
    ensures
        match text {
            Some(s) => spells(bytes@, s@),
            None => !valid_utf8(bytes@),
        },
{
    crate::schema::object::text::decode_text(slice_to_vec(bytes))
}

} // verus!
