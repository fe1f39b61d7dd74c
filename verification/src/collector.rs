//! The output collector: decodes each captured chunk as UTF-8 text and
//! appends it at the end of the single ordered output buffer, in arrival
//! order. A chunk that is not valid UTF-8 is rejected whole: the buffer is
//! never left with part of a chunk.

use vstd::prelude::*;
use vstd::utf8::decode_utf8;
use vstd::utf8::valid_utf8;

verus! {

/// Relies on `String::from_utf8`: it returns the string whose bytes are the
/// argument exactly when the argument is valid UTF-8, and an error otherwise.
/// `valid_utf8` and `decode_utf8` are vstd's own model of the encoding.
#[verifier::external_body]
fn decode_bytes(bytes: Vec<u8>) -> (r: Option<String>)
    ensures
        r is Some <==> valid_utf8(bytes@),
        r matches Some(s) ==> s@ == decode_utf8(bytes@),
{
    match String::from_utf8(bytes) {
        Ok(s) => Some(s),
        Err(_) => None,
    }
}

/// Decodes one chunk and appends it at the end of the output buffer, so that
/// chunks appear in the buffer in the order they arrive. On bytes that are
/// not valid UTF-8 the chunk is rejected and the buffer left unchanged.
pub fn append_chunk(out: &mut String, bytes: Vec<u8>) -> (ok: bool)
    ensures
        ok == valid_utf8(bytes@),
        ok ==> final(out)@ == old(out)@ + decode_utf8(bytes@),
        !ok ==> final(out)@ == old(out)@,
{
    match decode_bytes(bytes) {
        Some(text) => {
            out.append(text.as_str());
            true
        },
        None => false,
    }
}

} // verus!
