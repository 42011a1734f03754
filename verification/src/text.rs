//! Text and bytes: which byte strings are text, and the text that they are.

use vstd::prelude::*;
use vstd::slice::slice_to_vec;
use vstd::utf8::{decode_utf8, encode_utf8, encode_utf8_decode_utf8, valid_utf8};

verus! {

/// Why a byte string is no text.
#[verifier::external_type_specification]
#[verifier::external_body]
pub struct ExFromUtf8Error(std::string::FromUtf8Error);

/// `String::from_utf8` succeeds on the byte strings that are valid UTF-8 and on
/// no others, and the string that it returns has the bytes that it was given.
pub assume_specification[ String::from_utf8 ](vec: Vec<u8>) -> (res: Result<
    String,
    std::string::FromUtf8Error,
>)
    ensures
        res is Ok <==> valid_utf8(vec@),
        res matches Ok(text) ==> encode_utf8(text@) == vec@,
;

/// The text that the bytes encode: `None` where they are not valid UTF-8.
pub open spec fn decoded(bytes: Seq<u8>) -> Option<Seq<char>> {
    if valid_utf8(bytes) {
        Some(decode_utf8(bytes))
    } else {
        None
    }
}

/// Whether two optional strings are the same text, or both missing.
pub open spec fn same_text(text: Option<String>, expected: Option<Seq<char>>) -> bool {
    match (text, expected) {
        (Some(t), Some(e)) => t@ == e,
        (None, None) => true,
        _ => false,
    }
}

/// Reads a byte string as text: `None` where it is not valid UTF-8.
pub fn decode(bytes: Vec<u8>) -> (text: Option<String>)
    ensures
        same_text(text, decoded(bytes@)),
        text is Some <==> valid_utf8(bytes@),
        text matches Some(t) ==> encode_utf8(t@) == bytes@,
{
    match String::from_utf8(bytes) {
        Ok(text) => {
            proof {
                encode_utf8_decode_utf8(text@);
            }
            Some(text)
        },
        Err(_) => None,
    }
}

/// Reads a slice of bytes as text: `None` where it is not valid UTF-8.
pub fn decode_slice(bytes: &[u8]) -> (text: Option<String>)
    ensures
        same_text(text, decoded(bytes@)),
        text is Some <==> valid_utf8(bytes@),
        text matches Some(t) ==> encode_utf8(t@) == bytes@,
{
    decode(slice_to_vec(bytes))
}

} // verus!
