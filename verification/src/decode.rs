//! Decoding the bytes that a child process wrote.

use crate::error::{normalized_view, RustfmtError, RustfmtErrorView};
use vstd::prelude::*;
use vstd::utf8::{decode_utf8, valid_utf8};

verus! {

/// The error of `String::from_utf8`.  Nothing is read from it.
#[verifier::external_type_specification]
#[verifier::external_body]
pub struct ExFromUtf8Error(std::string::FromUtf8Error);

/// `String::from_utf8` turns a `Vec<u8>` into a `String` exactly when its
/// bytes are valid UTF-8, and the string is then the text that those bytes
/// encode.
pub assume_specification[ String::from_utf8 ](vec: Vec<u8>) -> (result: Result<
    String,
    std::string::FromUtf8Error,
>)
    ensures
        result is Ok <==> valid_utf8(vec@),
        result matches Ok(text) ==> text@ == decode_utf8(vec@),
;

/// The text that `bytes` encode, or the `Utf8` error where they encode none.
pub open spec fn decoded(bytes: Seq<u8>) -> Result<Seq<char>, RustfmtErrorView> {
    if valid_utf8(bytes) {
        Ok(decode_utf8(bytes))
    } else {
        Err(RustfmtErrorView::Utf8)
    }
}

/// Decodes `bytes` as UTF-8.
pub fn decode(bytes: Vec<u8>) -> (result: Result<String, RustfmtError>)
    ensures
        normalized_view(result) == decoded(bytes@),
{
    match String::from_utf8(bytes) {
        Ok(text) => Ok(text),
        Err(_) => Err(RustfmtError::Utf8),
    }
}

} // verus!
