//! Text helpers: comparing string slices and decoding UTF-8.

use vstd::prelude::*;
use vstd::string::*;
use vstd::utf8::*;

verus! {

/// Whether two string slices hold the same characters.
pub fn str_eq(a: &str, b: &str) -> (same: bool)
    ensures
        same == (a@ == b@),
{
    let left = String::from_str(a);
    let right = String::from_str(b);
    left == right
}

/// `String::from_utf8`: turns bytes into text. The standard library answers
/// with the text that the bytes encode if they are well-formed UTF-8;
/// otherwise with an error that hands the bytes back, which
/// `FromUtf8Error::into_bytes` takes out of it.
#[verifier::external_body]
fn std_from_utf8(bytes: Vec<u8>) -> (text: Result<String, Vec<u8>>)
    ensures
        text is Ok <==> valid_utf8(bytes@),
        text matches Ok(s) ==> s@ == decode_utf8(bytes@),
        text matches Err(b) ==> b@ == bytes@,
{
    String::from_utf8(bytes).map_err(|e| e.into_bytes())
}

/// Decodes bytes as UTF-8. Bytes that are not well-formed UTF-8 come back
/// unchanged as the error.
pub fn decode_text(bytes: Vec<u8>) -> (text: Result<String, Vec<u8>>)
    ensures
        text is Ok <==> valid_utf8(bytes@),
        text matches Ok(s) ==> s@ == decode_utf8(bytes@),
        text matches Err(b) ==> b@ == bytes@,
{
    std_from_utf8(bytes)
}

} // verus!
