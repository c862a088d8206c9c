//! The two std string functions the library relies on.
use vstd::prelude::*;
use vstd::utf8::{decode_utf8, valid_utf8};

verus! {

/// Relies on std::str::from_utf8: it accepts exactly the valid UTF-8 byte strings
/// and yields the characters they encode.
#[verifier::external_body]
pub(crate) fn utf8_to_string(bytes: &Vec<u8>) -> (r: Option<String>)
    ensures
        r is Some <==> valid_utf8(bytes@),
        r matches Some(s) ==> s@ == decode_utf8(bytes@),
{
    match std::str::from_utf8(bytes.as_slice()) {
        Ok(s) => Some(s.to_string()),
        Err(_) => None,
    }
}

/// Relies on str::contains with a char pattern: true exactly when the character
/// occurs in the string.
#[verifier::external_body]
pub(crate) fn contains_nul(s: &str) -> (r: bool)
    ensures
        r == s@.contains('\0'),
{
    s.contains('\0')
}

} // verus!
