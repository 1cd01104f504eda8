//! Text primitives of the standard library that the rules rest on.

use vstd::prelude::*;
use vstd::utf8::*;

verus! {

/// `str`'s own equality: two string slices are equal exactly when they hold
/// the same characters. Assumed of the standard library, not proved here.
pub assume_specification[ <str as PartialEq>::eq ](a: &str, b: &str) -> (same: bool)
    ensures
        same == (a@ == b@),
;

/// Decodes `bytes` as UTF-8 through `String::from_utf8`.
///
/// Assumed of the standard library, not proved here: the call succeeds exactly
/// on well-formed UTF-8, and the text it returns is the decoding of `bytes`.
#[verifier::external_body]
pub(crate) fn utf8_text(bytes: Vec<u8>) -> (text: Option<String>)
    ensures
        text is Some <==> valid_utf8(bytes@),
        text matches Some(s) ==> s@ == decode_utf8(bytes@),
{
    String::from_utf8(bytes).ok()
}

} // verus!
