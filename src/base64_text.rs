//! Base64 text of Basic credentials, through the `base64` crate.
use vstd::prelude::*;

verus! {

/// The bytes that standard, padded Base64 text decodes to, if it is valid.
pub uninterp spec fn standard_base64_decoded(text: Seq<char>) -> Option<Seq<u8>>;

/// Relies on `base64::decode`, which decodes with the standard alphabet.
#[verifier::external_body]
pub(crate) fn decode_standard(text: &str) -> (r: Option<Vec<u8>>)
    ensures
        r is Some <==> standard_base64_decoded(text@) is Some,
        r matches Some(b) ==> standard_base64_decoded(text@) == Some(b@),
{
    base64::decode(text).ok()
}

} // verus!
