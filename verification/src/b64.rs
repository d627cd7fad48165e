use vstd::prelude::*;

use base64::Engine;

verus! {

/// What base64's URL-safe unpadded engine encodes a byte sequence to.
pub uninterp spec fn b64_of(bytes: Seq<u8>) -> Seq<char>;

/// What base64's URL-safe unpadded engine decodes a text to: the bytes, or
/// nothing when the text is not a canonical encoding.
pub uninterp spec fn b64_decoded(text: Seq<char>) -> Option<Seq<u8>>;

/// Relies on base64's `Engine::encode` with the `URL_SAFE_NO_PAD` engine:
/// URL-safe alphabet, no padding characters, a function of the input bytes
/// alone; its documentation promises that `decode` inverts it.
#[verifier::external_body]
pub(crate) fn b64_encode(data: &[u8]) -> (r: String)
    requires
        data@.len() <= 0x0fff_ffff_ffff_ffff,
    ensures
        r@ == b64_of(data@),
        b64_decoded(r@) == Some(data@),
{
    base64::engine::general_purpose::URL_SAFE_NO_PAD.encode(data)
}

/// Relies on base64's `Engine::decode` with the `URL_SAFE_NO_PAD` engine,
/// which requires canonical unpadded input and rejects anything else.
#[verifier::external_body]
pub(crate) fn b64_decode(text: &str) -> (r: Option<Vec<u8>>)
    ensures
        r is Some <==> b64_decoded(text@) is Some,
        r matches Some(v) ==> b64_decoded(text@) == Some(v@),
{
    base64::engine::general_purpose::URL_SAFE_NO_PAD.decode(text).ok()
}

} // verus!
