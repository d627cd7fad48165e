use vstd::prelude::*;

use crate::b64::{b64_decode, b64_decoded, b64_encode, b64_of};
use crate::cli::text::{spec_key_len, spec_signature_len, TextSignFormat};
use crate::compare::ct_bytes_eq;
use crate::crypto::{
    blake3_keyed, blake3_keyed_digest, ed25519_accepts, ed25519_derive_public, ed25519_public_of,
    ed25519_sign_payload, ed25519_signature_of, ed25519_verify_payload,
};
use crate::errors::TextSignError;
use crate::rng::os_random_bytes;

verus! {

/// The raw signature an algorithm produces over a payload: the keyed digest
/// for the keyed-hash MAC, the asymmetric signature for the seed-driven
/// scheme. Both primitives are deterministic, so this is a function of
/// algorithm, key and payload alone.
pub open spec fn spec_signature(format: TextSignFormat, key: Seq<u8>, payload: Seq<u8>) -> Seq<u8> {
    match format {
        TextSignFormat::Blake3 => blake3_keyed(key, payload),
        TextSignFormat::Ed25519 => ed25519_signature_of(key, payload),
    }
}

/// Whether verification accepts a candidate raw signature over a payload
/// under the given key: digest equality for the keyed-hash MAC, primitive
/// acceptance for the asymmetric scheme.
pub open spec fn spec_verifies(
    format: TextSignFormat,
    key: Seq<u8>,
    payload: Seq<u8>,
    signature: Seq<u8>,
) -> bool {
    match format {
        TextSignFormat::Blake3 => signature == blake3_keyed(key, payload),
        TextSignFormat::Ed25519 => ed25519_accepts(key, payload, signature),
    }
}

/// The key a verifier holds for material signed with `key`: the same shared
/// secret for the keyed-hash MAC, the derived public key for the asymmetric
/// scheme.
pub open spec fn spec_verification_key(format: TextSignFormat, key: Seq<u8>) -> Seq<u8> {
    match format {
        TextSignFormat::Blake3 => key,
        TextSignFormat::Ed25519 => ed25519_public_of(key),
    }
}

/// How many named key buffers generation yields: one combined secret for the
/// keyed-hash MAC, a private seed and a public key for the asymmetric scheme.
pub open spec fn spec_generated_count(format: TextSignFormat) -> nat {
    match format {
        TextSignFormat::Blake3 => 1,
        TextSignFormat::Ed25519 => 2,
    }
}

/// Produces the raw detached signature of `payload` under `key`.
///
/// Succeeds exactly when the key has the algorithm's required length; a key
/// of any other length is a `KeyLength` error, never truncated or padded.
/// The signature is a function of algorithm, key and payload alone, and
/// verification under the matching verification key accepts it.
pub fn sign(format: TextSignFormat, key: &[u8], payload: &[u8]) -> (r: Result<
    Vec<u8>,
    TextSignError,
>)
    ensures
        r is Ok <==> key@.len() == spec_key_len(format),
        r matches Ok(sig) ==> sig@ == spec_signature(format, key@, payload@),
        r matches Ok(sig) ==> sig@.len() == spec_signature_len(format),
        r matches Ok(sig) ==> spec_verifies(
            format,
            spec_verification_key(format, key@),
            payload@,
            sig@,
        ),
        r matches Err(e) ==> e == TextSignError::KeyLength,
{
    if key.len() != format.key_length() {
        return Err(TextSignError::KeyLength);
    }
    match format {
        TextSignFormat::Blake3 => Ok(blake3_keyed_digest(key, payload)),
        TextSignFormat::Ed25519 => Ok(ed25519_sign_payload(key, payload)),
    }
}

/// Checks a candidate raw signature over `payload` under `key`.
///
/// Succeeds exactly when key and signature have the algorithm's fixed
/// lengths; a cryptographic mismatch is the normal result `Ok(false)`, never
/// an error. The keyed-hash path compares digests in constant time.
pub fn verify(format: TextSignFormat, key: &[u8], payload: &[u8], signature: &[u8]) -> (r: Result<
    bool,
    TextSignError,
>)
    ensures
        r is Ok <==> (key@.len() == spec_key_len(format) && signature@.len()
            == spec_signature_len(format)),
        r matches Ok(accepted) ==> accepted == spec_verifies(format, key@, payload@, signature@),
        key@.len() != spec_key_len(format) ==> r == Err::<bool, TextSignError>(
            TextSignError::KeyLength,
        ),
        (key@.len() == spec_key_len(format) && signature@.len() != spec_signature_len(format))
            ==> r == Err::<bool, TextSignError>(TextSignError::MalformedSignature),
{
    if key.len() != format.key_length() {
        return Err(TextSignError::KeyLength);
    }
    if signature.len() != format.signature_length() {
        return Err(TextSignError::MalformedSignature);
    }
    match format {
        TextSignFormat::Blake3 => {
            let digest = blake3_keyed_digest(key, payload);
            Ok(ct_bytes_eq(digest.as_slice(), signature))
        },
        TextSignFormat::Ed25519 => Ok(ed25519_verify_payload(key, payload, signature)),
    }
}

/// Signs `payload` and renders the raw signature as URL-safe unpadded base64
/// text, the only form in which signatures cross the system boundary.
///
/// The text decodes back to exactly the raw signature, so a round trip
/// through `process_verify` with the matching verification key accepts it.
pub fn process_sign(format: TextSignFormat, key: &[u8], payload: &[u8]) -> (r: Result<
    String,
    TextSignError,
>)
    ensures
        r is Ok <==> key@.len() == spec_key_len(format),
        r matches Ok(text) ==> text@ == b64_of(spec_signature(format, key@, payload@)),
        r matches Ok(text) ==> b64_decoded(text@) == Some(spec_signature(format, key@, payload@)),
        r matches Ok(text) ==> spec_signature(format, key@, payload@).len() == spec_signature_len(
            format,
        ),
        r matches Ok(text) ==> spec_verifies(
            format,
            spec_verification_key(format, key@),
            payload@,
            spec_signature(format, key@, payload@),
        ),
        r matches Err(e) ==> e == TextSignError::KeyLength,
{
    match sign(format, key, payload) {
        Ok(sig) => Ok(b64_encode(sig.as_slice())),
        Err(e) => Err(e),
    }
}

/// Decodes a candidate base64 signature and checks it over `payload` under
/// `key`.
///
/// A text that does not decode is a `MalformedSignature` error; a key of the
/// wrong length is a `KeyLength` error; a decoded signature of the wrong
/// length is a `MalformedSignature` error; all are rejected before the
/// cryptographic check runs. A decodable, well-sized signature that does not
/// match is the normal result `Ok(false)`.
pub fn process_verify(
    format: TextSignFormat,
    key: &[u8],
    payload: &[u8],
    signature_text: &str,
) -> (r: Result<bool, TextSignError>)
    ensures
        b64_decoded(signature_text@) is None ==> r == Err::<bool, TextSignError>(
            TextSignError::MalformedSignature,
        ),
        (b64_decoded(signature_text@) is Some && key@.len() != spec_key_len(format)) ==> r
            == Err::<bool, TextSignError>(TextSignError::KeyLength),
        b64_decoded(signature_text@) matches Some(s) ==> ((key@.len() == spec_key_len(format)
            && s.len() != spec_signature_len(format)) ==> r == Err::<bool, TextSignError>(
            TextSignError::MalformedSignature,
        )),
        b64_decoded(signature_text@) matches Some(s) ==> ((key@.len() == spec_key_len(format)
            && s.len() == spec_signature_len(format)) ==> r == Ok::<bool, TextSignError>(
            spec_verifies(format, key@, payload@, s),
        )),
{
    let decoded = match b64_decode(signature_text) {
        Some(v) => v,
        None => {
            return Err(TextSignError::MalformedSignature);
        },
    };
    if key.len() != format.key_length() {
        return Err(TextSignError::KeyLength);
    }
    if decoded.len() != format.signature_length() {
        return Err(TextSignError::MalformedSignature);
    }
    verify(format, key, payload, decoded.as_slice())
}

/// Generates fresh key material for an algorithm.
///
/// The keyed-hash MAC gets one 32-byte random secret. The asymmetric scheme
/// gets a 32-byte random private seed and the public key derived from it, in
/// that order, so the two can be persisted under different access policy.
/// Unavailable entropy is a fatal `EntropyUnavailable` error, never retried.
pub fn process_generate(format: TextSignFormat) -> (r: Result<Vec<Vec<u8>>, TextSignError>)
    ensures
        r matches Err(e) ==> e == TextSignError::EntropyUnavailable,
        r matches Ok(keys) ==> keys@.len() == spec_generated_count(format),
        r matches Ok(keys) ==> keys@[0]@.len() == spec_key_len(format),
        r matches Ok(keys) ==> (format is Ed25519 ==> keys@[1]@.len() == 32 && keys@[1]@
            == ed25519_public_of(keys@[0]@)),
{
    let seed = match os_random_bytes(32) {
        Some(v) => v,
        None => {
            return Err(TextSignError::EntropyUnavailable);
        },
    };
    match format {
        TextSignFormat::Blake3 => {
            let mut keys: Vec<Vec<u8>> = Vec::new();
            keys.push(seed);
            Ok(keys)
        },
        TextSignFormat::Ed25519 => {
            let public_key = ed25519_derive_public(seed.as_slice());
            let mut keys: Vec<Vec<u8>> = Vec::new();
            keys.push(seed);
            keys.push(public_key);
            Ok(keys)
        },
    }
}

/// The file names under which generated key material is persisted, one name
/// per buffer of `process_generate`, in the same order.
pub fn key_file_names(format: TextSignFormat) -> (names: Vec<&'static str>)
    ensures
        names@.len() == spec_generated_count(format),
        format is Blake3 ==> names@[0]@ == "blake3.txt"@,
        format is Ed25519 ==> names@[0]@ == "ed25519.sk"@ && names@[1]@ == "ed25519.pk"@,
{
    let mut names: Vec<&'static str> = Vec::new();
    match format {
        TextSignFormat::Blake3 => {
            names.push("blake3.txt");
        },
        TextSignFormat::Ed25519 => {
            names.push("ed25519.sk");
            names.push("ed25519.pk");
        },
    }
    names
}

/// Determinism of signing: two raw signatures of the same algorithm, key and
/// payload are byte-identical.
pub proof fn lemma_signing_deterministic(
    format: TextSignFormat,
    key: Seq<u8>,
    payload: Seq<u8>,
    s1: Seq<u8>,
    s2: Seq<u8>,
)
    requires
        s1 == spec_signature(format, key, payload),
        s2 == spec_signature(format, key, payload),
    ensures
        s1 == s2,
{
}

} // verus!
