use vstd::prelude::*;

use ed25519_dalek::Signer;
use ed25519_dalek::Verifier;

verus! {

/// The 32-byte digest that the keyed hash primitive computes from a 32-byte
/// key and a payload; a function of the two alone, so signing is
/// deterministic.
pub uninterp spec fn blake3_keyed(key: Seq<u8>, payload: Seq<u8>) -> Seq<u8>;

/// The 32-byte public key that the asymmetric primitive derives from a
/// 32-byte private seed; the derivation is deterministic.
pub uninterp spec fn ed25519_public_of(seed: Seq<u8>) -> Seq<u8>;

/// The 64-byte signature that the asymmetric primitive produces from a
/// 32-byte private seed and a payload; a function of the two alone, so
/// signing is deterministic.
pub uninterp spec fn ed25519_signature_of(seed: Seq<u8>, payload: Seq<u8>) -> Seq<u8>;

/// Whether the asymmetric primitive accepts a candidate 64-byte signature
/// over a payload under a 32-byte public key; a 32-byte buffer that is not a
/// valid public key accepts nothing.
pub uninterp spec fn ed25519_accepts(public_key: Seq<u8>, payload: Seq<u8>, signature: Seq<u8>) -> bool;

/// Relies on `blake3::keyed_hash`: the 32-byte keyed digest of the payload,
/// computed from the key and payload alone.
#[verifier::external_body]
pub(crate) fn blake3_keyed_digest(key: &[u8], payload: &[u8]) -> (r: Vec<u8>)
    requires
        key@.len() == 32,
    ensures
        r@.len() == 32,
        r@ == blake3_keyed(key@, payload@),
{
    let key32: &[u8; 32] = key.try_into().unwrap();
    blake3::keyed_hash(key32, payload).as_bytes().to_vec()
}

/// Relies on `ed25519_dalek::SigningKey::from_bytes` and `verifying_key`:
/// the keypair, and so the public key, is derived deterministically from the
/// 32-byte seed.
#[verifier::external_body]
pub(crate) fn ed25519_derive_public(seed: &[u8]) -> (r: Vec<u8>)
    requires
        seed@.len() == 32,
    ensures
        r@.len() == 32,
        r@ == ed25519_public_of(seed@),
{
    let signing_key = ed25519_dalek::SigningKey::from_bytes(seed.try_into().unwrap());
    signing_key.verifying_key().to_bytes().to_vec()
}

/// Relies on `ed25519_dalek::SigningKey::from_bytes` and `Signer::sign`:
/// signing consumes no randomness, so the 64-byte signature is a function of
/// seed and payload alone, and the crate's documentation promises that
/// verification under the derived public key accepts it.
#[verifier::external_body]
pub(crate) fn ed25519_sign_payload(seed: &[u8], payload: &[u8]) -> (r: Vec<u8>)
    requires
        seed@.len() == 32,
    ensures
        r@.len() == 64,
        r@ == ed25519_signature_of(seed@, payload@),
        ed25519_accepts(ed25519_public_of(seed@), payload@, r@),
{
    let signing_key = ed25519_dalek::SigningKey::from_bytes(seed.try_into().unwrap());
    signing_key.sign(payload).to_bytes().to_vec()
}

/// Relies on `ed25519_dalek::VerifyingKey::from_bytes`, `Signature::from_bytes`
/// and `Verifier::verify`: deterministic acceptance of a signature over a
/// payload under a public key. A 32-byte buffer that does not decode to a
/// valid public key is a cryptographic rejection, not an error.
#[verifier::external_body]
pub(crate) fn ed25519_verify_payload(public_key: &[u8], payload: &[u8], signature: &[u8]) -> (r:
    bool)
    requires
        public_key@.len() == 32,
        signature@.len() == 64,
    ensures
        r == ed25519_accepts(public_key@, payload@, signature@),
{
    match ed25519_dalek::VerifyingKey::from_bytes(public_key.try_into().unwrap()) {
        Ok(verifying_key) => {
            let sig = ed25519_dalek::Signature::from_bytes(signature.try_into().unwrap());
            verifying_key.verify(payload, &sig).is_ok()
        },
        Err(_) => false,
    }
}

} // verus!
