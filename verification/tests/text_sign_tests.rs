use base64::Engine;
use rcli::{
    key_file_names, process_generate, process_sign, process_verify, sign, verify, TextSignError,
    TextSignFormat,
};

fn blake3_key() -> Vec<u8> {
    let keys = process_generate(TextSignFormat::Blake3).unwrap();
    keys.into_iter().next().unwrap()
}

fn ed25519_keys() -> (Vec<u8>, Vec<u8>) {
    let mut keys = process_generate(TextSignFormat::Ed25519).unwrap().into_iter();
    let seed = keys.next().unwrap();
    let public = keys.next().unwrap();
    (seed, public)
}

#[test]
fn test_blake3_sign_verify_round_trip() {
    let key = blake3_key();
    let payload = b"hello world";
    let signature = process_sign(TextSignFormat::Blake3, &key, payload).unwrap();
    assert_eq!(
        process_verify(TextSignFormat::Blake3, &key, payload, &signature),
        Ok(true)
    );
    assert_eq!(
        process_verify(TextSignFormat::Blake3, &key, b"hello world!", &signature),
        Ok(false)
    );
}

#[test]
fn test_ed25519_sign_verify_round_trip() {
    let (seed, public) = ed25519_keys();
    let payload = b"\x00\x01\x02";
    let signature = process_sign(TextSignFormat::Ed25519, &seed, payload).unwrap();
    assert_eq!(
        process_verify(TextSignFormat::Ed25519, &public, payload, &signature),
        Ok(true)
    );
    let (_, other_public) = ed25519_keys();
    assert_ne!(public, other_public);
    assert_eq!(
        process_verify(TextSignFormat::Ed25519, &other_public, payload, &signature),
        Ok(false)
    );
}

#[test]
fn test_signing_is_deterministic() {
    let key = blake3_key();
    let (seed, _) = ed25519_keys();
    let payload = b"determinism";
    assert_eq!(
        sign(TextSignFormat::Blake3, &key, payload).unwrap(),
        sign(TextSignFormat::Blake3, &key, payload).unwrap()
    );
    assert_eq!(
        sign(TextSignFormat::Ed25519, &seed, payload).unwrap(),
        sign(TextSignFormat::Ed25519, &seed, payload).unwrap()
    );
    assert_eq!(
        process_sign(TextSignFormat::Blake3, &key, payload).unwrap(),
        process_sign(TextSignFormat::Blake3, &key, payload).unwrap()
    );
}

#[test]
fn test_any_payload_bit_flip_breaks_verification() {
    let key = blake3_key();
    let (seed, public) = ed25519_keys();
    let payload = b"abc";
    let blake3_sig = process_sign(TextSignFormat::Blake3, &key, payload).unwrap();
    let ed25519_sig = process_sign(TextSignFormat::Ed25519, &seed, payload).unwrap();
    for byte in 0..payload.len() {
        for bit in 0..8 {
            let mut tampered = payload.to_vec();
            tampered[byte] ^= 1 << bit;
            assert_eq!(
                process_verify(TextSignFormat::Blake3, &key, &tampered, &blake3_sig),
                Ok(false)
            );
            assert_eq!(
                process_verify(TextSignFormat::Ed25519, &public, &tampered, &ed25519_sig),
                Ok(false)
            );
        }
    }
}

#[test]
fn test_any_key_bit_flip_breaks_keyed_hash_verification() {
    let key = blake3_key();
    let payload = b"key sensitivity";
    let signature = process_sign(TextSignFormat::Blake3, &key, payload).unwrap();
    for byte in 0..key.len() {
        for bit in 0..8 {
            let mut tampered = key.clone();
            tampered[byte] ^= 1 << bit;
            assert_eq!(
                process_verify(TextSignFormat::Blake3, &tampered, payload, &signature),
                Ok(false)
            );
        }
    }
}

#[test]
fn test_wrong_key_length_is_rejected() {
    let payload = b"payload";
    for bad_len in [0usize, 31, 33, 64] {
        let bad_key = vec![7u8; bad_len];
        assert_eq!(
            sign(TextSignFormat::Blake3, &bad_key, payload),
            Err(TextSignError::KeyLength)
        );
        assert_eq!(
            sign(TextSignFormat::Ed25519, &bad_key, payload),
            Err(TextSignError::KeyLength)
        );
        assert_eq!(
            process_sign(TextSignFormat::Blake3, &bad_key, payload),
            Err(TextSignError::KeyLength)
        );
        assert_eq!(
            verify(TextSignFormat::Blake3, &bad_key, payload, &[0u8; 32]),
            Err(TextSignError::KeyLength)
        );
        assert_eq!(
            process_verify(TextSignFormat::Ed25519, &bad_key, payload, "AAAA"),
            Err(TextSignError::KeyLength)
        );
    }
}

#[test]
fn test_undecodable_signature_is_rejected() {
    let key = blake3_key();
    let payload = b"payload";
    for bad_text in ["not base64!!!", "%%%", "a", "AA==", "\u{00e9}"] {
        assert_eq!(
            process_verify(TextSignFormat::Blake3, &key, payload, bad_text),
            Err(TextSignError::MalformedSignature)
        );
    }
}

#[test]
fn test_wrong_signature_length_is_rejected() {
    let key = blake3_key();
    let (_, public) = ed25519_keys();
    let payload = b"payload";
    // "AAAA" decodes to three zero bytes: valid base64, wrong length.
    assert_eq!(
        process_verify(TextSignFormat::Blake3, &key, payload, "AAAA"),
        Err(TextSignError::MalformedSignature)
    );
    assert_eq!(
        process_verify(TextSignFormat::Ed25519, &public, payload, "AAAA"),
        Err(TextSignError::MalformedSignature)
    );
    assert_eq!(
        verify(TextSignFormat::Blake3, &key, payload, &[0u8; 33]),
        Err(TextSignError::MalformedSignature)
    );
}

#[test]
fn test_generated_key_material_shapes() {
    let blake3_keys = process_generate(TextSignFormat::Blake3).unwrap();
    assert_eq!(blake3_keys.len(), 1);
    assert_eq!(blake3_keys[0].len(), 32);
    let ed25519_material = process_generate(TextSignFormat::Ed25519).unwrap();
    assert_eq!(ed25519_material.len(), 2);
    assert_eq!(ed25519_material[0].len(), 32);
    assert_eq!(ed25519_material[1].len(), 32);
    let other = process_generate(TextSignFormat::Blake3).unwrap();
    assert_ne!(blake3_keys[0], other[0]);
}

#[test]
fn test_key_file_names() {
    assert_eq!(key_file_names(TextSignFormat::Blake3), vec!["blake3.txt"]);
    assert_eq!(
        key_file_names(TextSignFormat::Ed25519),
        vec!["ed25519.sk", "ed25519.pk"]
    );
}

#[test]
fn test_signature_text_matches_primitives_directly() {
    let key = blake3_key();
    let payload = b"cross-check";
    let text = process_sign(TextSignFormat::Blake3, &key, payload).unwrap();
    let key32: [u8; 32] = key.as_slice().try_into().unwrap();
    let expected_digest = blake3::keyed_hash(&key32, payload);
    let expected_text = base64::engine::general_purpose::URL_SAFE_NO_PAD
        .encode(expected_digest.as_bytes());
    assert_eq!(text, expected_text);

    let (seed, public) = ed25519_keys();
    let seed32: [u8; 32] = seed.as_slice().try_into().unwrap();
    let signing_key = ed25519_dalek::SigningKey::from_bytes(&seed32);
    assert_eq!(
        public.as_slice(),
        signing_key.verifying_key().to_bytes().as_slice()
    );
    let raw = sign(TextSignFormat::Ed25519, &seed, payload).unwrap();
    let expected_sig = ed25519_dalek::Signer::sign(&signing_key, payload);
    assert_eq!(raw.as_slice(), expected_sig.to_bytes().as_slice());
    let text = process_sign(TextSignFormat::Ed25519, &seed, payload).unwrap();
    let decoded = base64::engine::general_purpose::URL_SAFE_NO_PAD
        .decode(&text)
        .unwrap();
    assert_eq!(decoded, raw);
}
