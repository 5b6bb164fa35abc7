use ucan_key_support::ed25519::{bytes_to_ed25519_key, Ed25519KeyMaterial, Error};

fn hex_bytes(s: &str) -> Vec<u8> {
    (0..s.len())
        .step_by(2)
        .map(|i| u8::from_str_radix(&s[i..i + 2], 16).unwrap())
        .collect()
}

fn fresh_key_pair() -> Ed25519KeyMaterial {
    let seed: [u8; 32] = rand::random();
    Ed25519KeyMaterial::from_private_key(seed.to_vec()).unwrap()
}

// RFC 8032 test vector 1 for Ed25519: seed, public key, and the signature
// over the empty message.
const VECTOR_SEED: &str = "9d61b19deffd5a60ba844af492ec2cc44449c5697b326919703bac031cae7f60";
const VECTOR_PUBLIC_KEY: &str = "d75a980182b10ab7d54bfed3c964073a0ee172f3daa62325af021a68f707511a";
const VECTOR_SIGNATURE: &str = "e5564300c360ac729086e2cc806e828a84877f1eb8e5d974d873e06522490155\
5fb8821590a33bacc61e39701cf9b46bd25bf5f0595bbe24655141438e7a100b";

#[test]
fn algorithm_name_is_eddsa() {
    let key_material = fresh_key_pair();
    assert_eq!(key_material.get_jwt_algorithm_name(), "EdDSA");
}

#[test]
fn sign_and_verify_round_trip() {
    let key_material = fresh_key_pair();
    let payload = b"some payload bytes";
    let signature = key_material.sign(payload).unwrap();
    assert_eq!(signature.len(), 64);
    assert_eq!(key_material.verify(payload, &signature), Ok(()));
}

#[test]
fn single_bit_mutation_fails_verification() {
    let key_material = fresh_key_pair();
    let payload = b"an important message";
    let signature = key_material.sign(payload).unwrap();
    for byte in 0..signature.len() {
        for bit in 0..8 {
            let mut mutated = signature.clone();
            mutated[byte] ^= 1u8 << bit;
            assert_eq!(
                key_material.verify(payload, &mutated),
                Err(Error::SignatureVerificationFailed)
            );
        }
    }
}

#[test]
fn did_is_deterministic() {
    let key_material = fresh_key_pair();
    let first = key_material.get_did();
    let second = key_material.get_did();
    assert_eq!(first, second);
    let clone = key_material.clone();
    assert_eq!(clone.get_did(), first);
}

#[test]
fn did_has_prefix_and_multicodec_tag() {
    let key_material = fresh_key_pair();
    let did = key_material.get_did();
    assert!(did.starts_with("did:key:z"));
    let payload = &did["did:key:z".len()..];
    let decoded = bs58::decode(payload).into_vec().unwrap();
    assert!(decoded.len() >= 2);
    assert_eq!(decoded[0], 0xed);
    assert_eq!(decoded[1], 0x01);
}

#[test]
fn did_payload_round_trips_public_key() {
    let key_material = fresh_key_pair();
    let did = key_material.get_did();
    let payload = &did["did:key:z".len()..];
    let decoded = bs58::decode(payload).into_vec().unwrap();
    assert_eq!(&decoded[2..], key_material.0.as_slice());
}

#[test]
fn wrong_length_key_is_rejected() {
    for len in [0usize, 1, 31, 33, 64] {
        let result = bytes_to_ed25519_key(vec![7u8; len]);
        assert_eq!(result.unwrap_err(), Error::InvalidKeyEncoding);
    }
}

#[test]
fn wrong_length_private_key_is_rejected() {
    for len in [0usize, 31, 33, 64] {
        let result = Ed25519KeyMaterial::from_private_key(vec![7u8; len]);
        assert_eq!(result.unwrap_err(), Error::InvalidKeyEncoding);
    }
}

#[test]
fn sign_without_private_key_fails() {
    let public_only = bytes_to_ed25519_key(fresh_key_pair().0).unwrap();
    assert!(public_only.1.is_none());
    let result = public_only.sign(b"data");
    assert_eq!(result.unwrap_err(), Error::MissingSigningKey);
    assert_eq!(
        Error::MissingSigningKey.message(),
        "No private key; cannot sign data"
    );
}

#[test]
fn public_only_instance_still_verifies() {
    let key_material = fresh_key_pair();
    let payload = b"verified by a public-only instance";
    let signature = key_material.sign(payload).unwrap();
    let public_only = bytes_to_ed25519_key(key_material.0.clone()).unwrap();
    assert_eq!(public_only.verify(payload, &signature), Ok(()));
}

#[test]
fn wrong_length_signature_is_rejected() {
    let key_material = fresh_key_pair();
    for len in [0usize, 32, 63, 65, 128] {
        let result = key_material.verify(b"payload", &vec![0u8; len]);
        assert_eq!(result.unwrap_err(), Error::InvalidSignatureEncoding);
    }
}

#[test]
fn it_can_sign_and_verify_hello() {
    let key_material = fresh_key_pair();
    let signature = key_material.sign(b"hello").unwrap();
    assert_eq!(key_material.verify(b"hello", &signature), Ok(()));
    assert_eq!(
        key_material.verify(b"hellO", &signature),
        Err(Error::SignatureVerificationFailed)
    );
}

#[test]
fn sign_matches_rfc_test_vector() {
    let key_material = Ed25519KeyMaterial::from_private_key(hex_bytes(VECTOR_SEED)).unwrap();
    assert_eq!(key_material.0, hex_bytes(VECTOR_PUBLIC_KEY));
    let signature = key_material.sign(b"").unwrap();
    assert_eq!(signature, hex_bytes(VECTOR_SIGNATURE));
    assert_eq!(key_material.verify(b"", &signature), Ok(()));
}

#[test]
fn valid_key_bytes_are_accepted() {
    let key_material = bytes_to_ed25519_key(hex_bytes(VECTOR_PUBLIC_KEY)).unwrap();
    assert_eq!(key_material.0, hex_bytes(VECTOR_PUBLIC_KEY));
    assert!(key_material.1.is_none());
}
