use vstd::prelude::*;
use vstd::string::*;

verus! {

/// The base58 string (Bitcoin alphabet) that encodes the given bytes.
pub uninterp spec fn base58_of(bytes: Seq<u8>) -> Seq<char>;

/// Whether the given bytes decode to a valid Ed25519 verification key.
pub uninterp spec fn valid_ed25519_public_key(bytes: Seq<u8>) -> bool;

/// The 64-byte Ed25519 signature over the payload, determined by the 32-byte
/// signing-key seed and the payload alone.
pub uninterp spec fn ed25519_signature_of(seed: Seq<u8>, payload: Seq<u8>) -> Seq<u8>;

/// The 32-byte encoding of the verification key that belongs to the signing
/// key with the given 32-byte seed.
pub uninterp spec fn ed25519_public_key_of(seed: Seq<u8>) -> Seq<u8>;

/// Whether the 64-byte signature verifies over the payload under the
/// verification key with the given 32-byte encoding.
pub uninterp spec fn ed25519_verifies(public_key: Seq<u8>, payload: Seq<u8>, signature: Seq<u8>) -> bool;

/// The multicodec tag identifying an Ed25519 public key.
pub open spec fn ed25519_magic_bytes() -> Seq<u8> {
    seq![0xedu8, 0x01u8]
}

/// The byte string that a key's identifier encodes: the two multicodec tag
/// bytes followed by the raw public key bytes.
pub open spec fn tagged_key_bytes(public_key: Seq<u8>) -> Seq<u8> {
    ed25519_magic_bytes() + public_key
}

/// The decentralized identifier derived from public key bytes: the fixed
/// prefix "did:key:z" followed by the base58 encoding of the tagged key.
pub open spec fn did_of(public_key: Seq<u8>) -> Seq<char> {
    "did:key:z"@ + base58_of(tagged_key_bytes(public_key))
}

/// Relies on bs58::encode with its default (Bitcoin) alphabet: the resulting
/// string is determined by the input bytes alone.
#[verifier::external_body]
fn base58_encode(bytes: &Vec<u8>) -> (r: String)
    ensures
        r@ == base58_of(bytes@),
{
    bs58::encode(bytes.as_slice()).into_string()
}

/// Relies on ed25519_zebra::VerificationKey::try_from, which accepts exactly
/// the 32-byte slices that decode to a curve point and rejects every slice of
/// another length.
#[verifier::external_body]
fn ed25519_public_key_check(bytes: &Vec<u8>) -> (r: bool)
    ensures
        r == valid_ed25519_public_key(bytes@),
        bytes@.len() != 32 ==> !r,
{
    ed25519_zebra::VerificationKey::try_from(bytes.as_slice()).is_ok()
}

/// Relies on ed25519_zebra::SigningKey::{try_from, sign}: signing is
/// deterministic (RFC 8032) in the 32-byte seed and the payload, produces a
/// 64-byte signature, and that fresh signature verifies under the seed's own
/// verification key.
#[verifier::external_body]
fn ed25519_sign_bytes(seed: &Vec<u8>, payload: &[u8]) -> (r: Vec<u8>)
    requires
        seed@.len() == 32,
    ensures
        r@ == ed25519_signature_of(seed@, payload@),
        r@.len() == 64,
        ed25519_verifies(ed25519_public_key_of(seed@), payload@, r@),
{
    let key = ed25519_zebra::SigningKey::try_from(seed.as_slice()).unwrap();
    let signature: [u8; 64] = key.sign(payload).to_bytes();
    signature.to_vec()
}

/// Relies on ed25519_zebra::VerificationKey::from(&SigningKey): the
/// verification key is determined by the 32-byte seed alone, and its 32-byte
/// encoding decodes back through VerificationKey::try_from.
#[verifier::external_body]
fn ed25519_derive_public_key(seed: &Vec<u8>) -> (r: Vec<u8>)
    requires
        seed@.len() == 32,
    ensures
        r@ == ed25519_public_key_of(seed@),
        r@.len() == 32,
        valid_ed25519_public_key(r@),
{
    let key = ed25519_zebra::SigningKey::try_from(seed.as_slice()).unwrap();
    let verification_key = ed25519_zebra::VerificationKey::from(&key);
    let bytes: &[u8] = verification_key.as_ref();
    bytes.to_vec()
}

/// Relies on ed25519_zebra::{VerificationKey, Signature}::try_from and
/// VerificationKey::verify: whether the signature bytes verify over the
/// payload under the given key bytes, a deterministic check that fails when
/// either byte string does not decode.
#[verifier::external_body]
fn ed25519_verify_bytes(public_key: &Vec<u8>, payload: &[u8], signature: &[u8]) -> (r: bool)
    ensures
        r == ed25519_verifies(public_key@, payload@, signature@),
{
    match ed25519_zebra::VerificationKey::try_from(public_key.as_slice()) {
        Ok(key) => match ed25519_zebra::Signature::try_from(signature) {
            Ok(sig) => key.verify(&sig, payload).is_ok(),
            Err(_) => false,
        },
        Err(_) => false,
    }
}

/// The failures the key-material adapter can report. Every operation returns
/// one of these explicitly; nothing is logged or retried internally.
#[derive(Clone, Copy, Debug, PartialEq, Eq, Structural)]
pub enum Error {
    /// Raw bytes do not decode to a valid 32-byte Ed25519 verification key.
    InvalidKeyEncoding,
    /// Signing was requested on a verification-only instance.
    MissingSigningKey,
    /// Signature bytes are malformed (not a 64-byte Ed25519 signature).
    InvalidSignatureEncoding,
    /// Signature bytes are well-formed but do not validate over the payload.
    SignatureVerificationFailed,
}

impl Error {
    /// A short human-readable description of the failure.
    pub fn message(&self) -> (r: &'static str)
        ensures
            *self is InvalidKeyEncoding ==> r@ == "invalid Ed25519 public key encoding"@,
            *self is MissingSigningKey ==> r@ == "No private key; cannot sign data"@,
            *self is InvalidSignatureEncoding ==> r@ == "invalid Ed25519 signature encoding"@,
            *self is SignatureVerificationFailed ==> r@ == "signature did not validate over the payload"@,
    {
        match self {
            Error::InvalidKeyEncoding => "invalid Ed25519 public key encoding",
            Error::MissingSigningKey => "No private key; cannot sign data",
            Error::InvalidSignatureEncoding => "invalid Ed25519 signature encoding",
            Error::SignatureVerificationFailed => "signature did not validate over the payload",
        }
    }
}

/// Ed25519 key material: a 32-byte verification key together with the 32-byte
/// seed of the matching signing key when the instance is signing-capable, or
/// no seed at all for a verification-only instance.
#[derive(Clone, Debug)]
pub struct Ed25519KeyMaterial(pub Vec<u8>, pub Option<Vec<u8>>);

impl Ed25519KeyMaterial {
    /// The key sizes the data model fixes: 32 public-key bytes and, where a
    /// signing key is present, 32 seed bytes.
    pub open spec fn wf(self) -> bool {
        &&& self.0@.len() == 32
        &&& match self.1 {
            Some(seed) => seed@.len() == 32,
            None => true,
        }
    }

    /// The JSON Web Token name of the signature algorithm this key material
    /// signs with: always the fixed string "EdDSA".
    pub fn get_jwt_algorithm_name(&self) -> (r: String)
        ensures
            r@ == "EdDSA"@,
    {
        String::from_str("EdDSA")
    }

    /// Build signing-capable key material from a 32-byte signing-key seed.
    /// The public key is derived from the seed, so the resulting pair always
    /// matches; a seed of any other length is rejected.
    pub fn from_private_key(private_key: Vec<u8>) -> (r: Result<Ed25519KeyMaterial, Error>)
        ensures
            private_key@.len() == 32 ==> (r matches Ok(km)
                && km.0@ == ed25519_public_key_of(private_key@)
                && (km.1 matches Some(seed) && seed@ == private_key@)
                && km.wf()),
            private_key@.len() != 32 ==> r == Err::<Ed25519KeyMaterial, Error>(Error::InvalidKeyEncoding),
    {
        if private_key.len() != 32 {
            return Err(Error::InvalidKeyEncoding);
        }
        let public_key = ed25519_derive_public_key(&private_key);
        Ok(Ed25519KeyMaterial(public_key, Some(private_key)))
    }

    /// The decentralized identifier of this key: "did:key:z" followed by the
    /// base58 encoding of the multicodec tag bytes 0xed 0x01 and the raw
    /// public key bytes. Deterministic in the public key; never fails.
    pub fn get_did(&self) -> (r: String)
        ensures
            r@ == did_of(self.0@),
    {
        let mut tagged: Vec<u8> = Vec::new();
        tagged.push(0xed);
        tagged.push(0x01);
        proof {
            assert(tagged@ =~= ed25519_magic_bytes() + self.0@.take(0));
        }
        let mut i: usize = 0;
        while i < self.0.len()
            invariant
                i <= self.0@.len(),
                tagged@ == ed25519_magic_bytes() + self.0@.take(i as int),
            decreases self.0@.len() - i,
        {
            let byte = self.0[i];
            tagged.push(byte);
            proof {
                assert(self.0@.take(i + 1) =~= self.0@.take(i as int).push(self.0@[i as int]));
                assert(tagged@ =~= ed25519_magic_bytes() + self.0@.take(i + 1));
            }
            i += 1;
        }
        proof {
            assert(self.0@.take(self.0@.len() as int) =~= self.0@);
        }
        let encoded = base58_encode(&tagged);
        let prefix = String::from_str("did:key:z");
        prefix.concat(encoded.as_str())
    }

    /// Sign the payload with the held private key: a 64-byte Ed25519
    /// signature, deterministic in the seed and the payload, that verifies
    /// under the matching verification key. A verification-only instance
    /// reports MissingSigningKey instead.
    pub fn sign(&self, payload: &[u8]) -> (r: Result<Vec<u8>, Error>)
        requires
            self.wf(),
        ensures
            self.1 matches Some(seed) ==> (r matches Ok(signature)
                && signature@ == ed25519_signature_of(seed@, payload@)
                && signature@.len() == 64
                && ed25519_verifies(ed25519_public_key_of(seed@), payload@, signature@)),
            self.1 is None ==> r == Err::<Vec<u8>, Error>(Error::MissingSigningKey),
    {
        match &self.1 {
            Some(seed) => Ok(ed25519_sign_bytes(seed, payload)),
            None => Err(Error::MissingSigningKey),
        }
    }

    /// Verify a candidate signature over the payload with the held public
    /// key. Signature byte strings that are not exactly 64 bytes long are
    /// rejected as InvalidSignatureEncoding; well-formed ones that do not
    /// validate are rejected as SignatureVerificationFailed; success is owed
    /// exactly when the signature verifies under the key.
    pub fn verify(&self, payload: &[u8], signature: &[u8]) -> (r: Result<(), Error>)
        requires
            self.wf(),
        ensures
            r is Ok <==> (signature@.len() == 64
                && ed25519_verifies(self.0@, payload@, signature@)),
            signature@.len() != 64 ==> r == Err::<(), Error>(Error::InvalidSignatureEncoding),
            (signature@.len() == 64 && !ed25519_verifies(self.0@, payload@, signature@))
                ==> r == Err::<(), Error>(Error::SignatureVerificationFailed),
    {
        if signature.len() != 64 {
            return Err(Error::InvalidSignatureEncoding);
        }
        if ed25519_verify_bytes(&self.0, payload, signature) {
            Ok(())
        } else {
            Err(Error::SignatureVerificationFailed)
        }
    }
}

/// Interpret raw bytes as an Ed25519 public key: succeeds exactly on byte
/// strings that decode to a valid 32-byte verification key, and produces a
/// verification-only instance carrying those bytes unchanged. Every other
/// input, any byte string of length other than 32 among them, is rejected
/// with InvalidKeyEncoding.
pub fn bytes_to_ed25519_key(bytes: Vec<u8>) -> (r: Result<Ed25519KeyMaterial, Error>)
    ensures
        r is Ok <==> valid_ed25519_public_key(bytes@),
        r matches Ok(km) ==> km.0@ == bytes@ && km.1 is None && km.wf(),
        r is Err ==> r == Err::<Ed25519KeyMaterial, Error>(Error::InvalidKeyEncoding),
        bytes@.len() != 32 ==> r == Err::<Ed25519KeyMaterial, Error>(Error::InvalidKeyEncoding),
{
    if ed25519_public_key_check(&bytes) {
        Ok(Ed25519KeyMaterial(bytes, None))
    } else {
        Err(Error::InvalidKeyEncoding)
    }
}

/// Identifier derivation is deterministic: identifiers derived from equal
/// public key bytes are equal strings.
pub proof fn lemma_did_deterministic(public_key: Seq<u8>, d1: Seq<char>, d2: Seq<char>)
    requires
        d1 == did_of(public_key),
        d2 == did_of(public_key),
    ensures
        d1 == d2,
{
}

/// Every derived identifier starts with the literal prefix "did:key:z", and
/// what follows the prefix is exactly the base58 encoding of the tagged key.
pub proof fn lemma_did_prefix(public_key: Seq<u8>)
    ensures
        did_of(public_key).len() >= 9,
        did_of(public_key).take(9) == "did:key:z"@,
        did_of(public_key).skip(9) == base58_of(tagged_key_bytes(public_key)),
{
    reveal_strlit("did:key:z");
    assert(did_of(public_key).take(9) =~= "did:key:z"@);
    assert(did_of(public_key).skip(9) =~= base58_of(tagged_key_bytes(public_key)));
}

/// The byte string the identifier encodes starts with the multicodec tag
/// 0xed 0x01, and stripping those two bytes gives back the public key bytes
/// exactly.
pub proof fn lemma_tagged_key_layout(public_key: Seq<u8>)
    ensures
        tagged_key_bytes(public_key).len() == public_key.len() + 2,
        tagged_key_bytes(public_key)[0] == 0xedu8,
        tagged_key_bytes(public_key)[1] == 0x01u8,
        tagged_key_bytes(public_key).skip(2) == public_key,
{
    assert(tagged_key_bytes(public_key).skip(2) =~= public_key);
}

} // verus!
