//! Key material and the signing and verifying capabilities bound to it.
//!
//! Every key is held as its raw bytes. A `Blake3` value holds a 32-byte
//! shared secret, an `Ed25519Signer` the 32-byte seed of a signing key, and an
//! `Ed25519Verifier` the 32-byte encoding of a verifying key that is known to
//! decode to a curve point.

use crate::errors::TextError;
use crate::primitives::{
    blake3_keyed_hash, digests_equal, ed25519_accepts, ed25519_decode_key, ed25519_derive_public,
    ed25519_fresh_seed, ed25519_key_decodes, ed25519_public_key, ed25519_sign, ed25519_signature,
    ed25519_verifies_under_own_key, ed25519_verify, keyed_hash, random_key, BLAKE3_LEN, ED25519_KEY_LEN, ED25519_SIGNATURE_LEN,
};
use vstd::prelude::*;
use vstd::slice::slice_to_vec;

verus! {

/// Signs messages with the key that the implementor holds.
pub trait TestSign {
    /// The signature of `message` under the held key.
    spec fn spec_sign(&self, message: Seq<u8>) -> Seq<u8>;

    fn sign(&self, message: &[u8]) -> (signature: Vec<u8>)
        ensures
            signature@ == self.spec_sign(message@),
    ;
}

/// Checks signatures against the key that the implementor holds.
pub trait TextVerify {
    /// Whether `signature` is accepted for `message`, or why it cannot be
    /// judged at all. A signature that is well formed but wrong gives
    /// `Ok(false)`, never an error.
    spec fn spec_verify(&self, message: Seq<u8>, signature: Seq<u8>) -> Result<bool, TextError>;

    fn verify(&self, message: &[u8], signature: &[u8]) -> (outcome: Result<bool, TextError>)
        ensures
            outcome == self.spec_verify(message@, signature@),
    ;
}

/// Makes fresh key material for a scheme.
pub trait KeyGenerator {
    /// What holds of every list of key blobs that `generate` returns.
    spec fn spec_generated(keys: Seq<Seq<u8>>) -> bool;

    fn generate() -> (keys: Vec<Vec<u8>>)
        ensures
            Self::spec_generated(key_blobs(keys@)),
    ;
}

/// Shapes raw bytes into a key of a scheme.
pub trait KeyLoader: Sized + View<V = Seq<u8>> {
    /// The bytes of the key that loading `bytes` yields, or the reason why
    /// `bytes` is refused.
    spec fn spec_load(bytes: Seq<u8>) -> Result<Seq<u8>, TextError>;

    fn load(bytes: &[u8]) -> (loaded: Result<Self, TextError>)
        ensures
            match loaded {
                Ok(key) => Self::spec_load(bytes@) == Ok::<Seq<u8>, TextError>(key@),
                Err(e) => Self::spec_load(bytes@) == Err::<Seq<u8>, TextError>(e),
            },
    ;
}

/// The contents of a list of key blobs.
pub open spec fn key_blobs(keys: Seq<Vec<u8>>) -> Seq<Seq<u8>> {
    keys.map_values(|blob: Vec<u8>| blob@)
}

/// Copies the first `N` bytes of `bytes` into an array.
pub fn prefix<const N: usize>(bytes: &[u8]) -> (head: [u8; N])
    requires
        bytes@.len() >= N,
    ensures
        head@ == bytes@.take(N as int),
{
    let mut head = [0u8; N];
    let mut i: usize = 0;
    while i < N
        invariant
            i <= N,
            bytes@.len() >= N,
            forall|j: int| 0 <= j < i ==> head@[j] == bytes@[j],
        decreases N - i,
    {
        head[i] = bytes[i];
        i = i + 1;
    }
    assert(head@ =~= bytes@.take(N as int));
    head
}

/// Whether `candidate` holds exactly the 32 bytes of `digest`. The bytes are
/// compared in constant time; only the length of `candidate`, which is no
/// secret, decides early.
pub fn signature_matches(digest: &[u8; 32], candidate: &[u8]) -> (same: bool)
    ensures
        same == (candidate@ == digest@),
{
    if candidate.len() != BLAKE3_LEN {
        false
    } else {
        let given: [u8; 32] = prefix(candidate);
        assert(given@ =~= candidate@);
        digests_equal(digest, &given)
    }
}

/// The keyed-hash scheme: one 32-byte secret both signs and verifies.
pub struct Blake3 {
    key: [u8; 32],
}

impl View for Blake3 {
    type V = Seq<u8>;

    closed spec fn view(&self) -> Seq<u8> {
        self.key@
    }
}

impl Blake3 {
    /// Holds `key` as the shared secret.
    pub fn new(key: [u8; 32]) -> (made: Self)
        ensures
            made@ == key@,
    {
        Self { key }
    }

    /// The key that `try_new` takes from `key`: its first 32 bytes. Fewer
    /// than 32 bytes are refused; what follows the first 32 is ignored.
    pub open spec fn spec_try_new(key: Seq<u8>) -> Result<Seq<u8>, TextError> {
        if key.len() < BLAKE3_LEN {
            Err(TextError::KeyTooShort)
        } else {
            Ok(key.take(BLAKE3_LEN as int))
        }
    }

    /// Takes the shared secret from key material of any length.
    pub fn try_new(key: &[u8]) -> (made: Result<Self, TextError>)
        ensures
            match made {
                Ok(signer) => Self::spec_try_new(key@) == Ok::<Seq<u8>, TextError>(signer@),
                Err(e) => Self::spec_try_new(key@) == Err::<Seq<u8>, TextError>(e),
            },
    {
        if key.len() < BLAKE3_LEN {
            Err(TextError::KeyTooShort)
        } else {
            Ok(Blake3::new(prefix(key)))
        }
    }
}

impl TestSign for Blake3 {
    open spec fn spec_sign(&self, message: Seq<u8>) -> Seq<u8> {
        blake3_keyed_hash(self@, message)
    }

    fn sign(&self, message: &[u8]) -> (signature: Vec<u8>)
        ensures
            signature@.len() == BLAKE3_LEN,
            self.spec_verify(message@, signature@) == Ok::<bool, TextError>(true),
    {
        let digest = keyed_hash(&self.key, message);
        slice_to_vec(digest.as_slice())
    }
}

impl TextVerify for Blake3 {
    open spec fn spec_verify(&self, message: Seq<u8>, signature: Seq<u8>) -> Result<
        bool,
        TextError,
    > {
        Ok(signature == blake3_keyed_hash(self@, message))
    }

    fn verify(&self, message: &[u8], signature: &[u8]) -> (outcome: Result<bool, TextError>) {
        let digest = keyed_hash(&self.key, message);
        Ok(signature_matches(&digest, signature))
    }
}

impl KeyLoader for Blake3 {
    open spec fn spec_load(bytes: Seq<u8>) -> Result<Seq<u8>, TextError> {
        Self::spec_try_new(bytes)
    }

    fn load(bytes: &[u8]) -> (loaded: Result<Self, TextError>) {
        Self::try_new(bytes)
    }
}

impl KeyGenerator for Blake3 {
    /// One blob: a 32-byte key.
    open spec fn spec_generated(keys: Seq<Seq<u8>>) -> bool {
        keys.len() == 1 && keys[0].len() == BLAKE3_LEN
    }

    /// Draws the key from the operating system's random source.
    fn generate() -> (keys: Vec<Vec<u8>>) {
        let key = random_key();
        let mut keys: Vec<Vec<u8>> = Vec::new();
        keys.push(slice_to_vec(key.as_slice()));
        keys
    }
}

/// The signing half of the asymmetric scheme: the 32-byte seed of a signing
/// key.
pub struct Ed25519Signer {
    key: [u8; 32],
}

impl View for Ed25519Signer {
    type V = Seq<u8>;

    closed spec fn view(&self) -> Seq<u8> {
        self.key@
    }
}

impl Ed25519Signer {
    /// Holds `key` as the seed of the signing key.
    pub fn new(key: [u8; 32]) -> (made: Self)
        ensures
            made@ == key@,
    {
        Self { key }
    }

    /// The key that `try_new` takes from `key`: all of it, if it is exactly
    /// 32 bytes. Every 32 bytes are the seed of a signing key.
    pub open spec fn spec_try_new(key: Seq<u8>) -> Result<Seq<u8>, TextError> {
        if key.len() != ED25519_KEY_LEN {
            Err(TextError::InvalidKeyEncoding)
        } else {
            Ok(key)
        }
    }

    /// Takes the seed of a signing key from key material.
    pub fn try_new(key: &[u8]) -> (made: Result<Self, TextError>)
        ensures
            match made {
                Ok(signer) => Self::spec_try_new(key@) == Ok::<Seq<u8>, TextError>(signer@),
                Err(e) => Self::spec_try_new(key@) == Err::<Seq<u8>, TextError>(e),
            },
    {
        if key.len() != ED25519_KEY_LEN {
            Err(TextError::InvalidKeyEncoding)
        } else {
            let seed: [u8; 32] = prefix(key);
            assert(seed@ =~= key@);
            Ok(Ed25519Signer::new(seed))
        }
    }

    /// The encoded verifying key that checks this signer's signatures.
    pub fn verifying_key(&self) -> (key: [u8; 32])
        ensures
            key@ == ed25519_public_key(self@),
            ed25519_key_decodes(key@),
    {
        ed25519_derive_public(&self.key)
    }
}

impl TestSign for Ed25519Signer {
    open spec fn spec_sign(&self, message: Seq<u8>) -> Seq<u8> {
        ed25519_signature(self@, message)
    }

    fn sign(&self, message: &[u8]) -> (signature: Vec<u8>)
        ensures
            signature@.len() == ED25519_SIGNATURE_LEN,
            ed25519_verifies_under_own_key(self@, message@, signature@),
    {
        let raw = ed25519_sign(&self.key, message);
        slice_to_vec(raw.as_slice())
    }
}

impl KeyLoader for Ed25519Signer {
    open spec fn spec_load(bytes: Seq<u8>) -> Result<Seq<u8>, TextError> {
        Self::spec_try_new(bytes)
    }

    fn load(bytes: &[u8]) -> (loaded: Result<Self, TextError>) {
        Self::try_new(bytes)
    }
}

impl KeyGenerator for Ed25519Signer {
    /// Two blobs of 32 bytes: the seed of a signing key, then the encoding of
    /// the verifying key that belongs to it.
    open spec fn spec_generated(keys: Seq<Seq<u8>>) -> bool {
        &&& keys.len() == 2
        &&& keys[0].len() == ED25519_KEY_LEN
        &&& keys[1].len() == ED25519_KEY_LEN
        &&& keys[1] == ed25519_public_key(keys[0])
        &&& ed25519_key_decodes(keys[1])
    }

    /// Draws the signing key from the operating system's random source.
    fn generate() -> (keys: Vec<Vec<u8>>) {
        let seed = ed25519_fresh_seed();
        let public = ed25519_derive_public(&seed);
        let mut keys: Vec<Vec<u8>> = Vec::new();
        keys.push(slice_to_vec(seed.as_slice()));
        keys.push(slice_to_vec(public.as_slice()));
        keys
    }
}

/// What checking `signature` for `message` under the verifying key encoded by
/// `key` gives: an error unless the signature has 64 bytes, else whether the
/// scheme accepts it.
pub open spec fn ed25519_verdict(key: Seq<u8>, message: Seq<u8>, signature: Seq<u8>) -> Result<
    bool,
    TextError,
> {
    if signature.len() != ED25519_SIGNATURE_LEN {
        Err(TextError::MalformedSignature)
    } else {
        Ok(ed25519_accepts(key, message, signature))
    }
}

/// The verifying half of the asymmetric scheme: the 32-byte encoding of a
/// verifying key. Every value holds an encoding that decodes to a curve
/// point.
pub struct Ed25519Verifier {
    key: [u8; 32],
}

impl View for Ed25519Verifier {
    type V = Seq<u8>;

    closed spec fn view(&self) -> Seq<u8> {
        self.key@
    }
}

impl Ed25519Verifier {
    #[verifier::type_invariant]
    spec fn holds_a_point(self) -> bool {
        ed25519_key_decodes(self.key@)
    }

    /// Holds `key`, which is known to decode, as the verifying key. For
    /// bytes of which that is not known, there is `try_new`.
    pub fn new(key: [u8; 32]) -> (made: Self)
        requires
            ed25519_key_decodes(key@),
        ensures
            made@ == key@,
    {
        Self { key }
    }

    /// The key that `try_new` takes from `key`: all of it, if it is exactly
    /// 32 bytes that decode to a curve point.
    pub open spec fn spec_try_new(key: Seq<u8>) -> Result<Seq<u8>, TextError> {
        if key.len() != ED25519_KEY_LEN || !ed25519_key_decodes(key) {
            Err(TextError::InvalidKeyEncoding)
        } else {
            Ok(key)
        }
    }

    /// Takes the verifying key from key material, after testing that it
    /// decodes.
    pub fn try_new(key: &[u8]) -> (made: Result<Self, TextError>)
        ensures
            match made {
                Ok(verifier) => Self::spec_try_new(key@) == Ok::<Seq<u8>, TextError>(verifier@),
                Err(e) => Self::spec_try_new(key@) == Err::<Seq<u8>, TextError>(e),
            },
    {
        if key.len() != ED25519_KEY_LEN {
            Err(TextError::InvalidKeyEncoding)
        } else {
            let encoded: [u8; 32] = prefix(key);
            assert(encoded@ =~= key@);
            match ed25519_decode_key(&encoded) {
                Ok(_) => Ok(Ed25519Verifier::new(encoded)),
                Err(_) => Err(TextError::InvalidKeyEncoding),
            }
        }
    }
}

impl TextVerify for Ed25519Verifier {
    open spec fn spec_verify(&self, message: Seq<u8>, signature: Seq<u8>) -> Result<
        bool,
        TextError,
    > {
        ed25519_verdict(self@, message, signature)
    }

    fn verify(&self, message: &[u8], signature: &[u8]) -> (outcome: Result<bool, TextError>) {
        if signature.len() != ED25519_SIGNATURE_LEN {
            Err(TextError::MalformedSignature)
        } else {
            let raw: [u8; 64] = prefix(signature);
            assert(raw@ =~= signature@);
            proof {
                use_type_invariant(self);
            }
            match ed25519_verify(&self.key, message, &raw) {
                Ok(_) => Ok(true),
                Err(_) => Ok(false),
            }
        }
    }
}

impl KeyLoader for Ed25519Verifier {
    open spec fn spec_load(bytes: Seq<u8>) -> Result<Seq<u8>, TextError> {
        Self::spec_try_new(bytes)
    }

    fn load(bytes: &[u8]) -> (loaded: Result<Self, TextError>) {
        Self::try_new(bytes)
    }
}

} // verus!
