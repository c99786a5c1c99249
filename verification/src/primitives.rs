//! The cryptographic primitives the library builds on.
//!
//! Nothing in this module is proved. Each function below makes one call into
//! `blake3`, `ed25519-dalek` or `rand`, and its contract is an assumption
//! about that call. Results that are a function of the arguments alone are
//! given a name, so that the verified code can say exactly which value it
//! returns without restating the algorithm behind it.

use ed25519_dalek::{Signature, SignatureError, Signer, SigningKey, Verifier, VerifyingKey};
use rand::rngs::OsRng;
use rand::RngCore;
use vstd::prelude::*;

verus! {

/// Length in bytes of a BLAKE3 key and of a BLAKE3 digest.
pub const BLAKE3_LEN: usize = 32;

/// Length in bytes of an Ed25519 signing key (seed) and of a verifying key.
pub const ED25519_KEY_LEN: usize = 32;

/// Length in bytes of an Ed25519 signature.
pub const ED25519_SIGNATURE_LEN: usize = 64;

/// The BLAKE3 keyed hash of `input` under `key`: what `blake3::keyed_hash`
/// returns, as bytes.
pub uninterp spec fn blake3_keyed_hash(key: Seq<u8>, input: Seq<u8>) -> Seq<u8>;

/// The Ed25519 signature of `message` under the signing key with seed
/// `seed`: what `SigningKey::sign` returns, as bytes.
pub uninterp spec fn ed25519_signature(seed: Seq<u8>, message: Seq<u8>) -> Seq<u8>;

/// The encoded verifying key that belongs to the signing key with seed
/// `seed`: what `SigningKey::verifying_key` returns, as bytes.
pub uninterp spec fn ed25519_public_key(seed: Seq<u8>) -> Seq<u8>;

/// Whether `key` is the encoding of a curve point, that is, whether
/// `VerifyingKey::from_bytes` accepts it.
pub uninterp spec fn ed25519_key_decodes(key: Seq<u8>) -> bool;

/// Whether `VerifyingKey::verify`, for the key encoded by `key`, accepts
/// `signature` as a signature of `message`.
pub uninterp spec fn ed25519_accepts(key: Seq<u8>, message: Seq<u8>, signature: Seq<u8>) -> bool;

#[verifier::external_type_specification]
#[verifier::external_body]
pub struct ExSignatureError(SignatureError);

/// Calls `blake3::keyed_hash` and copies the digest out.
///
/// Assumed: the digest is a function of key and input alone.
#[verifier::external_body]
pub(crate) fn keyed_hash(key: &[u8; 32], input: &[u8]) -> (digest: [u8; 32])
    ensures
        digest@ == blake3_keyed_hash(key@, input@),
{
    *blake3::keyed_hash(key, input).as_bytes()
}

/// Compares two digests with the equality of `blake3::Hash`, which its
/// documentation states to be constant-time.
///
/// Assumed: the comparison is true exactly when the two arrays hold the same
/// bytes.
#[verifier::external_body]
pub(crate) fn digests_equal(left: &[u8; 32], right: &[u8; 32]) -> (same: bool)
    ensures
        same == (left@ == right@),
{
    blake3::Hash::from_bytes(*left) == blake3::Hash::from_bytes(*right)
}

/// Whether `signature` is accepted for `message` under the verifying key
/// that belongs to the signing key with seed `seed`, that key being a 32-byte
/// encoding that decodes.
pub open spec fn ed25519_verifies_under_own_key(
    seed: Seq<u8>,
    message: Seq<u8>,
    signature: Seq<u8>,
) -> bool {
    let key = ed25519_public_key(seed);
    &&& key.len() == ED25519_KEY_LEN
    &&& ed25519_key_decodes(key)
    &&& ed25519_accepts(key, message, signature)
}

/// Builds the signing key for `seed` and calls `Signer::sign` on it.
///
/// Assumed: the signature is a function of seed and message alone (Ed25519
/// signing draws no randomness), and it is one that `VerifyingKey::verify`
/// accepts for the same message under the verifying key of that seed, as the
/// crate's documentation shows.
#[verifier::external_body]
pub(crate) fn ed25519_sign(seed: &[u8; 32], message: &[u8]) -> (signature: [u8; 64])
    ensures
        signature@ == ed25519_signature(seed@, message@),
        ed25519_verifies_under_own_key(seed@, message@, signature@),
{
    SigningKey::from_bytes(seed).sign(message).to_bytes()
}

/// Builds the signing key for `seed` and calls `SigningKey::verifying_key`.
///
/// Assumed: the verifying key is a function of the seed alone, and its
/// encoding is one that `VerifyingKey::from_bytes` accepts.
#[verifier::external_body]
pub(crate) fn ed25519_derive_public(seed: &[u8; 32]) -> (key: [u8; 32])
    ensures
        key@ == ed25519_public_key(seed@),
        ed25519_key_decodes(key@),
{
    SigningKey::from_bytes(seed).verifying_key().to_bytes()
}

/// Calls `VerifyingKey::from_bytes` and keeps only whether it succeeded.
///
/// Assumed: success is a function of the 32 bytes alone.
#[verifier::external_body]
pub(crate) fn ed25519_decode_key(key: &[u8; 32]) -> (outcome: Result<(), SignatureError>)
    ensures
        outcome is Ok <==> ed25519_key_decodes(key@),
{
    match VerifyingKey::from_bytes(key) {
        Ok(_) => Ok(()),
        Err(e) => Err(e),
    }
}

/// Decodes the verifying key and calls `Verifier::verify` on it.
///
/// Assumed: for a key that decodes, acceptance is a function of key, message
/// and signature alone.
#[verifier::external_body]
pub(crate) fn ed25519_verify(key: &[u8; 32], message: &[u8], signature: &[u8; 64]) -> (outcome:
    Result<(), SignatureError>)
    requires
        ed25519_key_decodes(key@),
    ensures
        outcome is Ok <==> ed25519_accepts(key@, message@, signature@),
{
    VerifyingKey::from_bytes(key)?.verify(message, &Signature::from_bytes(signature))
}

/// Calls `SigningKey::generate` with the operating system's random source
/// and returns the seed of the new key.
///
/// Nothing is assumed of the seed. The call aborts the process if the
/// operating system cannot supply random bytes.
#[verifier::external_body]
pub(crate) fn ed25519_fresh_seed() -> (seed: [u8; 32]) {
    SigningKey::generate(&mut OsRng).to_bytes()
}

/// Fills a 32-byte key from the operating system's random source with
/// `RngCore::fill_bytes`.
///
/// Nothing is assumed of the key. The call aborts the process if the
/// operating system cannot supply random bytes.
#[verifier::external_body]
pub(crate) fn random_key() -> (key: [u8; 32]) {
    let mut key = [0u8; 32];
    OsRng.fill_bytes(&mut key);
    key
}

} // verus!
