//! What holds of signing and verifying for every key, message and signature.

use crate::b64::base64_url_bytes;
use crate::errors::TextError;
use crate::keys::{Blake3, Ed25519Signer, Ed25519Verifier, TestSign, TextVerify};
use crate::primitives::{ed25519_key_decodes, BLAKE3_LEN, ED25519_KEY_LEN, ED25519_SIGNATURE_LEN};
use crate::scheme::TextSignFormat;
use crate::text::{spec_sign_message, spec_text_sign, spec_text_verify, spec_verify_signature};
use vstd::prelude::*;

verus! {

/// Keyed hash, round trip: the signature that a key makes of a message is
/// accepted by the same key for the same message.
pub proof fn lemma_keyed_hash_round_trip(key: Blake3, message: Seq<u8>)
    ensures
        key.spec_verify(message, key.spec_sign(message)) == Ok::<bool, TextError>(true),
{
}

/// Keyed hash, round trip at the boundary: whatever key material is accepted
/// for signing verifies its own signature, whether or not bytes follow the
/// first 32.
pub proof fn lemma_keyed_hash_material_round_trip(input: Seq<u8>, key: Seq<u8>)
    requires
        key.len() >= BLAKE3_LEN,
    ensures
        spec_sign_message(input, key, TextSignFormat::Blake3) is Ok,
        spec_verify_signature(
            input,
            key,
            TextSignFormat::Blake3,
            spec_sign_message(input, key, TextSignFormat::Blake3)->Ok_0,
        ) == Ok::<bool, TextError>(true),
{
}

/// Keyed hash, tampered signature: a key accepts no signature of a message
/// but the one it makes itself. Changing a single bit of a signature
/// therefore turns acceptance into rejection, and never into an error.
pub proof fn lemma_keyed_hash_rejects_other_signatures(
    key: Blake3,
    message: Seq<u8>,
    signature: Seq<u8>,
)
    requires
        signature != key.spec_sign(message),
    ensures
        key.spec_verify(message, signature) == Ok::<bool, TextError>(false),
{
}

/// Keyed hash, determinism: signing draws on nothing but key and message, so
/// two signers that hold the same key give the same signature.
pub proof fn lemma_keyed_hash_is_deterministic(first: Blake3, second: Blake3, message: Seq<u8>)
    requires
        first@ == second@,
    ensures
        first.spec_sign(message) == second.spec_sign(message),
{
}

/// Keyed hash, oversized key material: only the first 32 bytes count.
pub proof fn lemma_keyed_hash_key_is_truncated(input: Seq<u8>, key: Seq<u8>)
    requires
        key.len() >= BLAKE3_LEN,
    ensures
        spec_text_sign(input, key, TextSignFormat::Blake3) == spec_text_sign(
            input,
            key.take(BLAKE3_LEN as int),
            TextSignFormat::Blake3,
        ),
{
    assert(key.take(BLAKE3_LEN as int).take(BLAKE3_LEN as int) =~= key.take(BLAKE3_LEN as int));
}

/// Length validation: key material shorter than 32 bytes is `KeyTooShort` for
/// the keyed hash, when signing and when verifying.
pub proof fn lemma_short_key_is_refused(input: Seq<u8>, key: Seq<u8>, signature: Seq<u8>)
    requires
        key.len() < BLAKE3_LEN,
    ensures
        spec_sign_message(input, key, TextSignFormat::Blake3) == Err::<Seq<u8>, TextError>(
            TextError::KeyTooShort,
        ),
        spec_verify_signature(input, key, TextSignFormat::Blake3, signature) == Err::<
            bool,
            TextError,
        >(TextError::KeyTooShort),
{
}

/// Length validation: key material of any length but 32 is
/// `InvalidKeyEncoding` for the asymmetric scheme, when signing and when
/// verifying.
pub proof fn lemma_wrong_size_key_is_refused(input: Seq<u8>, key: Seq<u8>, signature: Seq<u8>)
    requires
        key.len() != ED25519_KEY_LEN,
    ensures
        spec_sign_message(input, key, TextSignFormat::Ed25519) == Err::<Seq<u8>, TextError>(
            TextError::InvalidKeyEncoding,
        ),
        spec_verify_signature(input, key, TextSignFormat::Ed25519, signature) == Err::<
            bool,
            TextError,
        >(TextError::InvalidKeyEncoding),
{
}

/// Malformed signature: text that is not base64 is `MalformedSignature` under
/// either scheme and whatever the key.
pub proof fn lemma_undecodable_signature_is_an_error(
    input: Seq<u8>,
    key: Seq<u8>,
    format: TextSignFormat,
    sig: Seq<char>,
)
    requires
        base64_url_bytes(sig) is None,
    ensures
        spec_text_verify(input, key, format, sig) == Err::<bool, TextError>(
            TextError::MalformedSignature,
        ),
{
}

/// Malformed signature: under the asymmetric scheme and a key that loads,
/// signature text that decodes to any number of bytes but 64 is
/// `MalformedSignature`, not `Ok(false)`.
pub proof fn lemma_wrong_size_signature_is_an_error(input: Seq<u8>, key: Seq<u8>, sig: Seq<char>)
    requires
        key.len() == ED25519_KEY_LEN,
        ed25519_key_decodes(key),
        base64_url_bytes(sig) matches Some(signature) && signature.len() != ED25519_SIGNATURE_LEN,
    ensures
        spec_text_verify(input, key, TextSignFormat::Ed25519, sig) == Err::<bool, TextError>(
            TextError::MalformedSignature,
        ),
{
}

/// A mismatch is no error: once the key loads and the signature is well
/// formed, verification answers `Ok`, with `true` or `false`.
pub proof fn lemma_mismatch_is_not_an_error(
    input: Seq<u8>,
    key: Seq<u8>,
    format: TextSignFormat,
    signature: Seq<u8>,
)
    requires
        match format {
            TextSignFormat::Blake3 => Blake3::spec_try_new(key) is Ok,
            TextSignFormat::Ed25519 => Ed25519Verifier::spec_try_new(key) is Ok && signature.len()
                == ED25519_SIGNATURE_LEN,
        },
    ensures
        spec_verify_signature(input, key, format, signature) is Ok,
{
}

/// Every 32 bytes load as an asymmetric signing key.
pub proof fn lemma_every_seed_loads(key: Seq<u8>)
    requires
        key.len() == ED25519_KEY_LEN,
    ensures
        Ed25519Signer::spec_try_new(key) == Ok::<Seq<u8>, TextError>(key),
{
}

} // verus!
