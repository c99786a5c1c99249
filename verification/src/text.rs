//! Signing and verifying at the boundary: a scheme is chosen by tag, keys
//! arrive as the bytes that were read from a key source, and signatures
//! travel as base64 text in the URL-safe alphabet without padding.

use crate::b64::{base64_url_bytes, base64_url_text, unpadded_len, url_safe_decode, url_safe_encode};
use crate::errors::TextError;
use crate::keys::{
    ed25519_verdict, key_blobs, Blake3, Ed25519Signer, Ed25519Verifier, KeyGenerator, KeyLoader,
    TestSign, TextVerify,
};
use crate::primitives::{blake3_keyed_hash, ed25519_public_key, ed25519_signature};
use crate::scheme::TextSignFormat;
use vstd::prelude::*;

verus! {

/// The raw signature of `input` under the signing key loaded from `key`, or
/// the reason why `key` is refused.
pub open spec fn spec_sign_message(input: Seq<u8>, key: Seq<u8>, format: TextSignFormat) -> Result<
    Seq<u8>,
    TextError,
> {
    match format {
        TextSignFormat::Blake3 => match Blake3::spec_try_new(key) {
            Ok(secret) => Ok(blake3_keyed_hash(secret, input)),
            Err(e) => Err(e),
        },
        TextSignFormat::Ed25519 => match Ed25519Signer::spec_try_new(key) {
            Ok(seed) => Ok(ed25519_signature(seed, input)),
            Err(e) => Err(e),
        },
    }
}

/// Whether the raw `signature` is accepted for `input` under the verifying
/// key loaded from `key`. The key is judged first, then the signature.
pub open spec fn spec_verify_signature(
    input: Seq<u8>,
    key: Seq<u8>,
    format: TextSignFormat,
    signature: Seq<u8>,
) -> Result<bool, TextError> {
    match format {
        TextSignFormat::Blake3 => match Blake3::spec_try_new(key) {
            Ok(secret) => Ok(signature == blake3_keyed_hash(secret, input)),
            Err(e) => Err(e),
        },
        TextSignFormat::Ed25519 => match Ed25519Verifier::spec_try_new(key) {
            Ok(point) => ed25519_verdict(point, input, signature),
            Err(e) => Err(e),
        },
    }
}

/// The key material that verifies what `key` signs: the same bytes for the
/// keyed hash, the derived public key for the asymmetric scheme.
pub open spec fn verifying_material(key: Seq<u8>, format: TextSignFormat) -> Seq<u8> {
    match format {
        TextSignFormat::Blake3 => key,
        TextSignFormat::Ed25519 => ed25519_public_key(key),
    }
}

/// The signature text for `input`, or the reason why `key` is refused.
pub open spec fn spec_text_sign(input: Seq<u8>, key: Seq<u8>, format: TextSignFormat) -> Result<
    Seq<char>,
    TextError,
> {
    match spec_sign_message(input, key, format) {
        Ok(signature) => Ok(base64_url_text(signature)),
        Err(e) => Err(e),
    }
}

/// What verifying `input` against the signature text `sig` gives. Text that
/// is not base64 is an error before the key is looked at.
pub open spec fn spec_text_verify(
    input: Seq<u8>,
    key: Seq<u8>,
    format: TextSignFormat,
    sig: Seq<char>,
) -> Result<bool, TextError> {
    match base64_url_bytes(sig) {
        Some(signature) => spec_verify_signature(input, key, format, signature),
        None => Err(TextError::MalformedSignature),
    }
}

/// Loads the signing key of the scheme from `key` and signs `input` with it.
pub fn sign_message(input: &[u8], key: &[u8], format: TextSignFormat) -> (signed: Result<
    Vec<u8>,
    TextError,
>)
    ensures
        match signed {
            Ok(signature) => {
                &&& spec_sign_message(input@, key@, format) == Ok::<Seq<u8>, TextError>(signature@)
                &&& signature@.len() == format.spec_signature_len()
                &&& spec_verify_signature(
                    input@,
                    verifying_material(key@, format),
                    format,
                    signature@,
                ) == Ok::<bool, TextError>(true)
            },
            Err(e) => spec_sign_message(input@, key@, format) == Err::<Seq<u8>, TextError>(e),
        },
{
    match format {
        TextSignFormat::Blake3 => {
            let signer = Blake3::load(key)?;
            Ok(signer.sign(input))
        },
        TextSignFormat::Ed25519 => {
            let signer = Ed25519Signer::load(key)?;
            Ok(signer.sign(input))
        },
    }
}

/// Loads the verifying key of the scheme from `key` and checks the raw
/// `signature` of `input` with it.
pub fn verify_signature(input: &[u8], key: &[u8], format: TextSignFormat, signature: &[u8]) -> (outcome:
    Result<bool, TextError>)
    ensures
        outcome == spec_verify_signature(input@, key@, format, signature@),
{
    match format {
        TextSignFormat::Blake3 => {
            let verifier = Blake3::load(key)?;
            verifier.verify(input, signature)
        },
        TextSignFormat::Ed25519 => {
            let verifier = Ed25519Verifier::load(key)?;
            verifier.verify(input, signature)
        },
    }
}

/// Signs `input` with the key loaded from `key` and returns the signature as
/// text.
pub fn process_text_sign(input: &[u8], key: &[u8], format: TextSignFormat) -> (signed: Result<
    String,
    TextError,
>)
    ensures
        match signed {
            Ok(text) => {
                &&& spec_text_sign(input@, key@, format) == Ok::<Seq<char>, TextError>(text@)
                &&& text@.len() == unpadded_len(format.spec_signature_len())
                &&& spec_text_verify(input@, verifying_material(key@, format), format, text@)
                    == Ok::<bool, TextError>(true)
            },
            Err(e) => spec_text_sign(input@, key@, format) == Err::<Seq<char>, TextError>(e),
        },
{
    let signature = sign_message(input, key, format)?;
    Ok(url_safe_encode(signature.as_slice()))
}

/// Checks the signature text `sig` of `input` with the key loaded from `key`.
/// A signature that is well formed but does not match gives `Ok(false)`.
pub fn process_text_verify(input: &[u8], key: &[u8], format: TextSignFormat, sig: &str) -> (outcome:
    Result<bool, TextError>)
    ensures
        outcome == spec_text_verify(input@, key@, format, sig@),
{
    match url_safe_decode(sig) {
        Ok(signature) => verify_signature(input, key, format, signature.as_slice()),
        Err(_) => Err(TextError::MalformedSignature),
    }
}

/// What holds of every list of key blobs generated for `format`.
pub open spec fn spec_generated(keys: Seq<Seq<u8>>, format: TextSignFormat) -> bool {
    match format {
        TextSignFormat::Blake3 => Blake3::spec_generated(keys),
        TextSignFormat::Ed25519 => Ed25519Signer::spec_generated(keys),
    }
}

/// Makes fresh key material for `format`: one secret for the keyed hash; for
/// the asymmetric scheme the signing key, then the verifying key.
pub fn process_generate(format: TextSignFormat) -> (keys: Vec<Vec<u8>>)
    ensures
        spec_generated(key_blobs(keys@), format),
{
    match format {
        TextSignFormat::Blake3 => Blake3::generate(),
        TextSignFormat::Ed25519 => Ed25519Signer::generate(),
    }
}

} // verus!
