use rcli::{
    parse_text_sign_format, process_generate, process_text_sign, process_text_verify,
    sign_message, signature_matches, verify_signature, Blake3, Ed25519Signer, Ed25519Verifier,
    KeyGenerator, KeyLoader, TestSign, TextError, TextSignFormat, TextVerify,
};

/// Key material as it may come from a key file: 32 bytes of key, then more.
const SECRET: &[u8] = b"kD4wR7mZ1xQ9sV2bN6cH8jL3pT5yF0gAtrailing bytes\n";

/// A signing key and its verifying key, as bytes.
const SEED: [u8; 32] = [
    0x9d, 0x61, 0xb1, 0x9d, 0xef, 0xfd, 0x5a, 0x60, 0xba, 0x84, 0x4a, 0xf4, 0x92, 0xec, 0x2c, 0xc4,
    0x44, 0x49, 0xc5, 0x69, 0x7b, 0x32, 0x69, 0x19, 0x70, 0x3b, 0xac, 0x03, 0x1c, 0xae, 0x7f, 0x60,
];

const PUBLIC: [u8; 32] = [
    0xd7, 0x5a, 0x98, 0x01, 0x82, 0xb1, 0x0a, 0xb7, 0xd5, 0x4b, 0xfe, 0xd3, 0xc9, 0x64, 0x07, 0x3a,
    0x0e, 0xe1, 0x72, 0xf3, 0xda, 0xa6, 0x23, 0x25, 0xaf, 0x02, 0x1a, 0x68, 0xf7, 0x07, 0x51, 0x1a,
];

/// The signature of the empty message under `SEED`.
const EMPTY_SIGNATURE: [u8; 64] = [
    0xe5, 0x56, 0x43, 0x00, 0xc3, 0x60, 0xac, 0x72, 0x90, 0x86, 0xe2, 0xcc, 0x80, 0x6e, 0x82, 0x8a,
    0x84, 0x87, 0x7f, 0x1e, 0xb8, 0xe5, 0xd9, 0x74, 0xd8, 0x73, 0xe0, 0x65, 0x22, 0x49, 0x01, 0x55,
    0x5f, 0xb8, 0x82, 0x15, 0x90, 0xa3, 0x3b, 0xac, 0xc6, 0x1e, 0x39, 0x70, 0x1c, 0xf9, 0xb4, 0x6b,
    0xd2, 0x5b, 0xf5, 0xf0, 0x59, 0x5b, 0xbe, 0x24, 0x65, 0x51, 0x41, 0x43, 0x8e, 0x7a, 0x10, 0x0b,
];

/// 32 bytes that are the encoding of no curve point.
const NO_POINT: [u8; 32] = [
    2, 0, 0, 0, 0, 0, 0, 0, 0, 0, 0, 0, 0, 0, 0, 0, 0, 0, 0, 0, 0, 0, 0, 0, 0, 0, 0, 0, 0, 0, 0, 0,
];

fn flipped(bytes: &[u8], bit: usize) -> Vec<u8> {
    let mut copy = bytes.to_vec();
    copy[bit / 8] ^= 1 << (bit % 8);
    copy
}

#[test]
fn test_blake3_sign_verify() {
    let blake3 = Blake3::load(SECRET).unwrap();
    let data = b"hello world";
    let sig = blake3.sign(&data[..]);
    assert!(blake3.verify(&data[..], &sig).unwrap());
}

#[test]
fn test_ed25519_sign_verify() {
    let sk = Ed25519Signer::load(&SEED).unwrap();
    let pk = Ed25519Verifier::load(&PUBLIC).unwrap();
    let data = b"hello world";
    let sig = sk.sign(&data[..]);
    assert!(pk.verify(&data[..], &sig).unwrap());
}

#[test]
fn symmetric_round_trip() {
    let messages: [&[u8]; 4] = [b"", b"a", b"hello world", &[0xff; 1000]];
    for key in [[0u8; 32], [7u8; 32], [0xff; 32]] {
        let signer = Blake3::new(key);
        for message in messages {
            let signature = signer.sign(message);
            assert_eq!(signature.len(), 32);
            assert_eq!(signer.verify(message, &signature), Ok(true));
            assert_eq!(verify_signature(message, &key, TextSignFormat::Blake3, &signature), Ok(true));
        }
    }
}

#[test]
fn asymmetric_round_trip_with_fresh_keys() {
    let keys = Ed25519Signer::generate();
    let signer = Ed25519Signer::load(&keys[0]).unwrap();
    let verifier = Ed25519Verifier::load(&keys[1]).unwrap();
    let messages: [&[u8]; 3] = [b"", b"hello world", &[0x5a; 300]];
    for message in messages {
        let signature = signer.sign(message);
        assert_eq!(signature.len(), 64);
        assert_eq!(verifier.verify(message, &signature), Ok(true));
    }
}

#[test]
fn symmetric_tampering_is_rejected() {
    let signer = Blake3::new([9u8; 32]);
    let message = b"pay 10 to bob";
    let signature = signer.sign(message);
    for bit in 0..message.len() * 8 {
        assert_eq!(signer.verify(&flipped(message, bit), &signature), Ok(false));
    }
    for bit in 0..signature.len() * 8 {
        assert_eq!(signer.verify(message, &flipped(&signature, bit)), Ok(false));
    }
}

#[test]
fn asymmetric_tampering_is_rejected() {
    let signer = Ed25519Signer::new(SEED);
    let verifier = Ed25519Verifier::new(PUBLIC);
    let message = b"pay 10 to bob";
    let signature = signer.sign(message);
    for bit in 0..message.len() * 8 {
        assert_eq!(verifier.verify(&flipped(message, bit), &signature), Ok(false));
    }
    for bit in 0..signature.len() * 8 {
        assert_eq!(verifier.verify(message, &flipped(&signature, bit)), Ok(false));
    }
}

#[test]
fn signatures_of_another_key_are_rejected() {
    let first = Blake3::new([1u8; 32]);
    let second = Blake3::new([2u8; 32]);
    let signature = first.sign(b"message");
    assert_eq!(second.verify(b"message", &signature), Ok(false));

    let other = Ed25519Signer::generate();
    let signer = Ed25519Signer::new(SEED);
    let verifier = Ed25519Verifier::load(&other[1]).unwrap();
    assert_eq!(verifier.verify(b"message", &signer.sign(b"message")), Ok(false));
}

#[test]
fn symmetric_signing_is_deterministic() {
    let first = Blake3::new([3u8; 32]);
    let second = Blake3::load(&[3u8; 32]).unwrap();
    assert_eq!(first.sign(b"same"), first.sign(b"same"));
    assert_eq!(first.sign(b"same"), second.sign(b"same"));
    assert_ne!(first.sign(b"same"), first.sign(b"other"));
    assert_eq!(
        process_text_sign(b"same", &[3u8; 32], TextSignFormat::Blake3),
        process_text_sign(b"same", &[3u8; 32], TextSignFormat::Blake3)
    );
}

#[test]
fn key_lengths_are_validated() {
    assert!(matches!(Blake3::load(&[0u8; 10]), Err(TextError::KeyTooShort)));
    assert!(matches!(Blake3::try_new(&[0u8; 31]), Err(TextError::KeyTooShort)));
    assert!(matches!(Blake3::try_new(&[]), Err(TextError::KeyTooShort)));
    assert!(Blake3::try_new(&[0u8; 32]).is_ok());
    assert!(matches!(Ed25519Signer::load(&[0u8; 31]), Err(TextError::InvalidKeyEncoding)));
    assert!(matches!(Ed25519Signer::try_new(&[0u8; 33]), Err(TextError::InvalidKeyEncoding)));
    assert!(Ed25519Signer::try_new(&[0u8; 32]).is_ok());
    assert!(matches!(Ed25519Verifier::load(&PUBLIC[..31]), Err(TextError::InvalidKeyEncoding)));
    assert!(matches!(Ed25519Verifier::try_new(&[0u8; 33]), Err(TextError::InvalidKeyEncoding)));
    assert_eq!(
        process_text_sign(b"m", &[0u8; 10], TextSignFormat::Blake3),
        Err(TextError::KeyTooShort)
    );
    assert_eq!(
        process_text_sign(b"m", &[0u8; 31], TextSignFormat::Ed25519),
        Err(TextError::InvalidKeyEncoding)
    );
    assert_eq!(
        process_text_verify(b"m", &[0u8; 10], TextSignFormat::Blake3, "AAAA"),
        Err(TextError::KeyTooShort)
    );
}

#[test]
fn verifying_key_must_be_a_point() {
    assert!(matches!(Ed25519Verifier::try_new(&NO_POINT), Err(TextError::InvalidKeyEncoding)));
    assert!(Ed25519Verifier::try_new(&PUBLIC).is_ok());
    assert_eq!(
        verify_signature(b"m", &NO_POINT, TextSignFormat::Ed25519, &EMPTY_SIGNATURE),
        Err(TextError::InvalidKeyEncoding)
    );
}

#[test]
fn oversized_symmetric_key_is_cut_to_its_first_32_bytes() {
    let long = Blake3::load(SECRET).unwrap();
    let short = Blake3::load(&SECRET[..32]).unwrap();
    assert_eq!(long.sign(b"hello world"), short.sign(b"hello world"));
    assert_eq!(
        process_text_sign(b"hello world", SECRET, TextSignFormat::Blake3),
        process_text_sign(b"hello world", &SECRET[..32], TextSignFormat::Blake3)
    );
}

#[test]
fn malformed_signatures_are_errors() {
    let key = [0u8; 32];
    for format in [TextSignFormat::Blake3, TextSignFormat::Ed25519] {
        let key: &[u8] = if format == TextSignFormat::Blake3 { &key } else { &PUBLIC };
        assert_eq!(
            process_text_verify(b"m", key, format, "not base64!"),
            Err(TextError::MalformedSignature)
        );
        assert_eq!(
            process_text_verify(b"m", key, format, "AAAA=="),
            Err(TextError::MalformedSignature)
        );
    }
    // 84 characters decode to 63 bytes
    let short = "A".repeat(84);
    assert_eq!(
        process_text_verify(b"m", &PUBLIC, TextSignFormat::Ed25519, &short),
        Err(TextError::MalformedSignature)
    );
    assert_eq!(
        verify_signature(b"m", &PUBLIC, TextSignFormat::Ed25519, &[0u8; 63]),
        Err(TextError::MalformedSignature)
    );
    assert_eq!(
        Ed25519Verifier::new(PUBLIC).verify(b"m", &[0u8; 65]),
        Err(TextError::MalformedSignature)
    );
}

#[test]
fn a_signature_of_the_wrong_length_is_a_mismatch_for_the_keyed_hash() {
    let signer = Blake3::new([0u8; 32]);
    let signature = signer.sign(b"m");
    assert_eq!(signer.verify(b"m", &signature[..31]), Ok(false));
    assert_eq!(signer.verify(b"m", &[]), Ok(false));
    let mut longer = signature.clone();
    longer.push(0);
    assert_eq!(signer.verify(b"m", &longer), Ok(false));
    assert_eq!(process_text_verify(b"m", &[0u8; 32], TextSignFormat::Blake3, "AAAA"), Ok(false));
}

#[test]
fn a_mismatch_is_false_and_no_error() {
    let verifier = Ed25519Verifier::new(PUBLIC);
    assert_eq!(verifier.verify(b"m", &[0u8; 64]), Ok(false));
    assert_eq!(verifier.verify(b"", &EMPTY_SIGNATURE), Ok(true));
    assert_eq!(verifier.verify(b"x", &EMPTY_SIGNATURE), Ok(false));
}

#[test]
fn zero_key_hello_world_scenario() {
    let key = [0u8; 32];
    let text = process_text_sign(b"hello world", &key, TextSignFormat::Blake3).unwrap();
    assert_eq!(text.len(), 43);
    assert_eq!(text, "9w1nUwM4JGplIurp2q2SwN_UvPTlEWAtlumv0dIhBHk");
    assert_eq!(process_text_verify(b"hello world", &key, TextSignFormat::Blake3, &text), Ok(true));
    assert_eq!(
        process_text_verify(b"hello world!", &key, TextSignFormat::Blake3, &text),
        Ok(false)
    );
}

#[test]
fn asymmetric_signature_of_a_known_key() {
    let signer = Ed25519Signer::new(SEED);
    assert_eq!(signer.verifying_key(), PUBLIC);
    assert_eq!(signer.sign(b""), EMPTY_SIGNATURE.to_vec());
    assert_eq!(sign_message(b"", &SEED, TextSignFormat::Ed25519), Ok(EMPTY_SIGNATURE.to_vec()));
    let text = process_text_sign(b"", &SEED, TextSignFormat::Ed25519).unwrap();
    assert_eq!(
        text,
        "5VZDAMNgrHKQhuLMgG6CioSHfx645dl02HPgZSJJAVVfuIIVkKM7rMYeOXAc-bRr0lv18FlbviRlUUFDjnoQCw"
    );
    assert_eq!(text.len(), 86);
    assert_eq!(process_text_verify(b"", &PUBLIC, TextSignFormat::Ed25519, &text), Ok(true));
}

#[test]
fn generated_asymmetric_keys_have_the_stated_shape() {
    let keys = process_generate(TextSignFormat::Ed25519);
    assert_eq!(keys.len(), 2);
    assert_eq!(keys[0].len(), 32);
    assert_eq!(keys[1].len(), 32);
    let signer = Ed25519Signer::try_new(&keys[0]).unwrap();
    assert_eq!(signer.verifying_key().to_vec(), keys[1]);
    let text = process_text_sign(b"abc", &keys[0], TextSignFormat::Ed25519).unwrap();
    assert_eq!(process_text_verify(b"abc", &keys[1], TextSignFormat::Ed25519, &text), Ok(true));
}

#[test]
fn generated_symmetric_key_is_random() {
    let keys = process_generate(TextSignFormat::Blake3);
    assert_eq!(keys.len(), 1);
    assert_eq!(keys[0].len(), 32);
    assert_ne!(keys[0], vec![0u8; 32]);
    assert_ne!(keys, Blake3::generate());
    assert!(Blake3::load(&keys[0]).is_ok());
}

#[test]
fn digests_are_compared_byte_for_byte() {
    let digest = [0x11u8; 32];
    assert!(signature_matches(&digest, &[0x11u8; 32]));
    assert!(!signature_matches(&digest, &[0x11u8; 31]));
    assert!(!signature_matches(&digest, &[0x11u8; 33]));
    let mut other = digest;
    other[31] = 0x10;
    assert!(!signature_matches(&digest, &other));
}

#[test]
fn scheme_names_are_parsed() {
    assert_eq!(parse_text_sign_format("blake3"), Ok(TextSignFormat::Blake3));
    assert_eq!(parse_text_sign_format("ed25519"), Ok(TextSignFormat::Ed25519));
    assert_eq!(
        parse_text_sign_format("sha256"),
        Err(TextError::UnknownScheme("sha256".to_string()))
    );
    assert_eq!(parse_text_sign_format(""), Err(TextError::UnknownScheme(String::new())));
    assert_eq!(parse_text_sign_format("Blake3"), Err(TextError::UnknownScheme("Blake3".into())));
    assert_eq!("ed25519".parse::<TextSignFormat>(), Ok(TextSignFormat::Ed25519));
    for format in [TextSignFormat::Blake3, TextSignFormat::Ed25519] {
        assert_eq!(parse_text_sign_format(format.as_str()), Ok(format));
        assert_eq!(format.to_string(), format.as_str());
    }
    assert_eq!(TextSignFormat::Blake3.signature_len(), 32);
    assert_eq!(TextSignFormat::Ed25519.signature_len(), 64);
}

#[test]
fn text_errors_have_messages() {
    assert_eq!(TextError::UnknownScheme("md5".into()).message(), "Invalid format md5");
    assert_eq!(TextError::KeyTooShort.message(), "Key material is too short");
    assert_eq!(TextError::InvalidKeyEncoding.message(), "Key material is not a valid key");
    assert_eq!(TextError::MalformedSignature.message(), "Signature is malformed");
}
