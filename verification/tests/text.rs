use rcli::{
    process_text_generate, process_text_sign, process_text_verify, Blake3, Ed25519Signer,
    Ed25519Verifier, KeyLoader, TextError, TextSign, TextSignFormat, TextVerify,
};

#[test]
fn test_blake3_sign_verify() {
    let key = process_text_generate(TextSignFormat::Blake3).unwrap();
    let signer = Blake3::try_new(&key[0]).unwrap();
    let test_data = b"hello";

    let sign = signer.sign(&test_data[..]);
    let verify = signer.verify(&test_data[..], &sign).unwrap();

    assert!(verify);
}

#[test]
fn test_ed25519_sign_verify() {
    let key = process_text_generate(TextSignFormat::Ed25519).unwrap();
    let signer = Ed25519Signer::try_new(&key[0]).unwrap();
    let test_data = b"hello";
    let sign = signer.sign(&test_data[..]);

    let verifier = Ed25519Verifier::try_new(&key[1]).unwrap();
    let verify = verifier.verify(&test_data[..], &sign).unwrap();

    assert!(verify);
}

#[test]
fn test_blake3_sign_is_deterministic() {
    let key = process_text_generate(TextSignFormat::Blake3).unwrap();
    let signer = Blake3::try_new(&key[0]).unwrap();
    let first = signer.sign(&b"some message"[..]);
    let second = signer.sign(&b"some message"[..]);
    assert_eq!(first, second);
    assert_eq!(first.len(), 32);
    assert_ne!(first.as_slice(), &b"some message"[..]);
}

#[test]
fn test_ed25519_sign_is_deterministic() {
    let key = process_text_generate(TextSignFormat::Ed25519).unwrap();
    let signer = Ed25519Signer::try_new(&key[0]).unwrap();
    let first = signer.sign(&b"some message"[..]);
    let second = signer.sign(&b"some message"[..]);
    assert_eq!(first, second);
    assert_eq!(first.len(), 64);
}

#[test]
fn test_blake3_tamper_rejected() {
    let key = process_text_generate(TextSignFormat::Blake3).unwrap();
    let signer = Blake3::try_new(&key[0]).unwrap();
    let sign = signer.sign(&b"hello"[..]);
    assert!(!signer.verify(&b"hellp"[..], &sign).unwrap());
    assert!(!signer.verify(&b"iello"[..], &sign).unwrap());
}

#[test]
fn test_ed25519_tamper_rejected() {
    let key = process_text_generate(TextSignFormat::Ed25519).unwrap();
    let signer = Ed25519Signer::try_new(&key[0]).unwrap();
    let verifier = Ed25519Verifier::try_new(&key[1]).unwrap();
    let sign = signer.sign(&b"hello"[..]);
    assert!(!verifier.verify(&b"hellp"[..], &sign).unwrap());
}

#[test]
fn test_blake3_wrong_key_rejected() {
    let key1 = process_text_generate(TextSignFormat::Blake3).unwrap();
    let key2 = process_text_generate(TextSignFormat::Blake3).unwrap();
    assert_ne!(key1[0], key2[0]);
    let signer = Blake3::try_new(&key1[0]).unwrap();
    let other = Blake3::try_new(&key2[0]).unwrap();
    let sign = signer.sign(&b"hello"[..]);
    assert!(!other.verify(&b"hello"[..], &sign).unwrap());
}

#[test]
fn test_ed25519_wrong_key_rejected() {
    let key1 = process_text_generate(TextSignFormat::Ed25519).unwrap();
    let key2 = process_text_generate(TextSignFormat::Ed25519).unwrap();
    let signer = Ed25519Signer::try_new(&key1[0]).unwrap();
    let unrelated = Ed25519Verifier::try_new(&key2[1]).unwrap();
    let sign = signer.sign(&b"hello"[..]);
    assert!(!unrelated.verify(&b"hello"[..], &sign).unwrap());
}

#[test]
fn test_symmetric_key_too_short_rejected() {
    let short = [7u8; 10];
    assert!(matches!(Blake3::try_new(&short), Err(TextError::KeyLengthError)));
    assert!(matches!(Blake3::load(&short), Err(TextError::KeyLengthError)));
}

#[test]
fn test_symmetric_key_longer_is_truncated() {
    let long = [9u8; 40];
    let exact = [9u8; 32];
    let from_long = Blake3::try_new(&long).unwrap();
    let from_exact = Blake3::try_new(&exact).unwrap();
    let sign = from_long.sign(&b"abc"[..]);
    assert!(from_exact.verify(&b"abc"[..], &sign).unwrap());
}

#[test]
fn test_signing_key_wrong_length_rejected() {
    assert!(matches!(Ed25519Signer::try_new(&[1u8; 31]), Err(TextError::KeyLengthError)));
    assert!(matches!(Ed25519Signer::try_new(&[1u8; 33]), Err(TextError::KeyLengthError)));
    assert!(matches!(Ed25519Verifier::try_new(&[1u8; 31]), Err(TextError::KeyLengthError)));
    assert!(matches!(Ed25519Verifier::try_new(&[1u8; 33]), Err(TextError::KeyLengthError)));
}

#[test]
fn test_verifying_key_invalid_point_rejected() {
    // among the 256 constant byte patterns, some are never a valid
    // compressed curve point
    let mut found = false;
    let mut bad = [0u8; 32];
    for b in 0..=255u8 {
        let key = [b; 32];
        if matches!(Ed25519Verifier::try_new(&key), Err(TextError::KeyEncodingError)) {
            found = true;
            bad = key;
            break;
        }
    }
    assert!(found);
    let r = process_text_verify(b"msg", &bad, TextSignFormat::Ed25519, "AAAA");
    assert_eq!(r, Err(TextError::KeyEncodingError));
}

#[test]
fn test_generated_key_shapes() {
    let sym = process_text_generate(TextSignFormat::Blake3).unwrap();
    assert_eq!(sym.len(), 1);
    assert_eq!(sym[0].len(), 32);
    let pair = process_text_generate(TextSignFormat::Ed25519).unwrap();
    assert_eq!(pair.len(), 2);
    assert_eq!(pair[0].len(), 32);
    assert_eq!(pair[1].len(), 32);
    let other = process_text_generate(TextSignFormat::Ed25519).unwrap();
    assert_ne!(pair[0], other[0]);
    assert_ne!(pair[1], other[1]);
}

#[test]
fn test_text_sign_verify_scenario_blake3() {
    let key = process_text_generate(TextSignFormat::Blake3).unwrap();
    let encoded = process_text_sign(b"hello", &key[0], TextSignFormat::Blake3).unwrap();
    let tag = rcli::process_decode(&encoded, rcli::Base64Format::UrlSafe).unwrap();
    assert_eq!(tag.len(), 32);
    let ok = process_text_verify(b"hello", &key[0], TextSignFormat::Blake3, &encoded).unwrap();
    assert!(ok);
    let bad = process_text_verify(b"hellp", &key[0], TextSignFormat::Blake3, &encoded).unwrap();
    assert!(!bad);
}

#[test]
fn test_text_sign_verify_scenario_ed25519() {
    let pair = process_text_generate(TextSignFormat::Ed25519).unwrap();
    let encoded = process_text_sign(b"hello", &pair[0], TextSignFormat::Ed25519).unwrap();
    let tag = rcli::process_decode(&encoded, rcli::Base64Format::UrlSafe).unwrap();
    assert_eq!(tag.len(), 64);
    let ok = process_text_verify(b"hello", &pair[1], TextSignFormat::Ed25519, &encoded).unwrap();
    assert!(ok);
    let fresh = process_text_generate(TextSignFormat::Ed25519).unwrap();
    let other = process_text_verify(b"hello", &fresh[1], TextSignFormat::Ed25519, &encoded).unwrap();
    assert!(!other);
}

#[test]
fn test_text_sign_short_key_rejected() {
    let r = process_text_sign(b"hello", &[0u8; 10], TextSignFormat::Blake3);
    assert_eq!(r, Err(TextError::KeyLengthError));
    let r = process_text_sign(b"hello", &[0u8; 10], TextSignFormat::Ed25519);
    assert_eq!(r, Err(TextError::KeyLengthError));
}

#[test]
fn test_text_verify_malformed_tag_text_rejected() {
    let key = process_text_generate(TextSignFormat::Blake3).unwrap();
    let r = process_text_verify(b"hello", &key[0], TextSignFormat::Blake3, "!!!not-base64!!!");
    assert_eq!(r, Err(TextError::TagEncodingError));
}

#[test]
fn test_text_verify_short_decoded_tag_is_format_error() {
    let pair = process_text_generate(TextSignFormat::Ed25519).unwrap();
    // "AAAAAAAAAAAAAA" is 14 base64 characters: 10 decoded bytes
    let r = process_text_verify(b"hello", &pair[1], TextSignFormat::Ed25519, "AAAAAAAAAAAAAA");
    assert_eq!(r, Err(TextError::SignatureFormatError));
}

#[test]
fn test_text_verify_short_tag_is_plain_mismatch_for_blake3() {
    let key = process_text_generate(TextSignFormat::Blake3).unwrap();
    let r = process_text_verify(b"hello", &key[0], TextSignFormat::Blake3, "AAAAAAAAAAAAAA");
    assert_eq!(r, Ok(false));
}

#[test]
fn test_error_messages() {
    assert_eq!(TextError::KeyLengthError.message(), "key has the wrong length");
    assert_eq!(
        TextError::SignatureFormatError.message(),
        "decoded tag is not a well-formed signature"
    );
}
