use rcli::{process_decode, process_encode, Base64Format};

#[test]
fn test_encode_known_values() {
    assert_eq!(process_encode(b"hello", Base64Format::UrlSafe), "aGVsbG8");
    assert_eq!(process_encode(b"hello", Base64Format::Standard), "aGVsbG8=");
    assert_eq!(process_encode(b"", Base64Format::UrlSafe), "");
    assert_eq!(process_encode(b"", Base64Format::Standard), "");
}

#[test]
fn test_encode_url_safe_alphabet() {
    // 0xfb 0xff encodes with '-' and '_' in the URL-safe alphabet,
    // '+' and '/' in the standard one
    let bytes = [0xfbu8, 0xff, 0xbf];
    assert_eq!(process_encode(&bytes, Base64Format::UrlSafe), "-_-_");
    assert_eq!(process_encode(&bytes, Base64Format::Standard), "+/+/");
}

#[test]
fn test_decode_round_trip() {
    let data: Vec<u8> = (0u8..=255).collect();
    let url = process_encode(&data, Base64Format::UrlSafe);
    assert_eq!(process_decode(&url, Base64Format::UrlSafe).unwrap(), data);
    let std_text = process_encode(&data, Base64Format::Standard);
    assert_eq!(process_decode(&std_text, Base64Format::Standard).unwrap(), data);
}

#[test]
fn test_decode_trims_whitespace() {
    assert_eq!(
        process_decode("aGVsbG8=\n", Base64Format::Standard).unwrap(),
        b"hello".to_vec()
    );
    assert_eq!(
        process_decode("  aGVsbG8  ", Base64Format::UrlSafe).unwrap(),
        b"hello".to_vec()
    );
}

#[test]
fn test_decode_malformed_rejected() {
    assert!(process_decode("!!!", Base64Format::Standard).is_err());
    assert!(process_decode("aGVsbG8", Base64Format::Standard).is_err());
}
