use rcli::process_genpass;

#[test]
fn test_genpass_length_and_classes() {
    let pwd = process_genpass(16, false, false, false, false).unwrap();
    assert_eq!(pwd.chars().count(), 16);
    assert!(pwd.chars().all(|c| c.is_ascii_uppercase()
        || c.is_ascii_lowercase()
        || c.is_ascii_digit()
        || "!@#$%^&*_".contains(c)));
    assert!(pwd.chars().any(|c| c.is_ascii_uppercase()));
    assert!(pwd.chars().any(|c| c.is_ascii_lowercase()));
    assert!(pwd.chars().any(|c| c.is_ascii_digit()));
    assert!(pwd.chars().any(|c| "!@#$%^&*_".contains(c)));
}

#[test]
fn test_genpass_minimal_length() {
    let pwd = process_genpass(4, false, false, false, false).unwrap();
    assert_eq!(pwd.chars().count(), 4);
}

#[test]
fn test_genpass_single_class() {
    let pwd = process_genpass(8, true, true, true, false).unwrap();
    assert_eq!(pwd.chars().count(), 8);
    assert!(pwd.chars().all(|c| "!@#$%^&*_".contains(c)));
    let pwd = process_genpass(8, true, false, true, true).unwrap();
    assert!(pwd.chars().all(|c| c.is_ascii_lowercase()));
}
