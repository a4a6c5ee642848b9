use dictation::hashing::{hash_file_bytes, to_hex};

#[test]
fn hex_rendering_is_exact() {
    assert_eq!(to_hex(&vec![]), "");
    assert_eq!(to_hex(&vec![0x00]), "00");
    assert_eq!(to_hex(&vec![0xff]), "ff");
    assert_eq!(to_hex(&vec![0x01, 0x23, 0x45, 0x67, 0x89, 0xab, 0xcd, 0xef]), "0123456789abcdef");
}

#[test]
fn digest_of_known_vector() {
    // The standard test vector for the hash of the three bytes "abc".
    let content = vec![b'a', b'b', b'c'];
    assert_eq!(
        hash_file_bytes(&content),
        "ba7816bf8f01cfea414140de5dae2223b00361a396177a9cb410ff61f20015ad"
    );
}

#[test]
fn digest_of_empty_content() {
    assert_eq!(
        hash_file_bytes(&Vec::new()),
        "e3b0c44298fc1c149afbf4c8996fb92427ae41e4649b934ca495991b7852b855"
    );
}

#[test]
fn digest_is_always_sixty_four_digits() {
    let content = vec![7u8; 1000];
    let hex = hash_file_bytes(&content);
    assert_eq!(hex.len(), 64);
    assert!(hex.chars().all(|c| c.is_ascii_hexdigit()));
}
