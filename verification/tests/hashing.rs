use posterbot_constructor::hashing::{hash_user_id, to_hex_lower};

#[test]
fn hides_raw_id_and_is_stable() {
    let h = hash_user_id(6569505824);
    assert_eq!(h.len(), 64);
    assert!(!h.contains("6569505824"));
    assert_eq!(h, hash_user_id(6569505824));
    assert_ne!(h, hash_user_id(1));
}

#[test]
fn hash_is_sha256_of_le_bytes() {
    // SHA-256 of eight zero bytes.
    assert_eq!(
        hash_user_id(0),
        "af5570f5a1810b7af78caf4bc70a660f0df51e42baf91d4de5b2328de0e83dfc"
    );
    assert!(hash_user_id(-1).chars().all(|c| c.is_ascii_hexdigit() && !c.is_ascii_uppercase()));
}

#[test]
fn bytes_are_written_as_two_lowercase_digits() {
    let hex: String = to_hex_lower(&vec![0x00, 0x0a, 0xff, 0x5c]).into_iter().collect();
    assert_eq!(hex, "000aff5c");
    assert!(to_hex_lower(&vec![]).is_empty());
}
