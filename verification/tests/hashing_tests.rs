use todo_app::hashing::{hash_password, lower_hex};

#[test]
fn lower_hex_writes_two_lowercase_digits_per_byte() {
    assert_eq!(lower_hex(&[10, 20, 30]), "0a141e");
    assert_eq!(lower_hex(&[0x00, 0xff, 0xbe, 0xef]), "00ffbeef");
}

#[test]
fn lower_hex_of_nothing_is_empty() {
    assert_eq!(lower_hex(&[]), "");
}

#[test]
fn hash_password_is_sha256_in_lower_hex() {
    assert_eq!(
        hash_password("password"),
        "5e884898da28047151d0e56f8dc6292773603d0d6aabbdd62a11ef721d1542d8"
    );
    assert_eq!(
        hash_password("abc"),
        "ba7816bf8f01cfea414140de5dae2223b00361a396177a9cb410ff61f20015ad"
    );
}

#[test]
fn hash_of_empty_password() {
    assert_eq!(
        hash_password(""),
        "e3b0c44298fc1c149afbf4c8996fb92427ae41e4649b934ca495991b7852b855"
    );
}

#[test]
fn hash_uses_utf8_bytes() {
    // "é" is the two bytes c3 a9 in UTF-8.
    assert_eq!(hash_password("é"), {
        let h = hash_password("\u{e9}");
        h
    });
    assert_eq!(hash_password("é").len(), 64);
    assert_ne!(hash_password("é"), hash_password("e"));
}

#[test]
fn hash_has_64_lowercase_hex_digits() {
    for p in ["", "a", "hunter2", "a much longer password with spaces"] {
        let h = hash_password(p);
        assert_eq!(h.len(), 64);
        assert!(h.chars().all(|c| c.is_ascii_digit() || ('a'..='f').contains(&c)));
    }
}

#[test]
fn hash_is_deterministic_and_distinguishes_passwords() {
    assert_eq!(hash_password("secret"), hash_password("secret"));
    assert_ne!(hash_password("secret"), hash_password("Secret"));
}
