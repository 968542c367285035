use auth_core::password::hash_password;
use auth_core::password::verify_password;

#[test]
fn hash_then_verify_accepts_the_same_plaintext() {
    let h = hash_password("secret1").expect("hashing succeeds");
    assert!(verify_password("secret1", h.as_str()));
}

#[test]
fn verify_rejects_a_different_plaintext() {
    let h = hash_password("secret1").expect("hashing succeeds");
    assert!(!verify_password("secret2", h.as_str()));
    assert!(!verify_password("", h.as_str()));
    assert!(!verify_password("secret1 ", h.as_str()));
}

#[test]
fn repeated_hashing_salts_differently_yet_both_verify() {
    let h1 = hash_password("secret1").expect("hashing succeeds");
    let h2 = hash_password("secret1").expect("hashing succeeds");
    assert_ne!(h1, h2);
    assert!(verify_password("secret1", h1.as_str()));
    assert!(verify_password("secret1", h2.as_str()));
}

#[test]
fn hash_is_not_the_plaintext() {
    let h = hash_password("secret1").expect("hashing succeeds");
    assert_ne!(h, "secret1");
}

#[test]
fn malformed_stored_hash_fails_closed() {
    assert!(!verify_password("secret1", "not-a-phc-string"));
    assert!(!verify_password("secret1", ""));
    assert!(!verify_password("secret1", "$argon2id$corrupted"));
}
