//! The credential subsystem against the real argon2id implementation:
//! the round trip a password makes through `hash` and `verify`, the
//! zero-stripping at the storage boundary, and the pinned handling of a
//! stored hash wider than the native buffer.

use elide::credentials::{hash, verify, HASH_WIDTH};

#[test]
fn hash_then_verify_roundtrip() {
    let password = b"correct horse battery staple".to_vec();
    let stored = hash(&password).expect("hashing library available");
    assert!(verify(&stored, &password));
    let wrong = b"correct horse battery stapl".to_vec();
    assert!(!verify(&stored, &wrong));
}

#[test]
fn hash_output_is_stripped_text() {
    let password = b"hunter2hunter2".to_vec();
    let stored = hash(&password).expect("hashing library available");
    assert!(!stored.is_empty());
    assert!(stored.len() < HASH_WIDTH);
    assert!(stored.iter().all(|&b| b != 0));
    assert_eq!(stored[0], b'$');
}

#[test]
fn verify_rejects_overlong_stored_hash() {
    let password = b"whatever-password".to_vec();
    let oversized = vec![b'x'; HASH_WIDTH + 1];
    assert!(!verify(&oversized, &password));
}

#[test]
fn verify_rejects_garbage_stored_hash() {
    let password = b"whatever-password".to_vec();
    let garbage = b"not-an-argon2-string".to_vec();
    assert!(!verify(&garbage, &password));
}

#[test]
fn verify_exact_width_stored_hash() {
    // A stored value at exactly the native width is padded by zero bytes
    // of count zero and handed to the library unchanged.
    let password = b"whatever-password".to_vec();
    let full_width = vec![b'y'; HASH_WIDTH];
    assert!(!verify(&full_width, &password));
}

#[test]
fn empty_password_roundtrip() {
    let password: Vec<u8> = Vec::new();
    let stored = hash(&password).expect("hashing library available");
    assert!(verify(&stored, &password));
    assert!(!verify(&stored, &b"nonempty".to_vec()));
}
