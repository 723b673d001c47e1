use chat_app::services::password::{hash, verify};
use chat_app::services::user::DECOY_HASH;

#[test]
fn hash_verifies_against_its_password() {
    let h = hash("Str0ngPass").unwrap();
    assert!(verify(&h, "Str0ngPass"));
}

#[test]
fn hash_does_not_verify_against_another_password() {
    let h = hash("Str0ngPass").unwrap();
    assert!(!verify(&h, "Str0ngPasS"));
    assert!(!verify(&h, ""));
    assert!(!verify(&h, "Str0ngPass "));
}

#[test]
fn two_hashes_of_one_password_differ_and_both_verify() {
    let first = hash("Str0ngPass").unwrap();
    let second = hash("Str0ngPass").unwrap();
    assert_ne!(first, second);
    assert!(verify(&first, "Str0ngPass"));
    assert!(verify(&second, "Str0ngPass"));
}

#[test]
fn hash_names_its_algorithm_and_is_not_the_password() {
    let h = hash("Str0ngPass").unwrap();
    assert!(h.starts_with("$argon2id$v=19$m=19456,t=2,p=1$"));
    assert!(!h.contains("Str0ngPass"));
}

#[test]
fn empty_password_can_be_hashed_and_verified() {
    let h = hash("").unwrap();
    assert!(verify(&h, ""));
    assert!(!verify(&h, "x"));
}

#[test]
fn text_that_is_no_hash_verifies_nothing() {
    assert!(!verify("", "Str0ngPass"));
    assert!(!verify("Str0ngPass", "Str0ngPass"));
    assert!(!verify("$argon2id$", "Str0ngPass"));
}

#[test]
fn decoy_hash_accepts_no_usual_password() {
    assert!(!verify(DECOY_HASH, "Str0ngPass"));
    assert!(!verify(DECOY_HASH, ""));
}

#[test]
fn every_usual_password_is_hashed() {
    for password in ["", "x", "Str0ngPass", "p\u{e4}ssw\u{f6}rd with spaces"] {
        let h = hash(password).unwrap();
        assert!(verify(&h, password));
    }
    let long: String = std::iter::repeat('a').take(512).collect();
    assert!(verify(&hash(&long).unwrap(), &long));
}
