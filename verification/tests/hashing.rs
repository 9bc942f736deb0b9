use session_auth::hasher::{digest_from, hash, verify, HashingError};

const KNOWN_DIGEST: &str = "$2b$04$EGdrhbKUv8Oc9vGiXX0HQOxSg445d458Muh7DAHskb6QbtCvdxcie";

#[test]
fn hash_gives_a_sixty_character_digest() {
    let digest = hash("hunter2hunter2").unwrap();
    assert_eq!(digest.chars().count(), 60);
    assert!(digest.starts_with("$2b$12$"));
    assert_ne!(digest, "hunter2hunter2");
}

#[test]
fn hash_then_verify_gives_true() {
    let digest = hash("correct horse").unwrap();
    assert_eq!(verify("correct horse", &digest), Ok(true));
}

#[test]
fn hash_then_verify_of_another_plaintext_gives_false() {
    let digest = hash("correct horse").unwrap();
    assert_eq!(verify("correct horsf", &digest), Ok(false));
}

#[test]
fn hashing_twice_gives_two_digests() {
    let first = hash("same password").unwrap();
    let second = hash("same password").unwrap();
    assert_ne!(first, second);
}

#[test]
fn verify_accepts_a_known_digest() {
    assert_eq!(verify("correctbatteryhorsestapler", KNOWN_DIGEST), Ok(true));
}

#[test]
fn verify_rejects_a_wrong_plaintext() {
    assert_eq!(verify("wrong", KNOWN_DIGEST), Ok(false));
    assert_eq!(verify("", KNOWN_DIGEST), Ok(false));
}

#[test]
fn verify_fails_on_a_malformed_digest() {
    assert_eq!(verify("password", "not a digest"), Err(HashingError {}));
    assert_eq!(verify("password", ""), Err(HashingError {}));
    assert_eq!(
        verify("password", "$2b$04$EGdrhbKUv8Oc9vGiXX0HQOxSg445d458Muh7DAHskb6QbtCvdxci"),
        Err(HashingError {})
    );
}

#[test]
fn verify_fails_on_a_cost_out_of_range() {
    assert_eq!(
        verify("password", "$2b$03$EGdrhbKUv8Oc9vGiXX0HQOxSg445d458Muh7DAHskb6QbtCvdxcie"),
        Err(HashingError {})
    );
}

/// The hashing engine reads seventy-two bytes of a plaintext and no more.
#[test]
fn plaintexts_that_agree_on_seventy_two_bytes_share_a_digest() {
    let long = "x".repeat(72);
    let longer = format!("{}{}", long, "y");
    let digest = hash(&long).unwrap();
    assert_eq!(verify(&longer, &digest), Ok(true));
}

#[test]
fn a_digest_comes_through_and_every_error_becomes_the_one() {
    assert_eq!(digest_from(Ok("digest".to_string())), Ok("digest".to_string()));
    assert_eq!(digest_from(Ok(String::new())), Ok(String::new()));
    assert_eq!(
        digest_from(Err(bcrypt::BcryptError::InvalidHash("malformed"))),
        Err(HashingError {})
    );
    assert_eq!(digest_from(Err(bcrypt::BcryptError::CostNotAllowed(3))), Err(HashingError {}));
    assert_eq!(digest_from(Err(bcrypt::BcryptError::Truncation(73))), Err(HashingError {}));
}
