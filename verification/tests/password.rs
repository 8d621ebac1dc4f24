use argon2::password_hash::PasswordHasher;
use backend::auth::password::fail_closed;
use backend::auth::password::hash_password;
use backend::auth::password::hash_password_with_salt;
use backend::auth::password::PasswordError;
use backend::auth::password::verify_password;
use backend::secret::Secret;
use backend::service::DECOY_HASH;

fn secret(text: &str) -> Secret {
    Secret::new(text.to_string())
}

#[test]
fn hash_is_accepted_for_the_same_secret() {
    let hash = hash_password(secret("pw123")).expect("hashing succeeds");
    assert!(verify_password(secret("pw123"), &hash));
}

#[test]
fn hash_is_a_phc_string_of_argon2id() {
    let hash = hash_password(secret("pw123")).expect("hashing succeeds");
    assert!(hash.starts_with("$argon2id$v=19$m=19456,t=2,p=1$"));
    assert_ne!(hash, "pw123");
    assert!(!hash.contains("pw123"));
}

#[test]
fn two_hashes_of_one_secret_differ_and_both_verify() {
    let first = hash_password(secret("correct horse")).expect("hashing succeeds");
    let second = hash_password(secret("correct horse")).expect("hashing succeeds");
    assert_ne!(first, second);
    assert!(verify_password(secret("correct horse"), &first));
    assert!(verify_password(secret("correct horse"), &second));
}

#[test]
fn hash_rejects_another_secret() {
    let hash = hash_password(secret("pw123")).expect("hashing succeeds");
    assert!(!verify_password(secret("pw124"), &hash));
    assert!(!verify_password(secret(""), &hash));
    assert!(!verify_password(secret("PW123"), &hash));
}

#[test]
fn empty_secret_hashes_and_verifies() {
    let hash = hash_password(secret("")).expect("hashing succeeds");
    assert!(verify_password(secret(""), &hash));
    assert!(!verify_password(secret(" "), &hash));
}

#[test]
fn malformed_hash_is_a_refusal() {
    assert!(!verify_password(secret("pw123"), ""));
    assert!(!verify_password(secret("pw123"), "pw123"));
    assert!(!verify_password(secret("pw123"), "$argon2id$"));
    assert!(!verify_password(secret("pw123"), "not a hash at all"));
}

#[test]
fn hash_of_an_unknown_algorithm_is_a_refusal() {
    let foreign = "$scrypt$ln=16,r=8,p=1$aM15713r3Xsvxbi31lqr1Q$nFNh2CVHVjNldFVKDHDlm4CbdRSCdEBsjjJxD+iCs5E";
    assert!(!verify_password(secret("pw123"), foreign));
}

#[test]
fn known_hash_accepts_its_secret_only() {
    let hash = "$argon2id$v=19$m=256,t=2,p=1$c29tZXNhbHQ$nf65EOgLrQMR/uIPnA4rEsF5h7TKyQwu9U1bMCHGi/4";
    assert!(verify_password(secret("password"), hash));
    assert!(!verify_password(secret("Password"), hash));
    assert!(!verify_password(secret("password "), hash));
}

#[test]
fn hash_with_a_changed_salt_or_output_is_a_refusal() {
    let salted = "$argon2id$v=19$m=256,t=2,p=1$c29tZXNhbHR4$nf65EOgLrQMR/uIPnA4rEsF5h7TKyQwu9U1bMCHGi/4";
    let output = "$argon2id$v=19$m=256,t=2,p=1$c29tZXNhbHQ$nf65EOgLrQMR/uIPnA4rEsF5h7TKyQwu9U1bMCHGi/5";
    assert!(!verify_password(secret("password"), salted));
    assert!(!verify_password(secret("password"), output));
}

#[test]
fn decoy_hash_parses_and_accepts_nothing() {
    assert!(argon2::password_hash::PasswordHash::new(DECOY_HASH).is_ok());
    assert!(!verify_password(secret("pw123"), DECOY_HASH));
    assert!(!verify_password(secret(""), DECOY_HASH));
}

const SALT: &str = "c29tZXNhbHRzb21lc2FsdA";

#[test]
fn hash_under_a_salt_is_the_one_that_argon2_writes() {
    let salt = argon2::password_hash::Salt::from_b64(SALT).expect("the salt reads");
    let expected = argon2::Argon2::default()
        .hash_password(b"pw123", salt)
        .expect("hashing succeeds")
        .to_string();
    let hash = hash_password_with_salt(secret("pw123"), SALT).expect("hashing succeeds");
    assert_eq!(hash, expected);
    assert!(hash.starts_with("$argon2id$v=19$m=19456,t=2,p=1$c29tZXNhbHRzb21lc2FsdA$"));
    assert_ne!(hash, SALT);
    assert_ne!(hash, "pw123");
}

#[test]
fn hash_under_a_salt_is_determined_by_secret_and_salt() {
    let first = hash_password_with_salt(secret("pw123"), SALT).expect("hashing succeeds");
    let again = hash_password_with_salt(secret("pw123"), SALT).expect("hashing succeeds");
    let other_secret = hash_password_with_salt(secret("pw124"), SALT).expect("hashing succeeds");
    let other_salt =
        hash_password_with_salt(secret("pw123"), "b3RoZXJzYWx0b3RoZXJzYQ").expect("hashing succeeds");
    assert_eq!(first, again);
    assert_ne!(first, other_secret);
    assert_ne!(first, other_salt);
}

#[test]
fn hash_under_a_salt_accepts_its_secret_only() {
    let hash = hash_password_with_salt(secret("pw123"), SALT).expect("hashing succeeds");
    assert!(verify_password(secret("pw123"), &hash));
    assert!(!verify_password(secret("pw124"), &hash));
}

#[test]
fn salt_that_cannot_be_read_is_an_argon2_error() {
    for salt in ["", "abc", "not base64!!", "c29tZXNhbHRzb21lc2FsdA$", "a b c d e f g h"] {
        let hashed = hash_password_with_salt(secret("pw123"), salt);
        assert!(matches!(hashed, Err(PasswordError::Argon2Error)), "salt {:?}", salt);
    }
}

#[test]
fn salt_of_the_shortest_length_is_taken() {
    let hash = hash_password_with_salt(secret("pw123"), "c29tZXNhbHQ").expect("hashing succeeds");
    assert!(hash.starts_with("$argon2id$v=19$m=19456,t=2,p=1$c29tZXNhbHQ$"));
    assert!(verify_password(secret("pw123"), &hash));
}

#[test]
fn drawn_salt_is_written_into_the_hash() {
    let hash = hash_password(secret("pw123")).expect("hashing succeeds");
    let fields: Vec<&str> = hash.split('$').collect();
    assert_eq!(fields.len(), 6);
    assert_eq!(fields[4].len(), 22);
    let again = hash_password_with_salt(secret("pw123"), fields[4]).expect("hashing succeeds");
    assert_eq!(again, hash);
}

#[test]
fn only_a_check_without_error_accepts() {
    assert!(fail_closed(Ok(())));
    assert!(!fail_closed(Err(argon2::password_hash::Error::Password)));
    assert!(!fail_closed(Err(argon2::password_hash::Error::Algorithm)));
    assert!(!fail_closed(Err(argon2::password_hash::Error::PhcStringField)));
    assert!(!fail_closed(Err(argon2::password_hash::Error::Crypto)));
}

#[test]
fn hash_is_never_empty() {
    assert!(!hash_password(secret("")).expect("hashing succeeds").is_empty());
    assert!(!hash_password_with_salt(secret(""), SALT).expect("hashing succeeds").is_empty());
}

#[test]
fn hash_with_unsupported_parameters_is_a_refusal() {
    let weak = "$argon2id$v=19$m=1,t=2,p=1$c29tZXNhbHQ$nf65EOgLrQMR/uIPnA4rEsF5h7TKyQwu9U1bMCHGi/4";
    let old = "$argon2id$v=1$m=256,t=2,p=1$c29tZXNhbHQ$nf65EOgLrQMR/uIPnA4rEsF5h7TKyQwu9U1bMCHGi/4";
    assert!(!verify_password(secret("password"), weak));
    assert!(!verify_password(secret("password"), old));
}
