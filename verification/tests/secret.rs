use backend::secret::Secret;

#[test]
fn expose_returns_the_text() {
    let secret = Secret::new("pw123".to_string());
    assert_eq!(secret.expose(), "pw123");
}

#[test]
fn empty_secret_is_kept_empty() {
    assert_eq!(Secret::new(String::new()).expose(), "");
}

#[test]
fn clone_holds_the_same_text() {
    let secret = Secret::new("signing key".to_string());
    let copy = secret.clone();
    assert_eq!(copy.expose(), "signing key");
    assert_eq!(secret.expose(), "signing key");
}

#[test]
fn debug_output_hides_the_text() {
    let secret = Secret::new("pw123".to_string());
    let printed = format!("{:?}", secret);
    assert!(!printed.contains("pw123"));
    assert!(printed.contains("REDACTED"));
}
