use lambda_endpoint::auth::{
    authorization, check_authorization, hash_with_salt, hashed_secret, split_authorization, verify, AuthError,
};

#[test]
fn basic_hash() {
    let a = hashed_secret("secret").unwrap();
    assert!(a.starts_with("$argon2"));
    assert!(verify(a.as_str(), "secret"));
    assert!(!verify(a.as_str(), "other"));
}

#[test]
fn malformed_hash_does_not_verify() {
    assert!(!verify("not a hash", "secret"));
}

#[test]
fn fixed_salt_gives_fixed_hash() {
    let a = hash_with_salt("secret", b"somesaltsomesalt").unwrap();
    let b = hash_with_salt("secret", b"somesaltsomesalt").unwrap();
    assert_eq!(a, b);
    assert_eq!(hash_with_salt("secret", b"short"), Err(AuthError::Hash));
}

#[test]
fn split_at_single_marker() {
    assert_eq!(
        split_authorization("abc$argon2id$v=19"),
        Some(("abc".to_string(), "$argon2id$v=19".to_string()))
    );
    assert_eq!(split_authorization("$argon2"), Some((String::new(), "$argon2".to_string())));
    assert_eq!(split_authorization("abc"), None);
    assert_eq!(split_authorization("a$argon2b$argon2c"), None);
    assert_eq!(split_authorization(""), None);
}

#[test]
fn own_authorization_is_accepted() {
    let header = authorization("endpoint-1", "secret").unwrap();
    assert!(header.starts_with("endpoint-1$argon2"));
    assert!(check_authorization(&header, "endpoint-1", "secret"));
    assert!(!check_authorization(&header, "endpoint-2", "secret"));
    assert!(!check_authorization(&header, "endpoint-1", "wrong"));
    assert!(!check_authorization("endpoint-1", "endpoint-1", "secret"));
}
