use authcore::errors::AuthError;
use authcore::token::{TokenPurpose, TokenStore};

#[test]
fn token_resolves_before_ttl_and_expires_after() {
    let mut tokens = TokenStore::new();
    let t = tokens.issue(7, TokenPurpose::PasswordReset, 1_000, 60);

    let before = tokens.resolve(t, 1_059).unwrap();
    assert_eq!(before.0, 7);
    assert!(matches!(before.1, TokenPurpose::PasswordReset));

    let at_expiry = tokens.resolve(t, 1_060);
    assert!(matches!(at_expiry, Err(AuthError::ExpiredOrUnknownToken)));
    let after = tokens.resolve(t, 2_000);
    assert!(matches!(after, Err(AuthError::ExpiredOrUnknownToken)));
}

#[test]
fn unknown_token_does_not_resolve() {
    let mut tokens = TokenStore::new();
    let t = tokens.issue(7, TokenPurpose::EmailVerification, 1_000, 60);
    let other = t.wrapping_add(1);
    let r = tokens.resolve(other, 1_010);
    assert!(matches!(r, Err(AuthError::ExpiredOrUnknownToken)));
}

#[test]
fn revoked_token_does_not_resolve() {
    let mut tokens = TokenStore::new();
    let t = tokens.issue(9, TokenPurpose::PasswordReset, 1_000, 600);
    let keep = tokens.issue(10, TokenPurpose::EmailVerification, 1_000, 600);
    tokens.revoke(t);
    assert!(matches!(tokens.resolve(t, 1_001), Err(AuthError::ExpiredOrUnknownToken)));
    let kept = tokens.resolve(keep, 1_001).unwrap();
    assert_eq!(kept.0, 10);
}

#[test]
fn issued_tokens_are_distinct() {
    let mut tokens = TokenStore::new();
    let a = tokens.issue(1, TokenPurpose::PasswordReset, 1_000, 60);
    let b = tokens.issue(1, TokenPurpose::PasswordReset, 1_000, 60);
    assert_ne!(a, b);
    assert_eq!(tokens.entries.len(), 2);
}

#[test]
fn zero_ttl_token_never_resolves() {
    let mut tokens = TokenStore::new();
    let t = tokens.issue(3, TokenPurpose::PasswordReset, 1_000, 0);
    assert!(matches!(tokens.resolve(t, 1_000), Err(AuthError::ExpiredOrUnknownToken)));
}
