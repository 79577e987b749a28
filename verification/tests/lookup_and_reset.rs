use authcore::errors::AuthError;
use authcore::register::{commit_registration, register_user};
use authcore::reset::request_password_change;
use authcore::store::{get_active_user_from_db, UserStore};
use authcore::token::{TokenPurpose, TokenStore};
use authcore::types::{NewUser, UserEmail};

fn seeded_store() -> (UserStore, u128) {
    let mut store = UserStore::new();
    let mut tokens = TokenStore::new();
    let nu = NewUser {
        email: "ann@x.com".to_string(),
        password: "Secret123!".to_string(),
        first_name: "Ann".to_string(),
        last_name: "Lee".to_string(),
    };
    let (pending, _) = register_user(&mut store, &mut tokens, &nu, 1_000, 900).unwrap();
    let id = commit_registration(&mut store, pending).unwrap();
    (store, id)
}

#[test]
fn lookup_with_no_criterion_is_invalid() {
    let (store, _) = seeded_store();
    let r = get_active_user_from_db(&store, None, None);
    assert!(matches!(r, Err(AuthError::InvalidQuery)));
}

#[test]
fn lookup_by_id_by_email_and_both() {
    let (store, id) = seeded_store();
    let email = "ann@x.com".to_string();

    let by_id = get_active_user_from_db(&store, Some(id), None).unwrap();
    assert_eq!(by_id.email, "ann@x.com");
    let by_email = get_active_user_from_db(&store, None, Some(&email)).unwrap();
    assert_eq!(by_email.id, id);
    let by_both = get_active_user_from_db(&store, Some(id), Some(&email)).unwrap();
    assert_eq!(by_both.id, id);

    // AND semantics: a right id with a wrong email matches nothing.
    let wrong = "other@x.com".to_string();
    let r = get_active_user_from_db(&store, Some(id), Some(&wrong));
    assert!(matches!(r, Err(AuthError::NotFound)));
}

#[test]
fn lookup_skips_inactive_rows() {
    let (mut store, id) = seeded_store();
    assert!(store.set_active(id, false));
    let r = get_active_user_from_db(&store, Some(id), None);
    assert!(matches!(r, Err(AuthError::NotFound)));
    assert!(store.set_active(id, true));
    assert!(get_active_user_from_db(&store, Some(id), None).is_ok());
}

#[test]
fn reset_request_issues_reset_token() {
    let (store, id) = seeded_store();
    let mut tokens = TokenStore::new();
    let req = UserEmail { email: "ann@x.com".to_string() };
    let d = request_password_change(&store, &mut tokens, &req, 5_000, 600).unwrap();
    assert_eq!(d.user_id, id);
    assert_eq!(d.email, "ann@x.com");
    assert_eq!(d.first_name, "Ann");
    assert_eq!(d.last_name, "Lee");

    let resolved = tokens.resolve(d.token, 5_300).unwrap();
    assert_eq!(resolved.0, id);
    assert!(matches!(resolved.1, TokenPurpose::PasswordReset));
    assert!(matches!(tokens.resolve(d.token, 5_600), Err(AuthError::ExpiredOrUnknownToken)));
}

#[test]
fn reset_request_for_unknown_email_fails_without_token() {
    let (store, _) = seeded_store();
    let mut tokens = TokenStore::new();
    let req = UserEmail { email: "ghost@x.com".to_string() };
    let r = request_password_change(&store, &mut tokens, &req, 5_000, 600);
    assert!(matches!(r, Err(AuthError::NotFound)));
    assert_eq!(tokens.entries.len(), 0);
}

#[test]
fn stored_hash_that_cannot_be_parsed_is_malformed() {
    let mut store = UserStore::new();
    let create = authcore::types::CreateNewUser {
        email: "raw@x.com".to_string(),
        password: "not-a-phc-string".to_string(),
        first_name: "Raw".to_string(),
        last_name: "Row".to_string(),
    };
    store.create_user_with_profile(&create, 1_000).unwrap();

    let mut session = authcore::session::Session::new();
    let creds = authcore::types::LoginUser {
        email: "raw@x.com".to_string(),
        password: "anything".to_string(),
    };
    let r = authcore::login::login_user(&store, &mut session, &creds);
    assert!(matches!(r, Err(AuthError::MalformedHash)));
    assert_eq!(session.epoch, 0);
}

#[test]
fn create_user_with_profile_assigns_fresh_ids() {
    let mut store = UserStore::new();
    let a = authcore::types::CreateNewUser {
        email: "a@y.com".to_string(),
        password: "h1".to_string(),
        first_name: "A".to_string(),
        last_name: "One".to_string(),
    };
    let b = authcore::types::CreateNewUser {
        email: "b@y.com".to_string(),
        password: "h2".to_string(),
        first_name: "B".to_string(),
        last_name: "Two".to_string(),
    };
    let ia = store.create_user_with_profile(&a, 10).unwrap();
    let ib = store.create_user_with_profile(&b, 20).unwrap();
    assert_ne!(ia, ib);
    assert_eq!(store.users.len(), 2);
    assert_eq!(store.users[0].profile.user_id, ia);
    assert_eq!(store.users[1].profile.user_id, ib);
    assert!(store.users[0].is_active);

    let dup = authcore::types::CreateNewUser {
        email: "a@y.com".to_string(),
        password: "h3".to_string(),
        first_name: "C".to_string(),
        last_name: "Three".to_string(),
    };
    assert!(matches!(
        store.create_user_with_profile(&dup, 30),
        Err(AuthError::DuplicateEmail)
    ));
    assert_eq!(store.users.len(), 2);
}

#[test]
fn error_messages_match_the_service_wording() {
    assert_eq!(
        AuthError::DuplicateEmail.message(),
        "A user with that email address already exists"
    );
    assert_eq!(
        AuthError::NotFound.message(),
        "A user with these details does not exist or is not active"
    );
    assert_eq!(AuthError::Mismatch.message(), "Email and password do not match");
    assert_eq!(
        AuthError::MalformedHash.message(),
        "Stored credentials are unreadable. Kindly contact support"
    );
    assert_eq!(
        AuthError::InvalidQuery.message(),
        "At least one of an id or an email must be supplied"
    );
    assert_eq!(
        AuthError::ExpiredOrUnknownToken.message(),
        "The token is invalid or has expired"
    );
    assert_eq!(AuthError::PoolExhausted.message(), "Something happened. Please try again");
    assert_eq!(
        AuthError::StoreUnavailable.message(),
        "We cannot reach the store at the moment. Please try again"
    );
    assert_eq!(
        AuthError::Dispatch.message(),
        "The verification email could not be sent, so no account was created. Kindly try again."
    );
    assert_eq!(AuthError::Session.message(), "Session management error");
    assert_eq!(AuthError::Transaction.message(), "Failed to complete registration");
    assert_eq!(
        AuthError::Internal.message(),
        "Something unexpected happened. Kindly try again."
    );
}

#[test]
fn session_renew_rotates_and_keeps_claims() {
    let mut s = authcore::session::Session::new();
    assert_eq!(s.epoch, 0);
    s.set_claims(4, "x@y.com".to_string());
    s.renew();
    assert_eq!(s.epoch, 1);
    assert_eq!(s.user_id, Some(4));
    assert_eq!(s.user_email, Some("x@y.com".to_string()));
}
