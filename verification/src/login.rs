use vstd::prelude::*;
use crate::errors::AuthError;
use crate::hasher::hash_well_formed;
use crate::hasher::password_verifies;
use crate::hasher::verify_password;
use crate::session::Session;
use crate::store::get_active_user_from_db;
use crate::store::user_matches;
use crate::store::UserStore;
use crate::types::{visible_of, visible_view_of, LoginUser, UserVisible};

verus! {

/// Whether one row authenticates a login with this email and password:
/// the row is active, carries the email, and its stored hash is usable
/// and matches the password.
pub open spec fn login_match(u: crate::types::User, email: Seq<char>, password: Seq<char>) -> bool {
    &&& u.is_active
    &&& u.email@ == email
    &&& hash_well_formed(u.password@)
    &&& password_verifies(u.password@, password)
}

/// Whether a login with this email and password succeeds against a store.
pub open spec fn login_ok(s: UserStore, email: Seq<char>, password: Seq<char>) -> bool {
    exists|i: int|
        #![trigger s.users@[i]]
        0 <= i < s.users@.len() && login_match(s.users@[i], email, password)
}

/// In a well-formed store the row carrying an email is unique, so login
/// success is decided by that row alone.
pub proof fn lemma_login_ok_unique(s: UserStore, email: Seq<char>, password: Seq<char>, i: int)
    requires
        s.well_formed(),
        0 <= i < s.users@.len(),
        s.users@[i].email@ == email,
    ensures
        login_ok(s, email, password) == login_match(s.users@[i], email, password),
{
    if login_ok(s, email, password) {
        let j = choose|j: int|
            #![trigger s.users@[j]]
            0 <= j < s.users@.len() && login_match(s.users@[j], email, password);
        assert(s.users@[j].email@ == s.users@[i].email@);
        if i < j {
            assert(s.users@[i].email@ != s.users@[j].email@);
        } else if j < i {
            assert(s.users@[j].email@ != s.users@[i].email@);
        }
        assert(j == i);
    }
    if login_match(s.users@[i], email, password) {
        assert(login_ok(s, email, password));
    }
}

/// Authenticates a user: looks up the single active row with the supplied
/// email, verifies the password off the stored hash, and on success — and
/// only then — rotates the session identifier and writes the two claims,
/// returning the sanitized view of the row.  On any failure the session
/// is left exactly as it was.
pub fn login_user(store: &UserStore, session: &mut Session, credentials: &LoginUser) -> (r: Result<
    UserVisible,
    AuthError,
>)
    requires
        store.well_formed(),
        old(session).epoch < u64::MAX,
    ensures
        (r is Ok) == login_ok(*store, credentials.email@, credentials.password@),
        !(r is Ok) ==> *final(session) == *old(session),
        match r {
            Ok(v) => exists|i: int|
                #![trigger store.users@[i]]
                0 <= i < store.users@.len() && login_match(
                    store.users@[i],
                    credentials.email@,
                    credentials.password@,
                ) && v == visible_of(store.users@[i]) && v.email@ == credentials.email@
                    && final(session).user_id == Some(store.users@[i].id) && (
                final(session).user_email matches Some(e) && e@ == credentials.email@)
                    && final(session).epoch == old(session).epoch + 1,
            Err(e) => if e == AuthError::NotFound {
                !store.active_email_present(credentials.email@)
            } else if e == AuthError::Mismatch {
                exists|i: int|
                    #![trigger store.users@[i]]
                    0 <= i < store.users@.len() && store.users@[i].is_active
                        && store.users@[i].email@ == credentials.email@ && hash_well_formed(
                        store.users@[i].password@,
                    ) && !password_verifies(store.users@[i].password@, credentials.password@)
            } else {
                e == AuthError::MalformedHash && exists|i: int|
                    #![trigger store.users@[i]]
                    0 <= i < store.users@.len() && store.users@[i].is_active
                        && store.users@[i].email@ == credentials.email@ && !hash_well_formed(
                        store.users@[i].password@,
                    )
            },
        },
{
    let looked_up = get_active_user_from_db(store, None, Some(&credentials.email));
    match looked_up {
        Err(_) => {
            proof {
                if store.active_email_present(credentials.email@) {
                    let k = choose|k: int|
                        #![trigger store.users@[k]]
                        0 <= k < store.users@.len() && store.users@[k].is_active
                            && store.users@[k].email@ == credentials.email@;
                    assert(user_matches(
                        store.users@[k],
                        None,
                        Some(credentials.email@),
                    ));
                    assert(store.has_match(None, Some(credentials.email@)));
                }
                if login_ok(*store, credentials.email@, credentials.password@) {
                    let k = choose|k: int|
                        #![trigger store.users@[k]]
                        0 <= k < store.users@.len() && login_match(
                            store.users@[k],
                            credentials.email@,
                            credentials.password@,
                        );
                    assert(store.active_email_present(credentials.email@));
                }
            }
            Err(AuthError::NotFound)
        },
        Ok(u) => {
            let ghost wi = choose|i: int|
                #![trigger store.users@[i]]
                0 <= i < store.users@.len() && store.users@[i] == *u && user_matches(
                    store.users@[i],
                    None,
                    Some(credentials.email@),
                );
            let verdict = verify_password(u.password.as_str(), credentials.password.as_str());
            match verdict {
                Ok(_) => {
                    proof {
                        assert(login_match(
                            store.users@[wi],
                            credentials.email@,
                            credentials.password@,
                        ));
                    }
                    session.renew();
                    session.set_claims(u.id, u.email.clone());
                    let v = visible_view_of(u);
                    Ok(v)
                },
                Err(e) => {
                    proof {
                        lemma_login_ok_unique(
                            *store,
                            credentials.email@,
                            credentials.password@,
                            wi,
                        );
                    }
                    match e {
                        AuthError::Mismatch => Err(AuthError::Mismatch),
                        _ => Err(AuthError::MalformedHash),
                    }
                },
            }
        },
    }
}

} // verus!
