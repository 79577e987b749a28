use vstd::prelude::*;
use crate::errors::AuthError;
use crate::store::get_active_user_from_db;
use crate::store::user_matches;
use crate::store::UserStore;
use crate::token::{TokenEntry, TokenPurpose, TokenStore};
use crate::types::UserEmail;

verus! {

/// Everything the notification dispatcher needs to send password-reset
/// instructions: the issued token and the addressee's identifying fields.
pub struct PasswordResetDispatch {
    pub token: u128,
    pub user_id: u128,
    pub email: String,
    pub first_name: String,
    pub last_name: String,
}

/// Requests a password reset: looks up the single active row with the
/// supplied email and issues a reset-purpose token against it, stored
/// with expiry exactly `ttl_secs` after `now`, handing back what the
/// dispatcher needs.  No relational mutation happens in this
/// flow; an unknown or inactive email is reported and leaves the token
/// store unchanged.
pub fn request_password_change(
    store: &UserStore,
    tokens: &mut TokenStore,
    request: &UserEmail,
    now: u64,
    ttl_secs: u64,
) -> (r: Result<PasswordResetDispatch, AuthError>)
    requires
        store.well_formed(),
        old(tokens).well_formed(),
        now + ttl_secs <= u64::MAX,
    ensures
        final(tokens).well_formed(),
        old(tokens).entries@.len() <= final(tokens).entries@.len() <= old(tokens).entries@.len()
            + 1,
        (r is Ok) == store.active_email_present(request.email@),
        match r {
            Ok(d) => (exists|i: int|
                #![trigger store.users@[i]]
                0 <= i < store.users@.len() && store.users@[i].is_active && store.users@[i].email@
                    == request.email@ && d.user_id == store.users@[i].id && d.email@
                    == store.users@[i].email@ && d.first_name@ == store.users@[i].first_name@
                    && d.last_name@ == store.users@[i].last_name@) && (exists|j: int|
                #![trigger final(tokens).entries@[j]]
                0 <= j < final(tokens).entries@.len() && final(tokens).entries@[j] == (TokenEntry {
                    token: d.token,
                    user_id: d.user_id,
                    purpose: TokenPurpose::PasswordReset,
                    expires_at: (now + ttl_secs) as u64,
                })) && (ttl_secs > 0
                ==> final(tokens).resolves_to(d.token, now, d.user_id, TokenPurpose::PasswordReset))
                && (forall|j: int|
                #![trigger old(tokens).entries@[j]]
                0 <= j < old(tokens).entries@.len() && old(tokens).entries@[j].token != d.token
                    ==> final(tokens).entries@[j] == old(tokens).entries@[j]),
            Err(e) => e == AuthError::NotFound && !store.active_email_present(request.email@)
                && final(tokens).entries@ =~= old(tokens).entries@,
        },
{
    match get_active_user_from_db(store, None, Some(&request.email)) {
        Err(_) => {
            proof {
                if store.active_email_present(request.email@) {
                    let k = choose|k: int|
                        #![trigger store.users@[k]]
                        0 <= k < store.users@.len() && store.users@[k].is_active
                            && store.users@[k].email@ == request.email@;
                    assert(user_matches(store.users@[k], None, Some(request.email@)));
                    assert(store.has_match(None, Some(request.email@)));
                }
            }
            Err(AuthError::NotFound)
        },
        Ok(u) => {
            let t = tokens.issue(u.id, TokenPurpose::PasswordReset, now, ttl_secs);
            Ok(
                PasswordResetDispatch {
                    token: t,
                    user_id: u.id,
                    email: u.email.clone(),
                    first_name: u.first_name.clone(),
                    last_name: u.last_name.clone(),
                },
            )
        },
    }
}

} // verus!
