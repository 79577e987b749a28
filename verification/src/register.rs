use vstd::prelude::*;
use crate::errors::AuthError;
use crate::hasher::hash_password;
use crate::hasher::hash_well_formed;
use crate::hasher::password_verifies;
use crate::store::UserStore;
use crate::token::{TokenEntry, TokenPurpose, TokenStore};
use crate::types::{NewUser, User, UserProfile};

verus! {

/// The registration state between persistence and commit: a fully built
/// row holding a reserved id and the hashed credential.  Nobody can see it
/// until the commit step appends it, so abandoning it — as the workflow
/// does when the verification notification cannot be dispatched — leaves
/// the store exactly as it was: no email sent, no account persisted.
pub struct PendingRegistration {
    pub user: User,
}

/// What beginning a registration promises of the pending row it builds
/// from a request: the request's own fields, an active account without
/// staff or superuser rights, the reserved id, and a credential hash that
/// verifies against the requested password.
pub open spec fn pending_for(p: PendingRegistration, nu: NewUser, reserved_id: u128, now: u64) -> bool {
    &&& p.user.id == reserved_id
    &&& p.user.email@ == nu.email@
    &&& p.user.first_name@ == nu.first_name@
    &&& p.user.last_name@ == nu.last_name@
    &&& p.user.is_active
    &&& !p.user.is_staff
    &&& !p.user.is_superuser
    &&& p.user.date_joined == now
    &&& p.user.thumbnail is None
    &&& p.user.profile.user_id == p.user.id
    &&& hash_well_formed(p.user.password@)
    &&& password_verifies(p.user.password@, nu.password@)
}

/// Begins a registration: rejects a duplicate email, hashes the password,
/// and builds the pending row under a freshly reserved id.  No row becomes
/// visible; only a later commit appends one.  A hashing fault surfaces as
/// an internal error, again with no visible change.
pub fn begin_registration(store: &mut UserStore, new_user: &NewUser, now: u64) -> (r: Result<
    PendingRegistration,
    AuthError,
>)
    requires
        old(store).well_formed(),
        old(store).next_id < u128::MAX,
    ensures
        final(store).well_formed(),
        final(store).users@ =~= old(store).users@,
        match r {
            Ok(p) => !old(store).email_taken(new_user.email@) && final(store).next_id == old(
                store,
            ).next_id + 1 && pending_for(p, *new_user, old(store).next_id, now),
            Err(e) => final(store).next_id == old(store).next_id && if e
                == AuthError::DuplicateEmail {
                old(store).email_taken(new_user.email@)
            } else {
                e == AuthError::Internal && !old(store).email_taken(new_user.email@)
            },
        },
{
    if store.email_exists(&new_user.email) {
        return Err(AuthError::DuplicateEmail);
    }
    let hashed = match hash_password(new_user.password.as_str()) {
        Ok(h) => h,
        Err(_) => {
            return Err(AuthError::Internal);
        },
    };
    let id = store.next_id;
    store.next_id = id + 1;
    let user = User {
        id: id,
        email: new_user.email.clone(),
        password: hashed,
        first_name: new_user.first_name.clone(),
        last_name: new_user.last_name.clone(),
        is_active: true,
        is_staff: false,
        is_superuser: false,
        thumbnail: None,
        date_joined: now,
        profile: UserProfile {
            id: id,
            user_id: id,
            phone_number: None,
            birth_date: None,
            github_link: None,
        },
    };
    Ok(PendingRegistration { user: user })
}

/// Runs a registration up to the point where the verification notification
/// must go out: begins it and issues the email-verification token for the
/// reserved account, stored with expiry exactly `ttl_secs` after `now`.
/// The caller dispatches the notification with the
/// returned token and, only if that succeeds, commits the pending row;
/// abandoning it on dispatch failure leaves every user row untouched, so
/// no account is ever persisted without its verification email.
pub fn register_user(
    store: &mut UserStore,
    tokens: &mut TokenStore,
    new_user: &NewUser,
    now: u64,
    ttl_secs: u64,
) -> (r: Result<(PendingRegistration, u128), AuthError>)
    requires
        old(store).well_formed(),
        old(store).next_id < u128::MAX,
        old(tokens).well_formed(),
        now + ttl_secs <= u64::MAX,
    ensures
        final(store).well_formed(),
        final(tokens).well_formed(),
        final(store).users@ =~= old(store).users@,
        old(tokens).entries@.len() <= final(tokens).entries@.len() <= old(tokens).entries@.len()
            + 1,
        match r {
            Ok(p) => !old(store).email_taken(new_user.email@) && final(store).next_id == old(
                store,
            ).next_id + 1 && pending_for(
                p.0,
                *new_user,
                old(store).next_id,
                now,
            ) && (exists|i: int|
                #![trigger final(tokens).entries@[i]]
                0 <= i < final(tokens).entries@.len() && final(tokens).entries@[i] == (TokenEntry {
                    token: p.1,
                    user_id: p.0.user.id,
                    purpose: TokenPurpose::EmailVerification,
                    expires_at: (now + ttl_secs) as u64,
                })) && (ttl_secs > 0 ==> final(tokens).resolves_to(
                p.1,
                now,
                p.0.user.id,
                TokenPurpose::EmailVerification,
            )) && (forall|i: int|
                #![trigger old(tokens).entries@[i]]
                0 <= i < old(tokens).entries@.len() && old(tokens).entries@[i].token != p.1
                    ==> final(tokens).entries@[i] == old(tokens).entries@[i]),
            Err(e) => final(tokens).entries@ =~= old(tokens).entries@ && final(store).next_id
                == old(store).next_id && if e == AuthError::DuplicateEmail {
                old(store).email_taken(new_user.email@)
            } else {
                e == AuthError::Internal && !old(store).email_taken(new_user.email@)
            },
        },
{
    let pending = match begin_registration(store, new_user, now) {
        Ok(p) => p,
        Err(e) => {
            return Err(e);
        },
    };
    let token = tokens.issue(pending.user.id, TokenPurpose::EmailVerification, now, ttl_secs);
    Ok((pending, token))
}

/// Commits a registration: appends the pending row, unless another row
/// took the email since the registration began, in which case the store is
/// left unchanged and the duplicate is reported — of two racing
/// registrations for one email, exactly the first to commit wins.
pub fn commit_registration(store: &mut UserStore, pending: PendingRegistration) -> (r: Result<
    u128,
    AuthError,
>)
    requires
        old(store).well_formed(),
        pending.user.id < old(store).next_id,
        forall|i: int|
            #![trigger old(store).users@[i]]
            0 <= i < old(store).users@.len() ==> old(store).users@[i].id != pending.user.id,
        pending.user.profile.user_id == pending.user.id,
    ensures
        final(store).well_formed(),
        final(store).next_id == old(store).next_id,
        match r {
            Ok(id) => !old(store).email_taken(pending.user.email@) && id == pending.user.id
                && final(store).users@ =~= old(store).users@.push(pending.user),
            Err(e) => e == AuthError::DuplicateEmail && old(store).email_taken(
                pending.user.email@,
            ) && final(store).users@ =~= old(store).users@,
        },
{
    if store.email_exists(&pending.user.email) {
        return Err(AuthError::DuplicateEmail);
    }
    let id = pending.user.id;
    store.users.push(pending.user);
    Ok(id)
}

} // verus!
