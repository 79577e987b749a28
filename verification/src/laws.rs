use vstd::prelude::*;
use crate::login::{login_match, login_ok};
use crate::register::{pending_for, PendingRegistration};
use crate::store::UserStore;
use crate::token::{TokenEntry, TokenPurpose, TokenStore};
use crate::types::NewUser;

verus! {

/// Registering and then logging in with the same credentials succeeds: a
/// store that a successful commit has just extended with the pending row
/// of a successful registration authenticates that registration's email
/// and password.
pub proof fn lemma_register_then_login(
    before: UserStore,
    after: UserStore,
    p: PendingRegistration,
    nu: NewUser,
    reserved_id: u128,
    now: u64,
)
    requires
        pending_for(p, nu, reserved_id, now),
        after.users@ =~= before.users@.push(p.user),
    ensures
        login_ok(after, nu.email@, nu.password@),
{
    let w = before.users@.len() as int;
    assert(after.users@[w] == p.user);
    assert(login_match(after.users@[w], nu.email@, nu.password@));
}

/// A committed registration takes its email: afterwards the store reports
/// the email as taken, so a second registration with the same email — in
/// particular the loser of two racing ones — is rejected as a duplicate,
/// by the contracts of beginning and committing a registration, and those
/// same contracts leave the store unchanged on that rejection.
pub proof fn lemma_commit_takes_email(before: UserStore, after: UserStore, p: PendingRegistration)
    requires
        after.users@ =~= before.users@.push(p.user),
    ensures
        after.email_taken(p.user.email@),
{
    let w = before.users@.len() as int;
    assert(after.users@[w] == p.user);
}

/// Atomicity of registration under dispatch failure: beginning a
/// registration and issuing its token leave the user rows untouched, so
/// while the commit has not happened — in particular when the workflow
/// abandons the registration because the notification could not be sent —
/// an email absent before is still absent, and no lookup can see the
/// account.
pub proof fn lemma_no_commit_no_visible_row(before: UserStore, after: UserStore, email: Seq<char>)
    requires
        after.users@ =~= before.users@,
        !before.active_email_present(email),
    ensures
        !after.active_email_present(email),
{
}

/// A token issued with a time to live resolves to its subject and purpose
/// at any instant before the expiry, and at no instant from the expiry
/// on: presenting it too late can only be answered with the
/// expired-or-unknown failure, by the resolve contract.
pub proof fn lemma_token_ttl(
    ts: TokenStore,
    t: u128,
    user_id: u128,
    purpose: TokenPurpose,
    issued_at: u64,
    ttl_secs: u64,
    later: u64,
)
    requires
        ts.well_formed(),
        issued_at + ttl_secs <= u64::MAX,
        exists|i: int|
            #![trigger ts.entries@[i]]
            0 <= i < ts.entries@.len() && ts.entries@[i] == (TokenEntry {
                token: t,
                user_id: user_id,
                purpose: purpose,
                expires_at: (issued_at + ttl_secs) as u64,
            }),
    ensures
        later < issued_at + ttl_secs ==> ts.resolves_to(t, later, user_id, purpose),
        later >= issued_at + ttl_secs ==> forall|uid: u128, pp: TokenPurpose|
            !ts.resolves_to(t, later, uid, pp),
{
    let i = choose|i: int|
        #![trigger ts.entries@[i]]
        0 <= i < ts.entries@.len() && ts.entries@[i] == (TokenEntry {
            token: t,
            user_id: user_id,
            purpose: purpose,
            expires_at: (issued_at + ttl_secs) as u64,
        });
    if later >= issued_at + ttl_secs {
        assert forall|uid: u128, pp: TokenPurpose| !ts.resolves_to(t, later, uid, pp) by {
            if ts.resolves_to(t, later, uid, pp) {
                let j = choose|j: int|
                    #![trigger ts.entries@[j]]
                    0 <= j < ts.entries@.len() && ts.entries@[j].token == t && ts.entries@[j].user_id
                        == uid && ts.entries@[j].purpose == pp && later < ts.entries@[j].expires_at;
                if i < j {
                    assert(ts.entries@[i].token != ts.entries@[j].token);
                } else if j < i {
                    assert(ts.entries@[j].token != ts.entries@[i].token);
                }
            }
        }
    }
}

} // verus!
