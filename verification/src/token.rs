use vstd::prelude::*;
use crate::errors::AuthError;

verus! {

/// What an ephemeral token authorizes its bearer to do.
#[derive(Clone, Copy, Debug, PartialEq, Eq, Structural)]
pub enum TokenPurpose {
    EmailVerification,
    PasswordReset,
}

/// One stored token: the mapping from its identifier to the subject user,
/// the purpose it is scoped to, and the instant it expires.
#[derive(Clone, Copy, Debug, PartialEq, Eq, Structural)]
pub struct TokenEntry {
    pub token: u128,
    pub user_id: u128,
    pub purpose: TokenPurpose,
    pub expires_at: u64,
}

/// The ephemeral key-value store model: purpose-scoped, time-bounded tokens
/// keyed by their identifier.  Time is supplied by the caller, so expiry is
/// decided here rather than by the clock of some backing store.
pub struct TokenStore {
    pub entries: Vec<TokenEntry>,
}

/// Relies on uuid's `Uuid::new_v4`: a version-4 identifier drawn from the
/// operating system's cryptographic random source.  The value is random, so
/// nothing is assumed of it.
#[verifier::external_body]
fn random_token_id() -> (r: u128) {
    uuid::Uuid::new_v4().as_u128()
}

impl TokenStore {
    /// Token identifiers are pairwise distinct.
    pub open spec fn well_formed(self) -> bool {
        forall|i: int, j: int|
            #![trigger self.entries@[i], self.entries@[j]]
            0 <= i < j < self.entries@.len() ==> self.entries@[i].token != self.entries@[j].token
    }

    /// Whether some entry carries this token identifier.
    pub open spec fn contains_token(self, token: u128) -> bool {
        exists|i: int|
            #![trigger self.entries@[i]]
            0 <= i < self.entries@.len() && self.entries@[i].token == token
    }

    /// Whether this exact entry is stored.
    pub open spec fn contains_entry(self, e: TokenEntry) -> bool {
        exists|i: int|
            #![trigger self.entries@[i]]
            0 <= i < self.entries@.len() && self.entries@[i] == e
    }

    /// Whether this token resolves at this instant to this subject and
    /// purpose: its entry is present and not yet expired.
    pub open spec fn resolves_to(self, token: u128, now: u64, user_id: u128, purpose: TokenPurpose) -> bool {
        exists|i: int|
            #![trigger self.entries@[i]]
            0 <= i < self.entries@.len() && self.entries@[i].token == token
                && self.entries@[i].user_id == user_id && self.entries@[i].purpose == purpose
                && now < self.entries@[i].expires_at
    }

    /// An empty store.
    pub fn new() -> (s: TokenStore)
        ensures
            s.well_formed(),
            s.entries@.len() == 0,
    {
        TokenStore { entries: Vec::new() }
    }

    /// Issues a fresh, randomly drawn token for this subject and purpose,
    /// expiring `ttl_secs` after `now`.  The returned token is stored; any
    /// entry that happened to share the identifier is overwritten, as a
    /// keyed store overwrites on set, and every other entry is kept.
    #[verifier::loop_isolation(false)]
    pub fn issue(&mut self, user_id: u128, purpose: TokenPurpose, now: u64, ttl_secs: u64) -> (t:
        u128)
        requires
            old(self).well_formed(),
            now + ttl_secs <= u64::MAX,
        ensures
            final(self).well_formed(),
            ttl_secs > 0 ==> final(self).resolves_to(t, now, user_id, purpose),
            exists|i: int|
                #![trigger final(self).entries@[i]]
                0 <= i < final(self).entries@.len() && final(self).entries@[i] == (TokenEntry {
                    token: t,
                    user_id: user_id,
                    purpose: purpose,
                    expires_at: (now + ttl_secs) as u64,
                }),
            old(self).entries@.len() <= final(self).entries@.len() <= old(self).entries@.len() + 1,
            forall|i: int|
                #![trigger old(self).entries@[i]]
                0 <= i < old(self).entries@.len() && old(self).entries@[i].token != t
                    ==> final(self).entries@[i] == old(self).entries@[i],
    {
        let t = random_token_id();
        let entry = TokenEntry { token: t, user_id: user_id, purpose: purpose, expires_at: now + ttl_secs };
        let n = self.entries.len();
        let mut i: usize = 0;
        while i < n
            invariant
                n == self.entries@.len(),
                self.entries@ =~= old(self).entries@,
                i <= n,
                old(self).well_formed(),
                forall|k: int|
                    #![trigger self.entries@[k]]
                    0 <= k < i ==> self.entries@[k].token != t,
            decreases n - i,
        {
            if self.entries[i].token == t {
                self.entries[i] = entry;
                assert(self.entries@ =~= old(self).entries@.update(i as int, entry));
                return t;
            }
            i += 1;
        }
        self.entries.push(entry);
        assert(self.entries@ =~= old(self).entries@.push(entry));
        assert(self.entries@[n as int] == entry);
        return t;
    }

    /// Resolves a token at an instant: the subject and purpose when the
    /// entry is present and not yet expired, and the expired-or-unknown
    /// failure otherwise.
    #[verifier::loop_isolation(false)]
    pub fn resolve(&self, token: u128, now: u64) -> (r: Result<(u128, TokenPurpose), AuthError>)
        requires
            self.well_formed(),
        ensures
            match r {
                Ok(p) => self.resolves_to(token, now, p.0, p.1),
                Err(e) => e == AuthError::ExpiredOrUnknownToken && forall|uid: u128, pp:
                    TokenPurpose|
                    !self.resolves_to(token, now, uid, pp),
            },
    {
        let n = self.entries.len();
        let mut i: usize = 0;
        while i < n
            invariant
                n == self.entries@.len(),
                self.well_formed(),
                i <= n,
                forall|k: int|
                    #![trigger self.entries@[k]]
                    0 <= k < i ==> self.entries@[k].token != token,
            decreases n - i,
        {
            let e = &self.entries[i];
            if e.token == token {
                if now < e.expires_at {
                    return Ok((e.user_id, e.purpose));
                } else {
                    assert forall|uid: u128, pp: TokenPurpose|
                        !self.resolves_to(token, now, uid, pp) by {
                        assert forall|k: int|
                            0 <= k < self.entries@.len() && #[trigger] self.entries@[k].token
                                == token implies !(now < self.entries@[k].expires_at) by {
                            if k != i as int {
                                assert(self.entries@[k].token != self.entries@[i as int].token);
                            }
                        }
                    }
                    return Err(AuthError::ExpiredOrUnknownToken);
                }
            }
            i += 1;
        }
        Err(AuthError::ExpiredOrUnknownToken)
    }

    /// Revokes a token: afterwards no entry carries it, every entry with
    /// another identifier is kept unchanged, and, the identifiers being
    /// unique, nothing else happens: either exactly the one entry leaves,
    /// or the token was unknown and the store is untouched.
    #[verifier::loop_isolation(false)]
    pub fn revoke(&mut self, token: u128)
        requires
            old(self).well_formed(),
        ensures
            final(self).well_formed(),
            !final(self).contains_token(token),
            old(self).contains_token(token) ==> final(self).entries@.len() == old(
                self,
            ).entries@.len() - 1,
            !old(self).contains_token(token) ==> final(self).entries@ =~= old(self).entries@,
            forall|i: int|
                #![trigger old(self).entries@[i]]
                0 <= i < old(self).entries@.len() && old(self).entries@[i].token != token
                    ==> final(self).contains_entry(old(self).entries@[i]),
    {
        let n = self.entries.len();
        let mut i: usize = 0;
        while i < n
            invariant
                n == self.entries@.len(),
                self.entries@ =~= old(self).entries@,
                i <= n,
                old(self).well_formed(),
                forall|k: int|
                    #![trigger self.entries@[k]]
                    0 <= k < i ==> self.entries@[k].token != token,
            decreases n - i,
        {
            if self.entries[i].token == token {
                let ghost pre = self.entries@;
                self.entries.remove(i);
                assert(old(self).entries@[i as int].token == token);
                assert forall|k: int| 0 <= k < self.entries@.len() implies #[trigger] self.entries@[k]
                    == if k < i as int {
                    pre[k]
                } else {
                    pre[k + 1]
                } by {}
                assert forall|k: int|
                    0 <= k < self.entries@.len() implies #[trigger] self.entries@[k].token
                    != token by {
                    if k >= i as int {
                        assert(self.entries@[k] == pre[k + 1]);
                        assert(pre[i as int].token == token);
                        assert(pre[k + 1].token != token);
                    }
                }
                assert forall|k: int|
                    #![trigger old(self).entries@[k]]
                    0 <= k < old(self).entries@.len() && old(self).entries@[k].token
                        != token implies self.contains_entry(old(self).entries@[k]) by {
                    assert(pre == old(self).entries@);
                    if k < i as int {
                        assert(self.entries@[k] == pre[k]);
                    } else {
                        assert(k > i as int);
                        assert(self.entries@[k - 1] == pre[k]);
                    }
                }
                return ;
            }
            i += 1;
        }
        assert forall|k: int|
            #![trigger old(self).entries@[k]]
            0 <= k < old(self).entries@.len() implies self.contains_entry(
            old(self).entries@[k],
        ) by {
            assert(self.entries@[k] == old(self).entries@[k]);
        }
    }
}

} // verus!
