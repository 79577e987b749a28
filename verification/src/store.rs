use vstd::prelude::*;
use crate::errors::AuthError;
use crate::types::{CreateNewUser, User, UserProfile};

verus! {

/// The relational-store model: the `users` table with its unique-email
/// constraint, unique ids drawn below `next_id`, and the 1:1 profile row
/// created together with each user.
pub struct UserStore {
    pub users: Vec<User>,
    pub next_id: u128,
}

/// Whether a row satisfies every supplied criterion of a lookup: the id if
/// one is given, the email if one is given, and the implicit requirement
/// that only active rows are ever returned.
pub open spec fn user_matches(u: User, by_id: Option<u128>, by_email: Option<Seq<char>>) -> bool {
    &&& u.is_active
    &&& (by_id matches Some(id) ==> u.id == id)
    &&& (by_email matches Some(e) ==> u.email@ == e)
}

/// The view of an optional borrowed email criterion.
pub open spec fn opt_email_view(email: Option<&String>) -> Option<Seq<char>> {
    match email {
        Some(s) => Some(s@),
        None => None,
    }
}

impl UserStore {
    /// The store's integrity constraints: pairwise distinct emails and ids,
    /// every id below `next_id`, and each profile keyed to its own user.
    pub open spec fn well_formed(self) -> bool {
        &&& (forall|i: int, j: int|
            #![trigger self.users@[i], self.users@[j]]
            0 <= i < j < self.users@.len() ==> self.users@[i].email@ != self.users@[j].email@
                && self.users@[i].id != self.users@[j].id)
        &&& (forall|i: int|
            #![trigger self.users@[i]]
            0 <= i < self.users@.len() ==> self.users@[i].id < self.next_id
                && self.users@[i].profile.user_id == self.users@[i].id)
    }

    /// Whether any row, active or not, already carries this email.
    pub open spec fn email_taken(self, email: Seq<char>) -> bool {
        exists|i: int|
            #![trigger self.users@[i]]
            0 <= i < self.users@.len() && self.users@[i].email@ == email
    }

    /// Whether an active row carries this email.
    pub open spec fn active_email_present(self, email: Seq<char>) -> bool {
        exists|i: int|
            #![trigger self.users@[i]]
            0 <= i < self.users@.len() && self.users@[i].is_active && self.users@[i].email@
                == email
    }

    /// Whether some row matches a lookup with these criteria.
    pub open spec fn has_match(self, by_id: Option<u128>, by_email: Option<Seq<char>>) -> bool {
        exists|i: int|
            #![trigger self.users@[i]]
            0 <= i < self.users@.len() && user_matches(self.users@[i], by_id, by_email)
    }

    /// The row that a successful creation appends: active, without staff or
    /// superuser rights, with an empty profile keyed to the fresh id.
    pub open spec fn created_user(create: CreateNewUser, id: u128, now: u64) -> User {
        User {
            id: id,
            email: create.email,
            password: create.password,
            first_name: create.first_name,
            last_name: create.last_name,
            is_active: true,
            is_staff: false,
            is_superuser: false,
            thumbnail: None,
            date_joined: now,
            profile: UserProfile {
                id: id,
                user_id: id,
                phone_number: None,
                birth_date: None,
                github_link: None,
            },
        }
    }

    /// An empty store.
    pub fn new() -> (s: UserStore)
        ensures
            s.well_formed(),
            s.users@.len() == 0,
            s.next_id == 0,
    {
        UserStore { users: Vec::new(), next_id: 0 }
    }

    /// True exactly when some row already uses this email address.
    #[verifier::loop_isolation(false)]
    pub fn email_exists(&self, email: &String) -> (b: bool)
        ensures
            b == self.email_taken(email@),
    {
        let mut i: usize = 0;
        while i < self.users.len()
            invariant
                i <= self.users@.len(),
                forall|k: int|
                    #![trigger self.users@[k]]
                    0 <= k < i ==> self.users@[k].email@ != email@,
            decreases self.users@.len() - i,
        {
            if self.users[i].email == *email {
                assert(self.users@[i as int].email@ == email@);
                return true;
            }
            i += 1;
        }
        false
    }

    /// Creates a user row and its 1:1 profile row as one unit, mirroring the
    /// repository's atomic insert pair: a duplicate email is rejected with
    /// no change at all; otherwise the new row is appended under a fresh id
    /// and the id is returned.
    #[verifier::loop_isolation(false)]
    pub fn create_user_with_profile(&mut self, create: &CreateNewUser, now: u64) -> (r: Result<
        u128,
        AuthError,
    >)
        requires
            old(self).well_formed(),
            old(self).next_id < u128::MAX,
        ensures
            final(self).well_formed(),
            match r {
                Ok(id) => !old(self).email_taken(create.email@) && id == old(self).next_id
                    && final(self).next_id == old(self).next_id + 1 && final(self).users@ =~= old(
                    self,
                ).users@.push(UserStore::created_user(*create, id, now)),
                Err(e) => e == AuthError::DuplicateEmail && old(self).email_taken(create.email@)
                    && final(self).users@ =~= old(self).users@ && final(self).next_id == old(
                    self,
                ).next_id,
            },
    {
        if self.email_exists(&create.email) {
            return Err(AuthError::DuplicateEmail);
        }
        let id = self.next_id;
        self.next_id = id + 1;
        let user = User {
            id: id,
            email: create.email.clone(),
            password: create.password.clone(),
            first_name: create.first_name.clone(),
            last_name: create.last_name.clone(),
            is_active: true,
            is_staff: false,
            is_superuser: false,
            thumbnail: None,
            date_joined: now,
            profile: UserProfile {
                id: id,
                user_id: id,
                phone_number: None,
                birth_date: None,
                github_link: None,
            },
        };
        self.users.push(user);
        Ok(id)
    }

    /// Sets the `is_active` flag of the row with this id, if one exists, and
    /// reports whether one did.  Activation itself belongs to the token
    /// consumption flow outside this engine; lookups and login only ever
    /// see active rows.
    #[verifier::loop_isolation(false)]
    pub fn set_active(&mut self, id: u128, active: bool) -> (found: bool)
        requires
            old(self).well_formed(),
        ensures
            final(self).well_formed(),
            final(self).next_id == old(self).next_id,
            final(self).users@.len() == old(self).users@.len(),
            forall|i: int|
                #![trigger final(self).users@[i]]
                0 <= i < final(self).users@.len() ==> if old(self).users@[i].id == id {
                    final(self).users@[i] == (User { is_active: active, ..old(self).users@[i] })
                } else {
                    final(self).users@[i] == old(self).users@[i]
                },
            found == exists|i: int|
                #![trigger old(self).users@[i]]
                0 <= i < old(self).users@.len() && old(self).users@[i].id == id,
    {
        let n = self.users.len();
        let mut i: usize = 0;
        while i < n
            invariant
                n == self.users@.len(),
                self.users@.len() == old(self).users@.len(),
                self.next_id == old(self).next_id,
                i <= n,
                forall|k: int| #![trigger self.users@[k]] 0 <= k < n ==> self.users@[k] == old(
                    self,
                ).users@[k],
                old(self).well_formed(),
                forall|k: int|
                    #![trigger old(self).users@[k]]
                    0 <= k < i ==> old(self).users@[k].id != id,
            decreases n - i,
        {
            if self.users[i].id == id {
                self.users[i].is_active = active;
                assert(self.users@ =~= old(self).users@.update(
                    i as int,
                    User { is_active: active, ..old(self).users@[i as int] },
                ));
                return true;
            }
            i += 1;
        }
        false
    }
}

/// Looks up the single active row matching every supplied criterion, with
/// AND semantics over the optional id and email and an implicit
/// `is_active` requirement.  A lookup with no criterion at all is a caller
/// error rather than a query for an arbitrary active row.
#[verifier::loop_isolation(false)]
pub fn get_active_user_from_db<'a>(
    store: &'a UserStore,
    id: Option<u128>,
    email: Option<&String>,
) -> (r: Result<&'a User, AuthError>)
    requires
        store.well_formed(),
    ensures
        match r {
            Ok(u) => (id is Some || email is Some) && exists|i: int|
                #![trigger store.users@[i]]
                0 <= i < store.users@.len() && store.users@[i] == *u && user_matches(
                    store.users@[i],
                    id,
                    opt_email_view(email),
                ),
            Err(e) => if e == AuthError::InvalidQuery {
                id is None && email is None
            } else {
                e == AuthError::NotFound && (id is Some || email is Some) && !store.has_match(
                    id,
                    opt_email_view(email),
                )
            },
        },
{
    if id.is_none() && email.is_none() {
        return Err(AuthError::InvalidQuery);
    }
    let mut i: usize = 0;
    while i < store.users.len()
        invariant
            store.well_formed(),
            i <= store.users@.len(),
            forall|k: int|
                #![trigger store.users@[k]]
                0 <= k < i ==> !user_matches(store.users@[k], id, opt_email_view(email)),
        decreases store.users@.len() - i,
    {
        let u = &store.users[i];
        if u.is_active {
            let id_ok = match id {
                Some(want) => u.id == want,
                None => true,
            };
            let email_ok = match email {
                Some(want) => u.email == *want,
                None => true,
            };
            if id_ok && email_ok {
                assert(user_matches(store.users@[i as int], id, opt_email_view(email)));
                return Ok(u);
            }
        }
        i += 1;
    }
    Err(AuthError::NotFound)
}

} // verus!
