use vstd::prelude::*;

verus! {

/// The session-store model: an epoch standing for the opaque session
/// identifier, which renewal rotates, and the two claims written after a
/// successful authentication.
pub struct Session {
    pub epoch: u64,
    pub user_id: Option<u128>,
    pub user_email: Option<String>,
}

impl Session {
    /// A fresh, anonymous session.
    pub fn new() -> (s: Session)
        ensures
            s.epoch == 0,
            s.user_id is None,
            s.user_email is None,
    {
        Session { epoch: 0, user_id: None, user_email: None }
    }

    /// Rotates the session identifier, keeping existing state, so that a
    /// later write of claims never lands in a fixated session.
    pub fn renew(&mut self)
        requires
            old(self).epoch < u64::MAX,
        ensures
            final(self).epoch == old(self).epoch + 1,
            final(self).user_id == old(self).user_id,
            final(self).user_email == old(self).user_email,
    {
        self.epoch = self.epoch + 1;
    }

    /// Writes the two authentication claims.
    pub fn set_claims(&mut self, user_id: u128, email: String)
        ensures
            final(self).epoch == old(self).epoch,
            final(self).user_id == Some(user_id),
            final(self).user_email == Some(email),
    {
        self.user_id = Some(user_id);
        self.user_email = Some(email);
    }
}

} // verus!
