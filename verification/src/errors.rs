use vstd::prelude::*;

verus! {

/// The failure taxonomy of the engine.  Domain failures (duplicate email,
/// unknown user, credential mismatch) carry safe user-facing messages;
/// infrastructure failures (pool, store, dispatch, session, transaction)
/// are surfaced as generic retryable messages.
#[derive(Clone, Copy, Debug, PartialEq, Eq, Structural)]
pub enum AuthError {
    /// A row with the requested email address already exists.
    DuplicateEmail,
    /// No active user matches the supplied criteria.
    NotFound,
    /// The candidate password does not match the stored hash.
    Mismatch,
    /// The stored hash could not be parsed; a data-corruption condition.
    MalformedHash,
    /// A lookup was attempted with no identifying criterion at all.
    InvalidQuery,
    /// The presented token is unknown, revoked, or past its expiry.
    ExpiredOrUnknownToken,
    /// A pooled connection could not be acquired in time; retryable.
    PoolExhausted,
    /// A backing store could not be reached; retryable.
    StoreUnavailable,
    /// The notification channel failed to accept the message.
    Dispatch,
    /// Session state could not be written.
    Session,
    /// A transaction could not be committed or rolled back.
    Transaction,
    /// An unexpected fault, such as a crashed hashing worker.
    Internal,
}

impl AuthError {
    /// The user-facing message for this failure.
    pub open spec fn spec_message(self) -> Seq<char> {
        match self {
            AuthError::DuplicateEmail => "A user with that email address already exists"@,
            AuthError::NotFound => "A user with these details does not exist or is not active"@,
            AuthError::Mismatch => "Email and password do not match"@,
            AuthError::MalformedHash => "Stored credentials are unreadable. Kindly contact support"@,
            AuthError::InvalidQuery => "At least one of an id or an email must be supplied"@,
            AuthError::ExpiredOrUnknownToken => "The token is invalid or has expired"@,
            AuthError::PoolExhausted => "Something happened. Please try again"@,
            AuthError::StoreUnavailable => "We cannot reach the store at the moment. Please try again"@,
            AuthError::Dispatch => "The verification email could not be sent, so no account was created. Kindly try again."@,
            AuthError::Session => "Session management error"@,
            AuthError::Transaction => "Failed to complete registration"@,
            AuthError::Internal => "Something unexpected happened. Kindly try again."@,
        }
    }

    /// The user-facing message, as shown to the caller of the service.
    pub fn message(&self) -> (r: &'static str)
        ensures
            r@ == self.spec_message(),
    {
        match self {
            AuthError::DuplicateEmail => "A user with that email address already exists",
            AuthError::NotFound => "A user with these details does not exist or is not active",
            AuthError::Mismatch => "Email and password do not match",
            AuthError::MalformedHash => "Stored credentials are unreadable. Kindly contact support",
            AuthError::InvalidQuery => "At least one of an id or an email must be supplied",
            AuthError::ExpiredOrUnknownToken => "The token is invalid or has expired",
            AuthError::PoolExhausted => "Something happened. Please try again",
            AuthError::StoreUnavailable => "We cannot reach the store at the moment. Please try again",
            AuthError::Dispatch => "The verification email could not be sent, so no account was created. Kindly try again.",
            AuthError::Session => "Session management error",
            AuthError::Transaction => "Failed to complete registration",
            AuthError::Internal => "Something unexpected happened. Kindly try again.",
        }
    }
}

} // verus!
