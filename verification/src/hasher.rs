use vstd::prelude::*;
use crate::errors::AuthError;

verus! {

/// Whether a stored credential string is a parseable, usable password hash.
/// Names the success of argon2's PHC-string parsing and parameter checks,
/// which depend on the stored string alone.
pub uninterp spec fn hash_well_formed(stored: Seq<char>) -> bool;

/// Whether a candidate password matches a stored hash.  Names the outcome of
/// argon2's verification, which recomputes the hash from the salt and
/// parameters embedded in the stored string, so it depends on the two
/// strings alone.
pub uninterp spec fn password_verifies(stored: Seq<char>, candidate: Seq<char>) -> bool;

/// Relies on argon2's `Argon2::hash_password` (the `PasswordHasher` impl):
/// it produces a PHC-encoded hash with a fresh random salt, and the crate
/// documents that `verify_password` accepts that hash together with the
/// password it was computed from.  The salt is random, so nothing is said
/// about the hash's value, only what holds of every outcome.
#[verifier::external_body]
pub(crate) fn hash_password(plain: &str) -> (r: Result<String, AuthError>)
    ensures
        r matches Ok(h) ==> hash_well_formed(h@) && password_verifies(h@, plain@),
{
    match argon2::PasswordHasher::hash_password(&argon2::Argon2::default(), plain.as_bytes()) {
        Ok(h) => Ok(h.to_string()),
        Err(_) => Err(AuthError::Internal),
    }
}

/// Relies on argon2's `Argon2::verify_password` (the `PasswordVerifier<str>`
/// impl): it parses the stored PHC string, recomputes the hash with the
/// embedded salt and parameters, and compares in constant time.  It returns
/// `Error::PasswordInvalid` exactly when the recomputed output differs, and
/// another error exactly when the stored string cannot be used as a hash.
#[verifier::external_body]
pub(crate) fn verify_password(stored: &str, candidate: &str) -> (r: Result<(), AuthError>)
    ensures
        match r {
            Ok(u) => hash_well_formed(stored@) && password_verifies(stored@, candidate@),
            Err(e) => if e == AuthError::MalformedHash {
                !hash_well_formed(stored@)
            } else {
                e == AuthError::Mismatch && hash_well_formed(stored@) && !password_verifies(
                    stored@,
                    candidate@,
                )
            },
        },
        r is Err ==> !hash_well_formed(stored@) || !password_verifies(stored@, candidate@),
{
    match argon2::PasswordVerifier::verify_password(
        &argon2::Argon2::default(),
        candidate.as_bytes(),
        stored,
    ) {
        Ok(()) => Ok(()),
        Err(argon2::password_hash::Error::PasswordInvalid) => Err(AuthError::Mismatch),
        Err(_) => Err(AuthError::MalformedHash),
    }
}

} // verus!
