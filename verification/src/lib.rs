//! A verified account and credential lifecycle engine: atomic creation of a
//! user together with its profile, password authentication with session
//! issuance, and ephemeral-token-backed verification and password-reset flows.

pub mod errors;
pub mod types;
pub mod hasher;
pub mod store;
pub mod token;
pub mod session;
pub mod register;
pub mod login;
pub mod reset;
pub mod laws;
