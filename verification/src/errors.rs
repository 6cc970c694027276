use vstd::prelude::*;

verus! {

/// Why a signup or login attempt failed.
#[derive(Clone, Copy, Debug, PartialEq, Eq, Structural)]
pub enum AuthError {
    /// Signup: the requested username is already taken.
    DuplicateUsername,
    /// Login: the user is unknown, the stored hash cannot be read, or the
    /// password does not match; the causes are deliberately not told apart,
    /// so that a failed login never reveals whether the username exists.
    InvalidCredentials,
    /// Signup: the password hasher refused its input.
    HashingFailed,
}

/// Why a session cookie value was rejected.
#[derive(Clone, Copy, Debug, PartialEq, Eq, Structural)]
pub enum SessionError {
    /// The value is malformed or fails integrity verification.
    Invalid,
    /// The sealed payload is intact but is not a decimal user id.
    Unparseable,
}

/// The password hasher could not produce or check an encoded hash.
#[derive(Clone, Copy, Debug, PartialEq, Eq, Structural)]
pub struct HashError;

/// The user store refused an insert that would duplicate a username.
#[derive(Clone, Copy, Debug, PartialEq, Eq, Structural)]
pub struct UniqueViolation;

} // verus!
