//! The request authorizer: turns the session cookie of an incoming request
//! into an authenticated identity, or into anonymous treatment. Absent and
//! invalid cookies land in the same place on purpose, so a public variant
//! of a route can serve both; garbage in a cookie is never a server error.

use vstd::prelude::*;
use crate::errors::SessionError;
use crate::session::{decode, decode_spec, unsealed, SessionJar, SessionKey};

verus! {

/// The identity a valid session cookie proves: the logged-in user's id.
pub struct AuthenticatedUser {
    pub user_id: i32,
}

/// What a request's cookie grants: an identity bound to the request, or
/// anonymous treatment.
pub enum AuthOutcome {
    Authenticated(AuthenticatedUser),
    Anonymous,
}

/// The outcome `authorize` owes: anonymous unless a cookie is present and
/// decodes to a user id.
pub open spec fn authorize_spec(key: Seq<u8>, session: Option<String>) -> AuthOutcome {
    match session {
        Option::None => AuthOutcome::Anonymous,
        Option::Some(ct) => match decode_spec(key, ct@) {
            Result::Ok(uid) => AuthOutcome::Authenticated(AuthenticatedUser { user_id: uid }),
            Result::Err(_) => AuthOutcome::Anonymous,
        },
    }
}

/// Reads the session cookie of a request: a missing cookie forwards to the
/// anonymous variant, and a cookie that fails to decode behaves exactly
/// the same — fail-open to the least privilege, never an error.
pub fn authorize(cookies: &SessionJar, key: &SessionKey) -> (r: AuthOutcome)
    requires
        key.wf(),
    ensures
        r == authorize_spec(key.bytes@, cookies.session),
{
    match &cookies.session {
        None => AuthOutcome::Anonymous,
        Some(ct) => match decode(key, ct) {
            Ok(uid) => AuthOutcome::Authenticated(AuthenticatedUser { user_id: uid }),
            Err(_) => AuthOutcome::Anonymous,
        },
    }
}

/// A cookie value whose seal does not open — which, by the integrity of
/// the authenticated encryption, is any tampered value — decodes to
/// `Invalid` and authorizes as anonymous, never as some other user.
pub proof fn lemma_tamper_evident(key: Seq<u8>, ct: String)
    requires
        unsealed(key, ct@) is None,
    ensures
        decode_spec(key, ct@) == Result::<i32, SessionError>::Err(SessionError::Invalid),
        authorize_spec(key, Some(ct)) == AuthOutcome::Anonymous,
{
}

/// A cookie that fails to decode authorizes exactly as no cookie at all:
/// the two requests cannot be told apart downstream.
pub proof fn lemma_fail_open(key: Seq<u8>, ct: String)
    requires
        decode_spec(key, ct@) is Err,
    ensures
        authorize_spec(key, Some(ct)) == authorize_spec(key, None::<String>),
{
}

} // verus!
