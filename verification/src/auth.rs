//! The authenticator: signup and login decisions over plain values. The
//! user store itself is a collaborator — it looks a user up by exact
//! username and enforces username uniqueness on insert — and hands its
//! verdicts in as arguments.

use vstd::prelude::*;
use crate::errors::{AuthError, UniqueViolation};
use crate::hasher;
use crate::hasher::{hash_matches, hash_of, wf_encoded};

verus! {

/// A persisted account: the id is store-generated, the username unique,
/// the password hash opaque and self-describing.
pub struct User {
    pub id: i32,
    pub username: String,
    pub password_hash: String,
}

/// An account ready to persist: what signup hands the user store.
pub struct NewUser {
    pub username: String,
    pub password_hash: String,
}

/// Signup up to the store's door: hashes the password with a per-user salt
/// chosen fresh by the caller at signup time. Fails only when the hasher
/// rejects its input.
pub fn register_prepare(username: String, password: &Vec<u8>, salt: &Vec<u8>) -> (r: Result<
    NewUser,
    AuthError,
>)
    ensures
        r matches Ok(nu) ==> nu.username == username && nu.password_hash@ == hash_of(
            password@,
            salt@,
        ),
        r is Ok <==> 8 <= salt@.len() <= 0xFFFF_FFFF && password@.len() <= 0xFFFF_FFFF,
        r is Err ==> r == Err::<NewUser, AuthError>(AuthError::HashingFailed),
{
    match hasher::hash(password, salt) {
        Ok(h) => Ok(NewUser { username, password_hash: h }),
        Err(_) => Err(AuthError::HashingFailed),
    }
}

/// Signup past the store's door: the store's uniqueness verdict becomes
/// the caller-visible outcome. Of two racing signups for one username the
/// store accepts exactly one; the loser's refusal arrives here and leaves
/// as `DuplicateUsername`.
pub fn register_finish(inserted: Result<User, UniqueViolation>) -> (r: Result<User, AuthError>)
    ensures
        inserted matches Ok(u) ==> r == Ok::<User, AuthError>(u),
        inserted is Err ==> r == Err::<User, AuthError>(AuthError::DuplicateUsername),
{
    match inserted {
        Ok(u) => Ok(u),
        Err(_) => Err(AuthError::DuplicateUsername),
    }
}

/// The login verdict on what the store's exact-username lookup returned:
/// the user's id when the password verifies against the stored hash, and
/// `InvalidCredentials` when no user was found, the stored hash cannot be
/// read, or the password does not match — one indistinguishable answer, so
/// that a failed login never reveals whether the username exists. A stored
/// record whose hash is not a well-formed argon2 encoding can never let
/// anyone in.
pub fn login_check(stored: Option<&User>, password: &Vec<u8>) -> (r: Result<i32, AuthError>)
    ensures
        r matches Ok(id) ==> stored matches Some(u) && id == u.id && hash_matches(
            u.password_hash@,
            password@,
        ),
        stored matches Some(u) ==> (!wf_encoded(u.password_hash@) ==> r == Err::<
            i32,
            AuthError,
        >(AuthError::InvalidCredentials)),
        stored matches Some(u) ==> ((exists|salt: Seq<u8>|
            u.password_hash@ == #[trigger] hash_of(password@, salt)) ==> r == Ok::<
            i32,
            AuthError,
        >(u.id)),
        r is Err ==> r == Err::<i32, AuthError>(AuthError::InvalidCredentials),
{
    match stored {
        None => Err(AuthError::InvalidCredentials),
        Some(u) => match hasher::verify(&u.password_hash, password) {
            Ok(true) => Ok(u.id),
            Ok(false) => Err(AuthError::InvalidCredentials),
            Err(_) => Err(AuthError::InvalidCredentials),
        },
    }
}

/// Exact-match username lookup over a bank of users: the reference model
/// of the store's lookup. Returns the first user carrying exactly this
/// username — with unique usernames, the only one. A lookup that matched
/// merely a substring of a username would be wrong here.
pub fn find_by_exact_username<'a>(users: &'a Vec<User>, username: &String) -> (r: Option<
    &'a User,
>)
    ensures
        r matches Some(u) ==> u.username@ == username@ && exists|i: int|
            0 <= i < users@.len() && #[trigger] users@[i] == *u && (forall|h: int|
                0 <= h < i ==> (#[trigger] users@[h].username)@ != username@),
        r is None ==> forall|i: int|
            0 <= i < users@.len() ==> (#[trigger] users@[i].username)@ != username@,
{
    let n: usize = users.len();
    let mut j: usize = 0;
    while j < n
        invariant
            0 <= j <= n,
            n == users@.len(),
            forall|i: int| 0 <= i < j ==> (#[trigger] users@[i].username)@ != username@,
        decreases n - j,
    {
        if users[j].username == *username {
            proof {
                assert(users@[j as int] == users@[j as int] && (forall|h: int|
                    0 <= h < j ==> (#[trigger] users@[h].username)@ != username@));
            }
            return Some(&users[j]);
        }
        j = j + 1;
    }
    None
}

} // verus!
