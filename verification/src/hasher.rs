//! The password hasher: a thin, fully specified face over the argon2
//! algorithm. An encoded hash is self-describing — it embeds the algorithm
//! parameters and the salt — so checking a password needs nothing but the
//! hash and the candidate.

use vstd::prelude::*;
use crate::errors::HashError;

verus! {

/// The encoded argon2 hash of `password` with `salt` under the default
/// configuration: a function of the two arguments alone.
pub uninterp spec fn hash_of(password: Seq<u8>, salt: Seq<u8>) -> Seq<char>;

/// Whether `password` matches the well-formed encoded hash `encoded`: a
/// function of the two arguments alone.
pub uninterp spec fn hash_matches(encoded: Seq<char>, password: Seq<u8>) -> bool;

/// Whether `encoded` is a well-formed argon2 encoding: it parses, and the
/// parameters it carries are ones the algorithm accepts. A function of the
/// string alone; what decides whether verification can run at all.
pub uninterp spec fn wf_encoded(encoded: Seq<char>) -> bool;

/// Relies on argon2::hash_encoded (crate rust-argon2): the encoded hash is
/// deterministic in password, salt and configuration; under the default
/// configuration the only rejected inputs are a salt of fewer than 8 or
/// more than 2^32 - 1 bytes and a password of more than 2^32 - 1 bytes.
#[verifier::external_body]
fn argon2_hash_encoded(password: &Vec<u8>, salt: &Vec<u8>) -> (r: Option<String>)
    ensures
        r is Some ==> r->0@ == hash_of(password@, salt@),
        8 <= salt@.len() <= 0xFFFF_FFFF && password@.len() <= 0xFFFF_FFFF ==> r is Some,
        !(8 <= salt@.len() <= 0xFFFF_FFFF && password@.len() <= 0xFFFF_FFFF) ==> r is None,
{
    argon2::hash_encoded(password, salt, &argon2::Config::default()).ok()
}

/// Relies on argon2::verify_encoded (crate rust-argon2): the outcome is
/// deterministic in the encoded hash and the password; it errs exactly when
/// the encoded hash is not well formed — does not parse, or carries
/// parameters the algorithm rejects — or the password is over 2^32 - 1
/// bytes; and a hash that argon2::hash_encoded produced from a password
/// verifies against that same password.
#[verifier::external_body]
fn argon2_verify_encoded(encoded: &String, password: &Vec<u8>) -> (r: Option<bool>)
    ensures
        r is Some ==> r->0 == hash_matches(encoded@, password@),
        wf_encoded(encoded@) && password@.len() <= 0xFFFF_FFFF ==> r is Some,
        !wf_encoded(encoded@) ==> r is None,
        forall|salt: Seq<u8>| encoded@ == #[trigger] hash_of(password@, salt) ==> r == Some(true),
{
    argon2::verify_encoded(encoded, password).ok()
}

/// Hashes `password` with `salt`: deterministic for identical inputs, and
/// the result embeds everything `verify` later needs. Fails exactly on a
/// salt outside 8 to 2^32 - 1 bytes or a password over 2^32 - 1 bytes.
pub fn hash(password: &Vec<u8>, salt: &Vec<u8>) -> (r: Result<String, HashError>)
    ensures
        r matches Ok(h) ==> h@ == hash_of(password@, salt@),
        r is Ok <==> 8 <= salt@.len() <= 0xFFFF_FFFF && password@.len() <= 0xFFFF_FFFF,
{
    match argon2_hash_encoded(password, salt) {
        Some(h) => Ok(h),
        None => Err(HashError),
    }
}

/// Checks `password` against an encoded hash. A hash made by `hash` from
/// this very password always verifies; a string that is not a well-formed
/// argon2 encoding never does anything but fail.
pub fn verify(encoded: &String, password: &Vec<u8>) -> (r: Result<bool, HashError>)
    ensures
        r matches Ok(b) ==> b == hash_matches(encoded@, password@),
        (exists|salt: Seq<u8>| encoded@ == #[trigger] hash_of(password@, salt))
            ==> r == Ok::<bool, HashError>(true),
        wf_encoded(encoded@) && password@.len() <= 0xFFFF_FFFF ==> r is Ok,
        !wf_encoded(encoded@) ==> r == Err::<bool, HashError>(HashError),
{
    let outcome = argon2_verify_encoded(encoded, password);
    proof {
        if exists|salt: Seq<u8>| encoded@ == #[trigger] hash_of(password@, salt) {
            let salt = choose|salt: Seq<u8>| encoded@ == #[trigger] hash_of(password@, salt);
            assert(outcome == Some(true));
        }
    }
    match outcome {
        Some(b) => Ok(b),
        None => Err(HashError),
    }
}

} // verus!
