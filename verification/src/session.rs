//! The session codec: a user id is written in decimal, sealed into an
//! encrypted, integrity-protected cookie value under a process-wide secret
//! key, and read back on each request. Tampering shows up as a decode
//! failure, never as a silently different id.

use vstd::prelude::*;
use crate::decimal;
use crate::errors::SessionError;

verus! {

/// What decrypting the cookie value `ct` under `key` yields: the payload
/// bytes it was sealed from, or nothing when `ct` is malformed or fails
/// integrity verification. Decryption is a function of key and value alone.
pub uninterp spec fn unsealed(key: Seq<u8>, ct: Seq<char>) -> Option<Seq<u8>>;

/// The process-wide secret for session cookies: 64 bytes of key material,
/// established once at startup and passed by reference afterwards.
pub struct SessionKey {
    pub bytes: Vec<u8>,
}

impl SessionKey {
    /// A well-formed key holds exactly 64 bytes.
    pub open spec fn wf(&self) -> bool {
        self.bytes@.len() == 64
    }

    /// Accepts exactly 64 bytes of key material.
    pub fn new(bytes: Vec<u8>) -> (r: Option<SessionKey>)
        ensures
            r matches Some(k) ==> k.wf() && k.bytes@ == bytes@,
            r is Some <==> bytes@.len() == 64,
    {
        if bytes.len() == 64 {
            Some(SessionKey { bytes })
        } else {
            None
        }
    }
}

/// Relies on PrivateJar::add of the cookie crate: the value is sealed with
/// AES-256-GCM under the key's encryption half, with the cookie's name as
/// associated data, and a value sealed under a key decrypts under that same
/// key to exactly the value it was sealed from. The length bound keeps the
/// plaintext far below the 2^36-byte cap past which the AES-GCM backend
/// panics instead of returning.
#[verifier::external_body]
fn seal(key: &SessionKey, value: &Vec<u8>) -> (r: String)
    requires
        key.wf(),
        value@.len() <= 0xFFFF_FFFF,
        forall|i: int| 0 <= i < value@.len() ==> value@[i] < 128,
    ensures
        unsealed(key.bytes@, r@) == Some(value@),
{
    let k = cookie::Key::from(key.bytes.as_slice());
    let mut jar = cookie::CookieJar::new();
    let text = String::from_utf8(value.clone()).unwrap();
    jar.private_mut(&k).add(cookie::Cookie::new("session", text));
    jar.get("session").unwrap().value().to_string()
}

/// Relies on PrivateJar::decrypt of the cookie crate: decryption is a
/// function of key and value alone; it returns the sealed payload, and
/// nothing when the value is malformed or fails integrity verification.
#[verifier::external_body]
fn unseal(key: &SessionKey, value: &String) -> (r: Option<Vec<u8>>)
    requires
        key.wf(),
    ensures
        r is Some ==> unsealed(key.bytes@, value@) == Some(r->0@),
        r is None ==> unsealed(key.bytes@, value@) is None,
{
    let k = cookie::Key::from(key.bytes.as_slice());
    let jar = cookie::CookieJar::new();
    let sealed = cookie::Cookie::new("session", value.clone());
    jar.private(&k).decrypt(sealed).map(|c| c.value().as_bytes().to_vec())
}

/// What decoding a cookie value yields under `key`: `Invalid` when the
/// seal does not open, `Unparseable` when the sealed payload is not a
/// decimal user id, and otherwise the id.
pub open spec fn decode_spec(key: Seq<u8>, ct: Seq<char>) -> Result<i32, SessionError> {
    match unsealed(key, ct) {
        Option::None => Result::Err(SessionError::Invalid),
        Option::Some(payload) => match decimal::parse_i32_spec(payload) {
            Option::None => Result::Err(SessionError::Unparseable),
            Option::Some(uid) => Result::Ok(uid),
        },
    }
}

/// Seals `user_id` into an opaque cookie value that decodes back to
/// exactly `user_id`.
pub fn encode(key: &SessionKey, user_id: i32) -> (r: String)
    requires
        key.wf(),
    ensures
        decode_spec(key.bytes@, r@) == Result::<i32, SessionError>::Ok(user_id),
{
    let payload = decimal::format_i32(user_id);
    seal(key, &payload)
}

/// Opens a cookie value: `Invalid` when it is malformed or tampered with,
/// `Unparseable` when the sealed payload is not a decimal user id.
pub fn decode(key: &SessionKey, value: &String) -> (r: Result<i32, SessionError>)
    requires
        key.wf(),
    ensures
        r == decode_spec(key.bytes@, value@),
{
    match unseal(key, value) {
        None => Err(SessionError::Invalid),
        Some(payload) => match decimal::parse_i32(&payload) {
            None => Err(SessionError::Unparseable),
            Some(uid) => Ok(uid),
        },
    }
}

/// The one session cookie of a request or response, as the HTTP layer
/// hands it over: absent, or an opaque value chosen by the client — or by
/// `set_user_id_cookie` on the way out.
pub struct SessionJar {
    pub session: Option<String>,
}

/// Seals `user_id` and stores it as the session cookie of the response.
pub fn set_user_id_cookie(cookies: &mut SessionJar, key: &SessionKey, user_id: i32)
    requires
        key.wf(),
    ensures
        final(cookies).session matches Some(ct)
            && decode_spec(key.bytes@, ct@) == Result::<i32, SessionError>::Ok(user_id),
{
    cookies.session = Some(encode(key, user_id));
}

/// The decrypted session payload, when an intact session cookie is
/// present; an absent, malformed or tampered cookie yields nothing.
pub fn get_user_id_cookie(cookies: &SessionJar, key: &SessionKey) -> (r: Option<Vec<u8>>)
    requires
        key.wf(),
    ensures
        r matches Some(p) ==> cookies.session matches Some(ct)
            && unsealed(key.bytes@, ct@) == Some(p@),
        r is None ==> match cookies.session {
            Option::None => true,
            Option::Some(ct) => unsealed(key.bytes@, ct@) is None,
        },
{
    match &cookies.session {
        None => None,
        Some(ct) => unseal(key, ct),
    }
}

/// Clears the session cookie; what logout leaves behind.
pub fn remove_user_id_cookie(cookies: &mut SessionJar)
    ensures
        final(cookies).session is None,
{
    cookies.session = None;
}

} // verus!
