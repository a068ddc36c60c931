//! Password credential hashing and verification.
//!
//! Passwords are hashed with a memory-hard function under a per-credential
//! random salt. The hash is a deterministic function of password and salt,
//! named `argon2_of` below; verification recomputes it with the stored salt
//! and compares. Hashing failures (for example a malformed stored salt) are
//! reported as `HashingFailure`, never as a wrong password, so callers
//! cannot conflate the two.

use vstd::prelude::*;

use crate::errors::AuthError;

verus! {

/// The PHC hash string produced for a password under a salt with the default
/// parameters. Deterministic in its two arguments; its value is otherwise
/// opaque here.
pub uninterp spec fn argon2_of(password: Seq<char>, salt: Seq<u8>) -> Seq<char>;

/// The hash function caps its input at one byte short of four gibibytes; a
/// UTF-8 character takes at most four bytes, so a password of this many
/// characters always fits.
pub open spec fn hashable_password(password: Seq<char>) -> bool {
    4 * password.len() <= 0xFFFFFFFF
}

/// Relies on `argon2::Argon2::hash_password` with default parameters: the
/// PHC hash string is a deterministic function of the password and the salt
/// alone (the salt travels as its unpadded base64 form). It fails only for
/// a salt whose encoding leaves the accepted four-to-sixty-four-character
/// window or whose decoded length leaves eight bytes to four gibibytes, or
/// for a password over the input cap — so on a sixteen-byte salt, the length
/// this library generates, it succeeds for every password that fits.
#[verifier::external_body]
fn argon2_hash(password: &str, salt: &Vec<u8>) -> (r: Option<String>)
    ensures
        r matches Some(h) ==> h@ == argon2_of(password@, salt@),
        (salt@.len() == 16 && hashable_password(password@)) ==> r is Some,
{
    let encoded = base64::Engine::encode(&base64::engine::general_purpose::STANDARD_NO_PAD, salt);
    let salt_string = argon2::password_hash::SaltString::from_b64(&encoded).ok()?;
    let hash = argon2::password_hash::PasswordHasher::hash_password(
        &argon2::Argon2::default(),
        password.as_bytes(),
        &salt_string,
    ).ok()?;
    Some(hash.to_string())
}

/// Relies on `uuid::Uuid::new_v4` as the source of a fresh sixteen-byte
/// random salt (the recommended salt length; a UUID is exactly sixteen
/// bytes). The value is random, so only its length is assumed.
#[verifier::external_body]
pub(crate) fn generate_salt() -> (r: Vec<u8>)
    ensures
        r@.len() == 16,
{
    uuid::Uuid::new_v4().into_bytes().to_vec()
}

/// Hash `password` under `salt`; the result is the deterministic hash
/// string `argon2_of(password, salt)`, and any hashing error surfaces as
/// `HashingFailure`. With a generated sixteen-byte salt and a password
/// within the input cap, hashing is owed to succeed.
pub fn hash_password(password: &str, salt: &Vec<u8>) -> (r: Result<String, AuthError>)
    ensures
        r matches Ok(h) ==> h@ == argon2_of(password@, salt@),
        r matches Err(e) ==> e == AuthError::HashingFailure,
        (salt@.len() == 16 && hashable_password(password@)) ==> r is Ok,
{
    match argon2_hash(password, salt) {
        Some(h) => Ok(h),
        None => Err(AuthError::HashingFailure),
    }
}

/// Recompute the hash of `password` under the stored salt and compare it to
/// the stored hash: `Ok(true)` exactly when they agree. A hashing error is
/// `HashingFailure`, never reported as a mismatch; with a sixteen-byte
/// stored salt and a password within the input cap, the check is owed an
/// answer.
pub fn verify_password(
    password: &str,
    stored_hash: &String,
    stored_salt: &Vec<u8>,
) -> (r: Result<bool, AuthError>)
    ensures
        r matches Ok(b) ==> b == (argon2_of(password@, stored_salt@) == stored_hash@),
        r matches Err(e) ==> e == AuthError::HashingFailure,
        (stored_salt@.len() == 16 && hashable_password(password@)) ==> r is Ok,
{
    match argon2_hash(password, stored_salt) {
        Some(h) => Ok(h == *stored_hash),
        None => Err(AuthError::HashingFailure),
    }
}

} // verus!
