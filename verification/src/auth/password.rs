//! Password hashes: Argon2 in the PHC string format.

use vstd::prelude::*;
use vstd::string::StringSliceAdditionalSpecFns;
use argon2::password_hash::rand_core::OsRng;
use argon2::password_hash::{PasswordHash, PasswordHasher, PasswordVerifier, SaltString};
use argon2::Argon2;
use crate::error::ApiError;

verus! {

/// The error type of the password hashing crate.
#[verifier::external_type_specification]
#[verifier::external_body]
pub struct ExPasswordHashError(argon2::password_hash::Error);

/// Whether `hash` reads as a password hash in the PHC string format.
pub uninterp spec fn phc_well_formed(hash: Seq<char>) -> bool;

/// Whether Argon2, run on `password` with the salt and the parameters that the
/// readable hash `hash` holds, gives the output that `hash` holds.
pub uninterp spec fn argon2_accepts(password: Seq<u8>, hash: Seq<char>) -> bool;

/// Holds a password against a stored hash.
///
/// Calls `PasswordHash::new`, which parses a PHC string, and on the parsed
/// hash `verify_password` of the default `Argon2`, which runs Argon2 on the
/// password with the salt and the parameters of the hash and compares the
/// outputs. The error of the parse is handed on; every error of the second
/// call, a mismatch included, counts as not accepted. The contract names when
/// the parse succeeds and what the comparison gives. The call takes the time
/// and the memory that the parameters of the stored hash ask for.
#[verifier::external_body]
fn verify_against(password: &[u8], hash: &str) -> (verdict: Result<bool, argon2::password_hash::Error>)
    ensures
        verdict is Ok <==> phc_well_formed(hash@),
        verdict matches Ok(accepted) ==> accepted == argon2_accepts(password@, hash@),
{
    let parsed = PasswordHash::new(hash)?;
    Ok(Argon2::default().verify_password(password, &parsed).is_ok())
}

/// Hashes a password under a fresh random salt.
///
/// Calls `SaltString::generate` on the operating system's random source and
/// `hash_password` of the default `Argon2`. The salt differs from call to
/// call, so nothing is promised of the text but what the hashing crate
/// documents of every hash it makes: it is a PHC string, and the default
/// `Argon2` verifies the password against it. Without a random source in the
/// operating system the call does not return.
#[verifier::external_body]
fn hash_with_fresh_salt(password: &[u8]) -> (hashed: Result<String, argon2::password_hash::Error>)
    ensures
        hashed matches Ok(hash) ==> phc_well_formed(hash@) && argon2_accepts(password@, hash@),
{
    let salt = SaltString::generate(&mut OsRng);
    Argon2::default().hash_password(password, &salt).map(|hash| hash.to_string())
}

/// The text of a password hashing error, from its `Display`.
#[verifier::external_body]
fn error_text(e: &argon2::password_hash::Error) -> (text: String)
{
    e.to_string()
}

/// What holding a password against a stored hash came to.
#[derive(Clone, Debug, PartialEq, Eq)]
pub enum Check {
    /// The stored hash cannot be read; the text says why.
    Unreadable(String),
    /// The stored hash reads well and the password does not give it.
    Rejected,
    /// The stored hash reads well and the password gives it.
    Accepted,
}

/// Holds `password` against the stored `hash`.
pub fn check_password(password: &str, hash: &str) -> (check: Check)
    ensures
        check is Unreadable <==> !phc_well_formed(hash@),
        check is Accepted <==> phc_well_formed(hash@) && argon2_accepts(
            password.spec_bytes(),
            hash@,
        ),
{
    match verify_against(password.as_bytes(), hash) {
        Err(e) => Check::Unreadable(error_text(&e)),
        Ok(true) => Check::Accepted,
        Ok(false) => Check::Rejected,
    }
}

/// The outcome of hashing a password, as the backend reports it.
pub fn hashed(outcome: Result<String, String>) -> (result: Result<String, ApiError>)
    ensures
        match outcome {
            Ok(hash) => result == Ok::<String, ApiError>(hash),
            Err(text) => result == Err::<String, ApiError>(ApiError::Argon2PasswordHash(text)),
        },
{
    match outcome {
        Ok(hash) => Ok(hash),
        Err(text) => Err(ApiError::Argon2PasswordHash(text)),
    }
}

/// Hashes `password` with Argon2 under a fresh random salt, as a PHC string.
/// The hash it returns reads well and accepts `password`, so that a login with
/// this password against this hash is let through.
pub fn hash_password(password: &[u8]) -> (result: Result<String, ApiError>)
    ensures
        result matches Ok(hash) ==> phc_well_formed(hash@) && argon2_accepts(password@, hash@),
        result is Err ==> result->Err_0 is Argon2PasswordHash,
{
    match hash_with_fresh_salt(password) {
        Ok(hash) => hashed(Ok(hash)),
        Err(e) => hashed(Err(error_text(&e))),
    }
}

} // verus!
