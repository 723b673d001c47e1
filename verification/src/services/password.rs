//! One-way hashing of passwords and the check of a password against a hash.
//!
//! A hash is a text that carries the algorithm, its parameters and the salt,
//! so a later check needs nothing but the hash and the password.

use crate::error::AppError;
use crate::modules::user::byte_len;
use argon2::password_hash::rand_core::OsRng;
use argon2::password_hash::{PasswordHash, PasswordHasher, SaltString};
use argon2::Argon2;
use vstd::prelude::*;

verus! {

/// Whether Argon2, with its default parameters and no secret key, accepts the
/// password for the hash: the hash parses, and hashing the password with the
/// parameters and the salt that the hash carries gives the output that the
/// hash carries.
pub uninterp spec fn argon2_accepts(hash: Seq<char>, password: Seq<char>) -> bool;

/// Draws a salt with `SaltString::generate(&mut OsRng)`, calls
/// `hash_password` of the crate `argon2` on `Argon2::default()` with it, and
/// writes the result out as text. The salt is random, so the text differs
/// from call to call. The contract claims of the text that Argon2 accepts
/// the password for it. `None` stands for the error of `hash_password`: with
/// a salt of 16 bytes and the default parameters it refuses nothing but a
/// password of more than `u32::MAX` bytes.
#[verifier::external_body]
fn argon2_hash_fresh(password: &str) -> (r: Option<String>)
    ensures
        r matches Some(hash) ==> argon2_accepts(hash@, password@),
        r is Some <==> byte_len(password@) <= u32::MAX,
{
    let salt = SaltString::generate(&mut OsRng);
    match Argon2::default().hash_password(password.as_bytes(), &salt) {
        Ok(hash) => Some(hash.to_string()),
        Err(_) => None,
    }
}

/// Calls `PasswordHash::new` of the crate `password_hash`, which `argon2`
/// hands on, to parse the hash, and `verify_password` on what it parsed,
/// with `Argon2::default()` as the only algorithm. The answer is `false`
/// where the hash does not parse or the password is refused. It depends on
/// the two texts alone; the contract gives it a name.
#[verifier::external_body]
fn argon2_verify(hash: &str, password: &str) -> (ok: bool)
    ensures
        ok == argon2_accepts(hash@, password@),
{
    match PasswordHash::new(hash) {
        Ok(parsed) => parsed.verify_password(&[&Argon2::default()], password).is_ok(),
        Err(_) => false,
    }
}

/// Hashes a password with a fresh random salt.
///
/// Every password of at most `u32::MAX` bytes is hashed, and the hash that
/// comes back is one that [`verify`] accepts for the same password. A longer
/// password is an internal error.
pub fn hash(password: &str) -> (r: Result<String, AppError>)
    ensures
        r is Ok <==> byte_len(password@) <= u32::MAX,
        match r {
            Ok(hash) => argon2_accepts(hash@, password@),
            Err(e) => e == AppError::InternalServerError,
        },
{
    match argon2_hash_fresh(password) {
        Some(hash) => Ok(hash),
        None => Err(AppError::InternalServerError),
    }
}

/// Checks a password against a hash.
pub fn verify(hash: &str, password: &str) -> (ok: bool)
    ensures
        ok == argon2_accepts(hash@, password@),
{
    argon2_verify(hash, password)
}

} // verus!
