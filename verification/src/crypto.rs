//! Password hashing behind trusted wrappers around the bcrypt crate.
//!
//! `bcrypt_accepts` names the verification outcome: whether `bcrypt::verify`
//! answers `Ok(true)` for a password and a stored hash. That outcome is a
//! function of the two arguments alone (the salt and cost are embedded in the
//! hash text), so the name is sound to share between hashing and checking.

use vstd::prelude::*;

verus! {

/// Whether bcrypt verification accepts `password` against `hash`.
pub uninterp spec fn bcrypt_accepts(password: Seq<char>, hash: Seq<char>) -> bool;

/// The bcrypt crate's error type, carried through opaquely.
#[verifier::external_type_specification]
#[verifier::external_body]
pub struct ExBcryptError(bcrypt::BcryptError);

/// Relies on `bcrypt::hash`: a fresh salted hash of `password` at the default
/// cost, which `bcrypt::verify` accepts against the very password it hashed.
/// The salt is random, so nothing else is promised of the hash text.
#[verifier::external_body]
pub(crate) fn hash_password(password: &str) -> (r: Result<String, bcrypt::BcryptError>)
    ensures
        r matches Ok(h) ==> bcrypt_accepts(password@, h@),
{
    bcrypt::hash(password, bcrypt::DEFAULT_COST)
}

/// Relies on `bcrypt::verify`: answers whether `password` matches `hash`,
/// deterministically in the two arguments. A malformed hash (a verification
/// error) counts as a mismatch.
#[verifier::external_body]
pub(crate) fn verify_password(password: &str, hash: &str) -> (r: bool)
    ensures
        r == bcrypt_accepts(password@, hash@),
{
    bcrypt::verify(password, hash).unwrap_or(false)
}

} // verus!
