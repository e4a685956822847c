//! Credential hashing: one-way, salted, adaptive password hashing and
//! verification, backed by bcrypt.
//!
//! The hash embeds its own algorithm parameters and salt, so verification is
//! a pure function of the password and the stored hash. That function is
//! named `bcrypt_accepts`; the hashing call is randomized (a fresh salt each
//! time), so nothing is claimed about the hash value itself beyond the fact
//! that it verifies against the password it was produced from.

use vstd::prelude::*;

verus! {

/// Whether bcrypt verification accepts this password against this stored
/// hash. Stands for the result of `bcrypt::verify`, which is deterministic
/// in its two arguments; a malformed stored hash is never accepted.
pub uninterp spec fn bcrypt_accepts(password: Seq<char>, stored_hash: Seq<char>) -> bool;

/// Hashes a password for long-term storage.
///
/// Relies on `bcrypt::hash` with `DEFAULT_COST`: the produced hash verifies
/// against the password it was made from. The salt is drawn from OS
/// randomness, which may fail; that failure is reported as `None`.
#[verifier::external_body]
pub fn hash_password(password: &String) -> (r: Option<String>)
    ensures
        r matches Some(h) ==> bcrypt_accepts(password@, h@),
{
    bcrypt::hash(password.as_str(), bcrypt::DEFAULT_COST).ok()
}

/// Checks a password against a stored hash, failing closed: a malformed
/// stored hash yields `false`, never an error.
///
/// Relies on `bcrypt::verify`: deterministic in the password and the hash.
#[verifier::external_body]
pub fn verify_password(password: &String, hashed_password: &String) -> (r: bool)
    ensures
        r == bcrypt_accepts(password@, hashed_password@),
{
    bcrypt::verify(password.as_str(), hashed_password.as_str()).unwrap_or(false)
}

} // verus!
