//! The concrete hashing capability, backed by the Argon2 algorithm.

use vstd::prelude::*;
use crate::hasher::{Error, PasswordHasher};
use argon2::Argon2;
use argon2::password_hash::{PasswordHash, PasswordVerifier, SaltString};
use argon2::password_hash::PasswordHasher as CorePasswordHasher;
use argon2::password_hash::rand_core::OsRng;

verus! {

/// Argon2 verification of `password` against the PHC hash string `hash`
/// succeeds: the string parses, names a supported algorithm, and the digest
/// recomputed from `password` with the encoded salt and parameters equals
/// the encoded digest. Verification is deterministic in its two arguments,
/// since the hash string itself carries salt and parameters.
pub uninterp spec fn argon2_verifies(password: Seq<char>, hash: Seq<char>) -> bool;

/// Argon2 verification of `password` against `hash` fails with the
/// password-mismatch error (which argon2 also uses for a hash string that
/// parses but lacks its salt or digest field), rather than with a
/// technical error such as an unparseable hash string. Deterministic in
/// its two arguments.
pub uninterp spec fn argon2_rejects(password: Seq<char>, hash: Seq<char>) -> bool;

/// Relies on argon2::Argon2::hash_password with a fresh random salt
/// (password_hash::SaltString::generate): the returned PHC string encodes
/// algorithm, version, parameters, salt and digest, and verifying the same
/// password against it succeeds. With the default parameters and a
/// generated salt, the only error path left in argon2 is a password over
/// 0xFFFF_FFFF bytes; UTF-8 encodes a character in at most four bytes, so
/// hashing an input of at most 0x3FFF_FFFF characters cannot fail (what
/// remains is environmental: allocation failure or the OS random source).
#[verifier::external_body]
fn argon2_hash_str(input: &str) -> (r: Result<String, Error>)
    ensures
        r matches Ok(h) ==> argon2_verifies(input@, h@),
        input@.len() <= 0x3fff_ffff ==> r is Ok,
{
    let salt = SaltString::generate(&mut OsRng);
    match Argon2::default().hash_password(input.as_bytes(), &salt) {
        Ok(hash) => Ok(hash.to_string()),
        Err(argon2::password_hash::Error::Password) => Err(Error::InvalidPassword),
        Err(e) => Err(Error::HashingError(e.to_string())),
    }
}

/// Relies on argon2::password_hash::PasswordHash::new to parse the stored
/// string and on argon2::Argon2::verify_password to recompute and compare
/// the digest: the outcome is a function of the two arguments alone, and
/// the mismatch error (password_hash::Error::Password) is distinct from the
/// technical ones.
#[verifier::external_body]
fn argon2_verify_str(password: &str, hash: &str) -> (r: Result<(), Error>)
    ensures
        r.is_ok() <==> argon2_verifies(password@, hash@),
        r matches Err(Error::InvalidPassword) <==> argon2_rejects(password@, hash@),
{
    let outcome = match PasswordHash::new(hash) {
        Ok(parsed) => Argon2::default().verify_password(password.as_bytes(), &parsed),
        Err(e) => Err(e),
    };
    match outcome {
        Ok(()) => Ok(()),
        Err(argon2::password_hash::Error::Password) => Err(Error::InvalidPassword),
        Err(e) => Err(Error::HashingError(e.to_string())),
    }
}

/// Implementation of the PasswordHasher capability using Argon2 with the
/// library-default parameters (a memory-hard, salted algorithm).
#[derive(Clone, Debug, Eq, PartialEq)]
pub struct Argon2PasswordHasher;

impl PasswordHasher for Argon2PasswordHasher {
    open spec fn spec_verifies(password: Seq<char>, hash: Seq<char>) -> bool {
        argon2_verifies(password, hash)
    }

    open spec fn spec_rejects(password: Seq<char>, hash: Seq<char>) -> bool {
        argon2_rejects(password, hash)
    }

    fn hash(input: &str) -> (r: Result<String, Error>)
        ensures
            input@.len() <= 0x3fff_ffff ==> r is Ok,
    {
        argon2_hash_str(input)
    }

    fn confirm_password(password: &str, hash: &str) -> (r: Result<(), Error>) {
        argon2_verify_str(password, hash)
    }
}

} // verus!
