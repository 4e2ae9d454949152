//! The pluggable credential-hashing capability.

use vstd::prelude::*;

verus! {

/// Errors of a password hasher.
#[derive(Clone, Debug, Eq, PartialEq)]
pub enum Error {
    /// Indicates a technical failure of the hashing algorithm, for example a
    /// malformed persisted hash string.
    HashingError(String),
    /// Indicates that the password does not match the hash.
    InvalidPassword,
}

/// A capability that hashes secrets and verifies candidates against stored
/// hashes. It is a substitutable strategy: any implementation satisfying
/// this contract is valid, which enables test doubles that skip real
/// hashing cost.
///
/// Each implementation fixes two relations between a plaintext and a stored
/// hash string: `spec_verifies` holds exactly when verification accepts the
/// pair, and `spec_rejects` holds exactly when verification fails with a
/// genuine password mismatch (as opposed to a technical failure such as a
/// malformed hash string).
pub trait PasswordHasher: Sized {
    /// Verification of `password` against `hash` succeeds.
    spec fn spec_verifies(password: Seq<char>, hash: Seq<char>) -> bool;

    /// Verification of `password` against `hash` fails with a genuine
    /// password mismatch.
    spec fn spec_rejects(password: Seq<char>, hash: Seq<char>) -> bool;

    /// Returns a hash string for the provided input, or
    /// `Error::HashingError` if the hashing algorithm failed.
    ///
    /// The hash string is self-describing: verifying the same plaintext
    /// against it needs no side information, and must succeed. A fresh
    /// random salt is drawn on every call, so nothing beyond this is
    /// promised about the returned string.
    fn hash(input: &str) -> (r: Result<String, Error>)
        ensures
            r matches Ok(h) ==> Self::spec_verifies(input@, h@),
    ;

    /// Confirms whether the provided password matches the provided hash.
    ///
    /// Returns `Error::InvalidPassword` on a genuine mismatch and
    /// `Error::HashingError` in case of technical hasher failures.
    fn confirm_password(password: &str, hash: &str) -> (r: Result<(), Error>)
        ensures
            r.is_ok() <==> Self::spec_verifies(password@, hash@),
            r == Err::<(), Error>(Error::InvalidPassword) <==> Self::spec_rejects(password@, hash@),
    ;
}

} // verus!
