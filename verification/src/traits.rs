//! Core capability traits of the library.

use vstd::prelude::*;

verus! {

/// A capability for validatable fields.
///
/// Each implementation fixes in `valid` what it accepts; `validate` is a
/// pure, deterministic check that succeeds exactly on accepted values.
pub trait Validatable<E>: Sized {
    /// The value satisfies its validation rules.
    spec fn valid(&self) -> bool;

    /// Succeeds exactly when the value satisfies its validation rules.
    fn validate(&self) -> (r: Result<(), E>)
        ensures
            r.is_ok() <==> self.valid(),
    ;
}

/// A capability for password-authenticatable entities.
///
/// Each implementation fixes in `accepts` which candidate passwords its
/// stored credential confirms.
pub trait Authenticatable<E>: Sized {
    /// The stored credential accepts the candidate password.
    spec fn accepts(&self, password: Seq<char>) -> bool;

    /// Succeeds exactly when the stored credential accepts the candidate.
    fn confirm_password(&self, password: &str) -> (r: Result<(), E>)
        ensures
            r.is_ok() <==> self.accepts(password@),
    ;
}

} // verus!
