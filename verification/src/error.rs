//! Error taxonomy shared by validation, hashing and authentication.

use vstd::prelude::*;
use crate::hasher;

verus! {

/// Identifies which field class failed validation.
#[derive(Clone, Debug, Eq, PartialEq)]
pub enum ValidationError {
    Id,
    Email,
    Password,
}

/// Errors raised by the primitives.
///
/// An error is either a validation error (recoverable: the caller supplies
/// corrected input), an authentication failure, or a technical hashing
/// failure that is never caused by user input.
#[derive(Clone, Debug, Eq, PartialEq)]
pub enum Error {
    /// Indicates a validation error.
    Validation(ValidationError),
    /// Indicates that the validity of a password couldn't be confirmed.
    InvalidPassword,
    /// Technical error indicating that a password hasher wasn't able to do
    /// its work, for example because a persisted hash string is malformed.
    PasswordHashingError(hasher::Error),
}

} // verus!
