//! A validatable UUID field.

use vstd::prelude::*;
use crate::error::{Error, ValidationError};
use crate::traits::Validatable;

verus! {

/// `uuid::Uuid::parse_str` accepts `s` as a syntactically valid UUID (in
/// simple, hyphenated, URN or GUID form). Deterministic in `s`.
pub uninterp spec fn uuid_parses(s: Seq<char>) -> bool;

/// The canonical rendering — the lowercase hyphenated 36-character form —
/// of the UUID that `s` denotes; meaningful only where `uuid_parses(s)`
/// holds.
pub uninterp spec fn uuid_canonical(s: Seq<char>) -> Seq<char>;

/// Relies on uuid::Uuid::parse_str, which accepts exactly the
/// syntactically valid UUID strings, and on uuid's Display form, which
/// renders the lowercase hyphenated 36-character representation; parsing
/// that rendering yields the same UUID, so the canonical form is its own
/// canonical form.
#[verifier::external_body]
fn uuid_normalize(s: &str) -> (r: Option<String>)
    ensures
        r is Some <==> uuid_parses(s@),
        r matches Some(c) ==> c@ == uuid_canonical(s@) && c@.len() == 36 && uuid_parses(c@)
            && uuid_canonical(c@) == c@,
{
    match uuid::Uuid::parse_str(s) {
        Ok(u) => Some(u.to_string()),
        Err(_) => None,
    }
}

/// Relies on uuid::Uuid::new_v4 for a fresh random version-4 UUID and on
/// uuid's Display form for its canonical rendering, whose character at
/// index 14 is the version nibble and therefore `'4'`; nothing more is
/// assumed of the random value.
#[verifier::external_body]
fn uuid_generate() -> (r: String)
    ensures
        r@.len() == 36,
        uuid_parses(r@),
        uuid_canonical(r@) == r@,
        r@[14] == '4',
{
    uuid::Uuid::new_v4().to_string()
}

/// A validated UUID.
///
/// The wrapped string is always the canonical lowercase hyphenated
/// rendering of a parseable UUID.
#[derive(Debug, Eq, PartialEq)]
pub struct Uuid {
    value: String,
}

impl View for Uuid {
    type V = Seq<char>;

    closed spec fn view(&self) -> Seq<char> {
        self.value@
    }
}

impl Clone for Uuid {
    fn clone(&self) -> (r: Self)
        ensures
            r@ == self@,
    {
        proof {
            use_type_invariant(self);
        }
        Uuid { value: self.value.clone() }
    }
}

impl Uuid {
    /// The wrapped string parses as a UUID and is its own canonical form.
    #[verifier::type_invariant]
    pub open spec fn wf(self) -> bool {
        uuid_parses(self@) && uuid_canonical(self@) == self@ && self@.len() == 36
    }

    /// Initializes a new uuid instance with a fresh random v4 uuid, in
    /// canonical form (the version nibble at index 14 reads `'4'`).
    pub fn new() -> (r: Uuid)
        ensures
            uuid_parses(r@),
            uuid_canonical(r@) == r@,
            r@.len() == 36,
            r@[14] == '4',
    {
        Uuid { value: uuid_generate() }
    }

    /// Parses the provided string as a UUID.
    ///
    /// Succeeds exactly when the string is a syntactically valid UUID (of
    /// any version), storing its canonical form; fails with a validation
    /// error otherwise.
    pub fn parse(value: &str) -> (r: Result<Uuid, Error>)
        ensures
            r is Ok <==> uuid_parses(value@),
            r matches Ok(u) ==> u@ == uuid_canonical(value@),
            r matches Err(e) ==> e == Error::Validation(ValidationError::Id),
    {
        match uuid_normalize(value) {
            Some(c) => Ok(Uuid { value: c }),
            None => Err(Error::Validation(ValidationError::Id)),
        }
    }

    /// Renders the canonical lowercase hyphenated form. The rendering
    /// parses back to the same canonical string, so identifiers round-trip
    /// through their textual form.
    pub fn as_str(&self) -> (r: &str)
        ensures
            r@ == self@,
            uuid_parses(self@),
            uuid_canonical(self@) == self@,
            self@.len() == 36,
    {
        proof {
            use_type_invariant(self);
        }
        self.value.as_str()
    }
}

impl Default for Uuid {
    /// A fresh random v4 uuid, as `new` gives.
    fn default() -> (r: Uuid)
        ensures
            uuid_parses(r@),
            uuid_canonical(r@) == r@,
            r@.len() == 36,
            r@[14] == '4',
    {
        Uuid::new()
    }
}

impl Validatable<Error> for Uuid {
    open spec fn valid(&self) -> bool {
        uuid_parses(self@)
    }

    /// Re-checks the wrapped string; always succeeds, since only parseable
    /// strings can be wrapped.
    fn validate(&self) -> (r: Result<(), Error>) {
        match uuid_normalize(self.value.as_str()) {
            Some(_) => Ok(()),
            None => Err(Error::Validation(ValidationError::Id)),
        }
    }
}

} // verus!
