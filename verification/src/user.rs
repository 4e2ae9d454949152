//! The user entity and its staged construction protocol.

use vstd::prelude::*;
use crate::datetime::DateTime;
use crate::email::{email_matches, Email};
use crate::error::{Error, ValidationError};
use crate::hasher::PasswordHasher;
use crate::id::{uuid_canonical, uuid_parses, Uuid};
use crate::password::{hash_of_some_plaintext, password_ok, Password};
use crate::traits::Authenticatable;

verus! {

/// Entity for user data and logic.
///
/// A user exists only in fully populated form: every field has passed its
/// validation and the credential stores only a hash. Values are assembled
/// by the staged builder alone; there is no way to observe a partially
/// constructed user.
#[verifier::reject_recursive_types(T)]
#[derive(Debug, Eq, PartialEq)]
pub struct User<T: PasswordHasher> {
    id: Uuid,
    email: Email,
    password: Password<T>,
    created: DateTime,
    modified: DateTime,
}

impl<T: PasswordHasher> User<T> {
    pub closed spec fn spec_id(self) -> Uuid {
        self.id
    }

    pub closed spec fn spec_email(self) -> Email {
        self.email
    }

    pub closed spec fn spec_password(self) -> Password<T> {
        self.password
    }

    pub closed spec fn spec_created(self) -> DateTime {
        self.created
    }

    pub closed spec fn spec_modified(self) -> DateTime {
        self.modified
    }

    /// Initializes a new user builder.
    ///
    /// The id defaults to a freshly generated version-4 uuid, and the
    /// creation and modification times both default to now; email and
    /// password start unset and must be supplied before `build` becomes
    /// available.
    pub fn builder() -> (r: UserBuilder<HasId, NoEmail, NoPassword, HasCreated, HasModified>)
        ensures
            uuid_parses(r.id.0@),
            uuid_canonical(r.id.0@) == r.id.0@,
            r.id.0@[14] == '4',
            r.created.0 == r.modified.0,
    {
        let now = DateTime::now();
        UserBuilder {
            id: HasId(Uuid::default()),
            email: NoEmail,
            password: NoPassword,
            created: HasCreated(now),
            modified: HasModified(now),
        }
    }

    /// The identifier.
    pub fn id(&self) -> (r: &Uuid)
        ensures
            *r == self.spec_id(),
    {
        &self.id
    }

    /// The email address.
    pub fn email(&self) -> (r: &Email)
        ensures
            *r == self.spec_email(),
    {
        &self.email
    }

    /// The creation time.
    pub fn created(&self) -> (r: DateTime)
        ensures
            r == self.spec_created(),
    {
        self.created
    }

    /// The modification time.
    pub fn modified(&self) -> (r: DateTime)
        ensures
            r == self.spec_modified(),
    {
        self.modified
    }
}

impl<T: PasswordHasher> Clone for User<T> {
    fn clone(&self) -> (r: Self)
        ensures
            r.spec_id()@ == self.spec_id()@,
            r.spec_email()@ == self.spec_email()@,
            r.spec_password()@ == self.spec_password()@,
            r.spec_created() == self.spec_created(),
            r.spec_modified() == self.spec_modified(),
    {
        User {
            id: self.id.clone(),
            email: self.email.clone(),
            password: self.password.clone(),
            created: self.created,
            modified: self.modified,
        }
    }
}

impl<T: PasswordHasher> Authenticatable<Error> for User<T> {
    open spec fn accepts(&self, password: Seq<char>) -> bool {
        T::spec_verifies(password, self.spec_password()@)
    }

    /// Delegates to the credential's confirmation: a genuine mismatch
    /// surfaces as `Error::InvalidPassword` and anything else that can go
    /// wrong is a technical hashing error, never a validation error. This
    /// is the only secret-related operation the entity exposes; no
    /// accessor returns the stored hash or any derivative of the
    /// plaintext.
    fn confirm_password(&self, password: &str) -> (r: Result<(), Error>)
        ensures
            r matches Err(Error::InvalidPassword) <==> T::spec_rejects(
                password@,
                self.spec_password()@,
            ),
            !T::spec_verifies(password@, self.spec_password()@) && !T::spec_rejects(
                password@,
                self.spec_password()@,
            ) ==> r matches Err(Error::PasswordHashingError(_)),
    {
        self.password.confirm(password)
    }
}

/// Type states for the user builder.
///
/// Builder state indicating that no id has been set.
#[derive(Debug, Eq, PartialEq)]
pub struct NoId;

/// Builder state indicating that an id has been set.
#[derive(Debug, Eq, PartialEq)]
pub struct HasId(pub Uuid);

/// Builder state indicating that no email has been set.
#[derive(Debug, Eq, PartialEq)]
pub struct NoEmail;

/// Builder state indicating that an email has been set.
#[derive(Debug, Eq, PartialEq)]
pub struct HasEmail(pub Email);

/// Builder state indicating that no password has been set.
#[derive(Debug, Eq, PartialEq)]
pub struct NoPassword;

/// Builder state indicating that a password has been set.
#[verifier::reject_recursive_types(T)]
#[derive(Debug, Eq, PartialEq)]
pub struct HasPassword<T: PasswordHasher>(pub Password<T>);

/// Builder state indicating that no creation time has been set.
#[derive(Debug, Eq, PartialEq)]
pub struct NoCreated;

/// Builder state indicating that a creation time has been set.
#[derive(Debug, Eq, PartialEq)]
pub struct HasCreated(pub DateTime);

/// Builder state indicating that no modification time has been set.
#[derive(Debug, Eq, PartialEq)]
pub struct NoModified;

/// Builder state indicating that a modification time has been set.
#[derive(Debug, Eq, PartialEq)]
pub struct HasModified(pub DateTime);

/// Builder for User objects.
///
/// Five independent stages, each either unset or holding an
/// already-validated value. Setting a stage consumes the builder and
/// changes that stage's type from unset to set, leaving every other stage
/// untouched; `build` exists only for the fully staged builder, so an
/// incomplete construction is rejected at compile time.
#[derive(Debug, Eq, PartialEq)]
pub struct UserBuilder<I, E, P, C, M> {
    pub id: I,
    pub email: E,
    pub password: P,
    pub created: C,
    pub modified: M,
}

/// Builder functions to set builder properties.
impl<I, E, P, C, M> UserBuilder<I, E, P, C, M> {
    /// Sets the id with the provided uuid, replacing any previous id.
    ///
    /// Succeeds exactly when the input is a syntactically valid UUID,
    /// storing its canonical form, and fails with a validation error
    /// otherwise; every other stage is left unchanged.
    pub fn id_from_str(self, id: &'static str) -> (r: Result<
        UserBuilder<HasId, E, P, C, M>,
        Error,
    >)
        ensures
            r is Ok <==> uuid_parses(id@),
            r matches Ok(b) ==> b.id.0@ == uuid_canonical(id@) && b.email == self.email
                && b.password == self.password && b.created == self.created && b.modified
                == self.modified,
            r matches Err(e) ==> e == Error::Validation(ValidationError::Id),
    {
        let Self { email, password, created, modified, .. } = self;
        match Uuid::parse(id) {
            Ok(u) => Ok(UserBuilder { id: HasId(u), email, password, created, modified }),
            Err(e) => Err(e),
        }
    }

    /// Sets the id with a fresh random version-4 uuid, replacing any
    /// previous id.
    ///
    /// Always succeeds; every other stage is left unchanged.
    pub fn id(self) -> (r: Result<UserBuilder<HasId, E, P, C, M>, Error>)
        ensures
            r is Ok,
            r matches Ok(b) ==> uuid_parses(b.id.0@) && uuid_canonical(b.id.0@) == b.id.0@
                && b.id.0@[14] == '4' && b.email == self.email && b.password == self.password
                && b.created == self.created && b.modified == self.modified,
    {
        let Self { email, password, created, modified, .. } = self;
        Ok(UserBuilder { id: HasId(Uuid::new()), email, password, created, modified })
    }

    /// Sets the email with the provided input, replacing any previous one.
    ///
    /// Succeeds exactly when the input matches the email grammar, storing
    /// it unchanged, and fails with a validation error otherwise; every
    /// other stage is left unchanged.
    pub fn email(self, email: &'static str) -> (r: Result<UserBuilder<I, HasEmail, P, C, M>, Error>)
        ensures
            r is Ok <==> email_matches(email@),
            r matches Ok(b) ==> b.email.0@ == email@ && b.id == self.id && b.password
                == self.password && b.created == self.created && b.modified == self.modified,
            r matches Err(e) ==> e == Error::Validation(ValidationError::Email),
    {
        let Self { id, password, created, modified, .. } = self;
        match Email::new(email) {
            Ok(e) => Ok(UserBuilder { id, email: HasEmail(e), password, created, modified }),
            Err(e) => Err(e),
        }
    }

    /// Sets the password with the provided input, replacing any previous
    /// one: the plaintext is validated against the strength grammar,
    /// hashed, and only the hash is kept.
    ///
    /// Fails with a validation error exactly when the grammar rejects the
    /// plaintext; a technical hasher failure is passed on. Every other
    /// stage is left unchanged.
    pub fn password<T: PasswordHasher>(self, password: &'static str) -> (r: Result<
        UserBuilder<I, E, HasPassword<T>, C, M>,
        Error,
    >)
        ensures
            (r matches Err(e) && e == Error::Validation(ValidationError::Password))
                <==> !password_ok(password@),
            r matches Ok(b) ==> password_ok(password@) && T::spec_verifies(
                password@,
                b.password.0@,
            ) && b.id == self.id && b.email == self.email && b.created == self.created
                && b.modified == self.modified,
            r matches Err(e) ==> (!password_ok(password@) || e == Error::InvalidPassword
                || e matches Error::PasswordHashingError(_)),
    {
        let Self { id, email, created, modified, .. } = self;
        match Password::<T>::new(password) {
            Ok(p) => Ok(UserBuilder { id, email, password: HasPassword(p), created, modified }),
            Err(e) => Err(e),
        }
    }

    /// Sets the creation time with the provided input, replacing any
    /// previous one; every other stage is left unchanged.
    pub fn created(self, created: DateTime) -> (r: UserBuilder<I, E, P, HasCreated, M>)
        ensures
            r.created.0 == created,
            r.id == self.id,
            r.email == self.email,
            r.password == self.password,
            r.modified == self.modified,
    {
        let Self { id, email, password, modified, .. } = self;
        UserBuilder { id, email, password, created: HasCreated(created), modified }
    }

    /// Sets the modification time with the provided input, replacing any
    /// previous one; every other stage is left unchanged.
    pub fn modified(self, modified: DateTime) -> (r: UserBuilder<I, E, P, C, HasModified>)
        ensures
            r.modified.0 == modified,
            r.id == self.id,
            r.email == self.email,
            r.password == self.password,
            r.created == self.created,
    {
        let Self { id, email, password, created, .. } = self;
        UserBuilder { id, email, password, created, modified: HasModified(modified) }
    }
}

impl<T: PasswordHasher> UserBuilder<HasId, HasEmail, HasPassword<T>, HasCreated, HasModified> {
    /// Builds the user instance.
    ///
    /// Available only when every stage has been set: invoking it on an
    /// incomplete builder is rejected at compile time. Pure assembly: the
    /// five staged values move into the user unchanged, whatever the
    /// order in which they were supplied, and each carries its validity —
    /// the id parses as a UUID, the email matches the grammar, and the
    /// credential is a hash under `T`.
    pub fn build(self) -> (r: User<T>)
        ensures
            r.spec_id() == self.id.0,
            r.spec_email() == self.email.0,
            r.spec_password() == self.password.0,
            r.spec_created() == self.created.0,
            r.spec_modified() == self.modified.0,
            uuid_parses(r.spec_id()@),
            email_matches(r.spec_email()@),
            hash_of_some_plaintext::<T>(r.spec_password()@),
    {
        let Self { id, email, password, created, modified } = self;
        proof {
            use_type_invariant(&id.0);
            use_type_invariant(&email.0);
            use_type_invariant(&password.0);
        }
        User {
            id: id.0,
            email: email.0,
            password: password.0,
            created: created.0,
            modified: modified.0,
        }
    }
}

/// A built user is determined by its staged values alone: two users whose
/// parts agree are equal. The order in which a builder's stages were
/// supplied can therefore not influence the result of `build`, which
/// `build` pins to exactly those parts.
pub proof fn lemma_built_user_determined<T: PasswordHasher>(u1: User<T>, u2: User<T>)
    requires
        u1.spec_id() == u2.spec_id(),
        u1.spec_email() == u2.spec_email(),
        u1.spec_password() == u2.spec_password(),
        u1.spec_created() == u2.spec_created(),
        u1.spec_modified() == u2.spec_modified(),
    ensures
        u1 == u2,
{
}

} // verus!
