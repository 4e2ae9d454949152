//! Validated domain primitives for authenticable principals.
//!
//! The library provides an email address, a UUID-based identifier and a
//! hashed credential, each a validated immutable value type, together with
//! a staged builder that assembles them into a `User` entity. No `User` can
//! exist unless every field has passed validation and the secret has been
//! hashed before storage.

pub mod argon2_hasher;
pub mod datetime;
pub mod email;
pub mod error;
pub mod hasher;
pub mod id;
pub mod password;
pub mod traits;
pub mod user;
