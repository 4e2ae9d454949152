use svc_std::argon2_hasher::Argon2PasswordHasher;
use svc_std::error::{Error, ValidationError};
use svc_std::password::Password;

#[test]
fn password_validation_works() {
    // Ensure that a valid password passes.
    assert!(Password::<Argon2PasswordHasher>::new("mmholAhsbC123*").is_ok());

    // Ensure that a password shorter than 8 characters fails validation.
    assert_eq!(
        Password::<Argon2PasswordHasher>::new("aQ3*"),
        Err(Error::Validation(ValidationError::Password))
    );

    // Ensure that a password longer than 20 characters fails validation.
    assert_eq!(
        Password::<Argon2PasswordHasher>::new("mmholAhsbC123*artfgrr"),
        Err(Error::Validation(ValidationError::Password))
    );

    // Ensure that repetitive passwords fail validation.
    assert_eq!(
        Password::<Argon2PasswordHasher>::new("aaaaaaaaaaaaaaaaaaa"),
        Err(Error::Validation(ValidationError::Password))
    );
    assert_eq!(
        Password::<Argon2PasswordHasher>::new("AAAAAAAAAAAAAAAAAAA"),
        Err(Error::Validation(ValidationError::Password))
    );
    assert_eq!(
        Password::<Argon2PasswordHasher>::new("1111111111111111111"),
        Err(Error::Validation(ValidationError::Password))
    );
    assert_eq!(
        Password::<Argon2PasswordHasher>::new("*******************"),
        Err(Error::Validation(ValidationError::Password))
    );

    // Ensure that a password without at least one symbol fails validation.
    assert_eq!(
        Password::<Argon2PasswordHasher>::new("mmholAhsbC123"),
        Err(Error::Validation(ValidationError::Password))
    );

    // Ensure that a password without at least one capital letter fails validation.
    assert_eq!(
        Password::<Argon2PasswordHasher>::new("mmholahsbc123*"),
        Err(Error::Validation(ValidationError::Password))
    );

    // Ensure that a password without at least one lowercase letter fails validation.
    assert_eq!(
        Password::<Argon2PasswordHasher>::new("MMHOLAHSBC123*"),
        Err(Error::Validation(ValidationError::Password))
    );

    // Ensure that a password without at least one digit fails validation.
    assert_eq!(
        Password::<Argon2PasswordHasher>::new("mmholAhsbCaaa*"),
        Err(Error::Validation(ValidationError::Password))
    );
}

#[test]
fn password_confirmation_works() {
    let password = Password::<Argon2PasswordHasher>::new("mmholAhsbC123*").unwrap();
    assert!(password.confirm("mmholAhsbC123*").is_ok());
    assert_eq!(password.confirm("blabla"), Err(Error::InvalidPassword));
}

#[test]
fn password_validation_edge_cases() {
    // Exactly 8 and exactly 20 characters are accepted.
    assert!(Password::<Argon2PasswordHasher>::new("aQ3*aQ3*").is_ok());
    assert!(Password::<Argon2PasswordHasher>::new("aQ3*aQ3*aQ3*aQ3*aQ3*").is_ok());

    // The inverted question mark counts as a symbol.
    assert!(Password::<Argon2PasswordHasher>::new("aQ3\u{bf}aQ3x").is_ok());

    // Three identical characters in a row are rejected wherever they occur.
    assert_eq!(
        Password::<Argon2PasswordHasher>::new("aQ3*xxx9b"),
        Err(Error::Validation(ValidationError::Password))
    );

    // A forbidden word is rejected even when every other rule is met.
    assert_eq!(
        Password::<Argon2PasswordHasher>::new("xpalabra1Q*"),
        Err(Error::Validation(ValidationError::Password))
    );
}

#[test]
fn password_hashing_uses_fresh_salts() {
    // Two hashes of the same plaintext differ (fresh salt per call), yet
    // both verify against that plaintext.
    let first = Password::<Argon2PasswordHasher>::new("mmholAhsbC123*").unwrap();
    let second = Password::<Argon2PasswordHasher>::new("mmholAhsbC123*").unwrap();
    assert_ne!(first.as_str(), second.as_str());
    assert!(first.confirm("mmholAhsbC123*").is_ok());
    assert!(second.confirm("mmholAhsbC123*").is_ok());
}

#[test]
fn password_stores_a_self_describing_hash() {
    // The stored string is a PHC-format hash, not the plaintext.
    let password = Password::<Argon2PasswordHasher>::new("mmholAhsbC123*").unwrap();
    assert_ne!(password.as_str(), "mmholAhsbC123*");
    assert!(password.as_str().starts_with("$argon2"));
}
