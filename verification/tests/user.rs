use svc_std::argon2_hasher::Argon2PasswordHasher;
use svc_std::datetime::DateTime;
use svc_std::error::{Error, ValidationError};
use svc_std::traits::Authenticatable;
use svc_std::user::User;

#[test]
fn user_builder_works() {
    let user = User::<Argon2PasswordHasher>::builder()
        .email("john.doe@example.com")
        .unwrap()
        .password::<Argon2PasswordHasher>("mmholAhsbC123*")
        .unwrap()
        .build();
    assert!(user.confirm_password("mmholAhsbC123*").is_ok());
}

#[test]
fn user_validation_works() {
    assert_eq!(
        User::<Argon2PasswordHasher>::builder().email("blabla"),
        Err(Error::Validation(ValidationError::Email))
    );
    assert_eq!(
        User::<Argon2PasswordHasher>::builder().id_from_str("blabla"),
        Err(Error::Validation(ValidationError::Id))
    );
    assert_eq!(
        User::<Argon2PasswordHasher>::builder().password::<Argon2PasswordHasher>("blabla"),
        Err(Error::Validation(ValidationError::Password))
    );
}

#[test]
fn user_user_builder_works() {
    let user = User::<Argon2PasswordHasher>::builder()
        .email("john.doe@example.com")
        .unwrap()
        .password::<Argon2PasswordHasher>("mmholAhsbC123*")
        .unwrap()
        .build();
    assert!(user.confirm_password("mmholAhsbC123*").is_ok());
}

#[test]
fn user_rejects_wrong_password() {
    let user = User::<Argon2PasswordHasher>::builder()
        .email("john.doe@example.com")
        .unwrap()
        .password::<Argon2PasswordHasher>("mmholAhsbC123*")
        .unwrap()
        .build();
    assert_eq!(user.confirm_password("blabla"), Err(Error::InvalidPassword));
}

#[test]
fn user_builder_stage_order_is_immaterial() {
    // The same five staged values, supplied in two different orders,
    // produce users that agree on every non-secret observable, and both
    // credentials confirm the same plaintext. (The stored hash strings
    // themselves differ, since each password stage draws a fresh salt.)
    let id = "ebf8a4f3-b481-474c-ae29-c71e975e1055";
    let now = DateTime::now();

    let first = User::<Argon2PasswordHasher>::builder()
        .id_from_str(id)
        .unwrap()
        .email("john.doe@example.com")
        .unwrap()
        .password::<Argon2PasswordHasher>("mmholAhsbC123*")
        .unwrap()
        .created(now)
        .modified(now)
        .build();

    let second = User::<Argon2PasswordHasher>::builder()
        .modified(now)
        .created(now)
        .password::<Argon2PasswordHasher>("mmholAhsbC123*")
        .unwrap()
        .email("john.doe@example.com")
        .unwrap()
        .id_from_str(id)
        .unwrap()
        .build();

    assert_eq!(first.id(), second.id());
    assert_eq!(first.email(), second.email());
    assert_eq!(first.created(), second.created());
    assert_eq!(first.modified(), second.modified());
    assert!(first.confirm_password("mmholAhsbC123*").is_ok());
    assert!(second.confirm_password("mmholAhsbC123*").is_ok());
}

#[test]
fn user_builder_defaults_id_and_times() {
    let builder = User::<Argon2PasswordHasher>::builder();
    let user = builder
        .email("john.doe@example.com")
        .unwrap()
        .password::<Argon2PasswordHasher>("mmholAhsbC123*")
        .unwrap()
        .build();
    assert_eq!(user.id().as_str().len(), 36);
    assert_eq!(user.id().as_str().as_bytes()[14], b'4');
    assert_eq!(user.created(), user.modified());
    assert_eq!(
        user.created().as_system_time(),
        user.modified().as_system_time()
    );
}
