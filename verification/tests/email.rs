use svc_std::email::Email;
use svc_std::error::{Error, ValidationError};
use svc_std::traits::Validatable;

#[test]
fn email_validation_works() {
    assert!(Email::new("john.doe@example.com").is_ok());
    assert_eq!(Email::new("a"), Err(Error::Validation(ValidationError::Email)));
    assert_eq!(Email::new("a@"), Err(Error::Validation(ValidationError::Email)));
    assert_eq!(Email::new("example.com"), Err(Error::Validation(ValidationError::Email)));
    assert_eq!(Email::new("a@.com"), Err(Error::Validation(ValidationError::Email)));
}

#[test]
fn email_round_trips_unchanged() {
    let email = Email::new("john.doe@example.com").unwrap();
    assert_eq!(email.as_str(), "john.doe@example.com");
    assert!(email.validate().is_ok());
}

#[test]
fn email_rejects_more_malformed_inputs() {
    assert_eq!(Email::new("blabla"), Err(Error::Validation(ValidationError::Email)));
    assert_eq!(Email::new(""), Err(Error::Validation(ValidationError::Email)));
    assert_eq!(Email::new("@example.com"), Err(Error::Validation(ValidationError::Email)));
    assert_eq!(Email::new("John.Doe@example.com"), Err(Error::Validation(ValidationError::Email)));
    assert_eq!(Email::new("a@b.c"), Err(Error::Validation(ValidationError::Email)));
    assert_eq!(Email::new("a@b..com"), Err(Error::Validation(ValidationError::Email)));
}

#[test]
fn email_grammar_is_anchored_at_start_only() {
    // The grammar matches a prefix of the input: characters after a
    // complete match do not invalidate it.
    assert!(Email::new("a@b.co!!").is_ok());
    assert!(Email::new("user+tag@mail-host.example.org").is_ok());
}
