use svc_std::error::{Error, ValidationError};
use svc_std::id::Uuid;
use svc_std::traits::Validatable;

#[test]
fn id_email_validation_works() {
    assert!(Uuid::new().validate().is_ok());
    assert!(Uuid::parse("ebf8a4f3-b481-474c-ae29-c71e975e1055").is_ok());
    assert_eq!(Uuid::parse("123"), Err(Error::Validation(ValidationError::Id)));
}

#[test]
fn id_round_trips_canonical_form() {
    let id = Uuid::parse("ebf8a4f3-b481-474c-ae29-c71e975e1055").unwrap();
    assert_eq!(id.as_str(), "ebf8a4f3-b481-474c-ae29-c71e975e1055");
    let again = Uuid::parse(id.as_str()).unwrap();
    assert_eq!(id, again);
}

#[test]
fn id_is_normalized_to_canonical_form() {
    // Uppercase and unhyphenated inputs are accepted and stored in the
    // canonical lowercase hyphenated form.
    let upper = Uuid::parse("EBF8A4F3-B481-474C-AE29-C71E975E1055").unwrap();
    assert_eq!(upper.as_str(), "ebf8a4f3-b481-474c-ae29-c71e975e1055");
    let simple = Uuid::parse("ebf8a4f3b481474cae29c71e975e1055").unwrap();
    assert_eq!(simple.as_str(), "ebf8a4f3-b481-474c-ae29-c71e975e1055");
}

#[test]
fn id_generation_is_canonical_and_fresh() {
    let a = Uuid::new();
    let b = Uuid::new();
    assert_eq!(a.as_str().len(), 36);
    assert_eq!(a.as_str().as_bytes()[14], b'4');
    assert!(Uuid::parse(a.as_str()).is_ok());
    assert_ne!(a, b);
}
