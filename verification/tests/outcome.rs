use user_registration::outcome::clone_outcome;
use user_registration::{RegistrationError, Success};

#[test]
fn messages_of_the_errors() {
    assert_eq!(RegistrationError::AlreadyExists.message(), "User already exists");
    assert_eq!(
        RegistrationError::LookupFailed("a".to_string()).message(),
        "Failed to check user existence: a"
    );
    assert_eq!(
        RegistrationError::PersistFailed("b".to_string()).message(),
        "Failed to create auth record: b"
    );
    assert_eq!(
        RegistrationError::PublishFailed("c".to_string()).message(),
        "Failed to publish event: c"
    );
    assert_eq!(
        RegistrationError::PersistFailed(String::new()).message(),
        "Failed to create auth record: "
    );
}

#[test]
fn error_clones_equal_what_they_copy() {
    for error in [
        RegistrationError::AlreadyExists,
        RegistrationError::LookupFailed("l".to_string()),
        RegistrationError::PersistFailed("i".to_string()),
        RegistrationError::PublishFailed("p".to_string()),
    ] {
        assert_eq!(error.clone(), error);
    }
}

#[test]
fn outcome_copies_equal_what_they_copy() {
    assert_eq!(clone_outcome(&Ok(Success)), Ok(Success));
    assert_eq!(
        clone_outcome(&Err(RegistrationError::PersistFailed("x".to_string()))),
        Err(RegistrationError::PersistFailed("x".to_string()))
    );
    assert_eq!(
        clone_outcome(&Err(RegistrationError::AlreadyExists)),
        Err(RegistrationError::AlreadyExists)
    );
}
