use user_registration::{AuthRecord, RegisteredEvent, RegistrationRequest};

fn bob() -> RegistrationRequest {
    RegistrationRequest {
        user_id: "u7".to_string(),
        email: "bob@example.org".to_string(),
        password: "hunter2".to_string(),
        username: "bob".to_string(),
        first_name: "Bob".to_string(),
        last_name: "Builder".to_string(),
    }
}

#[test]
fn auth_record_keeps_email_and_password_only() {
    assert_eq!(
        bob().auth_record(),
        AuthRecord { email: "bob@example.org".to_string(), password: "hunter2".to_string() }
    );
}

#[test]
fn registered_event_keeps_the_profile_without_the_password() {
    assert_eq!(
        bob().registered_event(),
        RegisteredEvent {
            user_id: "u7".to_string(),
            email: "bob@example.org".to_string(),
            username: "bob".to_string(),
            first_name: "Bob".to_string(),
            last_name: "Builder".to_string(),
        }
    );
}

#[test]
fn clones_equal_what_they_copy() {
    let request = bob();
    assert_eq!(request.clone(), request);
    let record = request.auth_record();
    assert_eq!(record.clone(), record);
    let event = request.registered_event();
    assert_eq!(event.clone(), event);
}
