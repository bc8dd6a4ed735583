use user_registration::response::{
    REGISTERED_TEXT, STATUS_CREATED, STATUS_FOUND, STATUS_INTERNAL_SERVER_ERROR,
};
use user_registration::{respond, Body, RegistrationError, Response, Success};

#[test]
fn status_codes() {
    assert_eq!(STATUS_CREATED, 201);
    assert_eq!(STATUS_FOUND, 302);
    assert_eq!(STATUS_INTERNAL_SERVER_ERROR, 500);
    assert_eq!(REGISTERED_TEXT, "User registered successfully");
}

#[test]
fn status_codes_are_those_of_http() {
    assert_eq!(STATUS_CREATED, axum::http::StatusCode::CREATED.as_u16());
    assert_eq!(STATUS_FOUND, axum::http::StatusCode::FOUND.as_u16());
    assert_eq!(
        STATUS_INTERNAL_SERVER_ERROR,
        axum::http::StatusCode::INTERNAL_SERVER_ERROR.as_u16()
    );
}

#[test]
fn success_is_created_with_a_plain_text() {
    assert_eq!(
        respond(&Ok(Success)),
        Response { status: 201, body: Body::Text("User registered successfully".to_string()) }
    );
}

#[test]
fn existing_user_is_found_without_a_cause() {
    assert_eq!(
        respond(&Err(RegistrationError::AlreadyExists)),
        Response {
            status: 302,
            body: Body::Json("{\"status\":\"User already exists\"}".to_string()),
        }
    );
}

#[test]
fn failed_persist_is_an_internal_error_with_its_cause() {
    assert_eq!(
        respond(&Err(RegistrationError::PersistFailed("disk full".to_string()))),
        Response {
            status: 500,
            body: Body::Json(
                "{\"status\":\"Failed to create auth record: disk full\"}".to_string()
            ),
        }
    );
}

#[test]
fn failed_lookup_is_an_internal_error_with_its_cause() {
    assert_eq!(
        respond(&Err(RegistrationError::LookupFailed("timeout".to_string()))),
        Response {
            status: 500,
            body: Body::Json(
                "{\"status\":\"Failed to check user existence: timeout\"}".to_string()
            ),
        }
    );
}

#[test]
fn failed_publish_is_an_internal_error_with_its_cause() {
    assert_eq!(
        respond(&Err(RegistrationError::PublishFailed("no such topic".to_string()))),
        Response {
            status: 500,
            body: Body::Json("{\"status\":\"Failed to publish event: no such topic\"}".to_string()),
        }
    );
}

#[test]
fn cause_is_escaped_in_the_body() {
    let response = respond(&Err(RegistrationError::PersistFailed("bad \"id\"\n".to_string())));
    assert_eq!(
        response.body,
        Body::Json("{\"status\":\"Failed to create auth record: bad \\\"id\\\"\\n\"}".to_string())
    );
    let text = match response.body {
        Body::Json(text) => text,
        Body::Text(_) => panic!("an error is reported as JSON"),
    };
    let parsed: serde_json::Value = serde_json::from_str(&text).unwrap();
    assert_eq!(parsed["status"].as_str(), Some("Failed to create auth record: bad \"id\"\n"));
}
