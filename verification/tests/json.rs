use user_registration::json::{event_payload, frame_event, frame_status, json_string, status_body};
use user_registration::RegisteredEvent;

#[test]
fn json_string_quotes_plain_text() {
    assert_eq!(json_string("alice"), "\"alice\"");
    assert_eq!(json_string(""), "\"\"");
    assert_eq!(json_string("a@b.com"), "\"a@b.com\"");
}

#[test]
fn json_string_escapes_what_json_reserves() {
    assert_eq!(json_string("a\"b"), "\"a\\\"b\"");
    assert_eq!(json_string("a\\b"), "\"a\\\\b\"");
    assert_eq!(json_string("line\nbreak"), "\"line\\nbreak\"");
    assert_eq!(json_string("tab\there"), "\"tab\\there\"");
    assert_eq!(json_string("\u{1}"), "\"\\u0001\"");
}

#[test]
fn json_string_keeps_other_characters() {
    assert_eq!(json_string("Zo\u{eb} \u{1f600}"), "\"Zo\u{eb} \u{1f600}\"");
    assert_eq!(json_string("a/b"), "\"a/b\"");
}

#[test]
fn json_string_reads_back_as_the_same_string() {
    for value in ["", "alice", "a\"b\\c", "two\nlines\r\n", "\u{0}\u{1f}\u{7f}", "\u{2028}x"] {
        let text = json_string(value);
        let back: String = serde_json::from_str(&text).unwrap();
        assert_eq!(back, value);
    }
}

#[test]
fn frame_status_wraps_the_member_as_it_is() {
    assert_eq!(frame_status("\"x\""), "{\"status\":\"x\"}");
    assert_eq!(frame_status("1"), "{\"status\":1}");
    assert_eq!(frame_status(""), "{\"status\":}");
}

#[test]
fn frame_event_orders_the_five_members() {
    assert_eq!(
        frame_event("1", "2", "3", "4", "5"),
        "{\"user_id\":1,\"email\":2,\"username\":3,\"first_name\":4,\"last_name\":5}"
    );
}

#[test]
fn status_body_encodes_the_message() {
    assert_eq!(status_body("User already exists"), "{\"status\":\"User already exists\"}");
    assert_eq!(status_body("say \"no\""), "{\"status\":\"say \\\"no\\\"\"}");
}

#[test]
fn event_payload_of_alice() {
    let event = RegisteredEvent {
        user_id: "u1".to_string(),
        email: "a@b.com".to_string(),
        username: "alice".to_string(),
        first_name: "A".to_string(),
        last_name: "B".to_string(),
    };
    assert_eq!(
        event_payload(&event),
        "{\"user_id\":\"u1\",\"email\":\"a@b.com\",\"username\":\"alice\",\"first_name\":\"A\",\"last_name\":\"B\"}"
    );
}

#[test]
fn event_payload_escapes_each_field() {
    let event = RegisteredEvent {
        user_id: "u\"1".to_string(),
        email: "a\\b".to_string(),
        username: "al\nice".to_string(),
        first_name: "\t".to_string(),
        last_name: "}".to_string(),
    };
    let payload = event_payload(&event);
    assert_eq!(
        payload,
        "{\"user_id\":\"u\\\"1\",\"email\":\"a\\\\b\",\"username\":\"al\\nice\",\"first_name\":\"\\t\",\"last_name\":\"}\"}"
    );
    let parsed: serde_json::Value = serde_json::from_str(&payload).unwrap();
    assert_eq!(parsed["user_id"].as_str(), Some("u\"1"));
    assert_eq!(parsed["email"].as_str(), Some("a\\b"));
    assert_eq!(parsed["username"].as_str(), Some("al\nice"));
    assert_eq!(parsed["first_name"].as_str(), Some("\t"));
    assert_eq!(parsed["last_name"].as_str(), Some("}"));
}
