//! JSON text of what a registration sends: the event payload and the status
//! bodies. The objects are framed here; the text of each string value, with
//! its quotes and escapes, is `serde_json`'s.

use crate::request::{RegisteredEvent, RegisteredEventView};
use vstd::pervasive::unreached;
use vstd::prelude::*;
use vstd::string::*;

verus! {

/// `serde_json::Error`, the error of `serde_json::to_string`. Nothing is
/// known of a value of it.
#[verifier::external_type_specification]
#[verifier::external_body]
pub struct ExJsonError(serde_json::Error);

/// The JSON text of a string value as `serde_json::to_string` writes it: the
/// characters between double quotes, with the escapes that JSON asks for.
/// Nothing more is assumed of it than that it depends on the string alone.
pub uninterp spec fn json_string_text(value: Seq<char>) -> Seq<char>;

/// Calls `serde_json::to_string` on a string slice.
///
/// Not proved: that the call succeeds and that its result is
/// `json_string_text` of the argument. `to_string` writes into a fresh
/// `Vec<u8>` and for a `str` reaches `Serializer::serialize_str`, whose only
/// error is an I/O error of the writer; a `Vec<u8>` has none.
#[verifier::external_body]
fn encode_string(value: &str) -> (encoded: Result<String, serde_json::Error>)
    ensures
        encoded is Ok,
        encoded->Ok_0@ == json_string_text(value@),
{
    serde_json::to_string(value)
}

/// The JSON text of `value` as a string literal.
pub fn json_string(value: &str) -> (text: String)
    ensures
        text@ == json_string_text(value@),
{
    match encode_string(value) {
        Ok(text) => text,
        Err(_) => unreached(),
    }
}

/// The object `{"status":m}` around a member `m` that is already JSON text.
pub open spec fn status_document(message_text: Seq<char>) -> Seq<char> {
    "{\"status\":"@ + message_text + "}"@
}

/// The object that announces a registration, around five members that are
/// already JSON text, in this order.
pub open spec fn event_document(
    user_id: Seq<char>,
    email: Seq<char>,
    username: Seq<char>,
    first_name: Seq<char>,
    last_name: Seq<char>,
) -> Seq<char> {
    "{\"user_id\":"@ + user_id + ",\"email\":"@ + email + ",\"username\":"@ + username
        + ",\"first_name\":"@ + first_name + ",\"last_name\":"@ + last_name + "}"@
}

/// The JSON body that reports `message` under the key `status`.
pub open spec fn status_json(message: Seq<char>) -> Seq<char> {
    status_document(json_string_text(message))
}

/// The JSON payload that announces `event`.
pub open spec fn event_json(event: RegisteredEventView) -> Seq<char> {
    event_document(
        json_string_text(event.user_id),
        json_string_text(event.email),
        json_string_text(event.username),
        json_string_text(event.first_name),
        json_string_text(event.last_name),
    )
}

/// Frames JSON text as the `status` member of an object.
pub fn frame_status(message_text: &str) -> (text: String)
    ensures
        text@ == status_document(message_text@),
{
    let mut text = String::from_str("{\"status\":");
    text.append(message_text);
    text.append("}");
    text
}

/// Frames five JSON texts as the members of one event object.
pub fn frame_event(
    user_id: &str,
    email: &str,
    username: &str,
    first_name: &str,
    last_name: &str,
) -> (text: String)
    ensures
        text@ == event_document(user_id@, email@, username@, first_name@, last_name@),
{
    let mut text = String::from_str("{\"user_id\":");
    text.append(user_id);
    text.append(",\"email\":");
    text.append(email);
    text.append(",\"username\":");
    text.append(username);
    text.append(",\"first_name\":");
    text.append(first_name);
    text.append(",\"last_name\":");
    text.append(last_name);
    text.append("}");
    text
}

/// The JSON body `{"status":"<message>"}`.
pub fn status_body(message: &str) -> (text: String)
    ensures
        text@ == status_json(message@),
{
    let message_text = json_string(message);
    frame_status(message_text.as_str())
}

/// The JSON payload of an event: one object with the five profile fields as
/// string members.
pub fn event_payload(event: &RegisteredEvent) -> (text: String)
    ensures
        text@ == event_json(event@),
{
    let user_id = json_string(event.user_id.as_str());
    let email = json_string(event.email.as_str());
    let username = json_string(event.username.as_str());
    let first_name = json_string(event.first_name.as_str());
    let last_name = json_string(event.last_name.as_str());
    frame_event(
        user_id.as_str(),
        email.as_str(),
        username.as_str(),
        first_name.as_str(),
        last_name.as_str(),
    )
}

} // verus!
