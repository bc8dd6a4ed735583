//! The response that reports an outcome to the caller of the service.

use crate::json::{status_body, status_json};
use crate::outcome::{error_message, outcome_view, Outcome, OutcomeView, RegistrationError};
use vstd::prelude::*;
use vstd::string::*;

verus! {

/// The status of a completed registration: 201 Created.
pub const STATUS_CREATED: u16 = 201;

/// The status of a registration refused because the user id is taken:
/// 302 Found.
pub const STATUS_FOUND: u16 = 302;

/// The status of a registration that a collaborator failed:
/// 500 Internal Server Error.
pub const STATUS_INTERNAL_SERVER_ERROR: u16 = 500;

/// The body of a completed registration.
pub const REGISTERED_TEXT: &'static str = "User registered successfully";

/// The body of a response: plain text, or the text of a JSON document.
#[derive(Debug, PartialEq, Eq)]
pub enum Body {
    Text(String),
    Json(String),
}

/// The mathematical value of a [`Body`].
pub enum BodyView {
    Text(Seq<char>),
    Json(Seq<char>),
}

impl View for Body {
    type V = BodyView;

    open spec fn view(&self) -> BodyView {
        match self {
            Body::Text(text) => BodyView::Text(text@),
            Body::Json(text) => BodyView::Json(text@),
        }
    }
}

/// A status code and a body.
#[derive(Debug, PartialEq, Eq)]
pub struct Response {
    pub status: u16,
    pub body: Body,
}

/// The mathematical value of a [`Response`].
pub struct ResponseView {
    pub status: u16,
    pub body: BodyView,
}

impl View for Response {
    type V = ResponseView;

    open spec fn view(&self) -> ResponseView {
        ResponseView { status: self.status, body: self.body@ }
    }
}

/// The status code that reports `outcome`.
pub open spec fn status_of(outcome: OutcomeView) -> u16 {
    match outcome {
        Ok(_) => STATUS_CREATED,
        Err(error) => if error is AlreadyExists {
            STATUS_FOUND
        } else {
            STATUS_INTERNAL_SERVER_ERROR
        },
    }
}

/// The body that reports `outcome`: a plain text for success, and for an
/// error the JSON object with its message under `status`.
pub open spec fn body_of(outcome: OutcomeView) -> BodyView {
    match outcome {
        Ok(_) => BodyView::Text(REGISTERED_TEXT@),
        Err(error) => BodyView::Json(status_json(error_message(error))),
    }
}

/// The response that reports `outcome`.
pub open spec fn response_of(outcome: OutcomeView) -> ResponseView {
    ResponseView { status: status_of(outcome), body: body_of(outcome) }
}

/// Maps the outcome of a registration to the response for the caller.
pub fn respond(outcome: &Outcome) -> (response: Response)
    ensures
        response@ == response_of(outcome_view(*outcome)),
{
    match outcome {
        Ok(_) => Response {
            status: STATUS_CREATED,
            body: Body::Text(String::from_str(REGISTERED_TEXT)),
        },
        Err(error) => {
            let status = match error {
                RegistrationError::AlreadyExists => STATUS_FOUND,
                _ => STATUS_INTERNAL_SERVER_ERROR,
            };
            let message = error.message();
            Response { status, body: Body::Json(status_body(message.as_str())) }
        },
    }
}

} // verus!
