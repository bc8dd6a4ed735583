//! Registration of a new user account as a verified state machine.
//!
//! One registration checks that the user id is free, stores an authentication
//! record under it and announces the new account on an event topic. The
//! machine decides what is asked of the document store and the event
//! publisher and what the caller is told; whoever drives it performs the
//! calls and hands back the replies.

pub mod collaborators;
pub mod json;
pub mod outcome;
pub mod request;
pub mod response;
pub mod workflow;

pub use outcome::{Outcome, RegistrationError, Success};
pub use request::{AuthRecord, RegisteredEvent, RegistrationRequest};
pub use response::{respond, Body, Response};
pub use workflow::{Action, Call, Registration, Reply, Stage};
