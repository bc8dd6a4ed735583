//! How a registration ends: with success, or with one of four errors.

use vstd::prelude::*;
use vstd::string::*;

verus! {

/// What a completed registration returns.
#[derive(Clone, Copy, Debug, PartialEq, Eq, Structural)]
pub struct Success;

/// Why a registration did not complete. The three failures of a collaborator
/// carry the cause that it gave.
#[derive(Debug, PartialEq, Eq)]
pub enum RegistrationError {
    /// The document store already holds a record under the user id.
    AlreadyExists,
    /// The document store could not say whether the user id is taken.
    LookupFailed(String),
    /// The document store did not take the authentication record.
    PersistFailed(String),
    /// The event publisher did not take the event. The record is stored.
    PublishFailed(String),
}

/// The mathematical value of a [`RegistrationError`].
pub enum RegistrationErrorView {
    AlreadyExists,
    LookupFailed(Seq<char>),
    PersistFailed(Seq<char>),
    PublishFailed(Seq<char>),
}

impl View for RegistrationError {
    type V = RegistrationErrorView;

    open spec fn view(&self) -> RegistrationErrorView {
        match self {
            RegistrationError::AlreadyExists => RegistrationErrorView::AlreadyExists,
            RegistrationError::LookupFailed(cause) => RegistrationErrorView::LookupFailed(cause@),
            RegistrationError::PersistFailed(cause) => RegistrationErrorView::PersistFailed(cause@),
            RegistrationError::PublishFailed(cause) => RegistrationErrorView::PublishFailed(cause@),
        }
    }
}

impl Clone for RegistrationError {
    fn clone(&self) -> (copy: Self)
        ensures
            copy == *self,
    {
        match self {
            RegistrationError::AlreadyExists => RegistrationError::AlreadyExists,
            RegistrationError::LookupFailed(cause) => RegistrationError::LookupFailed(
                cause.clone(),
            ),
            RegistrationError::PersistFailed(cause) => RegistrationError::PersistFailed(
                cause.clone(),
            ),
            RegistrationError::PublishFailed(cause) => RegistrationError::PublishFailed(
                cause.clone(),
            ),
        }
    }
}

/// The text that reports an error to the caller. A failure of a collaborator
/// is reported with the cause that the collaborator gave; a taken user id is
/// reported without one.
pub open spec fn error_message(error: RegistrationErrorView) -> Seq<char> {
    match error {
        RegistrationErrorView::AlreadyExists => "User already exists"@,
        RegistrationErrorView::LookupFailed(cause) => "Failed to check user existence: "@ + cause,
        RegistrationErrorView::PersistFailed(cause) => "Failed to create auth record: "@ + cause,
        RegistrationErrorView::PublishFailed(cause) => "Failed to publish event: "@ + cause,
    }
}

impl RegistrationError {
    /// The text that reports this error to the caller.
    pub fn message(&self) -> (text: String)
        ensures
            text@ == error_message(self@),
    {
        match self {
            RegistrationError::AlreadyExists => String::from_str("User already exists"),
            RegistrationError::LookupFailed(cause) => String::from_str(
                "Failed to check user existence: ",
            ).concat(cause.as_str()),
            RegistrationError::PersistFailed(cause) => String::from_str(
                "Failed to create auth record: ",
            ).concat(cause.as_str()),
            RegistrationError::PublishFailed(cause) => String::from_str(
                "Failed to publish event: ",
            ).concat(cause.as_str()),
        }
    }
}

/// How a registration ends.
pub type Outcome = Result<Success, RegistrationError>;

/// The mathematical value of an [`Outcome`].
pub type OutcomeView = Result<Success, RegistrationErrorView>;

/// The view of an outcome: the view of its error, if it has one.
pub open spec fn outcome_view(outcome: Outcome) -> OutcomeView {
    match outcome {
        Ok(done) => Ok(done),
        Err(error) => Err(error@),
    }
}

/// Copies an outcome.
pub fn clone_outcome(outcome: &Outcome) -> (copy: Outcome)
    ensures
        copy == *outcome,
{
    match outcome {
        Ok(done) => Ok(*done),
        Err(error) => Err(error.clone()),
    }
}

} // verus!
