//! The registration workflow as a state machine.
//!
//! A [`Registration`] always has one pending [`Action`]: a [`Call`] to make
//! on the document store or the event publisher, or the outcome to hand to
//! the caller. [`Registration::advance`] takes the [`Reply`] to the pending call
//! and moves on. Each call is asked for once; no reply is retried.

use crate::json::{event_json, event_payload};
use crate::outcome::{
    clone_outcome, outcome_view, Outcome, OutcomeView, RegistrationError, RegistrationErrorView,
    Success,
};
use crate::request::{AuthRecord, AuthRecordView, RegistrationRequest, RegistrationRequestView};
use vstd::prelude::*;
use vstd::string::*;

verus! {

/// The collection of the document store that holds the authentication records.
pub const RECORDS_COLLECTION: &'static str = "records";

/// The topic on which registrations are announced.
pub const REGISTERED_TOPIC: &'static str = "UserRegisteredEvent";

/// Where a registration stands: which reply it waits for, or how it ended.
#[derive(Debug, PartialEq, Eq)]
pub enum Stage {
    /// The document store was asked whether the user id is taken.
    AwaitingLookup,
    /// The document store was asked to store the authentication record.
    AwaitingInsert,
    /// The event publisher was asked to announce the registration.
    AwaitingPublish,
    /// The registration is over.
    Done(Outcome),
}

/// The mathematical value of a [`Stage`].
pub enum StageView {
    AwaitingLookup,
    AwaitingInsert,
    AwaitingPublish,
    Done(OutcomeView),
}

impl View for Stage {
    type V = StageView;

    open spec fn view(&self) -> StageView {
        match self {
            Stage::AwaitingLookup => StageView::AwaitingLookup,
            Stage::AwaitingInsert => StageView::AwaitingInsert,
            Stage::AwaitingPublish => StageView::AwaitingPublish,
            Stage::Done(outcome) => StageView::Done(outcome_view(*outcome)),
        }
    }
}

impl Clone for Stage {
    fn clone(&self) -> (copy: Self)
        ensures
            copy == *self,
    {
        match self {
            Stage::AwaitingLookup => Stage::AwaitingLookup,
            Stage::AwaitingInsert => Stage::AwaitingInsert,
            Stage::AwaitingPublish => Stage::AwaitingPublish,
            Stage::Done(outcome) => Stage::Done(clone_outcome(outcome)),
        }
    }
}

/// A call on a collaborator.
#[derive(Debug, PartialEq, Eq)]
pub enum Call {
    /// Ask the document store whether `collection` holds a document `id`.
    CheckExists { collection: String, id: String },
    /// Ask the document store to file `record` in `collection` under `id`.
    Insert { collection: String, id: String, record: AuthRecord },
    /// Ask the event publisher to send `payload` on `topic`.
    Publish { topic: String, payload: String },
}

/// The mathematical value of a [`Call`].
pub enum CallView {
    CheckExists { collection: Seq<char>, id: Seq<char> },
    Insert { collection: Seq<char>, id: Seq<char>, record: AuthRecordView },
    Publish { topic: Seq<char>, payload: Seq<char> },
}

impl View for Call {
    type V = CallView;

    open spec fn view(&self) -> CallView {
        match self {
            Call::CheckExists { collection, id } => CallView::CheckExists {
                collection: collection@,
                id: id@,
            },
            Call::Insert { collection, id, record } => CallView::Insert {
                collection: collection@,
                id: id@,
                record: record@,
            },
            Call::Publish { topic, payload } => CallView::Publish {
                topic: topic@,
                payload: payload@,
            },
        }
    }
}

/// What the driver of a registration is to do next.
#[derive(Debug, PartialEq, Eq)]
pub enum Action {
    /// Make this call and come back with the reply.
    Call(Call),
    /// Make no further call and hand the outcome to the caller.
    Finish(Outcome),
}

/// The mathematical value of an [`Action`].
pub enum ActionView {
    Call(CallView),
    Finish(OutcomeView),
}

impl View for Action {
    type V = ActionView;

    open spec fn view(&self) -> ActionView {
        match self {
            Action::Call(call) => ActionView::Call(call@),
            Action::Finish(outcome) => ActionView::Finish(outcome_view(*outcome)),
        }
    }
}

/// What a collaborator answered to the pending call. A failure carries the
/// collaborator's own account of it.
#[derive(Debug, PartialEq, Eq)]
pub enum Reply {
    /// The document store says whether the document exists.
    Exists(bool),
    /// The document store could not answer the existence check.
    LookupFailed(String),
    /// The document store filed the record.
    Inserted,
    /// The document store did not file the record; nothing was written.
    InsertFailed(String),
    /// The event publisher accepted the event.
    Published,
    /// The event publisher did not accept the event.
    PublishFailed(String),
}

/// The mathematical value of a [`Reply`].
pub enum ReplyView {
    Exists(bool),
    LookupFailed(Seq<char>),
    Inserted,
    InsertFailed(Seq<char>),
    Published,
    PublishFailed(Seq<char>),
}

impl View for Reply {
    type V = ReplyView;

    open spec fn view(&self) -> ReplyView {
        match self {
            Reply::Exists(found) => ReplyView::Exists(*found),
            Reply::LookupFailed(cause) => ReplyView::LookupFailed(cause@),
            Reply::Inserted => ReplyView::Inserted,
            Reply::InsertFailed(cause) => ReplyView::InsertFailed(cause@),
            Reply::Published => ReplyView::Published,
            Reply::PublishFailed(cause) => ReplyView::PublishFailed(cause@),
        }
    }
}

impl Reply {
    /// The reply that stands for the document store's answer to an existence
    /// check: whether the document exists, or why the store could not say.
    pub fn from_lookup(answer: Result<bool, String>) -> (reply: Reply)
        ensures
            match answer {
                Ok(found) => reply@ == ReplyView::Exists(found),
                Err(cause) => reply@ == ReplyView::LookupFailed(cause@),
            },
    {
        match answer {
            Ok(found) => Reply::Exists(found),
            Err(cause) => Reply::LookupFailed(cause),
        }
    }

    /// The reply that stands for the document store's answer to an insert:
    /// done, or why the record was not filed.
    pub fn from_insert(answer: Result<(), String>) -> (reply: Reply)
        ensures
            match answer {
                Ok(_) => reply@ == ReplyView::Inserted,
                Err(cause) => reply@ == ReplyView::InsertFailed(cause@),
            },
    {
        match answer {
            Ok(_) => Reply::Inserted,
            Err(cause) => Reply::InsertFailed(cause),
        }
    }

    /// The reply that stands for the event publisher's answer to a publish:
    /// accepted, or why the event was not taken.
    pub fn from_publish(answer: Result<(), String>) -> (reply: Reply)
        ensures
            match answer {
                Ok(_) => reply@ == ReplyView::Published,
                Err(cause) => reply@ == ReplyView::PublishFailed(cause@),
            },
    {
        match answer {
            Ok(_) => Reply::Published,
            Err(cause) => Reply::PublishFailed(cause),
        }
    }
}

/// Whether `reply` answers the call that is pending at `stage`. A finished
/// registration takes no reply.
pub open spec fn answers(stage: StageView, reply: ReplyView) -> bool {
    match stage {
        StageView::AwaitingLookup => reply is Exists || reply is LookupFailed,
        StageView::AwaitingInsert => reply is Inserted || reply is InsertFailed,
        StageView::AwaitingPublish => reply is Published || reply is PublishFailed,
        StageView::Done(_) => false,
    }
}

/// The stage that a reply leads to, from the stage whose call it answers.
pub open spec fn stage_after(reply: ReplyView) -> StageView {
    match reply {
        ReplyView::Exists(found) => if found {
            StageView::Done(Err(RegistrationErrorView::AlreadyExists))
        } else {
            StageView::AwaitingInsert
        },
        ReplyView::LookupFailed(cause) => StageView::Done(
            Err(RegistrationErrorView::LookupFailed(cause)),
        ),
        ReplyView::Inserted => StageView::AwaitingPublish,
        ReplyView::InsertFailed(cause) => StageView::Done(
            Err(RegistrationErrorView::PersistFailed(cause)),
        ),
        ReplyView::Published => StageView::Done(Ok(Success)),
        ReplyView::PublishFailed(cause) => StageView::Done(
            Err(RegistrationErrorView::PublishFailed(cause)),
        ),
    }
}

/// One transition: a reply that answers the pending call moves the
/// registration on, any other reply leaves it where it is.
pub open spec fn step(stage: StageView, reply: ReplyView) -> StageView {
    if answers(stage, reply) {
        stage_after(reply)
    } else {
        stage
    }
}

/// The existence check of a registration for `request`: is there a document
/// under the user id in the collection of the records?
pub open spec fn lookup_call(request: RegistrationRequestView) -> CallView {
    CallView::CheckExists { collection: RECORDS_COLLECTION@, id: request.user_id }
}

/// The insert of a registration for `request`: the submitted email and
/// password, filed under the user id in the collection of the records.
pub open spec fn insert_call(request: RegistrationRequestView) -> CallView {
    CallView::Insert {
        collection: RECORDS_COLLECTION@,
        id: request.user_id,
        record: request.auth_record(),
    }
}

/// The publish of a registration for `request`: the JSON text of the event
/// with the submitted profile, on the topic of the registrations.
pub open spec fn publish_call(request: RegistrationRequestView) -> CallView {
    CallView::Publish {
        topic: REGISTERED_TOPIC@,
        payload: event_json(request.registered_event()),
    }
}

/// The action that is pending at `stage` of a registration for `request`.
pub open spec fn pending_action(request: RegistrationRequestView, stage: StageView) -> ActionView {
    match stage {
        StageView::AwaitingLookup => ActionView::Call(lookup_call(request)),
        StageView::AwaitingInsert => ActionView::Call(insert_call(request)),
        StageView::AwaitingPublish => ActionView::Call(publish_call(request)),
        StageView::Done(outcome) => ActionView::Finish(outcome),
    }
}

/// One registration in progress: the request and the stage reached.
#[derive(Debug, PartialEq, Eq)]
pub struct Registration {
    request: RegistrationRequest,
    stage: Stage,
}

/// The mathematical value of a [`Registration`].
pub struct RegistrationView {
    pub request: RegistrationRequestView,
    pub stage: StageView,
}

impl View for Registration {
    type V = RegistrationView;

    closed spec fn view(&self) -> RegistrationView {
        RegistrationView { request: self.request@, stage: self.stage@ }
    }
}

impl Registration {
    /// Opens a registration for `request`. The existence check is pending.
    pub fn begin(request: RegistrationRequest) -> (registration: Registration)
        ensures
            registration@ == (RegistrationView {
                request: request@,
                stage: StageView::AwaitingLookup,
            }),
    {
        Registration { request, stage: Stage::AwaitingLookup }
    }

    /// The request that this registration is for.
    pub fn request(&self) -> (request: &RegistrationRequest)
        ensures
            request@ == self@.request,
    {
        &self.request
    }

    /// The stage reached.
    pub fn stage(&self) -> (stage: &Stage)
        ensures
            stage@ == self@.stage,
    {
        &self.stage
    }

    /// Whether the registration is over.
    pub fn is_finished(&self) -> (finished: bool)
        ensures
            finished == (self@.stage is Done),
    {
        match &self.stage {
            Stage::Done(_) => true,
            _ => false,
        }
    }

    /// The outcome, once the registration is over.
    pub fn outcome(&self) -> (outcome: Option<Outcome>)
        ensures
            match outcome {
                Some(ended) => self@.stage == StageView::Done(outcome_view(ended)),
                None => !(self@.stage is Done),
            },
    {
        match &self.stage {
            Stage::Done(outcome) => Some(clone_outcome(outcome)),
            _ => None,
        }
    }

    /// Whether `reply` answers the pending call.
    pub fn accepts(&self, reply: &Reply) -> (accepted: bool)
        ensures
            accepted == answers(self@.stage, reply@),
    {
        match (&self.stage, reply) {
            (Stage::AwaitingLookup, Reply::Exists(_)) => true,
            (Stage::AwaitingLookup, Reply::LookupFailed(_)) => true,
            (Stage::AwaitingInsert, Reply::Inserted) => true,
            (Stage::AwaitingInsert, Reply::InsertFailed(_)) => true,
            (Stage::AwaitingPublish, Reply::Published) => true,
            (Stage::AwaitingPublish, Reply::PublishFailed(_)) => true,
            _ => false,
        }
    }

    /// The action that is pending: the call to make, or the outcome to return.
    pub fn pending(&self) -> (action: Action)
        ensures
            action@ == pending_action(self@.request, self@.stage),
    {
        match &self.stage {
            Stage::AwaitingLookup => Action::Call(
                Call::CheckExists {
                    collection: String::from_str(RECORDS_COLLECTION),
                    id: self.request.user_id.clone(),
                },
            ),
            Stage::AwaitingInsert => Action::Call(
                Call::Insert {
                    collection: String::from_str(RECORDS_COLLECTION),
                    id: self.request.user_id.clone(),
                    record: self.request.auth_record(),
                },
            ),
            Stage::AwaitingPublish => {
                let event = self.request.registered_event();
                Action::Call(
                    Call::Publish {
                        topic: String::from_str(REGISTERED_TOPIC),
                        payload: event_payload(&event),
                    },
                )
            },
            Stage::Done(outcome) => Action::Finish(clone_outcome(outcome)),
        }
    }

    /// Takes the reply to the pending call and returns the action that is
    /// pending next. A reply that does not answer the pending call, and any
    /// reply to a finished registration, changes nothing and yields `None`.
    pub fn advance(&mut self, reply: Reply) -> (next: Option<Action>)
        ensures
            final(self)@.request == old(self)@.request,
            final(self)@.stage == step(old(self)@.stage, reply@),
            match next {
                Some(action) => answers(old(self)@.stage, reply@) && action@ == pending_action(
                    final(self)@.request,
                    final(self)@.stage,
                ),
                None => !answers(old(self)@.stage, reply@),
            },
    {
        if !self.accepts(&reply) {
            return None;
        }
        self.stage = match reply {
            Reply::Exists(found) => if found {
                Stage::Done(Err(RegistrationError::AlreadyExists))
            } else {
                Stage::AwaitingInsert
            },
            Reply::LookupFailed(cause) => Stage::Done(Err(RegistrationError::LookupFailed(cause))),
            Reply::Inserted => Stage::AwaitingPublish,
            Reply::InsertFailed(cause) => Stage::Done(Err(RegistrationError::PersistFailed(cause))),
            Reply::Published => Stage::Done(Ok(Success)),
            Reply::PublishFailed(cause) => Stage::Done(
                Err(RegistrationError::PublishFailed(cause)),
            ),
        };
        Some(self.pending())
    }
}

} // verus!
