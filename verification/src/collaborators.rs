//! A model of the two collaborators and of a whole registration run against
//! them, and what holds of every such run.
//!
//! The document store is a map from collection and id to the record filed
//! there; the event publisher is the list of messages it accepted. Each kind
//! of call either works or fails with a cause, as [`Faults`] says. A run
//! performs the pending call of the workflow, feeds the reply back and goes
//! on until the workflow finishes.

use crate::json::event_json;
use crate::outcome::{OutcomeView, RegistrationErrorView, Success};
use crate::request::{AuthRecordView, RegistrationRequestView};
use crate::workflow::{
    answers, insert_call, lookup_call, pending_action, publish_call, step, ActionView, CallView,
    ReplyView, StageView, RECORDS_COLLECTION, REGISTERED_TOPIC,
};
use vstd::prelude::*;

verus! {

/// What the collaborators hold.
pub struct World {
    /// The document store: the record filed under each collection and id.
    pub documents: Map<(Seq<char>, Seq<char>), AuthRecordView>,
    /// The event publisher: topic and payload of each accepted message, in
    /// the order of acceptance.
    pub messages: Seq<(Seq<char>, Seq<char>)>,
}

/// Which calls fail during a run, and with what cause. `None` lets the call
/// work.
pub struct Faults {
    pub lookup: Option<Seq<char>>,
    pub insert: Option<Seq<char>>,
    pub publish: Option<Seq<char>>,
}

/// A finished run: the outcome handed to the caller, what the collaborators
/// hold afterwards, and the calls that were made on them, in order.
pub struct Run {
    pub outcome: OutcomeView,
    pub world: World,
    pub calls: Seq<CallView>,
}

/// The reply of the collaborators to one call, and what they hold after it.
/// A failed call changes nothing. An existence check changes nothing either.
pub open spec fn perform(world: World, faults: Faults, call: CallView) -> (ReplyView, World) {
    match call {
        CallView::CheckExists { collection, id } => match faults.lookup {
            Some(cause) => (ReplyView::LookupFailed(cause), world),
            None => (ReplyView::Exists(world.documents.contains_key((collection, id))), world),
        },
        CallView::Insert { collection, id, record } => match faults.insert {
            Some(cause) => (ReplyView::InsertFailed(cause), world),
            None => (
                ReplyView::Inserted,
                World { documents: world.documents.insert((collection, id), record), ..world },
            ),
        },
        CallView::Publish { topic, payload } => match faults.publish {
            Some(cause) => (ReplyView::PublishFailed(cause), world),
            None => (
                ReplyView::Published,
                World { messages: world.messages.push((topic, payload)), ..world },
            ),
        },
    }
}

/// An upper bound on the calls that a registration at `stage` still makes.
pub open spec fn calls_left(stage: StageView) -> nat {
    match stage {
        StageView::AwaitingLookup => 3,
        StageView::AwaitingInsert => 2,
        StageView::AwaitingPublish => 1,
        StageView::Done(_) => 0,
    }
}

/// Every reply that a registration takes brings its end nearer, whatever the
/// reply says: whoever drives a registration is done after at most three
/// replies.
pub proof fn taken_reply_brings_the_end_nearer(stage: StageView, reply: ReplyView)
    requires
        answers(stage, reply),
    ensures
        calls_left(step(stage, reply)) < calls_left(stage),
{
}

/// Runs a registration for `request` from `stage` to its end, after `calls`
/// were made already.
pub open spec fn drive(
    request: RegistrationRequestView,
    stage: StageView,
    world: World,
    faults: Faults,
    calls: Seq<CallView>,
) -> Run
    decreases calls_left(stage),
{
    match pending_action(request, stage) {
        ActionView::Finish(outcome) => Run { outcome, world, calls },
        ActionView::Call(call) => {
            let (reply, after) = perform(world, faults, call);
            drive(request, step(stage, reply), after, faults, calls.push(call))
        },
    }
}

/// A whole registration for `request` against collaborators that hold
/// `world` and fail as `faults` says.
pub open spec fn register(request: RegistrationRequestView, world: World, faults: Faults) -> Run {
    drive(request, StageView::AwaitingLookup, world, faults, Seq::empty())
}

/// The key under which the record of `request` is filed.
pub open spec fn record_key(request: RegistrationRequestView) -> (Seq<char>, Seq<char>) {
    (RECORDS_COLLECTION@, request.user_id)
}

/// The message that a registration for `request` publishes.
pub open spec fn registered_message(request: RegistrationRequestView) -> (Seq<char>, Seq<char>) {
    (REGISTERED_TOPIC@, event_json(request.registered_event()))
}

/// A registration for a user id that the store already holds is refused with
/// `AlreadyExists` after the existence check alone: nothing is inserted,
/// nothing is published, and the collaborators hold what they held.
pub proof fn existing_user_is_refused(
    request: RegistrationRequestView,
    world: World,
    faults: Faults,
)
    requires
        faults.lookup is None,
        world.documents.contains_key(record_key(request)),
    ensures
        register(request, world, faults).outcome == Err::<Success, _>(
            RegistrationErrorView::AlreadyExists,
        ),
        register(request, world, faults).calls == seq![lookup_call(request)],
        register(request, world, faults).world == world,
{
    reveal_with_fuel(drive, 3);
}

/// A registration for a fresh user id, with both collaborators working,
/// succeeds. It makes the existence check, one insert and one publish, in
/// this order; afterwards the store holds the submitted email and password
/// under the user id, and the publisher has accepted one more message, the
/// event with the submitted profile.
pub proof fn fresh_user_is_registered(
    request: RegistrationRequestView,
    world: World,
    faults: Faults,
)
    requires
        faults.lookup is None,
        faults.insert is None,
        faults.publish is None,
        !world.documents.contains_key(record_key(request)),
    ensures
        register(request, world, faults).outcome == Ok::<_, RegistrationErrorView>(Success),
        register(request, world, faults).calls == seq![
            lookup_call(request),
            insert_call(request),
            publish_call(request),
        ],
        register(request, world, faults).world.documents == world.documents.insert(
            record_key(request),
            request.auth_record(),
        ),
        register(request, world, faults).world.messages == world.messages.push(
            registered_message(request),
        ),
{
    reveal_with_fuel(drive, 4);
}

/// When the insert fails, the registration ends with `PersistFailed` and the
/// cause that the store gave. No publish is made, and the collaborators hold
/// what they held.
pub proof fn failed_insert_ends_the_run(
    request: RegistrationRequestView,
    world: World,
    faults: Faults,
    cause: Seq<char>,
)
    requires
        faults.lookup is None,
        faults.insert == Some(cause),
        !world.documents.contains_key(record_key(request)),
    ensures
        register(request, world, faults).outcome == Err::<Success, _>(
            RegistrationErrorView::PersistFailed(cause),
        ),
        register(request, world, faults).calls == seq![lookup_call(request), insert_call(request)],
        register(request, world, faults).world == world,
{
    reveal_with_fuel(drive, 3);
}

/// When the insert works and the publish fails, the registration ends with
/// `PublishFailed` and the cause that the publisher gave, and the record stays
/// in the store: the insert is not undone. No message was accepted.
pub proof fn failed_publish_keeps_the_record(
    request: RegistrationRequestView,
    world: World,
    faults: Faults,
    cause: Seq<char>,
)
    requires
        faults.lookup is None,
        faults.insert is None,
        faults.publish == Some(cause),
        !world.documents.contains_key(record_key(request)),
    ensures
        register(request, world, faults).outcome == Err::<Success, _>(
            RegistrationErrorView::PublishFailed(cause),
        ),
        register(request, world, faults).calls == seq![
            lookup_call(request),
            insert_call(request),
            publish_call(request),
        ],
        register(request, world, faults).world.documents == world.documents.insert(
            record_key(request),
            request.auth_record(),
        ),
        register(request, world, faults).world.documents.contains_key(record_key(request)),
        register(request, world, faults).world.messages == world.messages,
{
    reveal_with_fuel(drive, 4);
}

/// When the existence check itself fails, the registration ends with
/// `LookupFailed` and the cause that the store gave, whatever the store
/// holds. Neither an insert nor a publish is made.
pub proof fn failed_lookup_ends_the_run(
    request: RegistrationRequestView,
    world: World,
    faults: Faults,
    cause: Seq<char>,
)
    requires
        faults.lookup == Some(cause),
    ensures
        register(request, world, faults).outcome == Err::<Success, _>(
            RegistrationErrorView::LookupFailed(cause),
        ),
        register(request, world, faults).calls == seq![lookup_call(request)],
        register(request, world, faults).world == world,
{
    reveal_with_fuel(drive, 3);
}

/// Every run makes one, two or three calls: the existence check, the insert
/// and the publish, in this order and each at most once, cut off after the
/// call that ended the run.
pub proof fn calls_follow_one_order(
    request: RegistrationRequestView,
    world: World,
    faults: Faults,
)
    ensures
        1 <= register(request, world, faults).calls.len() <= 3,
        register(request, world, faults).calls.is_prefix_of(
            seq![lookup_call(request), insert_call(request), publish_call(request)],
        ),
{
    reveal_with_fuel(drive, 4);
    let order = seq![lookup_call(request), insert_call(request), publish_call(request)];
    let calls = register(request, world, faults).calls;
    assert(calls =~= order.subrange(0, calls.len() as int));
}

/// A run changes no record that the store held before it: whatever was filed
/// under a key is filed there afterwards.
pub proof fn stored_records_are_kept(
    request: RegistrationRequestView,
    world: World,
    faults: Faults,
    key: (Seq<char>, Seq<char>),
)
    requires
        world.documents.contains_key(key),
    ensures
        register(request, world, faults).world.documents.contains_key(key),
        register(request, world, faults).world.documents[key] == world.documents[key],
{
    reveal_with_fuel(drive, 4);
}

/// The event is accepted exactly when the run succeeds. A successful run has
/// stored the record and had the one event accepted. A failed run has had no
/// message accepted; it has stored the record if it was the publish that
/// failed, and has left the collaborators as they were otherwise.
pub proof fn event_is_published_exactly_on_success(
    request: RegistrationRequestView,
    world: World,
    faults: Faults,
)
    ensures
        ({
            let run = register(request, world, faults);
            let stored = world.documents.insert(record_key(request), request.auth_record());
            let sent = world.messages.push(registered_message(request));
            match run.outcome {
                Ok(_) => run.world.documents == stored && run.world.messages == sent,
                Err(RegistrationErrorView::PublishFailed(_)) => run.world.documents == stored
                    && run.world.messages == world.messages,
                Err(_) => run.world == world,
            }
        }),
{
    reveal_with_fuel(drive, 4);
}

/// The existence check is advisory, not a lock. When two registrations for
/// one user id both make their check before either inserts, both are let
/// through to the insert; with a store that takes every insert, both inserts
/// are made and the record of the later one stands.
pub proof fn interleaved_checks_both_pass(
    first: RegistrationRequestView,
    second: RegistrationRequestView,
    world: World,
    faults: Faults,
)
    requires
        first.user_id == second.user_id,
        faults.lookup is None,
        faults.insert is None,
        !world.documents.contains_key(record_key(first)),
    ensures
        ({
            let (first_found, after_first_check) = perform(world, faults, lookup_call(first));
            let (second_found, after_checks) = perform(
                after_first_check,
                faults,
                lookup_call(second),
            );
            let first_stage = step(StageView::AwaitingLookup, first_found);
            let second_stage = step(StageView::AwaitingLookup, second_found);
            let (first_filed, after_first_insert) = perform(
                after_checks,
                faults,
                insert_call(first),
            );
            let (second_filed, after_inserts) = perform(
                after_first_insert,
                faults,
                insert_call(second),
            );
            &&& pending_action(first, first_stage) == ActionView::Call(insert_call(first))
            &&& pending_action(second, second_stage) == ActionView::Call(insert_call(second))
            &&& first_filed == ReplyView::Inserted
            &&& second_filed == ReplyView::Inserted
            &&& after_inserts.documents == world.documents.insert(
                record_key(first),
                second.auth_record(),
            )
        }),
{
}

} // verus!
