//! Events, and where they go.

use crate::stream::ArrowBatch;
use serde_json::Value;
use std::sync::Arc;
use vstd::prelude::*;

verus! {

/// An Avro payload: the encoded bytes.
#[derive(Debug, Clone)]
pub struct AvroData {
    pub raw_bytes: Vec<u8>,
}

/// The payload of an event.
#[derive(Debug, Clone)]
pub enum EventData {
    ArrowRecordBatch(Arc<ArrowBatch>),
    Avro(AvroData),
    Json(Value),
    Bytes(Vec<u8>),
}

/// An event on its way through a flow. `C` is the handle by which the source of
/// the event learns that it has been dealt with.
#[derive(Debug, Clone)]
pub struct Event<C> {
    pub data: EventData,
    pub subject: Option<String>,
    pub id: Option<String>,
    pub task_id: usize,
    pub task_type: &'static str,
    pub completion_tx: Option<C>,
    pub error: Option<String>,
}

/// What a new event is to hold, before it is built.
#[derive(Debug, Clone)]
pub struct EventDraft {
    pub data: EventData,
    pub subject: Option<String>,
    pub id: Option<String>,
    pub task_id: usize,
    pub task_type: &'static str,
}

/// An event to send, and the completion to signal with its data before that.
#[derive(Debug)]
pub struct Emission<C> {
    pub event: Event<C>,
    pub signal: Option<C>,
}

/// How an event that could not be dealt with is reported.
#[derive(Debug)]
pub enum FailureReport<C> {
    /// Send the event downstream, with its error.
    Forward(Event<C>),
    /// Signal the completion with the error.
    Signal { completion: C, message: String },
    /// Nobody waits for this event.
    Unreported,
}

/// Whether `handed` is the handle `held` once more, where there is one.
pub open spec fn passed_on<C: Clone>(held: Option<C>, handed: Option<C>) -> bool {
    &&& held is Some == handed is Some
    &&& held is Some ==> cloned(held->0, handed->0)
}

/// Where a completion goes with a result event: along with the event where there
/// is a sender downstream, else it is signalled here.
pub open spec fn routed<C>(
    event: Event<C>,
    completion: Option<C>,
    has_sender: bool,
) -> Emission<C> {
    if has_sender {
        Emission { event: Event { completion_tx: completion, ..event }, signal: None }
    } else {
        Emission { event, signal: completion }
    }
}

/// Hands the completion of the event that is being handled to its result.
pub fn route_completion<C>(event: Event<C>, completion: Option<C>, has_sender: bool) -> (emission:
    Emission<C>)
    ensures
        emission == routed(event, completion, has_sender),
{
    if has_sender {
        Emission { event: Event { completion_tx: completion, ..event }, signal: None }
    } else {
        Emission { event, signal: completion }
    }
}

/// How the failure of an event is reported: downstream where there is a sender,
/// else to the completion, where there is one.
pub open spec fn reported<C>(
    event: Event<C>,
    message: String,
    has_sender: bool,
) -> FailureReport<C> {
    if has_sender {
        FailureReport::Forward(Event { error: Some(message), ..event })
    } else {
        match event.completion_tx {
            Some(completion) => FailureReport::Signal { completion, message },
            None => FailureReport::Unreported,
        }
    }
}

/// Decides how an event that failed for good is reported.
pub fn report_failure<C>(event: Event<C>, message: String, has_sender: bool) -> (report:
    FailureReport<C>)
    ensures
        report == reported(event, message, has_sender),
{
    if has_sender {
        FailureReport::Forward(Event { error: Some(message), ..event })
    } else {
        match event.completion_tx {
            Some(completion) => FailureReport::Signal { completion, message },
            None => FailureReport::Unreported,
        }
    }
}

/// A completion goes exactly one way with a fresh result event: it travels with
/// the event, or it is signalled, never both; and the event is sent with the
/// data that it was built with.
pub proof fn law_completion_goes_one_way<C>(
    event: Event<C>,
    completion: C,
    has_sender: bool,
)
    requires
        event.completion_tx is None,
    ensures
        ({
            let emission = routed(event, Some(completion), has_sender);
            &&& emission.signal is Some != emission.event.completion_tx is Some
            &&& emission.signal is Some ==> emission.signal == Some(completion)
            &&& emission.event.completion_tx is Some ==> emission.event.completion_tx == Some(
                completion,
            )
            &&& emission.event.data == event.data
        }),
{
}

/// A failure is never lost where somebody waits for the event: with a sender or
/// a completion it is reported, with its message.
pub proof fn law_failure_is_reported<C>(event: Event<C>, message: String, has_sender: bool)
    requires
        has_sender || event.completion_tx is Some,
    ensures
        match reported(event, message, has_sender) {
            FailureReport::Forward(failed) => failed.error == Some(message) && failed.data
                == event.data && failed.completion_tx == event.completion_tx,
            FailureReport::Signal { completion, message: told } => event.completion_tx == Some(
                completion,
            ) && told == message,
            FailureReport::Unreported => false,
        },
{
}

/// Whether `handed` is the handle `held` once more, or neither is there.
pub open spec fn is_own<C: Clone>(held: Option<C>, handed: Option<C>) -> bool {
    match (held, handed) {
        (Some(held), Some(handed)) => cloned(held, handed),
        (None, None) => true,
        _ => false,
    }
}

/// Whether `sent` is the event as it was built, with the completion along where
/// there is a sender, and with the completion signalled where there is none.
pub open spec fn is_sent_on<C>(
    event: Event<C>,
    completion: Option<C>,
    has_sender: bool,
    sent: Emission<C>,
) -> bool {
    &&& has_sender ==> sent.signal is None && sent.event.completion_tx == completion
    &&& !has_sender ==> sent.signal == completion && sent.event.completion_tx
        == event.completion_tx
    &&& sent.event.data == event.data
    &&& sent.event.subject == event.subject
    &&& sent.event.id == event.id
    &&& sent.event.task_id == event.task_id
    &&& sent.event.task_type == event.task_type
    &&& sent.event.error == event.error
}

/// A result event is sent as it was built, but for its completion: with a sender
/// downstream it takes the completion along, and nothing is signalled; without
/// one the completion is signalled, and the event keeps its own.
pub proof fn law_completion_is_routed<C>(
    event: Event<C>,
    completion: Option<C>,
    has_sender: bool,
    emission: Emission<C>,
)
    requires
        call_ensures(route_completion::<C>, (event, completion, has_sender), emission),
    ensures
        is_sent_on(event, completion, has_sender, emission),
{
}

/// A failed event goes downstream where there is a sender, as it came but with
/// the message as its error. Without a sender its completion is told the
/// message, and without a completion nobody is told.
pub proof fn law_failure_goes_where_someone_waits<C>(
    event: Event<C>,
    message: String,
    has_sender: bool,
    report: FailureReport<C>,
)
    requires
        call_ensures(report_failure::<C>, (event, message, has_sender), report),
    ensures
        has_sender ==> {
            &&& report matches FailureReport::Forward(failed)
            &&& failed.error == Some(message)
            &&& failed.data == event.data
            &&& failed.subject == event.subject
            &&& failed.id == event.id
            &&& failed.task_id == event.task_id
            &&& failed.task_type == event.task_type
            &&& failed.completion_tx == event.completion_tx
        },
        !has_sender && event.completion_tx is Some ==> {
            &&& report matches FailureReport::Signal { completion, message: told }
            &&& event.completion_tx == Some(completion)
            &&& told == message
        },
        !has_sender && event.completion_tx is None ==> report is Unreported,
{
}

} // verus!
