//! What can go wrong in the collection processor.

use crate::task::Retry;
use crate::text::{behind, wraps_message};
use bson::extjson::de::Error as ExtendedJsonError;
use bson::oid::Error as ObjectIdError;
use mongodb::error::Error as MongoError;
use serde_json::Error as JsonError;
use vstd::prelude::*;

verus! {

#[verifier::external_type_specification]
#[verifier::external_body]
pub struct ExMongoError(MongoError);

/// Errors that can occur during MongoDB collection read/write operations.
///
/// A `source` that is text is the message of a failure in the host application.
#[allow(inconsistent_fields)]
#[derive(Debug)]
#[non_exhaustive]
pub enum Error {
    Auth { source: String },
    SendMessage { source: String },
    EventBuilder { source: String },
    MissingBuilderAttribute(String),
    RetryExhausted { source: Box<Error> },
    MessageConversion { source: String },
    UnsupportedEventData,
    InvalidDocument,
    MissingUpsertFilter,
    EmptyUpsertPayload,
    MixedUpsertPayload,
    MissingUpsertedDocument,
    UnsupportedIdShape,
    InvalidObjectId { source: ObjectIdError },
    SerdeJson { source: JsonError },
    MongoDB { source: MongoError },
    Bson { source: ExtendedJsonError },
    ClientRegistryMismatch,
    ConfigRender { source: String },
}

/// Whether `text` is the message of `error`.
pub open spec fn is_message(error: Error, text: Seq<char>) -> bool
    decreases error,
{
    match error {
        Error::Auth { source } => text == "Authentication error: "@ + source@,
        Error::SendMessage { source } => text == "Sending event to channel failed with error: "@
            + source@,
        Error::EventBuilder { source } => text == "Event builder failed with error: "@ + source@,
        Error::MissingBuilderAttribute(name) => text == "Missing required attribute: "@ + name@,
        Error::RetryExhausted { source } => {
            let prefix = "Task failed after all retry attempts: "@;
            &&& prefix.is_prefix_of(text)
            &&& is_message(*source, text.skip(prefix.len() as int))
        },
        Error::MessageConversion { source } => text == "Message conversion failed with error: "@
            + source@,
        Error::UnsupportedEventData => text == "Unsupported event data"@,
        Error::InvalidDocument => text == "Invalid MongoDB document"@,
        Error::MissingUpsertFilter => text
            == "Upsert requires a non-empty `filter` to identify the document"@,
        Error::EmptyUpsertPayload => text
            == "Upsert payload is empty — there is nothing to apply"@,
        Error::MixedUpsertPayload => text
            == "Upsert payload mixes update operators with plain fields; use either `{\"$set\": {...}}` or plain fields alone"@,
        Error::MissingUpsertedDocument => text == "Upsert returned no document"@,
        Error::UnsupportedIdShape => text
            == "Event's `_id` must be an ObjectId (`{\"$oid\": \"...\"}`) or omitted"@,
        Error::InvalidObjectId { source } => wraps_message(
            text,
            "Invalid ObjectId in event's `_id`: "@,
            &source,
        ),
        Error::SerdeJson { source } => wraps_message(text, "JSON serialization error: "@, &source),
        Error::MongoDB { source } => wraps_message(text, "MongoDB error: "@, &source),
        Error::Bson { source } => wraps_message(text, "JSON to BSON conversion error: "@, &source),
        Error::ClientRegistryMismatch => text
            == "Client registry type mismatch — same credentials used with incompatible client types"@,
        Error::ConfigRender { source } => text == "Config template rendering error: "@ + source@,
    }
}

impl Error {
    /// A failure that retrying can only repeat: bad configuration or a
    /// malformed payload.
    pub open spec fn permanent(self) -> bool {
        ||| self is UnsupportedEventData
        ||| self is InvalidDocument
        ||| self is MissingUpsertFilter
        ||| self is EmptyUpsertPayload
        ||| self is MixedUpsertPayload
        ||| self is UnsupportedIdShape
        ||| self is InvalidObjectId
        ||| self is Bson
        ||| self is ConfigRender
    }

    /// Whether retrying this error can only produce the same failure.
    ///
    /// Bad config or a malformed payload does not become valid on the next
    /// attempt, so retrying one just delays the failure by the full backoff.
    pub fn is_permanent(&self) -> (permanent: bool)
        ensures
            permanent == self.permanent(),
    {
        matches!(
            self,
            Error::UnsupportedEventData
                | Error::InvalidDocument
                | Error::MissingUpsertFilter
                | Error::EmptyUpsertPayload
                | Error::MixedUpsertPayload
                | Error::UnsupportedIdShape
                | Error::InvalidObjectId { .. }
                | Error::Bson { .. }
                | Error::ConfigRender { .. }
        )
    }

    /// What is to be done about a failed initialization: every failure is tried
    /// again.
    pub fn init_retry(&self) -> (retry: Retry)
        ensures
            retry == Retry::Transient,
    {
        Retry::Transient
    }

    /// What is to be done about an event that failed: one that can only fail
    /// again is given up.
    pub fn handle_retry(&self) -> (retry: Retry)
        ensures
            retry == if self.permanent() {
                Retry::Permanent
            } else {
                Retry::Transient
            },
    {
        if self.is_permanent() {
            Retry::Permanent
        } else {
            Retry::Transient
        }
    }

    /// The message of this error.
    pub fn to_string(&self) -> (text: String)
        ensures
            is_message(*self, text@),
        decreases self,
    {
        match self {
            Error::Auth { source } => behind("Authentication error: ", source.clone()),
            Error::SendMessage { source } => behind(
                "Sending event to channel failed with error: ",
                source.clone(),
            ),
            Error::EventBuilder { source } => behind(
                "Event builder failed with error: ",
                source.clone(),
            ),
            Error::MissingBuilderAttribute(name) => behind(
                "Missing required attribute: ",
                name.clone(),
            ),
            Error::RetryExhausted { source } => behind(
                "Task failed after all retry attempts: ",
                source.to_string(),
            ),
            Error::MessageConversion { source } => behind(
                "Message conversion failed with error: ",
                source.clone(),
            ),
            Error::UnsupportedEventData => "Unsupported event data".to_string(),
            Error::InvalidDocument => "Invalid MongoDB document".to_string(),
            Error::MissingUpsertFilter =>
                "Upsert requires a non-empty `filter` to identify the document".to_string(),
            Error::EmptyUpsertPayload =>
                "Upsert payload is empty — there is nothing to apply".to_string(),
            Error::MixedUpsertPayload =>
                "Upsert payload mixes update operators with plain fields; use either `{\"$set\": {...}}` or plain fields alone".to_string(),
            Error::MissingUpsertedDocument => "Upsert returned no document".to_string(),
            Error::UnsupportedIdShape =>
                "Event's `_id` must be an ObjectId (`{\"$oid\": \"...\"}`) or omitted".to_string(),
            Error::InvalidObjectId { source } => behind(
                "Invalid ObjectId in event's `_id`: ",
                source.to_string(),
            ),
            Error::SerdeJson { source } => behind(
                "JSON serialization error: ",
                source.to_string(),
            ),
            Error::MongoDB { source } => behind("MongoDB error: ", source.to_string()),
            Error::Bson { source } => behind(
                "JSON to BSON conversion error: ",
                source.to_string(),
            ),
            Error::ClientRegistryMismatch =>
                "Client registry type mismatch — same credentials used with incompatible client types".to_string(),
            Error::ConfigRender { source } => behind(
                "Config template rendering error: ",
                source.clone(),
            ),
        }
    }
}

} // verus!
