//! Producing events to a topic.

use crate::event::{
    passed_on, route_completion, routed, Emission, Event, EventData, EventDraft,
};
use crate::json::{
    is_json_text, is_lossless, is_object_of, json_from_slice, json_integer, json_map_insert,
    json_map_new, json_object, json_parsed, json_text, json_to_vec, JsonValue, READABLE_LAYERS,
};
use crate::kafka::client;
use crate::kafka::client::Client;
use crate::kafka::config::Produce;
use crate::stream::{
    arrow_stream_bytes, batch_schema, is_stream_of, stream_bytes, StreamState,
};
use crate::task::{RegistryError, Retry};
use crate::text::{behind, wraps_message};
use arrow::error::ArrowError;
use rdkafka::error::KafkaError;
use rdkafka::types::RDKafkaRespErr;
use serde_json::Error as JsonError;
use serde_json::Value;
use std::path::PathBuf;
use std::sync::Arc;
use tokio::sync::mpsc::{Receiver, Sender};
use vstd::prelude::*;

verus! {

#[verifier::external_type_specification]
#[verifier::external_body]
pub struct ExRespErr(rdkafka::types::RDKafkaRespErr);

/// How long a record may wait for a place in the producer's queue, in seconds.
pub const SEND_TIMEOUT_SECS: u64 = 30;

/// Where a record was stored.
#[derive(Debug)]
pub struct ProduceResult {
    pub topic: String,
    pub partition: i32,
    pub offset: i64,
}

/// What can go wrong in producing.
///
/// A `source` that is text is the message of a failure in the host application.
#[allow(inconsistent_fields)]
#[derive(Debug)]
#[non_exhaustive]
pub enum Error {
    SendMessage { source: String },
    EventBuilder { source: String },
    ClientAuth { source: client::Error },
    Produce { source: KafkaError },
    Delivery { status: RDKafkaRespErr },
    SerdeJson { source: JsonError },
    ConfigRender { source: String },
    Arrow { source: ArrowError },
    MissingClient,
    MissingBuilderAttribute(String),
    RetryExhausted { source: Box<Error> },
    ClientRegistryMismatch,
}

/// What the `Debug` form of `rdkafka::types::RDKafkaRespErr` reads.
pub uninterp spec fn status_text(status: RDKafkaRespErr) -> Seq<char>;

/// The `Debug` form of `rdkafka::types::RDKafkaRespErr`: the name of the code.
#[verifier::external_body]
fn status_to_string(status: &RDKafkaRespErr) -> (text: String)
    ensures
        text@ == status_text(*status),
{
    format!("{:?}", status)
}

/// Whether `text` is the message of `error`.
pub open spec fn is_message(error: Error, text: Seq<char>) -> bool
    decreases error,
{
    match error {
        Error::SendMessage { source } => text == "Error sending event to channel: "@ + source@,
        Error::EventBuilder { source } => text == "Error building event: "@ + source@,
        Error::ClientAuth { source } => {
            let prefix = "Kafka client error: "@;
            &&& prefix.is_prefix_of(text)
            &&& client::is_message(source, text.skip(prefix.len() as int))
        },
        Error::Produce { source } => wraps_message(text, "Produce error: "@, &source),
        Error::Delivery { status } => text == "Delivery error: "@ + status_text(status),
        Error::SerdeJson { source } => wraps_message(text, "JSON serialization error: "@, &source),
        Error::ConfigRender { source } => text == "Config template rendering error: "@ + source@,
        Error::Arrow { source } => wraps_message(text, "Arrow serialization error: "@, &source),
        Error::MissingClient => text == "Client is missing or not initialized"@,
        Error::MissingBuilderAttribute(name) => text == "Missing required builder attribute: "@
            + name@,
        Error::RetryExhausted { source } => {
            let prefix = "Task failed after all retry attempts: "@;
            &&& prefix.is_prefix_of(text)
            &&& is_message(*source, text.skip(prefix.len() as int))
        },
        Error::ClientRegistryMismatch => text
            == "Client registry type mismatch -- same credentials used with incompatible client types"@,
    }
}

impl Error {
    /// The message of this error.
    pub fn to_string(&self) -> (text: String)
        ensures
            is_message(*self, text@),
        decreases self,
    {
        match self {
            Error::SendMessage { source } => behind(
                "Error sending event to channel: ",
                source.clone(),
            ),
            Error::EventBuilder { source } => behind("Error building event: ", source.clone()),
            Error::ClientAuth { source } => behind("Kafka client error: ", source.to_string()),
            Error::Produce { source } => behind("Produce error: ", source.to_string()),
            Error::Delivery { status } => behind("Delivery error: ", status_to_string(status)),
            Error::SerdeJson { source } => behind(
                "JSON serialization error: ",
                source.to_string(),
            ),
            Error::ConfigRender { source } => behind(
                "Config template rendering error: ",
                source.clone(),
            ),
            Error::Arrow { source } => behind("Arrow serialization error: ", source.to_string()),
            Error::MissingClient => "Client is missing or not initialized".to_string(),
            Error::MissingBuilderAttribute(name) => behind(
                "Missing required builder attribute: ",
                name.clone(),
            ),
            Error::RetryExhausted { source } => behind(
                "Task failed after all retry attempts: ",
                source.to_string(),
            ),
            Error::ClientRegistryMismatch =>
                "Client registry type mismatch -- same credentials used with incompatible client types".to_string(),
        }
    }

    /// What is to be done about a failed initialization: a configuration that
    /// does not render and a missing client stay as they are, anything else may
    /// pass.
    pub fn init_retry(&self) -> (retry: Retry)
        ensures
            retry == if self is ConfigRender || self is MissingClient {
                Retry::Permanent
            } else {
                Retry::Transient
            },
    {
        if matches!(self, Error::ConfigRender { .. } | Error::MissingClient) {
            Retry::Permanent
        } else {
            Retry::Transient
        }
    }

    /// What is to be done about an event that failed: every failure is tried
    /// again.
    pub fn handle_retry(&self) -> (retry: Retry)
        ensures
            retry == Retry::Transient,
    {
        Retry::Transient
    }
}

impl ProduceResult {
    /// The members of the result in its JSON form.
    pub open spec fn members(self) -> Seq<(Seq<char>, JsonValue)> {
        seq![
            ("topic"@, JsonValue::Text(self.topic@)),
            ("partition"@, JsonValue::Integer(self.partition as int)),
            ("offset"@, JsonValue::Integer(self.offset as int)),
        ]
    }

    /// The result as a JSON object.
    pub fn to_value(&self) -> (value: Value)
        ensures
            is_object_of(value, self.members()),
    {
        proof {
            reveal_strlit("topic");
            reveal_strlit("partition");
            reveal_strlit("offset");
            assert("topic"@.len() != "partition"@.len());
            assert("topic"@.len() != "offset"@.len());
            assert("partition"@.len() != "offset"@.len());
        }
        let mut map = json_map_new();
        json_map_insert(&mut map, "topic".to_string(), json_text(self.topic.clone()));
        json_map_insert(&mut map, "partition".to_string(), json_integer(self.partition as i64));
        json_map_insert(&mut map, "offset".to_string(), json_integer(self.offset));
        json_object(map)
    }
}

/// Whether `encoded` is the payload of a record for this event data: a stream of
/// the record batch, the Avro bytes, the JSON text, or the bytes themselves.
pub open spec fn is_payload(data: EventData, encoded: Result<Vec<u8>, Error>) -> bool {
    match data {
        EventData::ArrowRecordBatch(batch) => match encoded {
            Ok(bytes) => is_stream_of(*batch, Ok::<Vec<u8>, ArrowError>(bytes)),
            Err(error) => error matches Error::Arrow { source } && is_stream_of(
                *batch,
                Err::<Vec<u8>, ArrowError>(source),
            ),
        },
        EventData::Avro(avro) => encoded matches Ok(bytes) && bytes@ == avro.raw_bytes@,
        EventData::Json(value) => encoded matches Ok(bytes) && is_json_text(value, bytes@),
        EventData::Bytes(held) => encoded matches Ok(bytes) && bytes@ == held@,
    }
}

/// The payload of the record that an event becomes.
pub fn serialize_event_to_bytes<C>(event: &Event<C>) -> (encoded: Result<Vec<u8>, Error>)
    ensures
        is_payload(event.data, encoded),
{
    match &event.data {
        EventData::ArrowRecordBatch(batch) => match arrow_stream_bytes(batch) {
            Ok(bytes) => Ok(bytes),
            Err(source) => Err(Error::Arrow { source }),
        },
        EventData::Avro(avro) => {
            let bytes = avro.raw_bytes.clone();
            assert(bytes@ == avro.raw_bytes@);
            Ok(bytes)
        },
        EventData::Json(value) => match json_to_vec(value) {
            Ok(bytes) => Ok(bytes),
            Err(source) => Err(Error::SerdeJson { source }),
        },
        EventData::Bytes(held) => {
            let bytes = held.clone();
            assert(bytes@ == held@);
            Ok(bytes)
        },
    }
}

/// The JSON value that the payload of a record tells.
pub fn parse_json_payload(payload: &Vec<u8>) -> (parsed: Result<Value, Error>)
    ensures
        match parsed {
            Ok(value) => json_parsed(payload@) == Ok::<Value, JsonError>(value),
            Err(error) => error matches Error::SerdeJson { source } && json_parsed(payload@)
                == Err::<Value, JsonError>(source),
        },
{
    match json_from_slice(payload) {
        Ok(value) => Ok(value),
        Err(source) => Err(Error::SerdeJson { source }),
    }
}

/// A payload tells the event: Avro data and bytes are the payload themselves,
/// JSON without floats, of at most as many layers as are read, is parsed back
/// from it, and a record batch is written as a finished stream of its schema and
/// of it alone.
pub proof fn law_payload_tells_the_event(data: EventData, payload: Vec<u8>)
    requires
        is_payload(data, Ok(payload)),
    ensures
        match data {
            EventData::Json(value) => is_lossless(value, READABLE_LAYERS as nat) ==> json_parsed(
                payload@,
            ) == Ok::<Value, JsonError>(value),
            EventData::Avro(avro) => payload@ == avro.raw_bytes@,
            EventData::Bytes(bytes) => payload@ == bytes@,
            EventData::ArrowRecordBatch(batch) => payload@ == stream_bytes(
                (StreamState {
                    schema: batch_schema(*batch),
                    batches: seq![*batch],
                    finished: true,
                }),
            ),
        },
{
}

/// Bytes, Avro data and JSON are always encoded; a record batch that no stream can
/// hold has a failure of its own.
pub proof fn law_payload_failures(data: EventData, error: Error)
    requires
        is_payload(data, Err(error)),
    ensures
        match data {
            EventData::ArrowRecordBatch(_) => error is Arrow,
            _ => false,
        },
{
}

/// Handles the events of a producer task. `P` is the producer of the connected
/// client.
#[verifier::reject_recursive_types(C)]
pub struct EventHandler<P, C> {
    pub producer: Arc<P>,
    pub task_id: usize,
    pub tx: Option<Sender<Event<C>>>,
    pub config: Arc<Produce>,
    pub task_type: &'static str,
}

/// A record to send.
#[derive(Debug)]
pub struct Record {
    pub topic: String,
    pub payload: Vec<u8>,
    pub key: String,
    /// How long it may wait for a place in the producer's queue, in seconds.
    pub queue_timeout_secs: u64,
}

/// An event that is being handled: next it is turned into a JSON value.
#[verifier::reject_recursive_types(C)]
pub struct Handling<'a, P, C> {
    pub handler: &'a EventHandler<P, C>,
    pub event: &'a Event<C>,
    pub completion: Option<C>,
}

/// An event with its JSON value: next the configuration is rendered with it.
#[verifier::reject_recursive_types(C)]
pub struct Encoded<'a, P, C> {
    pub handler: &'a EventHandler<P, C>,
    pub event: &'a Event<C>,
    pub completion: Option<C>,
    pub value: Value,
}

/// A record without its key: next the key template is rendered with the event's
/// JSON value.
#[verifier::reject_recursive_types(C)]
pub struct Unkeyed<'a, P, C> {
    pub handler: &'a EventHandler<P, C>,
    pub completion: Option<C>,
    pub value: Value,
    pub template: String,
    pub topic: String,
    pub payload: Vec<u8>,
}

/// A record that is ready: next it is sent.
#[verifier::reject_recursive_types(C)]
pub struct Outgoing<'a, P, C> {
    pub handler: &'a EventHandler<P, C>,
    pub completion: Option<C>,
    pub record: Record,
}

/// What a rendered configuration leads to.
#[verifier::reject_recursive_types(C)]
pub enum Prepared<'a, P, C> {
    NeedsKey(Unkeyed<'a, P, C>),
    Ready(Outgoing<'a, P, C>),
}

/// A record that was stored: next the result event is built from its draft.
#[verifier::reject_recursive_types(C)]
pub struct Delivered<'a, P, C> {
    pub handler: &'a EventHandler<P, C>,
    pub completion: Option<C>,
    pub result: ProduceResult,
    pub draft: EventDraft,
}

impl<P, C> EventHandler<P, C> {
    /// Starts handling an event.
    pub fn handle<'a>(&'a self, event: &'a Event<C>) -> (next: Handling<'a, P, C>) where C: Clone
        ensures
            next.handler == self,
            next.event == event,
            passed_on(event.completion_tx, next.completion),
    {
        Handling { handler: self, event, completion: event.completion_tx.clone() }
    }

    /// The outcome of handling an event, once its result has been sent on.
    pub fn finished(&self, sent: Result<(), String>) -> (outcome: Result<(), Error>)
        ensures
            match sent {
                Ok(_) => outcome is Ok,
                Err(source) => outcome == Err::<(), Error>((Error::SendMessage { source })),
            },
    {
        match sent {
            Ok(_) => Ok(()),
            Err(source) => Err(Error::SendMessage { source }),
        }
    }
}

impl<'a, P, C> Handling<'a, P, C> {
    /// Goes on with the event's JSON value.
    pub fn encoded(self, value: Result<Value, String>) -> (next: Result<Encoded<'a, P, C>, Error>)
        ensures
            match value {
                Ok(value) => next == Ok::<Encoded<P, C>, Error>(
                    (Encoded {
                        handler: self.handler,
                        event: self.event,
                        completion: self.completion,
                        value,
                    }),
                ),
                Err(source) => next == Err::<Encoded<P, C>, Error>(
                    (Error::EventBuilder { source }),
                ),
            },
    {
        match value {
            Ok(value) => Ok(
                Encoded {
                    handler: self.handler,
                    event: self.event,
                    completion: self.completion,
                    value,
                },
            ),
            Err(source) => Err(Error::EventBuilder { source }),
        }
    }
}

impl<'a, P, C> Encoded<'a, P, C> {
    /// Goes on with the rendered configuration: the event becomes the payload of
    /// a record for the configured topic. A configured key is a template that is
    /// still to be rendered; without one the key is empty.
    pub fn rendered(self, config: Result<Produce, String>) -> (next: Result<
        Prepared<'a, P, C>,
        Error,
    >)
        ensures
            match config {
                Err(source) => next == Err::<Prepared<P, C>, Error>(
                    (Error::ConfigRender { source }),
                ),
                Ok(config) => match next {
                    Err(error) => is_payload(self.event.data, Err::<Vec<u8>, Error>(error)),
                    Ok(Prepared::NeedsKey(unkeyed)) => {
                        &&& is_payload(self.event.data, Ok::<Vec<u8>, Error>(unkeyed.payload))
                        &&& config.message_key == Some(unkeyed.template)
                        &&& unkeyed.topic == config.topic
                        &&& unkeyed.value == self.value
                        &&& unkeyed.handler == self.handler
                        &&& unkeyed.completion == self.completion
                    },
                    Ok(Prepared::Ready(outgoing)) => {
                        &&& is_payload(
                            self.event.data,
                            Ok::<Vec<u8>, Error>(outgoing.record.payload),
                        )
                        &&& config.message_key is None
                        &&& outgoing.record.topic == config.topic
                        &&& outgoing.record.key@ == Seq::<char>::empty()
                        &&& outgoing.record.queue_timeout_secs == SEND_TIMEOUT_SECS
                        &&& outgoing.handler == self.handler
                        &&& outgoing.completion == self.completion
                    },
                },
            },
    {
        let config = match config {
            Ok(config) => config,
            Err(source) => return Err(Error::ConfigRender { source }),
        };
        let payload = match serialize_event_to_bytes(self.event) {
            Ok(payload) => payload,
            Err(error) => return Err(error),
        };
        match config.message_key {
            Some(template) => Ok(
                Prepared::NeedsKey(
                    Unkeyed {
                        handler: self.handler,
                        completion: self.completion,
                        value: self.value,
                        template,
                        topic: config.topic,
                        payload,
                    },
                ),
            ),
            None => Ok(
                Prepared::Ready(
                    Outgoing {
                        handler: self.handler,
                        completion: self.completion,
                        record: Record {
                            topic: config.topic,
                            payload,
                            key: String::new(),
                            queue_timeout_secs: SEND_TIMEOUT_SECS,
                        },
                    },
                ),
            ),
        }
    }
}

impl<'a, P, C> Unkeyed<'a, P, C> {
    /// Goes on with the rendered key.
    pub fn keyed(self, key: Result<String, String>) -> (next: Result<Outgoing<'a, P, C>, Error>)
        ensures
            match key {
                Ok(key) => next == Ok::<Outgoing<P, C>, Error>(
                    (Outgoing {
                        handler: self.handler,
                        completion: self.completion,
                        record: (Record {
                            topic: self.topic,
                            payload: self.payload,
                            key,
                            queue_timeout_secs: SEND_TIMEOUT_SECS,
                        }),
                    }),
                ),
                Err(source) => next == Err::<Outgoing<P, C>, Error>(
                    (Error::ConfigRender { source }),
                ),
            },
    {
        match key {
            Ok(key) => Ok(
                Outgoing {
                    handler: self.handler,
                    completion: self.completion,
                    record: Record {
                        topic: self.topic,
                        payload: self.payload,
                        key,
                        queue_timeout_secs: SEND_TIMEOUT_SECS,
                    },
                },
            ),
            Err(source) => Err(Error::ConfigRender { source }),
        }
    }
}

impl<'a, P, C> Outgoing<'a, P, C> {
    /// Goes on with the partition and the offset that the record was stored at.
    pub fn sent(self, delivery: Result<(i32, i64), KafkaError>) -> (next: Result<
        Delivered<'a, P, C>,
        Error,
    >)
        ensures
            match delivery {
                Err(source) => next == Err::<Delivered<P, C>, Error>((Error::Produce { source })),
                Ok((partition, offset)) => {
                    &&& next matches Ok(delivered)
                    &&& delivered.handler == self.handler
                    &&& delivered.completion == self.completion
                    &&& delivered.result.topic == self.record.topic
                    &&& delivered.result.partition == partition
                    &&& delivered.result.offset == offset
                    &&& delivered.draft.data matches EventData::Json(value)
                    &&& is_object_of(value, delivered.result.members())
                    &&& delivered.draft.subject == Some(self.handler.config.name)
                    &&& delivered.draft.id is None
                    &&& delivered.draft.task_id == self.handler.task_id
                    &&& delivered.draft.task_type == self.handler.task_type
                },
            },
    {
        let (partition, offset) = match delivery {
            Ok(stored) => stored,
            Err(source) => return Err(Error::Produce { source }),
        };
        let result = ProduceResult { topic: self.record.topic, partition, offset };
        let draft = EventDraft {
            data: EventData::Json(result.to_value()),
            subject: Some(self.handler.config.name.clone()),
            id: None,
            task_id: self.handler.task_id,
            task_type: self.handler.task_type,
        };
        Ok(Delivered { handler: self.handler, completion: self.completion, result, draft })
    }
}

impl<'a, P, C> Delivered<'a, P, C> {
    /// Goes on with the result event: its completion is routed, and it is to be
    /// sent.
    pub fn built(self, event: Result<Event<C>, String>) -> (emission: Result<Emission<C>, Error>)
        ensures
            match event {
                Ok(event) => emission == Ok::<Emission<C>, Error>(
                    routed(event, self.completion, self.handler.tx is Some),
                ),
                Err(source) => emission == Err::<Emission<C>, Error>(
                    (Error::EventBuilder { source }),
                ),
            },
    {
        match event {
            Ok(event) => Ok(
                route_completion(event, self.completion, self.handler.tx.is_some()),
            ),
            Err(source) => Err(Error::EventBuilder { source }),
        }
    }
}

/// A producer task. `X` is the context that the host application runs it in.
#[verifier::reject_recursive_types(C)]
#[derive(Debug)]
pub struct Producer<C, X> {
    pub config: Arc<Produce>,
    pub rx: Receiver<Event<C>>,
    pub tx: Option<Sender<Event<C>>>,
    pub task_id: usize,
    pub task_context: Arc<X>,
    pub task_type: &'static str,
}

/// Which client a producer task needs. Tasks that ask for the same share one.
#[derive(Debug)]
pub struct ClientRequest {
    pub credentials_path: Option<PathBuf>,
    pub brokers: String,
}

impl ClientRequest {
    /// The client to connect.
    pub fn into_client<P, A>(self) -> (client: Client<P, A>)
        ensures
            client == (Client::<P, A> {
                credentials_path: self.credentials_path,
                brokers: Some(self.brokers),
                producer: None,
                admin_client: None,
            }),
    {
        Client::new(self.credentials_path, Some(self.brokers))
    }
}

/// The producer of a client that was to be connected.
pub fn connected_producer<P, A>(connected: Result<Client<P, A>, client::Error>) -> (producer:
    Result<P, Error>)
    ensures
        match connected {
            Err(source) => producer == Err::<P, Error>((Error::ClientAuth { source })),
            Ok(client) => match client.producer {
                Some(made) => producer == Ok::<P, Error>(made),
                None => producer == Err::<P, Error>(Error::MissingClient),
            },
        },
{
    match connected {
        Ok(client) => match client.producer {
            Some(producer) => Ok(producer),
            None => Err(Error::MissingClient),
        },
        Err(source) => Err(Error::ClientAuth { source }),
    }
}

/// The client that is needed with this rendered configuration.
pub open spec fn request_of(rendered: Produce) -> ClientRequest {
    ClientRequest { credentials_path: rendered.credentials_path, brokers: rendered.brokers }
}

impl<C, X> Producer<C, X> {
    /// Whether `handler` is the handler of the task's events, with this producer.
    /// It keeps the configuration as it was given.
    pub open spec fn is_handler<P>(self, producer: Arc<P>, handler: EventHandler<P, C>) -> bool {
        &&& handler.producer == producer
        &&& handler.task_id == self.task_id
        &&& handler.config == self.config
        &&& handler.task_type == self.task_type
        &&& passed_on(self.tx, handler.tx)
    }

    /// First step of initialization: the configuration, rendered without an
    /// event, says which client is needed.
    pub fn init(&self, rendered: Result<Produce, String>) -> (request: Result<
        ClientRequest,
        Error,
    >)
        ensures
            match rendered {
                Ok(config) => request == Ok::<ClientRequest, Error>(request_of(config)),
                Err(source) => request == Err::<ClientRequest, Error>(
                    (Error::ConfigRender { source }),
                ),
            },
    {
        match rendered {
            Ok(config) => Ok(
                ClientRequest {
                    credentials_path: config.credentials_path,
                    brokers: config.brokers,
                },
            ),
            Err(source) => Err(Error::ConfigRender { source }),
        }
    }

    /// Last step of initialization: the handler of the task's events, with the
    /// producer of the shared client. It keeps the configuration as it was
    /// given, to be rendered with each event.
    pub fn event_handler<P>(
        &self,
        registered: Result<Arc<P>, RegistryError<Error>>,
    ) -> (handler: Result<EventHandler<P, C>, Error>)
        ensures
            match registered {
                Err(RegistryError::Init { source }) => handler == Err::<EventHandler<P, C>, Error>(
                    source,
                ),
                Err(RegistryError::TypeMismatch) => handler == Err::<EventHandler<P, C>, Error>(
                    Error::ClientRegistryMismatch,
                ),
                Ok(producer) => handler matches Ok(made) && self.is_handler(producer, made),
            },
    {
        match registered {
            Ok(producer) => Ok(
                EventHandler {
                    producer,
                    task_id: self.task_id,
                    tx: self.tx.clone(),
                    config: Arc::clone(&self.config),
                    task_type: self.task_type,
                },
            ),
            Err(RegistryError::Init { source }) => Err(source),
            Err(RegistryError::TypeMismatch) => Err(Error::ClientRegistryMismatch),
        }
    }
}

/// Producers with the same rendered credentials and brokers share a connection,
/// whatever else differs: they ask the registry for the same, and where it holds
/// a producer for that, both handlers hold that one, each beside its own task
/// and its own configuration, which is not rendered.
pub proof fn law_producers_share_a_connection<C, X, P>(
    first: Producer<C, X>,
    first_rendered: Produce,
    first_handler: EventHandler<P, C>,
    second: Producer<C, X>,
    second_rendered: Produce,
    second_handler: EventHandler<P, C>,
    registry: spec_fn(ClientRequest) -> Arc<P>,
)
    requires
        first_rendered.credentials_path == second_rendered.credentials_path,
        first_rendered.brokers == second_rendered.brokers,
        first.is_handler(registry(request_of(first_rendered)), first_handler),
        second.is_handler(registry(request_of(second_rendered)), second_handler),
    ensures
        request_of(first_rendered) == request_of(second_rendered),
        first_handler.producer == second_handler.producer,
        second_handler.config == second.config,
        second_handler.task_id == second.task_id,
        second_handler.task_type == second.task_type,
        passed_on(second.tx, second_handler.tx),
{
}

/// Builder of a producer task.
#[verifier::reject_recursive_types(C)]
pub struct ProducerBuilder<C, X> {
    pub config: Option<Arc<Produce>>,
    pub rx: Option<Receiver<Event<C>>>,
    pub tx: Option<Sender<Event<C>>>,
    pub task_id: usize,
    pub task_context: Option<Arc<X>>,
    pub task_type: Option<&'static str>,
}

impl<C, X> Default for ProducerBuilder<C, X> {
    fn default() -> (builder: Self)
        ensures
            builder == (ProducerBuilder::<C, X> {
                config: None,
                rx: None,
                tx: None,
                task_id: 0,
                task_context: None,
                task_type: None,
            }),
    {
        ProducerBuilder {
            config: None,
            rx: None,
            tx: None,
            task_id: 0,
            task_context: None,
            task_type: None,
        }
    }
}

impl<C, X> ProducerBuilder<C, X> {
    /// A builder without attributes.
    pub fn new() -> (builder: ProducerBuilder<C, X>)
        ensures
            builder == (ProducerBuilder::<C, X> {
                config: None,
                rx: None,
                tx: None,
                task_id: 0,
                task_context: None,
                task_type: None,
            }),
    {
        ProducerBuilder::default()
    }

    /// Sets the configuration.
    pub fn config(self, config: Arc<Produce>) -> (builder: Self)
        ensures
            builder == (ProducerBuilder { config: Some(config), ..self }),
    {
        ProducerBuilder { config: Some(config), ..self }
    }

    /// Sets the channel that events come from.
    pub fn receiver(self, receiver: Receiver<Event<C>>) -> (builder: Self)
        ensures
            builder == (ProducerBuilder { rx: Some(receiver), ..self }),
    {
        ProducerBuilder { rx: Some(receiver), ..self }
    }

    /// Sets an optional downstream sender.
    pub fn sender(self, sender: Sender<Event<C>>) -> (builder: Self)
        ensures
            builder == (ProducerBuilder { tx: Some(sender), ..self }),
    {
        ProducerBuilder { tx: Some(sender), ..self }
    }

    /// Sets the number of the task in its flow.
    pub fn task_id(self, task_id: usize) -> (builder: Self)
        ensures
            builder == (ProducerBuilder { task_id, ..self }),
    {
        ProducerBuilder { task_id, ..self }
    }

    /// Sets the context that the task runs in.
    pub fn task_context(self, task_context: Arc<X>) -> (builder: Self)
        ensures
            builder == (ProducerBuilder { task_context: Some(task_context), ..self }),
    {
        ProducerBuilder { task_context: Some(task_context), ..self }
    }

    /// Sets the type of the task.
    pub fn task_type(self, task_type: &'static str) -> (builder: Self)
        ensures
            builder == (ProducerBuilder { task_type: Some(task_type), ..self }),
    {
        ProducerBuilder { task_type: Some(task_type), ..self }
    }

    /// The first required attribute that is missing.
    pub open spec fn missing(self) -> Option<Seq<char>> {
        if self.config is None {
            Some("config"@)
        } else if self.rx is None {
            Some("receiver"@)
        } else if self.task_context is None {
            Some("task_context"@)
        } else if self.task_type is None {
            Some("task_type"@)
        } else {
            None
        }
    }

    /// The producer task. All but the sender and the number are required.
    pub fn build(self) -> (producer: Result<Producer<C, X>, Error>)
        ensures
            match self.missing() {
                Some(attribute) => producer matches Err(Error::MissingBuilderAttribute(name))
                    && name@ == attribute,
                None => producer == Ok::<Producer<C, X>, Error>(
                    (Producer {
                        config: self.config->0,
                        rx: self.rx->0,
                        tx: self.tx,
                        task_id: self.task_id,
                        task_context: self.task_context->0,
                        task_type: self.task_type->0,
                    }),
                ),
            },
    {
        let config = match self.config {
            Some(config) => config,
            None => return Err(Error::MissingBuilderAttribute("config".to_string())),
        };
        let rx = match self.rx {
            Some(rx) => rx,
            None => return Err(Error::MissingBuilderAttribute("receiver".to_string())),
        };
        let task_context = match self.task_context {
            Some(task_context) => task_context,
            None => return Err(Error::MissingBuilderAttribute("task_context".to_string())),
        };
        let task_type = match self.task_type {
            Some(task_type) => task_type,
            None => return Err(Error::MissingBuilderAttribute("task_type".to_string())),
        };
        Ok(Producer { config, rx, tx: self.tx, task_id: self.task_id, task_context, task_type })
    }
}

} // verus!
