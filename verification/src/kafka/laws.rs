//! What connecting and producing do, said of arguments and results.

use crate::event::{is_own, is_sent_on, Emission, Event, EventData};
use crate::json::{is_lossless, json_bytes, json_members, json_parsed, json_value, JsonValue};
use crate::kafka::client;
use crate::kafka::client::{
    apply_credentials, build_base_config, client_settings, BaseConfig, Client, Credentials,
    CredentialsFile, PendingConfig,
};
use crate::kafka::config::Produce;
use crate::kafka::produce::{
    connected_producer, is_message, parse_json_payload, serialize_event_to_bytes, ClientRequest,
    Delivered, Encoded, Error, EventHandler, Handling, Outgoing, Prepared, ProduceResult, Producer,
    ProducerBuilder, Unkeyed,
};
use crate::stream::{
    arrow_stream_bytes, batch_schema, stream_bytes, stream_finish_error, stream_open_error,
    stream_write_error, ArrowBatch, StreamState,
};
use crate::task::{RegistryError, Retry};
use crate::text::path_text;
use arrow::error::ArrowError;
use rdkafka::config::ClientConfig;
use rdkafka::error::KafkaError;
use serde_json::Value;
use std::path::PathBuf;
use std::sync::Arc;
use tokio::sync::mpsc::{Receiver, Sender};
use vstd::prelude::*;
use vstd::string::to_string_from_display_ensures;

verus! {

/// Whether a parameter is set as before, or is missing as before.
pub open spec fn is_untouched(
    before: Map<Seq<char>, Seq<char>>,
    after: Map<Seq<char>, Seq<char>>,
    key: Seq<char>,
) -> bool {
    forall|value: Seq<char>|
        #[trigger] after.contains_pair(key, value) == before.contains_pair(key, value)
}

/// The settings that a base configuration has so far.
pub open spec fn settings_so_far(built: BaseConfig) -> Map<Seq<char>, Seq<char>> {
    match built {
        BaseConfig::Complete(config) => client_settings(config),
        BaseConfig::NeedsCredentials(pending) => client_settings(pending.config),
    }
}

/// The names of the parameters differ, the most of them in their second letter.
proof fn lemma_names_differ()
    ensures
        "bootstrap.servers"@[1] == 'o',
        "message.timeout.ms"@[1] == 'e',
        "security.protocol"@[1] == 'e',
        "message.timeout.ms"@ != "security.protocol"@,
        "sasl.mechanism"@[1] == 'a',
        "sasl.username"@[1] == 'a',
        "sasl.password"@[1] == 'a',
        "sasl.mechanism"@ != "sasl.username"@,
        "sasl.mechanism"@ != "sasl.password"@,
        "sasl.username"@ != "sasl.password"@,
        "ssl.ca.location"@[1] == 's',
        "ssl.certificate.location"@[1] == 's',
        "ssl.key.location"@[1] == 's',
        "ssl.key.password"@[1] == 's',
        "ssl.ca.location"@ != "ssl.certificate.location"@,
        "ssl.ca.location"@ != "ssl.key.location"@,
        "ssl.ca.location"@ != "ssl.key.password"@,
        "ssl.certificate.location"@ != "ssl.key.location"@,
        "ssl.certificate.location"@ != "ssl.key.password"@,
        "ssl.key.location"@ != "ssl.key.password"@,
{
    reveal_strlit("bootstrap.servers");
    reveal_strlit("message.timeout.ms");
    reveal_strlit("security.protocol");
    reveal_strlit("sasl.mechanism");
    reveal_strlit("sasl.username");
    reveal_strlit("sasl.password");
    reveal_strlit("ssl.ca.location");
    reveal_strlit("ssl.certificate.location");
    reveal_strlit("ssl.key.location");
    reveal_strlit("ssl.key.password");
    assert("sasl.username"@[5] == 'u' && "sasl.password"@[5] == 'p');
    assert("ssl.key.location"@[8] == 'l' && "ssl.key.password"@[8] == 'p');
    assert("message.timeout.ms"@.len() == 18 && "security.protocol"@.len() == 17);
    assert("sasl.mechanism"@.len() == 14 && "sasl.username"@.len() == 13);
    assert("sasl.password"@.len() == 13 && "ssl.ca.location"@.len() == 15);
    assert("ssl.certificate.location"@.len() == 24 && "ssl.key.location"@.len() == 16);
    assert("ssl.key.password"@.len() == 16);
}

/// A client connects to the brokers that it was given, with or without
/// credentials, and to the local default only where it was given none. It waits
/// five seconds for a message, has no other setting so far, and still needs its
/// credentials exactly where it has a path to read them from.
pub proof fn law_client_connects_to_its_brokers<P, A>(client: Client<P, A>, built: BaseConfig)
    requires
        call_ensures(Client::<P, A>::connect_config, (&client,), built),
    ensures
        client.brokers matches Some(brokers) ==> settings_so_far(built).contains_pair(
            "bootstrap.servers"@,
            brokers@,
        ),
        client.brokers is None ==> settings_so_far(built).contains_pair(
            "bootstrap.servers"@,
            "localhost:9092"@,
        ),
        settings_so_far(built).contains_pair("message.timeout.ms"@, "5000"@),
        forall|key: Seq<char>| #[trigger]
            settings_so_far(built).dom().contains(key) ==> key == "bootstrap.servers"@ || key
                == "message.timeout.ms"@,
        match client.credentials_path {
            Some(path) => built matches BaseConfig::NeedsCredentials(pending) && pending.path
                == path,
            None => built is Complete,
        },
{
    lemma_names_differ();
}

/// A base configuration has the brokers that it is built for, whatever the
/// credentials path, and needs the credentials at that path.
pub proof fn law_base_config_has_its_brokers(
    credentials_path: Option<PathBuf>,
    brokers: &str,
    built: BaseConfig,
)
    requires
        call_ensures(build_base_config, (&credentials_path, brokers), built),
    ensures
        settings_so_far(built).contains_pair("bootstrap.servers"@, brokers@),
        settings_so_far(built).contains_pair("message.timeout.ms"@, "5000"@),
        forall|key: Seq<char>| #[trigger]
            settings_so_far(built).dom().contains(key) ==> key == "bootstrap.servers"@ || key
                == "message.timeout.ms"@,
        match credentials_path {
            Some(path) => built matches BaseConfig::NeedsCredentials(pending) && pending.path
                == path,
            None => built is Complete,
        },
{
    lemma_names_differ();
}

/// Whether the settings after credentials were applied are those before them with
/// each part of the credentials under its own parameter.
///
/// A name, a password and a mechanism are set together. Each file of a
/// certificate and its password is set where it is given, whichever of the
/// others are, and left as it was where it is not. The protocol is `SSL` with a
/// certificate, `SASL_PLAINTEXT` with a login alone. Nothing else is touched.
pub open spec fn carries_credentials(
    before: Map<Seq<char>, Seq<char>>,
    credentials: Credentials,
    after: Map<Seq<char>, Seq<char>>,
) -> bool {
    &&& match credentials.sasl {
        Some(sasl) => {
            &&& after.contains_pair("sasl.mechanism"@, sasl.mechanism@)
            &&& after.contains_pair("sasl.username"@, sasl.username@)
            &&& after.contains_pair("sasl.password"@, sasl.password@)
        },
        None => {
            &&& is_untouched(before, after, "sasl.mechanism"@)
            &&& is_untouched(before, after, "sasl.username"@)
            &&& is_untouched(before, after, "sasl.password"@)
        },
    }
    &&& match credentials.ssl {
        Some(ssl) => {
            &&& match ssl.ca_location {
                Some(path) => after.contains_pair("ssl.ca.location"@, path_text(path)),
                None => is_untouched(before, after, "ssl.ca.location"@),
            }
            &&& match ssl.certificate_location {
                Some(path) => after.contains_pair("ssl.certificate.location"@, path_text(path)),
                None => is_untouched(before, after, "ssl.certificate.location"@),
            }
            &&& match ssl.key_location {
                Some(path) => after.contains_pair("ssl.key.location"@, path_text(path)),
                None => is_untouched(before, after, "ssl.key.location"@),
            }
            &&& match ssl.key_password {
                Some(password) => after.contains_pair("ssl.key.password"@, password@),
                None => is_untouched(before, after, "ssl.key.password"@),
            }
            &&& after.contains_pair("security.protocol"@, "SSL"@)
        },
        None => {
            &&& is_untouched(before, after, "ssl.ca.location"@)
            &&& is_untouched(before, after, "ssl.certificate.location"@)
            &&& is_untouched(before, after, "ssl.key.location"@)
            &&& is_untouched(before, after, "ssl.key.password"@)
            &&& match credentials.sasl {
                Some(_) => after.contains_pair("security.protocol"@, "SASL_PLAINTEXT"@),
                None => is_untouched(before, after, "security.protocol"@),
            }
        },
    }
    &&& forall|key: Seq<char>|
        key != "sasl.mechanism"@ && key != "sasl.username"@ && key != "sasl.password"@ && key
            != "ssl.ca.location"@ && key != "ssl.certificate.location"@ && key
            != "ssl.key.location"@ && key != "ssl.key.password"@ && key != "security.protocol"@
            ==> #[trigger] is_untouched(before, after, key)
}

/// Credentials that were read reach the configuration, each part of them under
/// its own parameter.
pub proof fn law_loaded_credentials_are_carried(
    pending: PendingConfig,
    credentials: Credentials,
    finished: Result<ClientConfig, client::Error>,
)
    requires
        call_ensures(
            PendingConfig::loaded,
            (pending, CredentialsFile::Loaded(credentials)),
            finished,
        ),
    ensures
        finished matches Ok(config) && carries_credentials(
            client_settings(pending.config),
            credentials,
            client_settings(config),
        ),
{
    lemma_names_differ();
}

/// Applying credentials that were read carries each part of them, and succeeds.
pub proof fn law_applied_credentials_are_carried(
    config: &mut ClientConfig,
    path: PathBuf,
    credentials: Credentials,
    applied: Result<(), client::Error>,
)
    requires
        call_ensures(
            apply_credentials,
            (config, &path, CredentialsFile::Loaded(credentials)),
            applied,
        ),
    ensures
        applied is Ok,
        carries_credentials(
            client_settings(*old(config)),
            credentials,
            client_settings(*final(config)),
        ),
{
    lemma_names_differ();
}

/// A credentials file that gave no credentials is the reason that connecting
/// fails, with the path of the file where it could not be read.
pub proof fn law_missing_credentials_are_told(
    pending: PendingConfig,
    file: CredentialsFile,
    finished: Result<ClientConfig, client::Error>,
)
    requires
        call_ensures(PendingConfig::loaded, (pending, file), finished),
    ensures
        finished is Ok == file is Loaded,
        file matches CredentialsFile::Unreadable { source } ==> finished == Err::<
            ClientConfig,
            client::Error,
        >((client::Error::ReadCredentials { path: pending.path, source })),
        file matches CredentialsFile::Malformed { source } ==> finished == Err::<
            ClientConfig,
            client::Error,
        >((client::Error::ParseCredentials { source })),
{
}

/// A credentials file that gave no credentials changes no setting.
pub proof fn law_missing_credentials_change_nothing(
    config: &mut ClientConfig,
    path: PathBuf,
    file: CredentialsFile,
    applied: Result<(), client::Error>,
)
    requires
        call_ensures(apply_credentials, (config, &path, file), applied),
    ensures
        applied is Ok == file is Loaded,
        applied is Err ==> client_settings(*final(config)) == client_settings(*old(config)),
        file matches CredentialsFile::Unreadable { source } ==> applied == Err::<(), client::Error>(
            (client::Error::ReadCredentials { path, source }),
        ),
        file matches CredentialsFile::Malformed { source } ==> applied == Err::<(), client::Error>(
            (client::Error::ParseCredentials { source }),
        ),
{
}

/// A client begins with what it is given and no connection. The producer and the
/// admin client that are made for it take their own places and change nothing
/// else, and one that could not be made is told.
pub proof fn law_client_keeps_its_parts<P, A>(
    credentials_path: Option<PathBuf>,
    brokers: Option<String>,
    fresh: Client<P, A>,
    client: Client<P, A>,
    producer: Result<P, KafkaError>,
    produced: Result<Client<P, A>, client::Error>,
    admin_client: Result<A, KafkaError>,
    administered: Result<Client<P, A>, client::Error>,
)
    requires
        call_ensures(Client::<P, A>::new, (credentials_path, brokers), fresh),
        call_ensures(Client::<P, A>::with_producer, (client, producer), produced),
        call_ensures(Client::<P, A>::with_admin_client, (client, admin_client), administered),
    ensures
        fresh.credentials_path == credentials_path,
        fresh.brokers == brokers,
        fresh.producer is None,
        fresh.admin_client is None,
        match producer {
            Ok(made) => {
                &&& produced matches Ok(next)
                &&& next.producer == Some(made)
                &&& next.admin_client == client.admin_client
                &&& next.credentials_path == client.credentials_path
                &&& next.brokers == client.brokers
            },
            Err(source) => produced == Err::<Client<P, A>, client::Error>(
                (client::Error::CreateProducer { source }),
            ),
        },
        match admin_client {
            Ok(made) => {
                &&& administered matches Ok(next)
                &&& next.admin_client == Some(made)
                &&& next.producer == client.producer
                &&& next.credentials_path == client.credentials_path
                &&& next.brokers == client.brokers
            },
            Err(source) => administered == Err::<Client<P, A>, client::Error>(
                (client::Error::CreateAdminClient { source }),
            ),
        },
{
}

/// The stream of a record batch fails with what its first failing step fails
/// with, and is written where no step fails: its schema, the batch, and the end.
pub proof fn law_stream_of_a_batch(batch: ArrowBatch, written: Result<Vec<u8>, ArrowError>)
    requires
        call_ensures(arrow_stream_bytes, (&batch,), written),
    ensures
        ({
            let schema = batch_schema(batch);
            let open = stream_open_error(schema);
            let write = stream_write_error(
                (StreamState { schema, batches: Seq::empty(), finished: false }),
                batch,
            );
            let finish = stream_finish_error(
                (StreamState { schema, batches: seq![batch], finished: false }),
            );
            &&& written is Ok == (open is None && write is None && finish is None)
            &&& written matches Ok(bytes) ==> bytes@ == stream_bytes(
                (StreamState { schema, batches: seq![batch], finished: true }),
            )
            &&& written matches Err(error) ==> Some(error) == (if open is Some {
                open
            } else if write is Some {
                write
            } else {
                finish
            })
        }),
{
}

/// Whether `payload` is what an event with this data is sent as: the bytes, the
/// Avro bytes, the JSON text, or the finished stream of the record batch.
pub open spec fn is_sent_as(data: EventData, payload: Seq<u8>) -> bool {
    match data {
        EventData::Bytes(bytes) => payload == bytes@,
        EventData::Avro(avro) => payload == avro.raw_bytes@,
        EventData::Json(value) => payload == json_bytes(value),
        EventData::ArrowRecordBatch(batch) => payload == stream_bytes(
            (StreamState {
                schema: batch_schema(*batch),
                batches: seq![*batch],
                finished: true,
            }),
        ),
    }
}

/// What the stream of a record batch fails with, where it fails: what the first
/// failing step does.
pub open spec fn stream_failure(batch: ArrowBatch) -> Option<ArrowError> {
    let schema = batch_schema(batch);
    let opened = StreamState { schema, batches: Seq::empty(), finished: false };
    if stream_open_error(schema) is Some {
        stream_open_error(schema)
    } else if stream_write_error(opened, batch) is Some {
        stream_write_error(opened, batch)
    } else {
        stream_finish_error((StreamState { schema, batches: seq![batch], finished: false }))
    }
}

/// Whether `error` is why an event with this data has no payload: it is a record
/// batch that no stream can hold.
pub open spec fn is_unsendable(data: EventData, error: Error) -> bool {
    data matches EventData::ArrowRecordBatch(batch) && (error matches Error::Arrow { source }
        && stream_failure(*batch) == Some(source))
}

/// The payload of an event depends on its data alone. Only a record batch that no
/// stream can hold has none.
pub proof fn law_payload_is_the_data<C>(event: Event<C>, encoded: Result<Vec<u8>, Error>)
    requires
        call_ensures(serialize_event_to_bytes::<C>, (&event,), encoded),
    ensures
        encoded matches Ok(payload) ==> is_sent_as(event.data, payload@),
        encoded matches Err(error) ==> is_unsendable(event.data, error),
        event.data matches EventData::ArrowRecordBatch(batch) ==> stream_failure(*batch) is Some
            ==> encoded is Err,
{
}

/// A payload is parsed as the JSON value that it tells, and one that tells none is
/// refused with its own source.
pub proof fn law_payload_is_parsed(payload: Vec<u8>, parsed: Result<Value, Error>)
    requires
        call_ensures(parse_json_payload, (&payload,), parsed),
    ensures
        json_parsed(payload@) matches Ok(value) ==> parsed == Ok::<Value, Error>(value),
        json_parsed(payload@) matches Err(source) ==> parsed == Err::<Value, Error>(
            (Error::SerdeJson { source }),
        ),
{
}

/// JSON without floats, and without more layers than are read, is parsed from the
/// payload that it was sent as.
pub proof fn law_sent_json_is_parsed<C>(
    event: Event<C>,
    value: Value,
    payload: Vec<u8>,
    parsed: Result<Value, Error>,
)
    requires
        event.data == EventData::Json(value),
        call_ensures(serialize_event_to_bytes::<C>, (&event,), Ok(payload)),
        is_lossless(value, 127),
        call_ensures(parse_json_payload, (&payload,), parsed),
    ensures
        parsed == Ok::<Value, Error>(value),
{
}

/// A configuration that nothing was said of names nothing.
pub proof fn law_default_config_is_empty(config: Produce)
    requires
        call_ensures(<Produce as Default>::default, (), config),
    ensures
        config.name@.len() == 0,
        config.brokers@.len() == 0,
        config.topic@.len() == 0,
        config.credentials_path is None,
        config.message_key is None,
        config.ack_timeout is None,
        config.depends_on is None,
{
}

/// An event is handled by the handler that it was given to, and its completion is
/// its own.
pub proof fn law_handling_keeps_the_event<P, C: Clone>(
    handler: EventHandler<P, C>,
    event: Event<C>,
    handling: Handling<'static, P, C>,
    value: Result<Value, String>,
    encoded: Result<Encoded<'static, P, C>, Error>,
)
    requires
        call_ensures(EventHandler::<P, C>::handle, (&handler, &event), handling),
        call_ensures(Handling::<'static, P, C>::encoded, (handling, value), encoded),
    ensures
        match value {
            Ok(value) => {
                &&& encoded matches Ok(next)
                &&& next.value == value
                &&& *next.handler == handler
                &&& *next.event == event
                &&& is_own(event.completion_tx, next.completion)
            },
            Err(source) => encoded == Err::<Encoded<P, C>, Error>((Error::EventBuilder { source })),
        },
{
}

/// A record goes to the topic of the configuration that was rendered with the
/// event, and holds the event's data. It waits for a key exactly where that
/// configuration has a template for one, and is ready with an empty key where it
/// has none.
pub proof fn law_record_follows_the_rendered_config<P, C>(
    encoded: Encoded<'static, P, C>,
    config: Produce,
    next: Result<Prepared<'static, P, C>, Error>,
)
    requires
        call_ensures(Encoded::<'static, P, C>::rendered, (encoded, Ok(config)), next),
    ensures
        match next {
            Ok(Prepared::NeedsKey(unkeyed)) => {
                &&& config.message_key == Some(unkeyed.template)
                &&& unkeyed.topic == config.topic
                &&& is_sent_as(encoded.event.data, unkeyed.payload@)
                &&& unkeyed.value == encoded.value
                &&& unkeyed.handler == encoded.handler
                &&& unkeyed.completion == encoded.completion
            },
            Ok(Prepared::Ready(outgoing)) => {
                &&& config.message_key is None
                &&& outgoing.record.topic == config.topic
                &&& is_sent_as(encoded.event.data, outgoing.record.payload@)
                &&& outgoing.record.key@.len() == 0
                &&& outgoing.record.queue_timeout_secs == 30
                &&& outgoing.handler == encoded.handler
                &&& outgoing.completion == encoded.completion
            },
            Err(error) => is_unsendable(encoded.event.data, error),
        },
        encoded.event.data matches EventData::ArrowRecordBatch(batch) ==> stream_failure(
            *batch,
        ) is Some ==> next is Err,
{
}

/// A configuration that cannot be rendered is told, and nothing is sent.
pub proof fn law_unrendered_config_is_told<P, C>(
    encoded: Encoded<'static, P, C>,
    source: String,
    next: Result<Prepared<'static, P, C>, Error>,
    unkeyed: Unkeyed<'static, P, C>,
    outgoing: Result<Outgoing<'static, P, C>, Error>,
)
    requires
        call_ensures(Encoded::<'static, P, C>::rendered, (encoded, Err(source)), next),
        call_ensures(Unkeyed::<'static, P, C>::keyed, (unkeyed, Err(source)), outgoing),
    ensures
        next == Err::<Prepared<P, C>, Error>((Error::ConfigRender { source })),
        outgoing == Err::<Outgoing<P, C>, Error>((Error::ConfigRender { source })),
{
}

/// A key changes nothing of a record but its key.
pub proof fn law_key_is_the_records_key<P, C>(
    unkeyed: Unkeyed<'static, P, C>,
    key: String,
    outgoing: Result<Outgoing<'static, P, C>, Error>,
)
    requires
        call_ensures(Unkeyed::<'static, P, C>::keyed, (unkeyed, Ok(key)), outgoing),
    ensures
        outgoing matches Ok(next) && next.record.key == key && next.record.topic == unkeyed.topic
            && next.record.payload == unkeyed.payload && next.record.queue_timeout_secs == 30
            && next.handler == unkeyed.handler && next.completion == unkeyed.completion,
{
}

/// A stored record is told by the topic that it was sent to, and by the partition
/// and the offset that it was stored at, in an event of the task that sent it,
/// under the name of that task.
pub proof fn law_stored_record_is_told<P, C>(
    outgoing: Outgoing<'static, P, C>,
    partition: i32,
    offset: i64,
    next: Result<Delivered<'static, P, C>, Error>,
)
    requires
        call_ensures(Outgoing::<'static, P, C>::sent, (outgoing, Ok((partition, offset))), next),
    ensures
        next matches Ok(delivered) && {
            &&& delivered.result.topic == outgoing.record.topic
            &&& delivered.result.partition == partition
            &&& delivered.result.offset == offset
            &&& delivered.draft.data matches EventData::Json(value)
            &&& tells_place(value, outgoing.record.topic@, partition, offset)
            &&& delivered.draft.subject == Some(outgoing.handler.config.name)
            &&& delivered.draft.id is None
            &&& delivered.draft.task_id == outgoing.handler.task_id
            &&& delivered.draft.task_type == outgoing.handler.task_type
            &&& delivered.handler == outgoing.handler
            &&& delivered.completion == outgoing.completion
        },
{
}

/// Whether a JSON value tells a place and nothing else: the topic, the partition
/// and the offset, in this order.
pub open spec fn tells_place(value: Value, topic: Seq<char>, partition: i32, offset: i64) -> bool {
    json_value(value) matches JsonValue::Object(map) && {
        let members = json_members(map);
        &&& members.len() == 3
        &&& members[0].0 == "topic"@ && json_value(members[0].1) == JsonValue::Text(topic)
        &&& members[1].0 == "partition"@ && json_value(members[1].1) == JsonValue::Integer(
            partition as int,
        )
        &&& members[2].0 == "offset"@ && json_value(members[2].1) == JsonValue::Integer(
            offset as int,
        )
    }
}

/// The JSON form of a result tells its place.
pub proof fn law_result_tells_its_place(result: ProduceResult, value: Value)
    requires
        call_ensures(ProduceResult::to_value, (&result,), value),
    ensures
        tells_place(value, result.topic@, result.partition, result.offset),
{
}

/// A record that was not stored, an event that was not built and one that was not
/// sent on are each told as what they are, with their own source.
pub proof fn law_producing_tells_its_failure<P, C>(
    outgoing: Outgoing<'static, P, C>,
    lost: KafkaError,
    undelivered: Result<Delivered<'static, P, C>, Error>,
    delivered: Delivered<'static, P, C>,
    source: String,
    unbuilt: Result<Emission<C>, Error>,
    handler: EventHandler<P, C>,
    unsent: Result<(), Error>,
    sent: Result<(), Error>,
)
    requires
        call_ensures(Outgoing::<'static, P, C>::sent, (outgoing, Err(lost)), undelivered),
        call_ensures(Delivered::<'static, P, C>::built, (delivered, Err(source)), unbuilt),
        call_ensures(EventHandler::<P, C>::finished, (&handler, Err(source)), unsent),
        call_ensures(EventHandler::<P, C>::finished, (&handler, Ok(())), sent),
    ensures
        undelivered == Err::<Delivered<P, C>, Error>((Error::Produce { source: lost })),
        unbuilt == Err::<Emission<C>, Error>((Error::EventBuilder { source })),
        unsent == Err::<(), Error>((Error::SendMessage { source })),
        sent is Ok,
{
}

/// The result event of a stored record takes the completion along where the task
/// has a sender; else the completion is signalled. The event is sent as built.
pub proof fn law_result_takes_the_completion<P, C>(
    delivered: Delivered<'static, P, C>,
    event: Event<C>,
    emission: Result<Emission<C>, Error>,
)
    requires
        call_ensures(Delivered::<'static, P, C>::built, (delivered, Ok(event)), emission),
    ensures
        emission matches Ok(sent) && is_sent_on(
            event,
            delivered.completion,
            delivered.handler.tx is Some,
            sent,
        ),
{
}

/// A producer connects with the credentials and to the brokers of its rendered
/// configuration.
pub proof fn law_producer_connects_as_rendered<C, X, P, A>(
    producer: Producer<C, X>,
    rendered: Produce,
    request: ClientRequest,
    client: Client<P, A>,
)
    requires
        call_ensures(Producer::<C, X>::init, (&producer, Ok(rendered)), Ok(request)),
        call_ensures(ClientRequest::into_client::<P, A>, (request,), client),
    ensures
        client.credentials_path == rendered.credentials_path,
        client.brokers == Some(rendered.brokers),
        client.producer is None,
        client.admin_client is None,
{
}

/// A configuration that renders gives a request, and one that does not is told.
pub proof fn law_producer_needs_a_rendered_config<C, X>(
    producer: Producer<C, X>,
    rendered: Result<Produce, String>,
    request: Result<ClientRequest, Error>,
)
    requires
        call_ensures(Producer::<C, X>::init, (&producer, rendered), request),
    ensures
        request is Ok == rendered is Ok,
        rendered matches Err(source) ==> request == Err::<ClientRequest, Error>(
            (Error::ConfigRender { source }),
        ),
{
}

/// The producer that a task uses is the one that its client was connected with.
pub proof fn law_producer_is_the_connected_one<P, A>(
    connected: Result<Client<P, A>, client::Error>,
    producer: Result<P, Error>,
)
    requires
        call_ensures(connected_producer::<P, A>, (connected,), producer),
    ensures
        producer matches Ok(made) ==> (connected matches Ok(client) && client.producer == Some(
            made,
        )),
        producer is Ok == (connected matches Ok(client) && client.producer is Some),
        connected matches Ok(client) ==> client.producer is None ==> producer == Err::<P, Error>(
            Error::MissingClient,
        ),
        connected matches Err(source) ==> producer == Err::<P, Error>(
            (Error::ClientAuth { source }),
        ),
{
}

/// A handler holds the registered producer beside its own task: the number, the
/// type, the sender, and the configuration as it was given. Without a producer
/// there is no handler, and the registry's reason is told.
pub proof fn law_handler_belongs_to_its_producer<C, X, P>(
    producer: Producer<C, X>,
    registered: Result<Arc<P>, RegistryError<Error>>,
    handler: Result<EventHandler<P, C>, Error>,
)
    requires
        call_ensures(Producer::<C, X>::event_handler::<P>, (&producer, registered), handler),
    ensures
        match registered {
            Ok(shared) => {
                &&& handler matches Ok(made)
                &&& made.producer == shared
                &&& made.config == producer.config
                &&& made.task_id == producer.task_id
                &&& made.task_type == producer.task_type
                &&& made.tx is Some == producer.tx is Some
                &&& made.tx is Some ==> cloned(producer.tx->0, made.tx->0)
            },
            Err(RegistryError::Init { source }) => handler == Err::<EventHandler<P, C>, Error>(
                source,
            ),
            Err(RegistryError::TypeMismatch) => handler == Err::<EventHandler<P, C>, Error>(
                Error::ClientRegistryMismatch,
            ),
        },
{
}

/// Initialization gives up on a configuration that does not render and on a
/// missing client, and tries everything else again. Every event that failed is
/// tried again.
pub proof fn law_producer_retries(error: Error, init: Retry, handle: Retry)
    requires
        call_ensures(Error::init_retry, (&error,), init),
        call_ensures(Error::handle_retry, (&error,), handle),
    ensures
        init is Permanent == (error is ConfigRender || error is MissingClient),
        handle is Transient,
{
}

/// A producer is built from what its builder was given, each attribute where it
/// belongs: the sender may be missing and the number is zero without one.
pub proof fn law_producer_is_built_as_given<C, X>(
    fresh: ProducerBuilder<C, X>,
    config: Arc<Produce>,
    configured: ProducerBuilder<C, X>,
    receiver: Receiver<Event<C>>,
    receiving: ProducerBuilder<C, X>,
    task_context: Arc<X>,
    placed: ProducerBuilder<C, X>,
    task_type: &'static str,
    typed: ProducerBuilder<C, X>,
    plain: Result<Producer<C, X>, Error>,
    sender: Sender<Event<C>>,
    sending: ProducerBuilder<C, X>,
    task_id: usize,
    numbered: ProducerBuilder<C, X>,
    full: Result<Producer<C, X>, Error>,
)
    requires
        call_ensures(ProducerBuilder::<C, X>::new, (), fresh),
        call_ensures(ProducerBuilder::<C, X>::config, (fresh, config), configured),
        call_ensures(ProducerBuilder::<C, X>::receiver, (configured, receiver), receiving),
        call_ensures(ProducerBuilder::<C, X>::task_context, (receiving, task_context), placed),
        call_ensures(ProducerBuilder::<C, X>::task_type, (placed, task_type), typed),
        call_ensures(ProducerBuilder::<C, X>::build, (typed,), plain),
        call_ensures(ProducerBuilder::<C, X>::sender, (typed, sender), sending),
        call_ensures(ProducerBuilder::<C, X>::task_id, (sending, task_id), numbered),
        call_ensures(ProducerBuilder::<C, X>::build, (numbered,), full),
    ensures
        plain matches Ok(built) && built.config == config && built.rx == receiver
            && built.task_context == task_context && built.task_type == task_type
            && built.tx is None && built.task_id == 0,
        full matches Ok(built) && built.config == config && built.rx == receiver
            && built.task_context == task_context && built.task_type == task_type && built.tx
            == Some(sender) && built.task_id == task_id,
{
}

/// Setting one attribute of a builder leaves the others, and a later setting
/// takes the place of an earlier one.
pub proof fn law_producer_attributes_are_independent<C, X>(
    builder: ProducerBuilder<C, X>,
    config: Arc<Produce>,
    configured: ProducerBuilder<C, X>,
    receiver: Receiver<Event<C>>,
    receiving: ProducerBuilder<C, X>,
    sender: Sender<Event<C>>,
    sending: ProducerBuilder<C, X>,
    task_id: usize,
    numbered: ProducerBuilder<C, X>,
    task_context: Arc<X>,
    placed: ProducerBuilder<C, X>,
    task_type: &'static str,
    typed: ProducerBuilder<C, X>,
)
    requires
        call_ensures(ProducerBuilder::<C, X>::config, (builder, config), configured),
        call_ensures(ProducerBuilder::<C, X>::receiver, (builder, receiver), receiving),
        call_ensures(ProducerBuilder::<C, X>::sender, (builder, sender), sending),
        call_ensures(ProducerBuilder::<C, X>::task_id, (builder, task_id), numbered),
        call_ensures(ProducerBuilder::<C, X>::task_context, (builder, task_context), placed),
        call_ensures(ProducerBuilder::<C, X>::task_type, (builder, task_type), typed),
    ensures
        configured == (ProducerBuilder { config: Some(config), ..builder }),
        receiving == (ProducerBuilder { rx: Some(receiver), ..builder }),
        sending == (ProducerBuilder { tx: Some(sender), ..builder }),
        numbered == (ProducerBuilder { task_id, ..builder }),
        placed == (ProducerBuilder { task_context: Some(task_context), ..builder }),
        typed == (ProducerBuilder { task_type: Some(task_type), ..builder }),
{
}

/// A producer is built exactly where the four attributes that it needs are given,
/// and the first that is missing is named.
pub proof fn law_producer_needs_its_attributes<C, X>(
    builder: ProducerBuilder<C, X>,
    built: Result<Producer<C, X>, Error>,
)
    requires
        call_ensures(ProducerBuilder::<C, X>::build, (builder,), built),
    ensures
        built is Ok == (builder.config is Some && builder.rx is Some && builder.task_context is Some
            && builder.task_type is Some),
        built matches Err(error) ==> (error matches Error::MissingBuilderAttribute(name) && name@
            == (if builder.config is None {
            "config"@
        } else if builder.rx is None {
            "receiver"@
        } else if builder.task_context is None {
            "task_context"@
        } else {
            "task_type"@
        })),
{
}

/// The message of a failure tells what failed and then what caused it, word for
/// word, so that no cause is lost.
pub proof fn law_message_keeps_the_cause(error: Error, text: String)
    requires
        call_ensures(Error::to_string, (&error,), text),
    ensures
        error matches Error::SendMessage { source } ==> text@ == "Error sending event to channel: "@
            + source@,
        error matches Error::EventBuilder { source } ==> text@ == "Error building event: "@
            + source@,
        error matches Error::ConfigRender { source } ==> text@
            == "Config template rendering error: "@ + source@,
        error matches Error::MissingBuilderAttribute(name) ==> text@
            == "Missing required builder attribute: "@ + name@,
        error matches Error::Produce { source } ==> exists|told: String| #[trigger]
            to_string_from_display_ensures(&source, told) && text@ == "Produce error: "@ + told@,
        error matches Error::RetryExhausted { source } ==> exists|told: Seq<char>| #[trigger]
            is_message(*source, told) && text@ == "Task failed after all retry attempts: "@ + told,
        error matches Error::ClientAuth { source } ==> exists|told: Seq<char>| #[trigger]
            client::is_message(source, told) && text@ == "Kafka client error: "@ + told,
{
    match error {
        Error::RetryExhausted { source } => {
            reveal_with_fuel(is_message, 2);
            let prefix = "Task failed after all retry attempts: "@;
            let told = text@.skip(prefix.len() as int);
            assert(text@ == prefix + told);
            assert(is_message(*source, told));
        },
        Error::ClientAuth { source } => {
            let prefix = "Kafka client error: "@;
            let told = text@.skip(prefix.len() as int);
            assert(text@ == prefix + told);
        },
        _ => {},
    }
}

/// The message of a client that cannot be made names the file that could not be
/// read, and tells what caused the failure.
pub proof fn law_client_message_keeps_the_cause(error: client::Error, text: String)
    requires
        call_ensures(client::Error::to_string, (&error,), text),
    ensures
        error matches client::Error::ReadCredentials { path, source } ==> exists|told: String|
            #[trigger] to_string_from_display_ensures(&source, told) && text@
                == "Error reading credentials file '"@ + path_text(path) + "': "@ + told@,
        error matches client::Error::ParseCredentials { source } ==> exists|told: String|
            #[trigger] to_string_from_display_ensures(&source, told) && text@
                == "Error parsing credentials file: "@ + told@,
        error matches client::Error::CreateProducer { source } ==> exists|told: String| #[trigger]
            to_string_from_display_ensures(&source, told) && text@
                == "Error creating Kafka producer: "@ + told@,
        error matches client::Error::CreateAdminClient { source } ==> exists|told: String|
            #[trigger] to_string_from_display_ensures(&source, told) && text@
                == "Error creating Kafka admin client: "@ + told@,
        error matches client::Error::MissingBuilderAttribute(name) ==> text@
            == "Missing required builder attribute: "@ + name@,
{
}

} // verus!
