use arrow::array::{ArrayRef, Int32Array, StringArray};
use arrow::datatypes::{DataType, Field, Schema};
use arrow::ipc::reader::StreamReader;
use arrow::record_batch::RecordBatch;
use flowgen::event::{AvroData, Event, EventData};
use flowgen::kafka::client;
use flowgen::kafka::client::Client;
use flowgen::kafka::config::Produce;
use flowgen::kafka::produce::{
    connected_producer, parse_json_payload, serialize_event_to_bytes, Error, EventHandler,
    Prepared, ProduceResult, Producer, ProducerBuilder, SEND_TIMEOUT_SECS,
};
use flowgen::stream::ArrowBatch;
use flowgen::task::{RegistryError, Retry};
use rdkafka::error::KafkaError;
use rdkafka::types::RDKafkaRespErr;
use serde_json::Value;
use std::path::PathBuf;
use std::sync::Arc;
use tokio::sync::mpsc::{channel, Sender};

fn event(data: EventData) -> Event<u32> {
    Event {
        data,
        subject: None,
        id: None,
        task_id: 0,
        task_type: "source",
        completion_tx: Some(17),
        error: None,
    }
}

fn json(text: &str) -> Value {
    serde_json::from_str(text).unwrap()
}

fn config(message_key: Option<&str>) -> Produce {
    Produce {
        name: "orders".to_string(),
        topic: "orders-{{region}}".to_string(),
        message_key: message_key.map(str::to_string),
        ..Default::default()
    }
}

fn handler(tx: Option<Sender<Event<u32>>>) -> EventHandler<u8, u32> {
    EventHandler {
        producer: Arc::new(1),
        task_id: 4,
        tx,
        config: Arc::new(config(None)),
        task_type: "kafka_produce",
    }
}

#[test]
fn test_producer_builder() {
    let config = Arc::new(Produce {
        name: "test_kafka_producer".to_string(),
        brokers: "localhost:9092".to_string(),
        topic: "test-topic".to_string(),
        ..Default::default()
    });
    let (tx, rx) = channel::<Event<u32>>(100);

    let producer = ProducerBuilder::new()
        .config(config.clone())
        .receiver(rx)
        .sender(tx.clone())
        .task_id(1)
        .task_type("test")
        .task_context(Arc::new("context"))
        .build();
    assert!(producer.is_ok());

    let (_tx2, rx2) = channel::<Event<u32>>(100);
    let result = ProducerBuilder::new()
        .receiver(rx2)
        .task_context(Arc::new("context"))
        .build();
    assert!(matches!(
        result.unwrap_err(),
        Error::MissingBuilderAttribute(_)
    ));
}

#[test]
fn producer_builder_names_what_is_missing() {
    let missing = |builder: ProducerBuilder<u32, ()>| match builder.build().unwrap_err() {
        Error::MissingBuilderAttribute(name) => name,
        other => panic!("unexpected error {other:?}"),
    };
    assert_eq!(missing(ProducerBuilder::new()), "config");
    assert_eq!(missing(ProducerBuilder::default()), "config");
    let given = || Arc::new(config(None));
    assert_eq!(missing(ProducerBuilder::new().config(given())), "receiver");
    let (_tx, rx) = channel(1);
    assert_eq!(
        missing(ProducerBuilder::new().config(given()).receiver(rx)),
        "task_context"
    );
    let (_tx, rx) = channel(1);
    assert_eq!(
        missing(
            ProducerBuilder::new()
                .config(given())
                .receiver(rx)
                .task_context(Arc::new(()))
        ),
        "task_type"
    );
}

#[test]
fn producer_builder_keeps_what_it_is_given() {
    let (tx, rx) = channel::<Event<u32>>(1);
    let producer = ProducerBuilder::new()
        .task_type("kafka_produce")
        .task_context(Arc::new("context"))
        .task_id(5)
        .sender(tx)
        .receiver(rx)
        .config(Arc::new(config(None)))
        .build()
        .unwrap();
    assert_eq!(producer.task_id, 5);
    assert_eq!(producer.task_type, "kafka_produce");
    assert_eq!(*producer.task_context, "context");
    assert_eq!(producer.config.name, "orders");
    assert!(producer.tx.is_some());
}

#[test]
fn bytes_are_sent_as_they_are() {
    let encoded = serialize_event_to_bytes(&event(EventData::Bytes(vec![1, 2, 255])));
    assert_eq!(encoded.unwrap(), vec![1, 2, 255]);
    let encoded = serialize_event_to_bytes(&event(EventData::Bytes(Vec::new())));
    assert!(encoded.unwrap().is_empty());
}

#[test]
fn avro_is_sent_as_its_raw_bytes() {
    let avro = AvroData {
        raw_bytes: vec![9, 8],
    };
    let encoded = serialize_event_to_bytes(&event(EventData::Avro(avro)));
    assert_eq!(encoded.unwrap(), vec![9, 8]);
}

#[test]
fn json_is_sent_as_text() {
    let encoded = serialize_event_to_bytes(&event(EventData::Json(json("{ \"a\": [1, null] }"))));
    assert_eq!(encoded.unwrap(), b"{\"a\":[1,null]}".to_vec());
}

fn streamed(batch: &RecordBatch) -> Vec<u8> {
    let data = EventData::ArrowRecordBatch(Arc::new(ArrowBatch(batch.clone())));
    serialize_event_to_bytes(&event(data)).unwrap()
}

fn assert_streamed(batch: &RecordBatch) {
    let encoded = streamed(batch);
    assert!(encoded.ends_with(&[255, 255, 255, 255, 0, 0, 0, 0]));
    let mut reader = StreamReader::try_new(encoded.as_slice(), None).unwrap();
    assert_eq!(reader.schema(), batch.schema());
    assert_eq!(reader.next().unwrap().unwrap(), *batch);
    assert!(reader.next().is_none());
    assert!(reader.get_ref().is_empty());
}

#[test]
fn record_batch_is_sent_as_a_stream() {
    assert_streamed(&RecordBatch::new_empty(Arc::new(Schema::empty())));
}

#[test]
fn rows_of_a_record_batch_are_sent() {
    let schema = Schema::new(vec![
        Field::new("id", DataType::Int32, false),
        Field::new("name", DataType::Utf8, true),
    ]);
    let ids: ArrayRef = Arc::new(Int32Array::from(vec![1, 2, 3]));
    let names: ArrayRef = Arc::new(StringArray::from(vec![Some("Ada"), None, Some("Grace")]));
    let batch = RecordBatch::try_new(Arc::new(schema), vec![ids, names]).unwrap();
    assert_streamed(&batch);

    let other: ArrayRef = Arc::new(Int32Array::from(vec![1, 2, 4]));
    let names: ArrayRef = Arc::new(StringArray::from(vec![Some("Ada"), None, Some("Grace")]));
    let changed = RecordBatch::try_new(batch.schema(), vec![other, names]).unwrap();
    assert_ne!(streamed(&batch), streamed(&changed));
}

#[test]
fn schema_that_no_stream_can_hold_is_an_arrow_error() {
    let inner = DataType::Dictionary(Box::new(DataType::Int32), Box::new(DataType::Utf8));
    let nested = DataType::Dictionary(Box::new(DataType::Int32), Box::new(inner));
    let schema = Schema::new(vec![Field::new("nested", nested, true)]);
    let batch = RecordBatch::new_empty(Arc::new(schema));
    let data = EventData::ArrowRecordBatch(Arc::new(ArrowBatch(batch)));
    let refused = serialize_event_to_bytes(&event(data));
    assert!(matches!(refused, Err(Error::Arrow { .. })));
}

#[test]
fn json_payload_is_read_back() {
    let text = "{\"z\": [1, -2, 18446744073709551615, null], \"a\": {\"t\": \"\\u0000\\\\\\n\u{e9}\"}}";
    let value = json(text);
    let payload = serialize_event_to_bytes(&event(EventData::Json(value.clone()))).unwrap();
    assert_eq!(parse_json_payload(&payload).unwrap(), value);

    let mut deep = Value::from(true);
    for _ in 0..127 {
        deep = Value::Array(vec![deep]);
    }
    let payload = serialize_event_to_bytes(&event(EventData::Json(deep.clone()))).unwrap();
    assert_eq!(parse_json_payload(&payload).unwrap(), deep);

    let too_deep = Value::Array(vec![deep]);
    let payload = serialize_event_to_bytes(&event(EventData::Json(too_deep))).unwrap();
    assert!(matches!(
        parse_json_payload(&payload),
        Err(Error::SerdeJson { .. })
    ));
    assert!(parse_json_payload(&b"{".to_vec()).is_err());
}

#[test]
fn produce_result_as_json() {
    let result = ProduceResult {
        topic: "orders".to_string(),
        partition: -1,
        offset: 9_000_000_000,
    };
    assert_eq!(
        result.to_value().to_string(),
        "{\"topic\":\"orders\",\"partition\":-1,\"offset\":9000000000}"
    );
}

#[test]
fn event_without_key_is_produced_and_sent_on() {
    let (tx, _rx) = channel(1);
    let handler = handler(Some(tx));
    let event = event(EventData::Bytes(vec![5]));
    let encoded = handler.handle(&event).encoded(Ok(json("{}"))).unwrap();
    let outgoing = match encoded.rendered(Ok(config(None))).unwrap() {
        Prepared::Ready(outgoing) => outgoing,
        Prepared::NeedsKey(_) => panic!("no key is configured"),
    };
    assert_eq!(outgoing.record.topic, "orders-{{region}}");
    assert_eq!(outgoing.record.payload, vec![5]);
    assert_eq!(outgoing.record.key, "");
    assert_eq!(outgoing.record.queue_timeout_secs, 30);

    let delivered = outgoing.sent(Ok((2, 77))).unwrap();
    assert_eq!(delivered.result.partition, 2);
    assert_eq!(delivered.result.offset, 77);
    assert_eq!(delivered.draft.subject, Some("orders".to_string()));
    assert_eq!(delivered.draft.id, None);
    assert_eq!(delivered.draft.task_id, 4);
    assert_eq!(delivered.draft.task_type, "kafka_produce");
    let data = delivered.draft.data.clone();
    match &data {
        EventData::Json(value) => assert_eq!(
            *value,
            json("{\"topic\":\"orders-{{region}}\",\"partition\":2,\"offset\":77}")
        ),
        other => panic!("unexpected data {other:?}"),
    }

    let built = Event {
        data,
        subject: None,
        id: None,
        task_id: 4,
        task_type: "kafka_produce",
        completion_tx: None,
        error: None,
    };
    let emission = delivered.built(Ok(built)).unwrap();
    assert_eq!(emission.event.completion_tx, Some(17));
    assert_eq!(emission.signal, None);
    assert!(handler.finished(Ok(())).is_ok());
}

#[test]
fn key_template_is_rendered_with_the_event() {
    let handler = handler(None);
    let event = event(EventData::Bytes(vec![5]));
    let encoded = handler
        .handle(&event)
        .encoded(Ok(json("{\"id\":3}")))
        .unwrap();
    let unkeyed = match encoded.rendered(Ok(config(Some("key-{{id}}")))).unwrap() {
        Prepared::NeedsKey(unkeyed) => unkeyed,
        Prepared::Ready(_) => panic!("a key is configured"),
    };
    assert_eq!(unkeyed.template, "key-{{id}}");
    assert_eq!(unkeyed.value, json("{\"id\":3}"));
    let outgoing = unkeyed.keyed(Ok("key-3".to_string())).unwrap();
    assert_eq!(outgoing.record.key, "key-3");
    assert_eq!(outgoing.record.queue_timeout_secs, SEND_TIMEOUT_SECS);
    assert_eq!(outgoing.record.payload, vec![5]);
    assert_eq!(outgoing.record.topic, "orders-{{region}}");

    let delivered = outgoing.sent(Ok((0, 0))).unwrap();
    let result = Event {
        completion_tx: None,
        ..event.clone()
    };
    let emission = delivered.built(Ok(result)).unwrap();
    assert_eq!(emission.event.completion_tx, None);
    assert_eq!(emission.signal, Some(17));
}

#[test]
fn each_stage_reports_its_own_failure() {
    let handler = handler(None);
    let event = event(EventData::Bytes(Vec::new()));
    let failed = || "why".to_string();

    let error = handler.handle(&event).encoded(Err(failed())).err().unwrap();
    assert!(matches!(error, Error::EventBuilder { .. }));

    let stage = handler.handle(&event).encoded(Ok(Value::Null)).unwrap();
    let error = stage.rendered(Err(failed())).err().unwrap();
    assert!(matches!(error, Error::ConfigRender { .. }));

    let stage = handler.handle(&event).encoded(Ok(Value::Null)).unwrap();
    match stage.rendered(Ok(config(Some("{{")))).unwrap() {
        Prepared::NeedsKey(unkeyed) => {
            let error = unkeyed.keyed(Err(failed())).err().unwrap();
            assert!(matches!(error, Error::ConfigRender { .. }));
        }
        Prepared::Ready(_) => panic!("a key is configured"),
    }

    let stage = handler.handle(&event).encoded(Ok(Value::Null)).unwrap();
    match stage.rendered(Ok(config(None))).unwrap() {
        Prepared::Ready(outgoing) => {
            let error = outgoing.sent(Err(KafkaError::Canceled)).err().unwrap();
            assert!(matches!(error, Error::Produce { .. }));
        }
        Prepared::NeedsKey(_) => panic!("no key is configured"),
    }

    let stage = handler.handle(&event).encoded(Ok(Value::Null)).unwrap();
    match stage.rendered(Ok(config(None))).unwrap() {
        Prepared::Ready(outgoing) => {
            let delivered = outgoing.sent(Ok((0, 0))).unwrap();
            let error = delivered.built(Err(failed())).err().unwrap();
            assert!(matches!(error, Error::EventBuilder { .. }));
        }
        Prepared::NeedsKey(_) => panic!("no key is configured"),
    }

    let error = handler.finished(Err(failed())).unwrap_err();
    assert_eq!(error.to_string(), "Error sending event to channel: why");
}

fn producer() -> Producer<u32, ()> {
    let (tx, rx) = channel(1);
    ProducerBuilder::new()
        .config(Arc::new(config(Some("{{id}}"))))
        .receiver(rx)
        .sender(tx)
        .task_id(6)
        .task_type("kafka_produce")
        .task_context(Arc::new(()))
        .build()
        .unwrap()
}

#[test]
fn initialization_asks_for_the_rendered_client() {
    let producer = producer();
    let rendered = Produce {
        credentials_path: Some(PathBuf::from("/kafka.json")),
        brokers: "kafka:9092".to_string(),
        ..config(None)
    };
    let request = producer.init(Ok(rendered)).unwrap();
    let client: Client<u8, u8> = request.into_client();
    assert_eq!(client.credentials_path, Some(PathBuf::from("/kafka.json")));
    assert_eq!(client.brokers, Some("kafka:9092".to_string()));

    let error = producer.init(Err("why".to_string())).err().unwrap();
    assert!(matches!(error, Error::ConfigRender { .. }));
}

#[test]
fn producer_comes_from_a_connected_client() {
    let client: Client<u8, u8> = Client::new(None, None);
    let connected = client.with_producer(Ok(3)).unwrap();
    assert_eq!(connected_producer(Ok(connected)).unwrap(), 3);

    let unconnected: Client<u8, u8> = Client::new(None, None);
    assert!(matches!(
        connected_producer(Ok(unconnected)),
        Err(Error::MissingClient)
    ));

    let failed: Result<Client<u8, u8>, client::Error> = Err(client::Error::NoCredentials);
    let error = connected_producer(failed).unwrap_err();
    assert_eq!(
        error.to_string(),
        "Kafka client error: No authentication credentials provided"
    );
}

#[test]
fn handler_keeps_the_task_and_the_unrendered_config() {
    let producer = producer();
    let handler = producer.event_handler(Ok(Arc::new(3u8))).unwrap();
    assert_eq!(*handler.producer, 3);
    assert_eq!(handler.task_id, 6);
    assert_eq!(handler.task_type, "kafka_produce");
    assert_eq!(handler.config.topic, "orders-{{region}}");
    assert!(handler.tx.is_some());
}

#[test]
fn producers_share_a_connection() {
    let first = producer();
    let (_tx, rx) = channel::<Event<u32>>(1);
    let second = ProducerBuilder::new()
        .config(Arc::new(Produce {
            topic: "other-{{id}}".to_string(),
            ..config(None)
        }))
        .receiver(rx)
        .task_id(8)
        .task_type("another_type")
        .task_context(Arc::new(()))
        .build()
        .unwrap();
    let rendered = |topic: &str, brokers: &str| {
        Ok(Produce {
            topic: topic.to_string(),
            brokers: brokers.to_string(),
            ..config(None)
        })
    };
    let asked = format!("{:?}", first.init(rendered("a", "kafka:9092")).unwrap());
    let same = second.init(rendered("b", "kafka:9092")).unwrap();
    assert_eq!(asked, format!("{same:?}"));
    let different = second.init(rendered("b", "other:9092")).unwrap();
    assert_ne!(asked, format!("{different:?}"));

    let shared = Arc::new(3u8);
    let one = first.event_handler(Ok(Arc::clone(&shared))).unwrap();
    let two = second.event_handler(Ok(Arc::clone(&shared))).unwrap();
    assert!(Arc::ptr_eq(&one.producer, &two.producer));
    assert_eq!(one.config.topic, "orders-{{region}}");
    assert_eq!(two.config.topic, "other-{{id}}");
    assert_eq!(two.task_id, 8);
    assert_eq!(two.task_type, "another_type");
    assert!(two.tx.is_none());
}

#[test]
fn handler_is_refused_with_the_registry_error() {
    let producer = producer();
    let source = Error::MissingClient;
    let refused = producer.event_handler::<u8>(Err(RegistryError::Init { source }));
    assert!(matches!(refused, Err(Error::MissingClient)));
    let refused = producer.event_handler::<u8>(Err(RegistryError::TypeMismatch));
    assert!(matches!(refused, Err(Error::ClientRegistryMismatch)));
}

#[test]
fn producer_retries() {
    let render = Error::ConfigRender {
        source: "why".to_string(),
    };
    assert_eq!(render.init_retry(), Retry::Permanent);
    assert_eq!(Error::MissingClient.init_retry(), Retry::Permanent);
    assert_eq!(Error::ClientRegistryMismatch.init_retry(), Retry::Transient);
    let auth = Error::ClientAuth {
        source: client::Error::NoCredentials,
    };
    assert_eq!(auth.init_retry(), Retry::Transient);
    assert_eq!(render.handle_retry(), Retry::Transient);
    assert_eq!(Error::MissingClient.handle_retry(), Retry::Transient);
}

#[test]
fn producer_error_messages() {
    let why = || "why".to_string();
    let cases = vec![
        (
            Error::SendMessage { source: why() },
            "Error sending event to channel: why".to_string(),
        ),
        (
            Error::EventBuilder { source: why() },
            "Error building event: why".to_string(),
        ),
        (
            Error::ConfigRender { source: why() },
            "Config template rendering error: why".to_string(),
        ),
        (
            Error::Produce {
                source: KafkaError::Canceled,
            },
            format!("Produce error: {}", KafkaError::Canceled),
        ),
        (
            Error::Delivery {
                status: RDKafkaRespErr::RD_KAFKA_RESP_ERR__MSG_TIMED_OUT,
            },
            "Delivery error: RD_KAFKA_RESP_ERR__MSG_TIMED_OUT".to_string(),
        ),
        (
            Error::SerdeJson {
                source: serde_json::from_str::<Value>("").unwrap_err(),
            },
            "JSON serialization error: EOF while parsing a value at line 1 column 0".to_string(),
        ),
        (
            Error::Arrow {
                source: arrow::error::ArrowError::DivideByZero,
            },
            "Arrow serialization error: Divide by zero error".to_string(),
        ),
        (
            Error::MissingClient,
            "Client is missing or not initialized".to_string(),
        ),
        (
            Error::MissingBuilderAttribute("config".to_string()),
            "Missing required builder attribute: config".to_string(),
        ),
        (
            Error::RetryExhausted {
                source: Box::new(Error::MissingClient),
            },
            "Task failed after all retry attempts: Client is missing or not initialized"
                .to_string(),
        ),
        (
            Error::ClientRegistryMismatch,
            "Client registry type mismatch -- same credentials used with incompatible client types"
                .to_string(),
        ),
    ];
    for (error, message) in cases {
        assert_eq!(error.to_string(), message);
    }
}
