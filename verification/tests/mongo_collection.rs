use arrow::datatypes::Schema;
use arrow::record_batch::RecordBatch;
use flowgen::event::{Event, EventData};
use flowgen::mongo::collection::{
    connected_client, EventHandler, Plan, Processor, ProcessorBuilder,
};
use flowgen::mongo::config::{Collection, Operation};
use flowgen::mongo::error::Error;
use flowgen::stream::ArrowBatch;
use flowgen::task::{RegistryError, Retry};
use serde_json::Value;
use std::path::PathBuf;
use std::sync::Arc;
use tokio::runtime::Runtime;
use tokio::sync::mpsc::channel;

fn json(text: &str) -> Value {
    serde_json::from_str(text).unwrap()
}

fn mock_config(operation: Operation) -> Collection {
    Collection {
        name: "test_mongodb_collection".to_string(),
        operation,
        db_name: "test_database".to_string(),
        collection_name: "test_collection".to_string(),
        filter: Default::default(),
        credentials_path: None,
        depends_on: Some(Vec::new()),
    }
}

fn mock_task_context() -> Arc<&'static str> {
    Arc::new("test-flow")
}

fn builder() -> ProcessorBuilder<u32, &'static str> {
    ProcessorBuilder::new()
}

fn event(data: EventData) -> Event<u32> {
    Event {
        data,
        subject: Some("test".to_string()),
        id: None,
        task_id: 1,
        task_type: "test",
        completion_tx: Some(17),
        error: None,
    }
}

fn batch() -> EventData {
    let schema = Arc::new(Schema::empty());
    let batch = RecordBatch::new_empty(schema);
    EventData::ArrowRecordBatch(Arc::new(ArrowBatch(batch)))
}

fn with_handler<R>(config: Collection, check: impl FnOnce(EventHandler<u32>) -> R) -> R {
    Runtime::new().unwrap().block_on(async {
        let client = Arc::new(
            mongodb::Client::with_uri_str("mongodb://localhost:27017")
                .await
                .unwrap(),
        );
        check(EventHandler {
            client,
            config: Arc::new(config),
            task_id: 1,
            tx: None,
            task_type: "test",
        })
    })
}

#[test]
fn test_validation_errors_are_permanent() {
    assert!(Error::MissingUpsertFilter.is_permanent());
    assert!(Error::EmptyUpsertPayload.is_permanent());
    assert!(Error::MixedUpsertPayload.is_permanent());
    assert!(Error::UnsupportedIdShape.is_permanent());
    assert!(!Error::MissingUpsertedDocument.is_permanent());
}

#[test]
fn test_write_rejects_unsupported_event_data() {
    with_handler(mock_config(Operation::Write), |handler| {
        let result = handler.handle(&event(batch()));
        assert!(matches!(result, Err(Error::UnsupportedEventData)));
    });
}

#[test]
fn test_upsert_rejects_unsupported_event_data() {
    with_handler(mock_config(Operation::Upsert), |handler| {
        let result = handler.handle(&event(batch()));
        assert!(matches!(result, Err(Error::UnsupportedEventData)));
    });
}

#[test]
fn test_upsert_rejects_empty_payload_before_reaching_mongo() {
    let mut config = mock_config(Operation::Upsert);
    config
        .filter
        .insert("email".to_string(), "ada@example.com".into());
    with_handler(config, |handler| {
        let result = handler.handle(&event(EventData::Json(json("{}"))));
        assert!(matches!(result, Err(Error::EmptyUpsertPayload)));
    });
}

#[test]
fn test_upsert_rejects_empty_filter() {
    with_handler(mock_config(Operation::Upsert), |handler| {
        let result = handler.handle(&event(EventData::Json(json("{ \"name\": \"Ada\" }"))));
        assert!(matches!(result, Err(Error::MissingUpsertFilter)));
    });
}

#[test]
fn test_write_rejects_id_that_is_not_an_object_id() {
    with_handler(mock_config(Operation::Write), |handler| {
        let data = json("{\"_id\": \"not-extended-json\", \"name\": \"Ada\"}");
        let result = handler.handle(&event(EventData::Json(data)));
        assert!(matches!(result, Err(Error::UnsupportedIdShape)));
    });
}

#[test]
fn test_write_rejects_malformed_oid_hex() {
    with_handler(mock_config(Operation::Write), |handler| {
        let data = json("{\"_id\": {\"$oid\": \"not-hex\"}, \"name\": \"Ada\"}");
        let result = handler.handle(&event(EventData::Json(data)));
        assert!(matches!(result, Err(Error::InvalidObjectId { .. })));
    });
}

#[test]
fn operation_decides_the_plan() {
    let data = || EventData::Json(json("{\"name\": \"Ada\"}"));
    with_handler(mock_config(Operation::Read), |handler| {
        match handler.handle(&event(batch())).unwrap() {
            Plan::Read(finding) => {
                assert_eq!(finding.request.db_name, "test_database");
                assert_eq!(finding.request.collection_name, "test_collection");
                assert_eq!(finding.completion, Some(17));
                assert!(!finding.has_sender);
            }
            other => panic!("unexpected plan {other:?}"),
        }
    });
    with_handler(mock_config(Operation::Write), |handler| {
        match handler.handle(&event(data())).unwrap() {
            Plan::Write(writing) => {
                assert_eq!(writing.request.subject, "test_database.test_collection");
                assert_eq!(writing.completion, Some(17));
                assert_eq!(writing.task_id, 1);
                assert_eq!(writing.task_type, "test");
                assert!(!writing.has_sender);
            }
            other => panic!("unexpected plan {other:?}"),
        }
    });
    let mut config = mock_config(Operation::Upsert);
    config
        .filter
        .insert("email".to_string(), "ada@example.com".into());
    with_handler(config, |handler| {
        match handler.handle(&event(data())).unwrap() {
            Plan::Upsert(upserting) => {
                assert!(upserting.request.upsert);
                assert_eq!(upserting.completion, Some(17));
                assert!(!upserting.has_sender);
            }
            other => panic!("unexpected plan {other:?}"),
        }
        assert!(handler.finished(Ok(())).is_ok());
        let error = handler.finished(Err("closed".to_string())).unwrap_err();
        assert!(matches!(error, Error::SendMessage { .. }));
    });
}

#[test]
fn plans_that_cannot_be_made_are_given_up() {
    with_handler(mock_config(Operation::Write), |handler| {
        for data in ["[1]", "{\"_id\": 1}", "{\"_id\": {\"$oid\": \"x\"}}"] {
            let error = handler
                .handle(&event(EventData::Json(json(data))))
                .err()
                .unwrap();
            assert_eq!(error.handle_retry(), Retry::Permanent, "{data}");
        }
    });
}

#[test]
fn test_builder_missing_config() {
    let result = builder().build();
    assert!(matches!(
        result,
        Err(Error::MissingBuilderAttribute(ref attr)) if attr == "config"
    ));
}

#[test]
fn test_builder_missing_receiver() {
    let config = Arc::new(mock_config(Operation::Read));
    let result = builder().config(config).build();
    assert!(matches!(
        result,
        Err(Error::MissingBuilderAttribute(ref attr)) if attr == "receiver"
    ));
}

#[test]
fn test_builder_missing_task_context() {
    let (_tx, rx) = channel(1);
    let config = Arc::new(mock_config(Operation::Read));
    let result = builder().config(config).receiver(rx).build();
    assert!(matches!(
        result,
        Err(Error::MissingBuilderAttribute(ref attr)) if attr == "task_context"
    ));
}

#[test]
fn test_builder_missing_task_type() {
    let (_tx, rx) = channel(1);
    let config = Arc::new(mock_config(Operation::Read));
    let result = builder()
        .config(config)
        .receiver(rx)
        .task_context(mock_task_context())
        .build();
    assert!(matches!(
        result,
        Err(Error::MissingBuilderAttribute(ref attr)) if attr == "task_type"
    ));
}

#[test]
fn test_builder_success_with_sender() {
    let (tx, rx) = channel(1);
    let config = Arc::new(mock_config(Operation::Write));

    let processor = builder()
        .config(config)
        .receiver(rx)
        .sender(tx)
        .task_id(5)
        .task_context(mock_task_context())
        .task_type("mongodb_collection")
        .build()
        .expect("builder should succeed");

    assert_eq!(processor.task_id, 5);
    assert_eq!(processor.task_type, "mongodb_collection");
    assert!(processor.tx.is_some());
}

#[test]
fn test_builder_success_without_sender() {
    let (_tx, rx) = channel(1);
    let config = Arc::new(mock_config(Operation::Read));

    let processor = builder()
        .config(config)
        .receiver(rx)
        .task_context(mock_task_context())
        .task_type("mongodb_collection")
        .build()
        .expect("builder should succeed");

    assert!(processor.tx.is_none());
}

fn processor(task_type: &'static str) -> Processor<u32, &'static str> {
    let (_tx, rx) = channel(1);
    builder()
        .config(Arc::new(mock_config(Operation::Read)))
        .receiver(rx)
        .task_id(2)
        .task_context(mock_task_context())
        .task_type(task_type)
        .build()
        .unwrap()
}

#[test]
fn test_init_auth_failure() {
    let mut config = mock_config(Operation::Read);
    config.credentials_path = Some(PathBuf::from("/invalid/credentials/path.json"));
    let processor = processor("auth_test");

    let initializing = processor.init(Ok(config)).unwrap();
    let request = processor.client_request(&initializing);
    assert_eq!(request.task_type, "auth_test");
    assert_eq!(
        request.credentials_path,
        &Some(PathBuf::from("/invalid/credentials/path.json"))
    );
    let source = connected_client::<Arc<mongodb::Client>>(Err("not found".to_string()))
        .err()
        .unwrap();
    let result = processor.event_handler(initializing, Err(RegistryError::Init { source }));
    assert!(matches!(result, Err(Error::Auth { .. })));
}

#[test]
fn test_init_credentials_parse_failure() {
    let mut config = mock_config(Operation::Write);
    config.credentials_path = Some(PathBuf::from(
        "flowgen_test_mongodb_collection_parse_fail.json",
    ));
    let processor = processor("connect_fail");

    let initializing = processor.init(Ok(config)).unwrap();
    let parsed = serde_json::from_str::<Value>("not valid json");
    let source = connected_client(parsed.map_err(|error| error.to_string()))
        .err()
        .unwrap();
    let result = processor.event_handler(initializing, Err(RegistryError::Init { source }));
    assert!(matches!(result, Err(Error::Auth { .. })));
}

#[test]
fn init_steps() {
    let processor = processor("mongodb_collection");
    let error = processor.init(Err("why".to_string())).err().unwrap();
    assert!(matches!(error, Error::ConfigRender { .. }));

    let initializing = processor.init(Ok(mock_config(Operation::Write))).unwrap();
    let refused = processor.event_handler(initializing, Err(RegistryError::TypeMismatch));
    assert!(matches!(refused, Err(Error::ClientRegistryMismatch)));

    Runtime::new().unwrap().block_on(async {
        let client = mongodb::Client::with_uri_str("mongodb://localhost:27017")
            .await
            .map(Arc::new)
            .map_err(|error| error.to_string());
        let client = connected_client(client).unwrap();
        let rendered = Collection {
            db_name: "rendered".to_string(),
            ..mock_config(Operation::Write)
        };
        let initializing = processor.init(Ok(rendered)).unwrap();
        let handler = processor.event_handler(initializing, Ok(client)).unwrap();
        assert_eq!(handler.config.db_name, "rendered");
        assert_eq!(handler.config.operation, Operation::Write);
        assert_eq!(handler.task_id, 2);
        assert_eq!(handler.task_type, "mongodb_collection");
        assert!(handler.tx.is_none());
    });
}

#[test]
fn processors_share_a_client() {
    let first = processor("mongodb_collection");
    let second = processor("mongodb_collection");
    let other = processor("mongodb_change_stream");
    let rendered = |db_name: &str| {
        Ok(Collection {
            db_name: db_name.to_string(),
            credentials_path: Some(PathBuf::from("/mongo.json")),
            ..mock_config(Operation::Write)
        })
    };
    let first_rendered = first.init(rendered("one")).unwrap();
    let second_rendered = second.init(rendered("two")).unwrap();
    let other_rendered = other.init(rendered("one")).unwrap();
    let asked = format!("{:?}", first.client_request(&first_rendered));
    assert_eq!(
        asked,
        format!("{:?}", second.client_request(&second_rendered))
    );
    assert_ne!(
        asked,
        format!("{:?}", other.client_request(&other_rendered))
    );
    Runtime::new().unwrap().block_on(async {
        let client = Arc::new(
            mongodb::Client::with_uri_str("mongodb://localhost:27017")
                .await
                .unwrap(),
        );
        let one = first
            .event_handler(first_rendered, Ok(Arc::clone(&client)))
            .unwrap();
        let two = second
            .event_handler(second_rendered, Ok(Arc::clone(&client)))
            .unwrap();
        assert!(Arc::ptr_eq(&one.client, &two.client));
        assert_eq!(one.config.db_name, "one");
        assert_eq!(two.config.db_name, "two");
    });
}

#[test]
fn test_error_display_formatting() {
    let err = Error::MissingBuilderAttribute("field".to_string());
    assert_eq!(err.to_string(), "Missing required attribute: field");

    let err = Error::UnsupportedEventData;
    assert_eq!(err.to_string(), "Unsupported event data");

    let err = Error::InvalidDocument;
    assert_eq!(err.to_string(), "Invalid MongoDB document");

    let err = Error::UnsupportedIdShape;
    assert!(err.to_string().contains("must be an ObjectId"));

    let err = Error::Auth {
        source: std::io::Error::new(std::io::ErrorKind::NotFound, "not found").to_string(),
    };
    assert!(matches!(err, Error::Auth { .. }));

    let inner = Box::new(Error::MissingBuilderAttribute("inner".to_string()));
    let err = Error::RetryExhausted { source: inner };
    assert_eq!(
        err.to_string(),
        "Task failed after all retry attempts: Missing required attribute: inner"
    );

    let source = mongodb::error::Error::from(std::io::Error::new(
        std::io::ErrorKind::ConnectionRefused,
        "refused",
    ));
    let err = Error::MongoDB { source };
    assert!(err.to_string().contains("MongoDB error:"));
}

#[test]
fn collection_error_messages() {
    let why = || "why".to_string();
    let parse_error = bson::oid::ObjectId::parse_str("not-hex").unwrap_err();
    let bson_error = bson::Bson::try_from(json("{\"$oid\": 1}")).unwrap_err();
    let cases = vec![
        (
            Error::Auth { source: why() },
            "Authentication error: why".to_string(),
        ),
        (
            Error::SendMessage { source: why() },
            "Sending event to channel failed with error: why".to_string(),
        ),
        (
            Error::EventBuilder { source: why() },
            "Event builder failed with error: why".to_string(),
        ),
        (
            Error::MessageConversion { source: why() },
            "Message conversion failed with error: why".to_string(),
        ),
        (
            Error::MissingUpsertFilter,
            "Upsert requires a non-empty `filter` to identify the document".to_string(),
        ),
        (
            Error::EmptyUpsertPayload,
            "Upsert payload is empty \u{2014} there is nothing to apply".to_string(),
        ),
        (
            Error::MixedUpsertPayload,
            "Upsert payload mixes update operators with plain fields; use either \
             `{\"$set\": {...}}` or plain fields alone"
                .to_string(),
        ),
        (
            Error::MissingUpsertedDocument,
            "Upsert returned no document".to_string(),
        ),
        (
            Error::UnsupportedIdShape,
            "Event's `_id` must be an ObjectId (`{\"$oid\": \"...\"}`) or omitted".to_string(),
        ),
        (
            Error::InvalidObjectId {
                source: parse_error.clone(),
            },
            format!("Invalid ObjectId in event's `_id`: {parse_error}"),
        ),
        (
            Error::SerdeJson {
                source: serde_json::from_str::<Value>("").unwrap_err(),
            },
            "JSON serialization error: EOF while parsing a value at line 1 column 0".to_string(),
        ),
        (
            Error::Bson {
                source: bson_error.clone(),
            },
            format!("JSON to BSON conversion error: {bson_error}"),
        ),
        (
            Error::ClientRegistryMismatch,
            "Client registry type mismatch \u{2014} same credentials used with incompatible \
             client types"
                .to_string(),
        ),
        (
            Error::ConfigRender { source: why() },
            "Config template rendering error: why".to_string(),
        ),
    ];
    for (error, message) in cases {
        assert_eq!(error.to_string(), message);
    }
}

#[test]
fn collection_retries() {
    let lost = Error::MongoDB {
        source: mongodb::error::Error::from(std::io::Error::new(
            std::io::ErrorKind::ConnectionRefused,
            "refused",
        )),
    };
    assert_eq!(lost.handle_retry(), Retry::Transient);
    assert_eq!(lost.init_retry(), Retry::Transient);
    let render = Error::ConfigRender {
        source: "why".to_string(),
    };
    assert_eq!(render.handle_retry(), Retry::Permanent);
    assert_eq!(render.init_retry(), Retry::Transient);
    assert_eq!(
        Error::UnsupportedEventData.handle_retry(),
        Retry::Permanent
    );
    assert_eq!(Error::InvalidDocument.handle_retry(), Retry::Permanent);
    assert_eq!(
        Error::MissingUpsertedDocument.handle_retry(),
        Retry::Transient
    );
}
