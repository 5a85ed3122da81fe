use bson::oid::ObjectId;
use bson::{Bson, Document};
use flowgen::event::{Event, EventData};
use flowgen::mongo::config::{Collection, Operation};
use flowgen::mongo::error::Error;
use flowgen::mongo::read::{no_match, prepare_find, Finding, Opened};
use flowgen::mongo::upsert::{prepare_upsert, Upserting};
use flowgen::mongo::write::{event_id, prepare_write, stored_document, Writing};
use mongodb::error::Error as MongoError;
use mongodb::results::InsertOneResult;
use serde_json::Value;

const SPELLED: &str = "66803022a16e6a0000edb3f9";

fn json(text: &str) -> Value {
    serde_json::from_str(text).unwrap()
}

fn config(operation: Operation, filter: &str) -> Collection {
    Collection {
        name: "customers".to_string(),
        operation,
        db_name: "sales".to_string(),
        collection_name: "customers".to_string(),
        filter: json(filter).as_object().unwrap().clone(),
        credentials_path: None,
        depends_on: None,
    }
}

fn lost() -> MongoError {
    MongoError::from(std::io::Error::new(
        std::io::ErrorKind::ConnectionRefused,
        "refused",
    ))
}

fn named(name: &str) -> Document {
    let mut document = Document::new();
    document.insert("name", name);
    document
}

fn event_of(document: &Document) -> Event<u32> {
    Event {
        data: EventData::Json(Value::from(document.get_str("name").unwrap())),
        subject: None,
        id: None,
        task_id: 3,
        task_type: "mongodb_collection",
        completion_tx: None,
        error: None,
    }
}

fn finding(has_sender: bool) -> Finding<u32> {
    let filter = config(Operation::Read, "{\"batch\": \"x\"}");
    Finding {
        request: prepare_find(&filter).unwrap(),
        completion: Some(17),
        has_sender,
    }
}

fn name_of(event: &Event<u32>) -> String {
    match &event.data {
        EventData::Json(value) => value.as_str().unwrap().to_string(),
        other => panic!("unexpected data {other:?}"),
    }
}

/// Runs a read over the given documents. Gives each event's name with its
/// completion and with what was signalled.
fn run_read(names: &[&str], has_sender: bool) -> Vec<(String, Option<u32>, Option<u32>)> {
    let mut documents = names.iter().map(|name| named(name));
    let mut sent = Vec::new();
    let mut state = match finding(has_sender).opened(Ok(documents.next())).unwrap() {
        Opened::Empty { .. } => return sent,
        Opened::Reading(reading) => Some(reading),
    };
    while let Some(reading) = state.take() {
        let found = reading.fetched(Ok(documents.next())).unwrap();
        let event = event_of(&found.document);
        let step = found.converted(Ok(event)).unwrap();
        sent.push((
            name_of(&step.emission.event),
            step.emission.event.completion_tx,
            step.emission.signal,
        ));
        state = step.rest;
    }
    sent
}

#[test]
fn find_request_of_a_config() {
    let request = prepare_find(&config(Operation::Read, "{\"batch\": \"x\"}")).unwrap();
    assert_eq!(request.db_name, "sales");
    assert_eq!(request.collection_name, "customers");
    assert_eq!(request.filter.get_str("batch"), Ok("x"));
    assert_eq!(request.filter.len(), 1);

    let refused = prepare_find(&config(Operation::Read, "{\"_id\": {\"$oid\": 1}}"));
    assert!(matches!(refused, Err(Error::Bson { .. })));
}

#[test]
fn read_with_no_matches_emits_no_events() {
    let filter = config(Operation::Read, "{\"status\": \"does_not_exist\"}");
    for has_sender in [true, false] {
        let finding = Finding {
            request: prepare_find(&filter).unwrap(),
            completion: Some(17),
            has_sender,
        };
        match finding.opened(Ok(None)).unwrap() {
            Opened::Empty { signal, value } => {
                assert_eq!(signal, Some(17));
                assert_eq!(value, json("{\"matched\": 0}"));
            }
            Opened::Reading(reading) => panic!("nothing to emit, got {reading:?}"),
        }
    }
    assert!(run_read(&[], true).is_empty());
}

#[test]
fn read_emits_every_matching_document() {
    let mut names: Vec<Option<String>> = run_read(&["Ada", "Grace", "Katherine"], true)
        .into_iter()
        .map(|(name, _, _)| Some(name))
        .collect();
    names.sort();
    assert_eq!(
        names,
        vec![
            Some("Ada".to_string()),
            Some("Grace".to_string()),
            Some("Katherine".to_string())
        ]
    );
}

#[test]
fn read_completes_on_the_last_event_alone() {
    assert_eq!(
        run_read(&["c", "a", "b"], true),
        vec![
            ("c".to_string(), None, None),
            ("a".to_string(), None, None),
            ("b".to_string(), Some(17), None),
        ]
    );
    assert_eq!(
        run_read(&["c", "a"], false),
        vec![
            ("c".to_string(), None, None),
            ("a".to_string(), None, Some(17)),
        ]
    );
    assert_eq!(
        run_read(&["only"], true),
        vec![("only".to_string(), Some(17), None)]
    );
}

#[test]
fn read_reports_failures() {
    let error = finding(true).opened(Err(lost())).err().unwrap();
    assert!(matches!(error, Error::MongoDB { .. }));

    let reading = match finding(true).opened(Ok(Some(named("a")))).unwrap() {
        Opened::Reading(reading) => reading,
        Opened::Empty { .. } => panic!("a document was found"),
    };
    let error = reading.fetched(Err(lost())).err().unwrap();
    assert!(matches!(error, Error::MongoDB { .. }));

    let reading = match finding(true).opened(Ok(Some(named("a")))).unwrap() {
        Opened::Reading(reading) => reading,
        Opened::Empty { .. } => panic!("a document was found"),
    };
    let found = reading.fetched(Ok(None)).unwrap();
    let error = found.converted(Err("why".to_string())).err().unwrap();
    assert!(matches!(error, Error::MessageConversion { .. }));
}

#[test]
fn no_match_reports_zero() {
    assert_eq!(no_match().to_string(), "{\"matched\":0}");
}

#[test]
fn event_id_shapes() {
    let id = ObjectId::parse_str(SPELLED).unwrap();
    assert_eq!(event_id(&json("{\"name\": \"Ada\"}")).unwrap(), None);
    assert_eq!(event_id(&json("{\"_id\": null}")).unwrap(), None);
    assert_eq!(event_id(&json("[1]")).unwrap(), None);
    let given = json(&format!("{{\"_id\": {{\"$oid\": \"{SPELLED}\"}}}}"));
    assert_eq!(event_id(&given).unwrap(), Some(id));
    let upper = json(&format!(
        "{{\"_id\": {{\"$oid\": \"{}\"}}}}",
        SPELLED.to_uppercase()
    ));
    assert_eq!(event_id(&upper).unwrap(), Some(id));
    for bare in [
        "{\"_id\": \"66803022a16e6a0000edb3f9\"}",
        "{\"_id\": 5}",
        "{\"_id\": {}}",
        "{\"_id\": {\"$oid\": 5}}",
        "{\"_id\": [\"$oid\"]}",
    ] {
        let refused = event_id(&json(bare));
        assert!(matches!(refused, Err(Error::UnsupportedIdShape)), "{bare}");
    }
    for misspelled in [
        "{\"_id\": {\"$oid\": \"\"}}",
        "{\"_id\": {\"$oid\": \"66803022a16e6a0000edb3f\"}}",
        "{\"_id\": {\"$oid\": \"66803022a16e6a0000edb3fg\"}}",
    ] {
        let refused = event_id(&json(misspelled));
        assert!(
            matches!(refused, Err(Error::InvalidObjectId { .. })),
            "{misspelled}"
        );
    }
}

#[test]
fn stored_document_keeps_members_and_takes_the_id() {
    let id = ObjectId::new();
    let value = json("{\"name\": \"Ada\", \"_id\": null, \"age\": 36}");
    let document = stored_document(&value, id).unwrap();
    let names: Vec<&String> = document.keys().collect();
    assert_eq!(names, vec!["name", "_id", "age"]);
    assert_eq!(document.get("_id"), Some(&Bson::ObjectId(id)));
    assert_eq!(document.get("name"), Some(&Bson::String("Ada".to_string())));
    assert_eq!(document.get("age"), Some(&Bson::Int32(36)));

    let document = stored_document(&json("{}"), id).unwrap();
    assert_eq!(document.len(), 1);
    assert_eq!(document.get("_id"), Some(&Bson::ObjectId(id)));
}

#[test]
fn only_objects_are_stored() {
    let id = ObjectId::new();
    for value in ["[1]", "\"text\"", "5", "null", "{\"$oid\": \"66803022a16e6a0000edb3f9\"}"] {
        let refused = stored_document(&json(value), id);
        assert!(matches!(refused, Err(Error::InvalidDocument)), "{value}");
    }
    let refused = stored_document(&json("{\"a\": {\"$date\": true}}"), id);
    assert!(matches!(refused, Err(Error::Bson { .. })));
}

#[test]
fn write_request_of_an_event() {
    let config = config(Operation::Write, "{}");
    let given = json(&format!(
        "{{\"_id\": {{\"$oid\": \"{SPELLED}\"}}, \"name\": \"Ada\"}}"
    ));
    let request = prepare_write(&config, &EventData::Json(given)).unwrap();
    assert_eq!(request.db_name, "sales");
    assert_eq!(request.collection_name, "customers");
    assert_eq!(request.subject, "sales.customers");
    let id = ObjectId::parse_str(SPELLED).unwrap();
    assert_eq!(request.document.get("_id"), Some(&Bson::ObjectId(id)));

    let fresh = EventData::Json(json("{\"name\": \"Ada\"}"));
    let first = prepare_write(&config, &fresh).unwrap();
    let second = prepare_write(&config, &fresh).unwrap();
    assert!(matches!(first.document.get("_id"), Some(Bson::ObjectId(_))));
    assert_ne!(first.document.get("_id"), second.document.get("_id"));

    let refused = prepare_write(&config, &EventData::Bytes(Vec::new()));
    assert!(matches!(refused, Err(Error::UnsupportedEventData)));
}

fn writing(has_sender: bool) -> Writing<u32> {
    let config = config(Operation::Write, "{}");
    let data = EventData::Json(json("{\"name\": \"Ada\"}"));
    Writing {
        request: prepare_write(&config, &data).unwrap(),
        completion: Some(17),
        has_sender,
        task_id: 3,
        task_type: "mongodb_collection",
    }
}

#[test]
fn insertion_is_told_by_its_id() {
    let mut result = InsertOneResult::default();
    result.inserted_id = Bson::ObjectId(ObjectId::parse_str(SPELLED).unwrap());
    let written = writing(true).inserted(Ok(result)).unwrap();
    let draft = written.draft.clone();
    assert_eq!(draft.subject, Some("sales.customers".to_string()));
    assert_eq!(
        draft.id,
        Some("ObjectId(\"66803022a16e6a0000edb3f9\")".to_string())
    );
    assert_eq!(draft.task_id, 3);
    assert_eq!(draft.task_type, "mongodb_collection");
    let reported = match draft.data {
        EventData::Json(value) => value,
        other => panic!("unexpected data {other:?}"),
    };
    assert_eq!(
        reported,
        json("{\"insertedId\": {\"$oid\": \"66803022a16e6a0000edb3f9\"}}")
    );

    let mut again = serde_json::Map::new();
    again.insert("_id".to_string(), reported.get("insertedId").unwrap().clone());
    assert_eq!(
        event_id(&Value::Object(again)).unwrap(),
        Some(ObjectId::parse_str(SPELLED).unwrap())
    );

    let emission = written.built(Ok(event_of(&named("Ada")))).unwrap();
    assert_eq!(emission.event.completion_tx, Some(17));
    assert_eq!(emission.signal, None);
}

#[test]
fn insertion_with_another_id_is_told_too() {
    let mut result = InsertOneResult::default();
    result.inserted_id = Bson::String("mine".to_string());
    let written = writing(false).inserted(Ok(result)).unwrap();
    assert_eq!(written.draft.id, Some("\"mine\"".to_string()));
    match &written.draft.data {
        EventData::Json(value) => assert_eq!(*value, json("{\"insertedId\": \"mine\"}")),
        other => panic!("unexpected data {other:?}"),
    }
    let emission = written.built(Ok(event_of(&named("Ada")))).unwrap();
    assert_eq!(emission.event.completion_tx, None);
    assert_eq!(emission.signal, Some(17));
}

#[test]
fn write_reports_failures() {
    let error = writing(true).inserted(Err(lost())).err().unwrap();
    assert!(matches!(error, Error::MongoDB { .. }));
    let written = writing(true).inserted(Ok(InsertOneResult::default())).unwrap();
    let error = written.built(Err("why".to_string())).err().unwrap();
    assert!(matches!(error, Error::EventBuilder { .. }));
}

#[test]
fn upsert_request_of_an_event() {
    let config = config(Operation::Upsert, "{\"email\": \"ada@example.com\"}");
    let data = EventData::Json(json("{\"name\": \"Ada\", \"_id\": null}"));
    let request = prepare_upsert(&config, &data).unwrap();
    assert_eq!(request.db_name, "sales");
    assert_eq!(request.collection_name, "customers");
    assert_eq!(request.filter.get_str("email"), Ok("ada@example.com"));
    assert_eq!(
        request.update.get_document("$set").unwrap().get_str("name"),
        Ok("Ada")
    );
    assert_eq!(request.update.len(), 1);
    assert!(request.upsert);
    assert!(request.return_updated);

    let data = EventData::Json(json("{\"$inc\": {\"visits\": 1}}"));
    let request = prepare_upsert(&config, &data).unwrap();
    assert_eq!(
        request.update.get_document("$inc").unwrap().get("visits"),
        Some(&Bson::Int32(1))
    );
}

#[test]
fn upsert_refusals_come_in_order() {
    let upsert = |filter: &str, data: EventData| {
        prepare_upsert(&config(Operation::Upsert, filter), &data).unwrap_err()
    };
    let given = |text: &str| EventData::Json(json(text));
    let filter = "{\"email\": \"ada@example.com\"}";
    let bad_filter = "{\"_id\": {\"$oid\": 1}}";
    assert!(matches!(
        upsert("{}", EventData::Bytes(Vec::new())),
        Error::UnsupportedEventData
    ));
    assert!(matches!(
        upsert("{}", given("[1]")),
        Error::MissingUpsertFilter
    ));
    assert!(matches!(
        upsert(filter, given("{\"a\": {\"$date\": true}}")),
        Error::Bson { .. }
    ));
    assert!(matches!(
        upsert(filter, given("[1]")),
        Error::InvalidDocument
    ));
    assert!(matches!(
        upsert(bad_filter, given("{}")),
        Error::EmptyUpsertPayload
    ));
    assert!(matches!(
        upsert(bad_filter, given("{\"$inc\": 1, \"a\": 1}")),
        Error::MixedUpsertPayload
    ));
    assert!(matches!(
        upsert(bad_filter, given("{\"_id\": \"text\"}")),
        Error::UnsupportedIdShape
    ));
    assert!(matches!(
        upsert(bad_filter, given("{\"a\": 1}")),
        Error::Bson { .. }
    ));
}

fn upserting(has_sender: bool) -> Upserting<u32> {
    let config = config(Operation::Upsert, "{\"email\": \"ada@example.com\"}");
    let data = EventData::Json(json("{\"name\": \"Ada\"}"));
    Upserting {
        request: prepare_upsert(&config, &data).unwrap(),
        completion: Some(17),
        has_sender,
    }
}

#[test]
fn upsert_emits_the_document() {
    let upserted = upserting(true).applied(Ok(Some(named("Ada")))).unwrap();
    assert_eq!(upserted.document, named("Ada"));
    let event = event_of(&upserted.document);
    let emission = upserted.converted(Ok(event)).unwrap();
    assert_eq!(name_of(&emission.event), "Ada");
    assert_eq!(emission.event.completion_tx, Some(17));
    assert_eq!(emission.signal, None);

    let upserted = upserting(false).applied(Ok(Some(named("Ada")))).unwrap();
    let event = event_of(&upserted.document);
    let emission = upserted.converted(Ok(event)).unwrap();
    assert_eq!(emission.event.completion_tx, None);
    assert_eq!(emission.signal, Some(17));
}

#[test]
fn upsert_reports_failures() {
    let error = upserting(true).applied(Err(lost())).err().unwrap();
    assert!(matches!(error, Error::MongoDB { .. }));
    let error = upserting(true).applied(Ok(None)).err().unwrap();
    assert!(matches!(error, Error::MissingUpsertedDocument));
    let upserted = upserting(true).applied(Ok(Some(named("Ada")))).unwrap();
    let error = upserted.converted(Err("why".to_string())).err().unwrap();
    assert!(matches!(error, Error::MessageConversion { .. }));
}

#[test]
fn convertible_events_are_written_and_upserted() {
    let plain = format!(
        "{{\"_id\": {{\"$oid\": \"{SPELLED}\"}}, \"a\": [1, {{\"b\": null}}], \"f\": 1.5}}"
    );
    let operators = "{\"$set\": {\"a\": 1}, \"$inc\": {\"b\": 2}}";
    let target = config(Operation::Upsert, "{\"age\": {\"$gt\": 30}}");
    assert!(prepare_write(&target, &EventData::Json(json(&plain))).is_ok());
    for payload in [plain.as_str(), operators, "{\"_id\": null}"] {
        let request = prepare_upsert(&target, &EventData::Json(json(payload)));
        assert!(request.is_ok(), "{payload}");
    }
}
