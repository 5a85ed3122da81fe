use bson::oid::ObjectId;
use bson::{Bson, Document};
use flowgen::mongo::error::Error;
use flowgen::mongo::filter::build_filter_doc;
use flowgen::mongo::update::build_update_doc;
use serde_json::Value;

fn json(text: &str) -> Value {
    serde_json::from_str(text).unwrap()
}

fn doc(fields: Vec<(&str, Bson)>) -> Document {
    let mut document = Document::new();
    for (name, value) in fields {
        document.insert(name, value);
    }
    document
}

fn converted(value: Value) -> Bson {
    let mut filter = serde_json::Map::new();
    filter.insert("value".to_string(), value);
    let mut document = build_filter_doc(&filter).unwrap();
    document.remove("value").unwrap()
}

#[test]
fn test_build_filter_doc_with_data() {
    let filter = json("{ \"status\": \"active\" }");
    let doc = build_filter_doc(filter.as_object().unwrap()).unwrap();
    assert_eq!(doc.get_str("status").unwrap(), "active");
}

#[test]
fn test_build_filter_doc_empty() {
    let filter = serde_json::Map::new();
    assert!(build_filter_doc(&filter).unwrap().is_empty());
}

#[test]
fn test_build_filter_doc_preserves_value_types() {
    let filter = json("{ \"count\": 5, \"active\": true }");
    let doc = build_filter_doc(filter.as_object().unwrap()).unwrap();

    assert_eq!(doc.get("count"), Some(&Bson::Int32(5)));
    assert_eq!(doc.get_bool("active"), Ok(true));
}

#[test]
fn test_build_filter_doc_supports_query_operators() {
    let filter = json(
        "{ \"age\": { \"$gt\": 30 }, \"status\": { \"$in\": [\"active\", \"trial\"] } }",
    );
    let doc = build_filter_doc(filter.as_object().unwrap()).unwrap();

    assert_eq!(
        doc.get_document("age").unwrap().get("$gt"),
        Some(&Bson::Int32(30))
    );
    assert_eq!(
        doc.get_document("status")
            .unwrap()
            .get_array("$in")
            .unwrap()
            .len(),
        2
    );
}

#[test]
fn filter_keeps_its_order() {
    let filter = json("{ \"z\": 1, \"a\": 2, \"m\": 3 }");
    let doc = build_filter_doc(filter.as_object().unwrap()).unwrap();
    let names: Vec<&String> = doc.keys().collect();
    assert_eq!(names, vec!["z", "a", "m"]);
}

#[test]
fn filter_that_has_no_bson_form_is_refused() {
    let filter = json("{ \"a\": 1, \"_id\": { \"$oid\": 5 } }");
    let error = build_filter_doc(filter.as_object().unwrap()).unwrap_err();
    assert!(matches!(error, Error::Bson { .. }));
    assert!(error.is_permanent());
}

#[test]
fn filter_by_object_id() {
    let filter = json("{ \"_id\": { \"$oid\": \"66803022a16e6a0000edb3f9\" } }");
    let doc = build_filter_doc(filter.as_object().unwrap()).unwrap();
    let id = ObjectId::parse_str("66803022a16e6a0000edb3f9").unwrap();
    assert_eq!(doc.get("_id"), Some(&Bson::ObjectId(id)));
}

#[test]
fn test_build_update_doc_wraps_plain_payload_in_set() {
    let payload = doc(vec![("name", "Ada".into()), ("status", "active".into())]);
    let update = build_update_doc(payload).unwrap();

    let set = update.get_document("$set").unwrap();
    assert_eq!(set.get_str("name").unwrap(), "Ada");
    assert_eq!(set.get_str("status").unwrap(), "active");
    assert!(!update.contains_key("$setOnInsert"));
}

#[test]
fn test_build_update_doc_moves_id_to_set_on_insert() {
    let oid = ObjectId::new();
    let payload = doc(vec![("_id", oid.into()), ("name", "Ada".into())]);
    let update = build_update_doc(payload).unwrap();

    assert_eq!(
        update.get_document("$setOnInsert").unwrap().get("_id"),
        Some(&Bson::ObjectId(oid))
    );
    assert!(!update.get_document("$set").unwrap().contains_key("_id"));
}

#[test]
fn test_build_update_doc_with_only_id_omits_empty_set() {
    let oid = ObjectId::new();
    let payload = doc(vec![("_id", oid.into())]);
    let update = build_update_doc(payload).unwrap();

    assert!(!update.contains_key("$set"));
    assert_eq!(
        update.get_document("$setOnInsert").unwrap().get("_id"),
        Some(&Bson::ObjectId(oid))
    );
}

#[test]
fn test_build_update_doc_passes_operator_payload_through() {
    let visits = doc(vec![("visits", 1.into())]);
    let payload = doc(vec![("$inc", visits.into())]);
    let update = build_update_doc(payload.clone()).unwrap();

    assert_eq!(update, payload);
}

#[test]
fn test_build_update_doc_rejects_empty_payload() {
    let result = build_update_doc(Document::new());
    assert!(matches!(result, Err(Error::EmptyUpsertPayload)));
}

#[test]
fn test_build_update_doc_drops_null_id() {
    let payload = doc(vec![("_id", Bson::Null), ("name", "Ada".into())]);
    let update = build_update_doc(payload).unwrap();

    assert!(!update.contains_key("$setOnInsert"));
    assert_eq!(
        update.get_document("$set").unwrap().get_str("name"),
        Ok("Ada")
    );
}

#[test]
fn test_build_update_doc_rejects_bare_string_id() {
    let payload = doc(vec![
        ("_id", "66803022a16e6a0000edb3f9".into()),
        ("name", "Ada".into()),
    ]);
    let result = build_update_doc(payload);
    assert!(matches!(result, Err(Error::UnsupportedIdShape)));
}

#[test]
fn test_build_update_doc_accepts_object_id() {
    let oid = ObjectId::parse_str("66803022a16e6a0000edb3f9").unwrap();
    let payload = doc(vec![("_id", oid.into()), ("name", "Ada".into())]);
    let update = build_update_doc(payload).unwrap();

    assert_eq!(
        update.get_document("$setOnInsert").unwrap().get("_id"),
        Some(&Bson::ObjectId(oid))
    );
}

#[test]
fn test_build_update_doc_rejects_mixed_payload() {
    let visits = doc(vec![("visits", 1.into())]);
    let payload = doc(vec![("$inc", visits.into()), ("name", "Ada".into())]);
    let result = build_update_doc(payload);
    assert!(matches!(result, Err(Error::MixedUpsertPayload)));
}

#[test]
fn mixed_payload_is_told_before_its_id() {
    let payload = doc(vec![("_id", "text".into()), ("$inc", 1.into())]);
    let result = build_update_doc(payload);
    assert!(matches!(result, Err(Error::MixedUpsertPayload)));
}

#[test]
fn null_id_alone_leaves_nothing_to_apply() {
    let update = build_update_doc(doc(vec![("_id", Bson::Null)])).unwrap();
    assert!(update.is_empty());
}

#[test]
fn update_sets_fields_in_order_around_the_id() {
    let oid = ObjectId::new();
    let payload = doc(vec![
        ("z", 1.into()),
        ("_id", oid.into()),
        ("a", 2.into()),
        ("", 3.into()),
    ]);
    let update = build_update_doc(payload).unwrap();
    let operators: Vec<&String> = update.keys().collect();
    assert_eq!(operators, vec!["$set", "$setOnInsert"]);
    assert_eq!(
        update.get_document("$set").unwrap(),
        &doc(vec![("z", 1.into()), ("a", 2.into()), ("", 3.into())])
    );
}

#[test]
fn update_of_an_update_is_the_same() {
    let payload = doc(vec![("_id", ObjectId::new().into()), ("name", "Ada".into())]);
    let update = build_update_doc(payload).unwrap();
    assert_eq!(build_update_doc(update.clone()).unwrap(), update);
}

#[test]
fn test_bson_try_from_primitives() {
    assert_eq!(converted(Value::Null), Bson::Null);
    assert_eq!(converted(Value::from(true)), Bson::Boolean(true));
    assert_eq!(converted(Value::from(42)), Bson::Int32(42));
    assert_eq!(
        converted(Value::from("flowgen")),
        Bson::String("flowgen".to_string())
    );
}

#[test]
fn test_bson_try_from_large_integer_uses_int64() {
    assert_eq!(
        converted(Value::from(i64::from(i32::MAX) + 1)),
        Bson::Int64(i64::from(i32::MAX) + 1)
    );
}

#[test]
fn test_bson_try_from_float() {
    assert_eq!(converted(Value::from(-0.5)), Bson::Double(-0.5));
}

#[test]
fn test_bson_try_from_complex_structures() {
    let data = json("{\"tags\": [\"a\", \"b\"], \"nested\": {\"active\": true}}");
    let Bson::Document(doc) = converted(data) else {
        panic!("expected document");
    };
    assert_eq!(doc.get_array("tags").unwrap().len(), 2);
    assert!(doc
        .get_document("nested")
        .unwrap()
        .get_bool("active")
        .unwrap());
}

#[test]
fn conversion_keeps_types_at_every_depth() {
    let data = json("{\"a\": [1, [\"x\", null], {\"b\": 3000000000, \"c\": false}]}");
    let inner = doc(vec![
        ("b", Bson::Int64(3000000000)),
        ("c", Bson::Boolean(false)),
    ]);
    let items = vec![
        Bson::Int32(1),
        Bson::Array(vec!["x".into(), Bson::Null]),
        Bson::Document(inner),
    ];
    assert_eq!(
        converted(data),
        Bson::Document(doc(vec![("a", Bson::Array(items))]))
    );
}

#[test]
fn first_item_that_cannot_be_converted_decides() {
    let filter = json("{ \"a\": { \"$in\": [1, { \"$oid\": 5 }, { \"$date\": true }] } }");
    let error = build_filter_doc(filter.as_object().unwrap()).unwrap_err();
    let first = Bson::try_from(json("{ \"$oid\": 5 }")).unwrap_err();
    match error {
        Error::Bson { source } => assert_eq!(source.to_string(), first.to_string()),
        other => panic!("unexpected error {other:?}"),
    }
}

#[test]
fn object_ids_are_converted_inside() {
    let data = json("{\"ids\": [{\"$oid\": \"66803022A16E6A0000EDB3F9\"}]}");
    let id = ObjectId::parse_str("66803022a16e6a0000edb3f9").unwrap();
    let ids = Bson::Array(vec![Bson::ObjectId(id)]);
    assert_eq!(converted(data), Bson::Document(doc(vec![("ids", ids)])));

    let filter = json("{ \"_id\": { \"$oid\": \"66803022\" } }");
    let refused = build_filter_doc(filter.as_object().unwrap());
    assert!(matches!(refused, Err(Error::Bson { .. })));
}

#[test]
fn numbers_beyond_integers_are_floats() {
    assert!(matches!(converted(Value::from(u64::MAX)), Bson::Double(_)));
    assert_eq!(converted(Value::from(i64::MAX)), Bson::Int64(i64::MAX));
    assert_eq!(converted(Value::from(i32::MIN)), Bson::Int32(i32::MIN));
    assert_eq!(converted(Value::from(2.0)), Bson::Double(2.0));
}

#[test]
fn scalars_always_make_a_filter() {
    let filter = json("{ \"n\": null, \"i\": 5, \"b\": true, \"t\": \"x\", \"f\": 1.5 }");
    assert_eq!(build_filter_doc(filter.as_object().unwrap()).unwrap().len(), 5);
}
