//! Documents to insert.

use crate::document::{
    all_converted, bson_from_json, bson_into_document, bson_object_id, bson_text, bson_to_string,
    bson_value, converted_within, converts, document_entries, document_insert, extended_id_text,
    hex_bytes, hex_text, is_convertible, is_extended_json_key, is_object_id_text, is_plain_object,
    json_to_bson, law_conversion_goes_inside, law_convertible_values_convert, law_hex_round_trip,
    object_id_bytes, object_id_new, object_id_parse, parsed_object_id, BsonValue,
};
use crate::entries::{
    distinct_keys, has_key, law_put_then_lookup, lemma_lookup_at, lookup, place_of, put,
};
use crate::event::{route_completion, routed, Emission, Event, EventData, EventDraft};
use crate::json::{
    is_object_of, json_as_object, json_as_str, json_get, json_is_null, json_map_get, json_members,
    json_value, member, JsonValue,
};
use crate::mongo::config::Collection;
use crate::mongo::error::Error;
use bson::extjson::de::Error as ExtendedJsonError;
use bson::oid::Error as ObjectIdError;
use bson::oid::ObjectId;
use bson::{Bson, Document};
use mongodb::error::Error as MongoError;
use mongodb::results::InsertOneResult;
use serde_json::Error as JsonError;
use serde_json::Value;
use vstd::prelude::*;

verus! {

#[verifier::external_type_specification]
#[verifier::external_body]
pub struct ExInsertOneResult(InsertOneResult);

/// What the field `inserted_id` of `mongodb::results::InsertOneResult` holds.
pub uninterp spec fn inserted_id(result: InsertOneResult) -> Bson;

/// What `serde_json::to_value` makes of `mongodb::results::InsertOneResult`.
pub uninterp spec fn insert_result_value(result: InsertOneResult) -> Result<Value, JsonError>;

/// A document to insert, and where.
#[derive(Debug)]
pub struct WriteRequest {
    pub db_name: String,
    pub collection_name: String,
    /// The subject of the result event.
    pub subject: String,
    pub document: Document,
}

/// The `_id` that a JSON value asks for.
pub enum RequestedId {
    /// None: a fresh one is made.
    Fresh,
    /// The object id that this text spells.
    Given(Seq<char>),
    /// Anything but an object id.
    Unsupported,
}

/// The `_id` that a JSON value asks for: none where it is missing or null, else
/// the text under its `$oid`.
pub open spec fn requested_id(value: Value) -> RequestedId {
    match member(value, "_id"@) {
        None => RequestedId::Fresh,
        Some(id) => if json_value(id) is Null {
            RequestedId::Fresh
        } else {
            match member(id, "$oid"@) {
                None => RequestedId::Unsupported,
                Some(spelled) => match json_value(spelled) {
                    JsonValue::Text(text) => RequestedId::Given(text),
                    _ => RequestedId::Unsupported,
                },
            }
        },
    }
}

/// Whether `id` is the object id that `text` spells.
pub open spec fn is_spelled(id: ObjectId, text: Seq<char>) -> bool {
    &&& is_object_id_text(text)
    &&& object_id_bytes(id) == hex_bytes(text)
    &&& parsed_object_id(text) == Ok::<ObjectId, ObjectIdError>(id)
}

/// Whether `error` is how a text that spells no object id is refused.
pub open spec fn is_misspelled(error: Error, text: Seq<char>) -> bool {
    &&& !is_object_id_text(text)
    &&& error matches Error::InvalidObjectId { source }
    &&& parsed_object_id(text) == Err::<ObjectId, ObjectIdError>(source)
}

/// The object id that a JSON value asks to be stored under, if any.
pub fn event_id(value: &Value) -> (id: Result<Option<ObjectId>, Error>)
    ensures
        match requested_id(*value) {
            RequestedId::Fresh => id == Ok::<Option<ObjectId>, Error>(None),
            RequestedId::Unsupported => id matches Err(Error::UnsupportedIdShape),
            RequestedId::Given(text) => match id {
                Ok(Some(id)) => is_spelled(id, text),
                Ok(None) => false,
                Err(error) => is_misspelled(error, text),
            },
        },
{
    let id = match json_get(value, "_id") {
        None => return Ok(None),
        Some(id) => id,
    };
    if json_is_null(id) {
        return Ok(None);
    }
    let spelled = match json_as_object(id) {
        Some(map) => match json_map_get(map, "$oid") {
            Some(spelled) => json_as_str(spelled),
            None => None,
        },
        None => None,
    };
    match spelled {
        Some(text) => match object_id_parse(text) {
            Ok(id) => Ok(Some(id)),
            Err(source) => Err(Error::InvalidObjectId { source }),
        },
        None => Err(Error::UnsupportedIdShape),
    }
}

/// Whether `entries` are those of `document` with `id` as the `_id`.
pub open spec fn has_id_put(
    document: Document,
    id: ObjectId,
    entries: Seq<(Seq<char>, Bson)>,
) -> bool {
    exists|held: Bson|
        bson_value(held) == BsonValue::ObjectId(id) && entries == #[trigger] put(
            document_entries(document),
            "_id"@,
            held,
        )
}

/// Whether `made` is the document to store a JSON value in under `id`.
pub open spec fn is_stored_document(
    value: Value,
    id: ObjectId,
    made: Result<Document, Error>,
) -> bool {
    &&& converts(value, json_to_bson(value))
    &&& match json_to_bson(value) {
        Err(source) => made == Err::<Document, Error>((Error::Bson { source })),
        Ok(converted) => match bson_value(converted) {
            BsonValue::Document(document) => made matches Ok(stored) && has_id_put(
                document,
                id,
                document_entries(stored),
            ),
            _ => made matches Err(Error::InvalidDocument),
        },
    }
}

/// The document that a JSON value is stored in under `id`: the value converted,
/// which must give a document, with `id` as its `_id`.
pub fn stored_document(value: &Value, id: ObjectId) -> (made: Result<Document, Error>)
    ensures
        is_stored_document(*value, id, made),
{
    let converted = match bson_from_json(value) {
        Ok(converted) => converted,
        Err(source) => return Err(Error::Bson { source }),
    };
    match bson_into_document(converted) {
        Some(document) => {
            let mut stored = document;
            let held = bson_object_id(id);
            document_insert(&mut stored, "_id".to_string(), held);
            Ok(stored)
        },
        None => Err(Error::InvalidDocument),
    }
}

/// Whether `request` stores a JSON value under `id` in the configured collection.
pub open spec fn stores(
    config: Collection,
    value: Value,
    id: ObjectId,
    request: Result<WriteRequest, Error>,
) -> bool {
    match request {
        Ok(request) => {
            &&& request.db_name == config.db_name
            &&& request.collection_name == config.collection_name
            &&& request.subject@ == config.db_name@ + "."@ + config.collection_name@
            &&& is_stored_document(value, id, Ok(request.document))
        },
        Err(error) => is_stored_document(value, id, Err(error)),
    }
}

/// Whether `request` is what an event with this data is written by. The event
/// must hold JSON, and an `_id` that it asks for must be an object id.
pub open spec fn is_write_outcome(
    config: Collection,
    data: EventData,
    request: Result<WriteRequest, Error>,
) -> bool {
    match data {
        EventData::Json(value) => match requested_id(value) {
            RequestedId::Fresh => exists|id: ObjectId| #[trigger] stores(config, value, id, request),
            RequestedId::Unsupported => request matches Err(Error::UnsupportedIdShape),
            RequestedId::Given(text) => if is_object_id_text(text) {
                exists|id: ObjectId|
                    is_spelled(id, text) && #[trigger] stores(config, value, id, request)
            } else {
                request matches Err(error) && is_misspelled(error, text)
            },
        },
        _ => request matches Err(Error::UnsupportedEventData),
    }
}

/// Prepares the insertion of an event's JSON payload as a document. Where the
/// payload asks for no `_id`, a fresh object id is made.
pub fn prepare_write(config: &Collection, data: &EventData) -> (request: Result<
    WriteRequest,
    Error,
>)
    ensures
        is_write_outcome(*config, *data, request),
{
    let value = match data {
        EventData::Json(value) => value,
        _ => return Err(Error::UnsupportedEventData),
    };
    let id = match event_id(value) {
        Ok(Some(id)) => id,
        Ok(None) => object_id_new(),
        Err(error) => return Err(error),
    };
    let made = stored_document(value, id);
    let request = match made {
        Ok(document) => {
            let subject = config.db_name.clone().concat(".").concat(
                config.collection_name.as_str(),
            );
            Ok(
                WriteRequest {
                    db_name: config.db_name.clone(),
                    collection_name: config.collection_name.clone(),
                    subject,
                    document,
                },
            )
        },
        Err(error) => Err(error),
    };
    assert(stores(*config, *value, id, request));
    request
}

/// A write keeps the event: the stored document has the object id as its `_id`,
/// every other member of a plain JSON object converted under its name, and
/// nothing else.
pub proof fn law_write_keeps_members(
    value: Value,
    map: serde_json::Map<String, Value>,
    id: ObjectId,
    stored: Document,
    key: Seq<char>,
)
    requires
        json_value(value) == JsonValue::Object(map),
        is_plain_object(json_members(map)),
        is_stored_document(value, id, Ok(stored)),
    ensures
        lookup(document_entries(stored), "_id"@) matches Some(held) && bson_value(held)
            == BsonValue::ObjectId(id),
        key != "_id"@ ==> match lookup(json_members(map), key) {
            Some(held) => lookup(document_entries(stored), key) matches Some(converted)
                && json_to_bson(held) == Ok::<Bson, ExtendedJsonError>(converted),
            None => lookup(document_entries(stored), key) is None,
        },
{
    let members = json_members(map);
    let converted = json_to_bson(value)->Ok_0;
    let document = bson_value(converted)->Document_0;
    let entries = document_entries(document);
    law_conversion_goes_inside(value, converted);
    assert(all_converted(members, entries));
    assert(distinct_keys(members)) by {
        assert forall|i: int, j: int| 0 <= i < j < members.len() implies (#[trigger] members[i]).0
            != (#[trigger] members[j]).0 by {
            assert(entries[i].0 != entries[j].0);
        }
    }
    let held = choose|held: Bson|
        bson_value(held) == BsonValue::ObjectId(id) && document_entries(stored) == #[trigger] put(
            entries,
            "_id"@,
            held,
        );
    law_put_then_lookup(entries, "_id"@, held, key);
    if key != "_id"@ {
        if has_key(members, key) {
            let at = place_of(members, key);
            assert(entries[at].0 == key);
            lemma_lookup_at(entries, at);
            lemma_lookup_at(members, at);
        } else if has_key(entries, key) {
            let at = place_of(entries, key);
            assert(members[at].0 == key);
        }
    }
}

/// A JSON object that surely has a BSON form, and that asks for no `_id` or for an
/// object id, is always written.
pub proof fn law_convertible_events_are_written(
    config: Collection,
    value: Value,
    map: serde_json::Map<String, Value>,
    request: Result<WriteRequest, Error>,
    layers: nat,
)
    requires
        is_write_outcome(config, EventData::Json(value), request),
        json_value(value) == JsonValue::Object(map),
        is_plain_object(json_members(map)),
        is_convertible(value, layers),
        match requested_id(value) {
            RequestedId::Fresh => true,
            RequestedId::Given(text) => is_object_id_text(text),
            RequestedId::Unsupported => false,
        },
    ensures
        request is Ok,
{
    let converted = json_to_bson(value);
    law_convertible_values_convert(value, converted, layers);
    assert(converted_within(value, converted, 0));
    if extended_id_text(json_members(map)) is Some {
        assert(is_extended_json_key(json_members(map)[0].0));
    }
}

/// A read of the field `mongodb::results::InsertOneResult::inserted_id`.
#[verifier::external_body]
fn insert_result_id(result: &InsertOneResult) -> (id: &Bson)
    ensures
        *id == inserted_id(*result),
{
    &result.inserted_id
}

/// Whether `value` reports an object id with these bytes: an object whose one
/// member `insertedId` holds them, spelled, under `$oid`.
pub open spec fn reports_id(value: Value, bytes: Seq<u8>) -> bool {
    member(value, "insertedId"@) matches Some(id) && is_object_of(
        id,
        seq![("$oid"@, JsonValue::Text(hex_text(bytes)))],
    )
}

/// Whether `value` is an object whose one member is `insertedId`.
pub open spec fn is_insert_report(value: Value) -> bool {
    json_value(value) matches JsonValue::Object(map) && json_members(map).len() == 1
        && json_members(map)[0].0 == "insertedId"@
}

/// What is known of the report of an id: it is an object whose one member is
/// `insertedId`, and an object id is always reported, spelled.
pub open spec fn is_report_of(id: Bson, converted: Result<Value, JsonError>) -> bool {
    match converted {
        Ok(value) => {
            &&& is_insert_report(value)
            &&& bson_value(id) matches BsonValue::ObjectId(id) ==> reports_id(
                value,
                object_id_bytes(id),
            )
        },
        Err(_) => !(bson_value(id) is ObjectId),
    }
}

/// `serde_json::to_value` of `mongodb::results::InsertOneResult`. The result is a
/// function of the argument: an object whose one member `insertedId` is the id.
/// An object id is always written, as an object with its text under `$oid`.
#[verifier::external_body]
fn insert_result_to_value(result: &InsertOneResult) -> (converted: Result<Value, JsonError>)
    ensures
        converted == insert_result_value(*result),
        is_report_of(inserted_id(*result), converted),
{
    serde_json::to_value(result)
}

/// A document that is being inserted: next the insertion is performed.
#[derive(Debug)]
pub struct Writing<C> {
    pub request: WriteRequest,
    pub completion: Option<C>,
    pub has_sender: bool,
    pub task_id: usize,
    pub task_type: &'static str,
}

/// A document that was inserted: next the result event is built from its draft.
#[derive(Debug)]
pub struct Written<C> {
    pub draft: EventDraft,
    pub completion: Option<C>,
    pub has_sender: bool,
}

/// Whether `draft` tells of an insertion with this result.
pub open spec fn tells_of<C>(
    writing: Writing<C>,
    result: InsertOneResult,
    draft: EventDraft,
) -> bool {
    &&& draft.data matches EventData::Json(value)
    &&& insert_result_value(result) == Ok::<Value, JsonError>(value)
    &&& is_report_of(inserted_id(result), Ok(value))
    &&& draft.subject == Some(writing.request.subject)
    &&& draft.id matches Some(text)
    &&& text@ == bson_text(inserted_id(result))
    &&& bson_value(inserted_id(result)) matches BsonValue::ObjectId(id) ==> text@ == "ObjectId(\""@
        + hex_text(object_id_bytes(id)) + "\")"@
    &&& draft.task_id == writing.task_id
    &&& draft.task_type == writing.task_type
}

impl<C> Writing<C> {
    /// Goes on with the result of the insertion.
    pub fn inserted(self, stored: Result<InsertOneResult, MongoError>) -> (next: Result<
        Written<C>,
        Error,
    >)
        ensures
            match stored {
                Err(source) => next == Err::<Written<C>, Error>((Error::MongoDB { source })),
                Ok(result) => match next {
                    Ok(written) => {
                        &&& tells_of(self, result, written.draft)
                        &&& written.completion == self.completion
                        &&& written.has_sender == self.has_sender
                    },
                    Err(error) => {
                        &&& error matches Error::SerdeJson { source }
                        &&& insert_result_value(result) == Err::<Value, JsonError>(source)
                        &&& is_report_of(inserted_id(result), Err(source))
                    },
                },
            },
    {
        let result = match stored {
            Ok(result) => result,
            Err(source) => return Err(Error::MongoDB { source }),
        };
        let value = match insert_result_to_value(&result) {
            Ok(value) => value,
            Err(source) => return Err(Error::SerdeJson { source }),
        };
        let draft = EventDraft {
            data: EventData::Json(value),
            subject: Some(self.request.subject),
            id: Some(bson_to_string(insert_result_id(&result))),
            task_id: self.task_id,
            task_type: self.task_type,
        };
        Ok(Written { draft, completion: self.completion, has_sender: self.has_sender })
    }
}

impl<C> Written<C> {
    /// Goes on with the result event: its completion is routed, and it is to be
    /// sent.
    pub fn built(self, event: Result<Event<C>, String>) -> (emission: Result<Emission<C>, Error>)
        ensures
            match event {
                Ok(event) => emission == Ok::<Emission<C>, Error>(
                    routed(event, self.completion, self.has_sender),
                ),
                Err(source) => emission == Err::<Emission<C>, Error>(
                    (Error::EventBuilder { source }),
                ),
            },
    {
        match event {
            Ok(event) => Ok(route_completion(event, self.completion, self.has_sender)),
            Err(source) => Err(Error::EventBuilder { source }),
        }
    }
}

/// The id that a write reports is one that a write accepts: an event whose `_id`
/// is a reported `insertedId` asks to be stored under the same object id.
pub proof fn law_reported_id_is_accepted(report: Value, event: Value, bytes: Seq<u8>)
    requires
        bytes.len() == 12,
        reports_id(report, bytes),
        member(event, "_id"@) == member(report, "insertedId"@),
    ensures
        requested_id(event) matches RequestedId::Given(text) && is_object_id_text(text)
            && hex_bytes(text) == bytes,
{
    law_hex_round_trip(bytes);
    let id = member(report, "insertedId"@)->0;
    let map = json_value(id)->Object_0;
    let held = json_members(map);
    assert(held[0].0 == "$oid"@);
    assert(has_key(held, "$oid"@));
    assert(place_of(held, "$oid"@) == 0);
}

} // verus!
