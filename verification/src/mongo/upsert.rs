//! Applying a payload to the first document that matches a filter.

use crate::document::{
    all_converted, bson_from_json, bson_into_document, bson_value, converted_within, converts,
    document_entries, extended_id_text, is_convertible, is_extended_json_key, is_object_id_text,
    is_plain_object, json_to_bson, law_conversion_goes_inside, law_convertible_values_convert,
    BsonValue,
};
use crate::entries::{distinct_keys, has_key, lemma_lookup_at, lookup, place_of};
use crate::event::{route_completion, routed, Emission, Event, EventData};
use crate::json::{json_map_is_empty, json_members, json_value, JsonValue};
use crate::mongo::config::Collection;
use crate::mongo::error::Error;
use crate::mongo::filter::{
    build_filter_doc, is_filter_outcome, law_convertible_filters_are_built,
};
use crate::mongo::update::{
    all_operators, build_update_doc, has_unsupported_id, is_operator, is_update_outcome,
    law_update_holds_payload, no_operators,
};
use bson::extjson::de::Error as ExtendedJsonError;
use bson::{Bson, Document};
use mongodb::error::Error as MongoError;
use serde_json::Value;
use vstd::prelude::*;

verus! {

/// An update of the first document that matches, and where.
#[derive(Debug)]
pub struct UpsertRequest {
    pub db_name: String,
    pub collection_name: String,
    pub filter: Document,
    pub update: Document,
    /// Whether a document is inserted where none matches.
    pub upsert: bool,
    /// Whether the document is returned as it is after the update.
    pub return_updated: bool,
}

/// Whether `request` applies a payload in the configured collection. What is
/// wrong with the payload is told before what is wrong with the filter.
pub open spec fn applies(
    config: Collection,
    payload: Document,
    request: Result<UpsertRequest, Error>,
) -> bool {
    match request {
        Ok(request) => {
            &&& request.db_name == config.db_name
            &&& request.collection_name == config.collection_name
            &&& is_filter_outcome(config.filter, Ok(request.filter))
            &&& is_update_outcome(payload, Ok(request.update))
            &&& request.upsert
            &&& request.return_updated
        },
        Err(error) => {
            ||| is_update_outcome(payload, Err(error))
            ||| {
                &&& exists|update: Document| #[trigger] is_update_outcome(payload, Ok(update))
                &&& is_filter_outcome(config.filter, Err(error))
            }
        },
    }
}

/// Whether `request` is what an event with this data is upserted by. The event
/// must hold a JSON object, and the filter must not be empty.
pub open spec fn is_upsert_outcome(
    config: Collection,
    data: EventData,
    request: Result<UpsertRequest, Error>,
) -> bool {
    match data {
        EventData::Json(value) => if json_members(config.filter).len() == 0 {
            request matches Err(Error::MissingUpsertFilter)
        } else {
            &&& converts(value, json_to_bson(value))
            &&& match json_to_bson(value) {
                Err(source) => request == Err::<UpsertRequest, Error>((Error::Bson { source })),
                Ok(converted) => match bson_value(converted) {
                    BsonValue::Document(payload) => applies(config, payload, request),
                    _ => request matches Err(Error::InvalidDocument),
                },
            }
        },
        _ => request matches Err(Error::UnsupportedEventData),
    }
}

/// Prepares the upsert of an event's JSON payload.
pub fn prepare_upsert(config: &Collection, data: &EventData) -> (request: Result<
    UpsertRequest,
    Error,
>)
    ensures
        is_upsert_outcome(*config, *data, request),
{
    let value = match data {
        EventData::Json(value) => value,
        _ => return Err(Error::UnsupportedEventData),
    };
    // An empty filter matches everything: this would change an arbitrary
    // document instead of inserting one.
    if json_map_is_empty(&config.filter) {
        return Err(Error::MissingUpsertFilter);
    }
    let converted = match bson_from_json(value) {
        Ok(converted) => converted,
        Err(source) => return Err(Error::Bson { source }),
    };
    let payload = match bson_into_document(converted) {
        Some(payload) => payload,
        None => return Err(Error::InvalidDocument),
    };
    let update = match build_update_doc(payload) {
        Ok(update) => update,
        Err(error) => return Err(error),
    };
    assert(is_update_outcome(payload, Ok(update)));
    match build_filter_doc(&config.filter) {
        Ok(filter) => Ok(
            UpsertRequest {
                db_name: config.db_name.clone(),
                collection_name: config.collection_name.clone(),
                filter,
                update,
                upsert: true,
                return_updated: true,
            },
        ),
        Err(error) => Err(error),
    }
}

/// A payload that is being applied: next the update is performed.
#[derive(Debug)]
pub struct Upserting<C> {
    pub request: UpsertRequest,
    pub completion: Option<C>,
    pub has_sender: bool,
}

/// A payload that was applied: next the document is turned into an event.
#[derive(Debug)]
pub struct Upserted<C> {
    pub document: Document,
    pub completion: Option<C>,
    pub has_sender: bool,
}

impl<C> Upserting<C> {
    /// Goes on with the document that the update left. Only one that is deleted
    /// at the same time can be missing.
    pub fn applied(self, found: Result<Option<Document>, MongoError>) -> (next: Result<
        Upserted<C>,
        Error,
    >)
        ensures
            match found {
                Err(source) => next == Err::<Upserted<C>, Error>((Error::MongoDB { source })),
                Ok(None) => next matches Err(Error::MissingUpsertedDocument),
                Ok(Some(document)) => next == Ok::<Upserted<C>, Error>(
                    (Upserted {
                        document,
                        completion: self.completion,
                        has_sender: self.has_sender,
                    }),
                ),
            },
    {
        match found {
            Ok(Some(document)) => Ok(
                Upserted { document, completion: self.completion, has_sender: self.has_sender },
            ),
            Ok(None) => Err(Error::MissingUpsertedDocument),
            Err(source) => Err(Error::MongoDB { source }),
        }
    }
}

impl<C> Upserted<C> {
    /// Goes on with the document's event: its completion is routed, and it is to
    /// be sent.
    pub fn converted(self, event: Result<Event<C>, String>) -> (emission: Result<
        Emission<C>,
        Error,
    >)
        ensures
            match event {
                Ok(event) => emission == Ok::<Emission<C>, Error>(
                    routed(event, self.completion, self.has_sender),
                ),
                Err(source) => emission == Err::<Emission<C>, Error>(
                    (Error::MessageConversion { source }),
                ),
            },
    {
        match event {
            Ok(event) => Ok(route_completion(event, self.completion, self.has_sender)),
            Err(source) => Err(Error::MessageConversion { source }),
        }
    }
}

/// An upsert without a filter is never performed: it would change an arbitrary
/// document.
pub proof fn law_upsert_needs_a_filter(
    config: Collection,
    data: EventData,
    request: Result<UpsertRequest, Error>,
)
    requires
        is_upsert_outcome(config, data, request),
    ensures
        json_members(config.filter).len() == 0 ==> request is Err,
        request matches Ok(upsert) ==> document_entries(upsert.filter).len() > 0,
{
}

/// An upsert applies the event: each member of a plain JSON object, but for its
/// `_id`, is set under its name, converted.
pub proof fn law_upsert_sets_members(
    config: Collection,
    value: Value,
    map: serde_json::Map<String, Value>,
    request: UpsertRequest,
    key: Seq<char>,
)
    requires
        json_value(value) == JsonValue::Object(map),
        is_plain_object(json_members(map)),
        forall|i: int|
            0 <= i < json_members(map).len() ==> !is_operator((#[trigger] json_members(map)[i]).0),
        is_upsert_outcome(config, EventData::Json(value), Ok(request)),
        has_key(json_members(map), key),
        key != "_id"@,
    ensures
        lookup(document_entries(request.update), "$set"@) matches Some(set) && bson_value(
            set,
        ) matches BsonValue::Document(document) && lookup(
            document_entries(document),
            key,
        ) matches Some(converted) && json_to_bson(lookup(json_members(map), key)->0) == Ok::<
            Bson,
            ExtendedJsonError,
        >(converted),
{
    let members = json_members(map);
    let payload = bson_value(json_to_bson(value)->Ok_0)->Document_0;
    law_conversion_goes_inside(value, json_to_bson(value)->Ok_0);
    let fields = document_entries(payload);
    assert(all_converted(members, fields));
    assert(distinct_keys(members)) by {
        assert forall|i: int, j: int| 0 <= i < j < members.len() implies (#[trigger] members[i]).0
            != (#[trigger] members[j]).0 by {
            assert(fields[i].0 != fields[j].0);
        }
    }
    let at = place_of(members, key);
    assert(fields[at].0 == key);
    assert(!is_operator(members[at].0));
    assert(no_operators(fields)) by {
        assert forall|i: int| 0 <= i < fields.len() implies !is_operator(
            (#[trigger] fields[i]).0,
        ) by {
            assert(!is_operator(members[i].0));
        }
    }
    lemma_lookup_at(members, at);
    lemma_lookup_at(fields, at);
    law_update_holds_payload(payload, request.update, key);
}

/// Whether an `_id` in JSON is one that an upsert takes: null, or an object id in
/// extended JSON that is spelled right.
pub open spec fn is_upsert_id(id: Value) -> bool {
    match json_value(id) {
        JsonValue::Null => true,
        JsonValue::Object(map) => extended_id_text(json_members(map)) matches Some(text)
            && is_object_id_text(text),
        _ => false,
    }
}

/// Whether the members of a JSON object make an upsert payload: update operators
/// alone, or plain fields alone with no `_id` but one that an upsert takes.
pub open spec fn is_upsert_payload(members: Seq<(Seq<char>, Value)>) -> bool {
    &&& members.len() > 0
    &&& {
        ||| forall|i: int| 0 <= i < members.len() ==> is_operator((#[trigger] members[i]).0)
        ||| {
            &&& forall|i: int| 0 <= i < members.len() ==> !is_operator((#[trigger] members[i]).0)
            &&& lookup(members, "_id"@) matches Some(id) ==> is_upsert_id(id)
        }
    }
}

/// A payload that surely has a BSON form is always upserted, with a filter that
/// surely has one and is not empty.
pub proof fn law_convertible_events_are_upserted(
    config: Collection,
    value: Value,
    map: serde_json::Map<String, Value>,
    request: Result<UpsertRequest, Error>,
    layers: nat,
)
    requires
        is_upsert_outcome(config, EventData::Json(value), request),
        json_value(value) == JsonValue::Object(map),
        is_plain_object(json_members(map)),
        is_convertible(value, layers),
        is_upsert_payload(json_members(map)),
        json_members(config.filter).len() > 0,
        forall|i: int|
            0 <= i < json_members(config.filter).len() ==> is_convertible(
                (#[trigger] json_members(config.filter)[i]).1,
                layers,
            ),
    ensures
        request is Ok,
{
    let members = json_members(map);
    let converted = json_to_bson(value);
    law_convertible_values_convert(value, converted, layers);
    law_conversion_goes_inside(value, converted->Ok_0);
    if extended_id_text(members) is Some {
        assert(is_extended_json_key(members[0].0));
    }
    let payload = bson_value(converted->Ok_0)->Document_0;
    let fields = document_entries(payload);
    assert(all_converted(members, fields));
    assert(distinct_keys(members)) by {
        assert forall|i: int, j: int| 0 <= i < j < members.len() implies (#[trigger] members[i]).0
            != (#[trigger] members[j]).0 by {
            assert(fields[i].0 != fields[j].0);
        }
    }
    if forall|i: int| 0 <= i < members.len() ==> is_operator((#[trigger] members[i]).0) {
        assert forall|i: int| 0 <= i < fields.len() implies is_operator(
            (#[trigger] fields[i]).0,
        ) by {
            assert(is_operator(members[i].0));
        }
        assert(all_operators(fields));
    } else {
        assert forall|i: int| 0 <= i < fields.len() implies !is_operator(
            (#[trigger] fields[i]).0,
        ) by {
            assert(!is_operator(members[i].0));
        }
        assert(no_operators(fields));
        assert(!all_operators(fields)) by {
            assert(!is_operator(fields[0].0));
        }
        if has_key(fields, "_id"@) {
            let at = place_of(fields, "_id"@);
            assert(members[at].0 == "_id"@);
            lemma_lookup_at(members, at);
            lemma_lookup_at(fields, at);
            assert(converts(members[at].1, Ok(fields[at].1)));
            assert(converted_within(members[at].1, Ok(fields[at].1), 0));
        }
        assert(!has_unsupported_id(fields));
    }
    if let Err(error) = request {
        if is_filter_outcome(config.filter, Err(error)) {
            law_convertible_filters_are_built(config.filter, Err(error), layers);
        }
    }
}

} // verus!
