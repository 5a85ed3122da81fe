//! What the operations on a collection do, said of arguments and results.

use crate::document::{
    all_converted, bson_text, bson_value, document_entries,
    extended_id_text, hex_bytes, is_extended_json_key, is_object_id_text, is_plain_object,
    json_to_bson, law_conversion_goes_inside, object_id_bytes, parsed_object_id, BsonValue,
};
use crate::entries::{
    distinct_keys, has_key, law_put_then_lookup, lemma_lookup_at, lookup, place_of, put,
};
use crate::event::{is_own, is_sent_on, Emission, Event, EventData};
use crate::json::{json_members, json_value, member, JsonValue};
use crate::mongo::collection::{
    connected_client, ClientRequest, EventHandler, Initializing, Plan, Processor, ProcessorBuilder,
};
use crate::mongo::config::{Collection, Operation};
use crate::mongo::error::{is_message, Error};
use crate::mongo::filter::build_filter_doc;
use crate::mongo::read::{
    is_find_outcome, no_match, prepare_find, FindRequest, Finding, Found, Opened, Reading, Step,
};
use crate::mongo::update::{
    all_operators, build_update_doc, is_operator, is_update_outcome, law_set_is_payload_without_id,
    no_operators, set_fields, set_on_insert_fields,
};
use crate::mongo::upsert::{is_upsert_outcome, prepare_upsert, UpsertRequest, Upserted, Upserting};
use crate::mongo::write::{
    event_id, insert_result_value, inserted_id, prepare_write, stored_document, WriteRequest,
    Writing, Written,
};
use crate::task::{RegistryError, Retry};
use bson::extjson::de::Error as ExtendedJsonError;
use bson::oid::Error as ObjectIdError;
use bson::oid::ObjectId;
use bson::{Bson, Document};
use mongodb::error::Error as MongoError;
use mongodb::results::InsertOneResult;
use mongodb::Client as MongoClient;
use serde_json::Error as JsonError;
use serde_json::Value;
use std::sync::Arc;
use tokio::sync::mpsc::{Receiver, Sender};
use vstd::prelude::*;
use vstd::string::to_string_from_display_ensures;

verus! {

/// Whether `fields` hold each of the members converted under its own name, in
/// order, and nothing else.
pub open spec fn asks_for(
    fields: Seq<(Seq<char>, Bson)>,
    members: Seq<(Seq<char>, Value)>,
) -> bool {
    &&& fields.len() == members.len()
    &&& forall|i: int| 0 <= i < members.len() ==> (#[trigger] fields[i]).0 == members[i].0
    &&& forall|key: Seq<char>| #![trigger lookup(fields, key)]
        match lookup(members, key) {
            Some(value) => lookup(fields, key) matches Some(converted) && json_to_bson(value)
                == Ok::<Bson, ExtendedJsonError>(converted),
            None => lookup(fields, key) is None,
        }
}

/// Members that were converted one by one are all found.
proof fn lemma_converted_are_found(
    members: Seq<(Seq<char>, Value)>,
    fields: Seq<(Seq<char>, Bson)>,
)
    requires
        all_converted(members, fields),
        distinct_keys(fields),
    ensures
        asks_for(fields, members),
        distinct_keys(members),
{
    assert(distinct_keys(members)) by {
        assert forall|i: int, j: int| 0 <= i < j < members.len() implies (#[trigger] members[i]).0
            != (#[trigger] members[j]).0 by {
            assert(fields[i].0 != fields[j].0);
        }
    }
    assert forall|key: Seq<char>| #![trigger lookup(fields, key)]
        match lookup(members, key) {
            Some(value) => lookup(fields, key) matches Some(converted) && json_to_bson(value)
                == Ok::<Bson, ExtendedJsonError>(converted),
            None => lookup(fields, key) is None,
        } by {
        if has_key(members, key) {
            let at = place_of(members, key);
            assert(fields[at].0 == key);
            lemma_lookup_at(members, at);
            lemma_lookup_at(fields, at);
        } else if has_key(fields, key) {
            let at = place_of(fields, key);
            assert(members[at].0 == key);
        }
    }
}

/// A query document asks for every member of the filter and for nothing else.
pub proof fn law_query_document_is_the_filter(
    filter: serde_json::Map<String, Value>,
    document: Document,
)
    requires
        call_ensures(build_filter_doc, (&filter,), Ok(document)),
    ensures
        asks_for(document_entries(document), json_members(filter)),
{
    lemma_converted_are_found(json_members(filter), document_entries(document));
}

/// A filter that is refused holds a member that has no BSON form, and the first
/// such member is why.
pub proof fn law_refused_filter_has_a_reason(
    filter: serde_json::Map<String, Value>,
    error: Error,
)
    requires
        call_ensures(build_filter_doc, (&filter,), Err(error)),
    ensures
        error matches Error::Bson { source } && exists|i: int|
            {
                &&& 0 <= i < json_members(filter).len()
                &&& json_to_bson((#[trigger] json_members(filter)[i]).1) == Err::<
                    Bson,
                    ExtendedJsonError,
                >(source)
                &&& forall|j: int|
                    0 <= j < i ==> json_to_bson((#[trigger] json_members(filter)[j]).1) is Ok
            },
{
}

/// A read queries the configured collection of the configured database with the
/// whole configured filter.
pub proof fn law_read_asks_for_the_whole_filter(config: Collection, request: FindRequest)
    requires
        call_ensures(prepare_find, (&config,), Ok(request)),
    ensures
        request.db_name == config.db_name,
        request.collection_name == config.collection_name,
        asks_for(document_entries(request.filter), json_members(config.filter)),
{
    lemma_converted_are_found(json_members(config.filter), document_entries(request.filter));
}

/// Two reads of one collection with one filter ask for the same, whatever else is
/// configured.
pub proof fn law_reads_agree(
    config: Collection,
    request: FindRequest,
    other: Collection,
    other_request: FindRequest,
)
    requires
        call_ensures(prepare_find, (&config,), Ok(request)),
        call_ensures(prepare_find, (&other,), Ok(other_request)),
        config.db_name == other.db_name,
        config.collection_name == other.collection_name,
        config.filter == other.filter,
    ensures
        request.db_name == other_request.db_name,
        request.collection_name == other_request.collection_name,
        document_entries(request.filter) == document_entries(other_request.filter),
{
    let fields = document_entries(request.filter);
    let others = document_entries(other_request.filter);
    assert forall|i: int| 0 <= i < fields.len() implies fields[i] == #[trigger] others[i] by {
        assert(fields[i].0 == others[i].0);
    }
    assert(fields == others);
}

/// A query is emitted by document: each event is the event of its document, in
/// the order in which the documents were fetched; none but the last carries or
/// signals the completion, and the last does, downstream where there is a
/// sender. Behind the last there is nothing to emit.
pub proof fn law_read_emits_each_document_in_turn<C>(
    finding: Finding<C>,
    documents: Seq<Document>,
    events: Seq<Event<C>>,
    readings: Seq<Reading<C>>,
    founds: Seq<Found<C>>,
    steps: Seq<Step<C>>,
    at: int,
)
    requires
        documents.len() > 0,
        events.len() == documents.len(),
        readings.len() == documents.len(),
        founds.len() == documents.len(),
        steps.len() == documents.len(),
        call_ensures(
            Finding::<C>::opened,
            (finding, Ok::<Option<Document>, MongoError>(Some(documents[0]))),
            Ok(Opened::Reading(readings[0])),
        ),
        forall|i: int|
            0 <= i < documents.len() ==> call_ensures(
                Reading::<C>::fetched,
                (
                    #[trigger] readings[i],
                    Ok::<Option<Document>, MongoError>(
                        if i + 1 < documents.len() {
                            Some(documents[i + 1])
                        } else {
                            None
                        },
                    ),
                ),
                Ok(founds[i]),
            ),
        forall|i: int|
            0 <= i < documents.len() ==> call_ensures(
                Found::<C>::converted,
                (#[trigger] founds[i], Ok::<Event<C>, String>(events[i])),
                Ok(steps[i]),
            ),
        forall|i: int|
            0 <= i < documents.len() - 1 ==> ((#[trigger] steps[i]).rest matches Some(rest)
                ==> readings[i + 1] == rest),
        0 <= at < documents.len(),
    ensures
        founds[at].document == documents[at],
        steps[at].rest is Some == (at < documents.len() - 1),
        at < documents.len() - 1 ==> {
            &&& steps[at].emission.signal is None
            &&& steps[at].emission.event == events[at]
        },
        at == documents.len() - 1 ==> is_sent_on(
            events[at],
            finding.completion,
            finding.has_sender,
            steps[at].emission,
        ),
{
    lemma_reading_in_turn(finding, documents, events, readings, founds, steps, at);
    assert(founds[at].document == readings[at].pending);
}

/// The reading in a turn holds the document of that turn.
proof fn lemma_reading_in_turn<C>(
    finding: Finding<C>,
    documents: Seq<Document>,
    events: Seq<Event<C>>,
    readings: Seq<Reading<C>>,
    founds: Seq<Found<C>>,
    steps: Seq<Step<C>>,
    at: int,
)
    requires
        documents.len() > 0,
        events.len() == documents.len(),
        readings.len() == documents.len(),
        founds.len() == documents.len(),
        steps.len() == documents.len(),
        call_ensures(
            Finding::<C>::opened,
            (finding, Ok::<Option<Document>, MongoError>(Some(documents[0]))),
            Ok(Opened::Reading(readings[0])),
        ),
        forall|i: int|
            0 <= i < documents.len() ==> call_ensures(
                Reading::<C>::fetched,
                (
                    #[trigger] readings[i],
                    Ok::<Option<Document>, MongoError>(
                        if i + 1 < documents.len() {
                            Some(documents[i + 1])
                        } else {
                            None
                        },
                    ),
                ),
                Ok(founds[i]),
            ),
        forall|i: int|
            0 <= i < documents.len() ==> call_ensures(
                Found::<C>::converted,
                (#[trigger] founds[i], Ok::<Event<C>, String>(events[i])),
                Ok(steps[i]),
            ),
        forall|i: int|
            0 <= i < documents.len() - 1 ==> ((#[trigger] steps[i]).rest matches Some(rest)
                ==> readings[i + 1] == rest),
        0 <= at < documents.len(),
    ensures
        readings[at].pending == documents[at],
        readings[at].completion == finding.completion,
        readings[at].has_sender == finding.has_sender,
    decreases at,
{
    if at > 0 {
        lemma_reading_in_turn(finding, documents, events, readings, founds, steps, at - 1);
        assert(founds[at - 1].document == readings[at - 1].pending);
        assert(steps[at - 1].rest is Some);
    }
}

/// A read goes on with each document that it fetches: the first is pending, the
/// pending one is emitted with the next one behind it, and its event is sent,
/// alone where there is a next one.
pub proof fn law_read_goes_on<C>(
    finding: Finding<C>,
    first: Document,
    opened: Result<Opened<C>, Error>,
    reading: Reading<C>,
    next: Option<Document>,
    fetched: Result<Found<C>, Error>,
    found: Found<C>,
    event: Event<C>,
    converted: Result<Step<C>, Error>,
)
    requires
        call_ensures(
            Finding::<C>::opened,
            (finding, Ok::<Option<Document>, MongoError>(Some(first))),
            opened,
        ),
        call_ensures(
            Reading::<C>::fetched,
            (reading, Ok::<Option<Document>, MongoError>(next)),
            fetched,
        ),
        call_ensures(Found::<C>::converted, (found, Ok::<Event<C>, String>(event)), converted),
    ensures
        opened matches Ok(Opened::Reading(begun)) && begun.pending == first && begun.completion
            == finding.completion && begun.has_sender == finding.has_sender,
        fetched matches Ok(got) && got.document == reading.pending && got.rest == next
            && got.completion == reading.completion && got.has_sender == reading.has_sender,
        match found.rest {
            Some(document) => {
                &&& converted matches Ok(step)
                &&& step.emission.event == event
                &&& step.emission.signal is None
                &&& step.rest matches Some(rest)
                &&& rest.pending == document
                &&& rest.completion == found.completion
                &&& rest.has_sender == found.has_sender
            },
            None => {
                &&& converted matches Ok(step)
                &&& is_sent_on(event, found.completion, found.has_sender, step.emission)
                &&& step.rest is None
            },
        },
{
}

/// A query that matches nothing emits nothing: its completion is told that
/// nothing matched.
pub proof fn law_nothing_found_is_told<C>(
    finding: Finding<C>,
    next: Result<Opened<C>, Error>,
    value: Value,
)
    requires
        call_ensures(
            Finding::<C>::opened,
            (finding, Ok::<Option<Document>, MongoError>(None)),
            next,
        ),
        call_ensures(no_match, (), value),
    ensures
        next matches Ok(Opened::Empty { signal, value: told }) && signal == finding.completion
            && tells_no_match(told),
        tells_no_match(value),
{
}

/// Whether a JSON value tells that nothing matched, and nothing else.
pub open spec fn tells_no_match(value: Value) -> bool {
    json_value(value) matches JsonValue::Object(map) && json_members(map).len() == 1
        && json_members(map)[0].0 == "matched"@ && json_value(json_members(map)[0].1)
        == JsonValue::Integer(0)
}

/// A read that fails is told as what failed, with its own source.
pub proof fn law_reading_tells_its_failure<C>(
    finding: Finding<C>,
    reading: Reading<C>,
    found: Found<C>,
    lost: MongoError,
    source: String,
    unopened: Result<Opened<C>, Error>,
    unfetched: Result<Found<C>, Error>,
    unconverted: Result<Step<C>, Error>,
)
    requires
        call_ensures(
            Finding::<C>::opened,
            (finding, Err::<Option<Document>, MongoError>(lost)),
            unopened,
        ),
        call_ensures(
            Reading::<C>::fetched,
            (reading, Err::<Option<Document>, MongoError>(lost)),
            unfetched,
        ),
        call_ensures(
            Found::<C>::converted,
            (found, Err::<Event<C>, String>(source)),
            unconverted,
        ),
    ensures
        unopened == Err::<Opened<C>, Error>((Error::MongoDB { source: lost })),
        unfetched == Err::<Found<C>, Error>((Error::MongoDB { source: lost })),
        unconverted == Err::<Step<C>, Error>((Error::MessageConversion { source })),
{
}

/// A write stores its document in the configured collection of the configured
/// database, and its subject names the place that it is written to.
pub proof fn law_write_goes_where_it_says(
    config: Collection,
    data: EventData,
    request: WriteRequest,
)
    requires
        call_ensures(prepare_write, (&config, &data), Ok(request)),
    ensures
        request.db_name == config.db_name,
        request.collection_name == config.collection_name,
        request.subject@ == request.db_name@ + "."@ + request.collection_name@,
{
}

/// The `_id` that an event asks for: none where it is missing or null, the object
/// id that the text under `$oid` spells, and a refusal of anything else.
pub proof fn law_event_id_is_the_one_asked_for(
    value: Value,
    id: Result<Option<ObjectId>, Error>,
)
    requires
        call_ensures(event_id, (&value,), id),
    ensures
        match member(value, "_id"@) {
            None => id == Ok::<Option<ObjectId>, Error>(None),
            Some(asked) => if json_value(asked) is Null {
                id == Ok::<Option<ObjectId>, Error>(None)
            } else if is_text_under_oid(asked) {
                let text = json_value(member(asked, "$oid"@)->0)->Text_0;
                if is_object_id_text(text) {
                    id matches Ok(Some(id)) && object_id_bytes(id) == hex_bytes(text)
                } else {
                    id matches Err(Error::InvalidObjectId { source }) && parsed_object_id(text)
                        == Err::<ObjectId, ObjectIdError>(source)
                }
            } else {
                id matches Err(Error::UnsupportedIdShape)
            },
        },
{
}

/// Whether a JSON value has a text under `$oid`.
pub open spec fn is_text_under_oid(asked: Value) -> bool {
    member(asked, "$oid"@) matches Some(spelled) && json_value(spelled) is Text
}

/// Whether `stored` holds the members of a JSON object: but for the `_id` each is
/// found converted under its name, and nothing else is found. They keep their
/// order, and an `_id` that is not among them comes last.
pub open spec fn holds_members(
    stored: Seq<(Seq<char>, Bson)>,
    members: Seq<(Seq<char>, Value)>,
) -> bool {
    &&& stored.len() == members.len() + (if has_key(members, "_id"@) {
        0int
    } else {
        1int
    })
    &&& forall|i: int| 0 <= i < members.len() ==> (#[trigger] stored[i]).0 == members[i].0
    &&& !has_key(members, "_id"@) ==> stored.last().0 == "_id"@
    &&& forall|key: Seq<char>| #![trigger lookup(stored, key)]
        key != "_id"@ ==> match lookup(members, key) {
            Some(value) => lookup(stored, key) matches Some(converted) && json_to_bson(value)
                == Ok::<Bson, ExtendedJsonError>(converted),
            None => lookup(stored, key) is None,
        }
}

/// A document with an `_id` put in holds the members that were converted.
proof fn lemma_put_holds_members(
    members: Seq<(Seq<char>, Value)>,
    fields: Seq<(Seq<char>, Bson)>,
    held: Bson,
)
    requires
        all_converted(members, fields),
        distinct_keys(fields),
    ensures
        holds_members(put(fields, "_id"@, held), members),
        lookup(put(fields, "_id"@, held), "_id"@) == Some(held),
        distinct_keys(put(fields, "_id"@, held)),
{
    lemma_converted_are_found(members, fields);
    let stored = put(fields, "_id"@, held);
    law_put_then_lookup(fields, "_id"@, held, "_id"@);
    if has_key(fields, "_id"@) {
        let at = place_of(fields, "_id"@);
        assert(members[at].0 == "_id"@);
    }
    if has_key(members, "_id"@) {
        let at = place_of(members, "_id"@);
        assert(fields[at].0 == "_id"@);
    }
    assert forall|i: int| 0 <= i < members.len() implies (#[trigger] stored[i]).0 == members[i].0 by {
        assert(fields[i].0 == members[i].0);
    }
    assert forall|key: Seq<char>| #![trigger lookup(stored, key)] key != "_id"@ implies match lookup(
        members,
        key,
    ) {
        Some(value) => lookup(stored, key) matches Some(converted) && json_to_bson(value) == Ok::<
            Bson,
            ExtendedJsonError,
        >(converted),
        None => lookup(stored, key) is None,
    } by {
        law_put_then_lookup(fields, "_id"@, held, key);
        assert(lookup(fields, key) == lookup(stored, key));
    }
}

/// A document that is stored under an id has that id, and holds the members of
/// the plain JSON object that it was made of, no more and no less.
pub proof fn law_stored_document_is_the_event(
    value: Value,
    map: serde_json::Map<String, Value>,
    id: ObjectId,
    stored: Document,
)
    requires
        call_ensures(stored_document, (&value, id), Ok(stored)),
        json_value(value) == JsonValue::Object(map),
        is_plain_object(json_members(map)),
    ensures
        lookup(document_entries(stored), "_id"@) matches Some(held) && bson_value(held)
            == BsonValue::ObjectId(id),
        holds_members(document_entries(stored), json_members(map)),
        distinct_keys(document_entries(stored)),
{
    let converted = json_to_bson(value)->Ok_0;
    law_conversion_goes_inside(value, converted);
    lemma_plain_is_no_id(json_members(map));
    let fields = document_entries(bson_value(converted)->Document_0);
    let held = choose|held: Bson|
        bson_value(held) == BsonValue::ObjectId(id) && document_entries(stored) == #[trigger] put(
            fields,
            "_id"@,
            held,
        );
    lemma_put_holds_members(json_members(map), fields, held);
}

/// A plain object is no object id in extended JSON.
proof fn lemma_plain_is_no_id(members: Seq<(Seq<char>, Value)>)
    requires
        is_plain_object(members),
    ensures
        extended_id_text(members) is None,
{
    if extended_id_text(members) is Some {
        assert(is_extended_json_key(members[0].0));
    }
}

/// A write stores the event: its members, no more and no less, under an object
/// id, which is the one that the event asks for where it asks for one.
pub proof fn law_written_document_is_the_event(
    config: Collection,
    value: Value,
    map: serde_json::Map<String, Value>,
    request: WriteRequest,
)
    requires
        call_ensures(prepare_write, (&config, &EventData::Json(value)), Ok(request)),
        json_value(value) == JsonValue::Object(map),
        is_plain_object(json_members(map)),
    ensures
        lookup(document_entries(request.document), "_id"@) matches Some(held) && bson_value(
            held,
        ) is ObjectId,
        holds_members(document_entries(request.document), json_members(map)),
        distinct_keys(document_entries(request.document)),
        member(value, "_id"@) matches Some(asked) ==> !(json_value(asked) is Null) ==> {
            &&& is_text_under_oid(asked)
            &&& is_object_id_text(json_value(member(asked, "$oid"@)->0)->Text_0)
            &&& object_id_bytes(
                bson_value(lookup(document_entries(request.document), "_id"@)->0)->ObjectId_0,
            ) == hex_bytes(json_value(member(asked, "$oid"@)->0)->Text_0)
        },
{
    let converted = json_to_bson(value)->Ok_0;
    law_conversion_goes_inside(value, converted);
    lemma_plain_is_no_id(json_members(map));
    let fields = document_entries(bson_value(converted)->Document_0);
    assert forall|held: Bson| document_entries(request.document) == #[trigger] put(
        fields,
        "_id"@,
        held,
    ) implies {
        &&& lookup(document_entries(request.document), "_id"@) == Some(held)
        &&& holds_members(document_entries(request.document), json_members(map))
        &&& distinct_keys(document_entries(request.document))
    } by {
        lemma_put_holds_members(json_members(map), fields, held);
    }
}

/// A write is refused for the first thing that is wrong with the event: that it
/// is no JSON, its `_id`, that it has no BSON form, or that its form is no
/// document.
pub proof fn law_write_refusals(
    config: Collection,
    data: EventData,
    request: Result<WriteRequest, Error>,
)
    requires
        call_ensures(prepare_write, (&config, &data), request),
    ensures
        !(data is Json) == (request matches Err(Error::UnsupportedEventData)),
        data matches EventData::Json(value) ==> {
            let asks = member(value, "_id"@) matches Some(asked) && !(json_value(asked) is Null);
            let asked = member(value, "_id"@)->0;
            let text = json_value(member(asked, "$oid"@)->0)->Text_0;
            let fits = !asks || (is_text_under_oid(asked) && is_object_id_text(text));
            &&& (asks && !is_text_under_oid(asked)) == (request matches Err(
                Error::UnsupportedIdShape,
            ))
            &&& (asks && is_text_under_oid(asked) && !is_object_id_text(text)) == (request matches Err(
                Error::InvalidObjectId { .. },
            ))
            &&& fits ==> match json_to_bson(value) {
                Err(source) => request == Err::<WriteRequest, Error>((Error::Bson { source })),
                Ok(converted) => request is Ok == bson_value(converted) is Document,
            }
            &&& (request matches Err(Error::InvalidDocument)) == (fits && json_to_bson(
                value,
            ) is Ok && !(bson_value(json_to_bson(value)->Ok_0) is Document))
        },
{
}

/// The result event of a write tells the insertion: its data is the report, its
/// subject the place, its id the text of the inserted id.
pub proof fn law_insertion_is_told<C>(
    writing: Writing<C>,
    result: InsertOneResult,
    next: Result<Written<C>, Error>,
)
    requires
        call_ensures(
            Writing::<C>::inserted,
            (writing, Ok::<InsertOneResult, MongoError>(result)),
            next,
        ),
    ensures
        match next {
            Ok(written) => {
                &&& written.draft.data matches EventData::Json(value)
                &&& insert_result_value(result) == Ok::<Value, JsonError>(value)
                &&& json_value(value) matches JsonValue::Object(map)
                &&& json_members(map).len() == 1
                &&& json_members(map)[0].0 == "insertedId"@
                &&& written.draft.subject == Some(writing.request.subject)
                &&& written.draft.id matches Some(text)
                &&& text@ == bson_text(inserted_id(result))
                &&& written.draft.task_id == writing.task_id
                &&& written.draft.task_type == writing.task_type
                &&& written.completion == writing.completion
                &&& written.has_sender == writing.has_sender
            },
            Err(error) => {
                &&& error matches Error::SerdeJson { source }
                &&& insert_result_value(result) == Err::<Value, JsonError>(source)
                &&& !(bson_value(inserted_id(result)) is ObjectId)
            },
        },
{
}

/// The result event of a write takes the completion along where there is a
/// sender; else the completion is signalled. The event is sent as built.
pub proof fn law_written_event_takes_the_completion<C>(
    written: Written<C>,
    event: Event<C>,
    emission: Result<Emission<C>, Error>,
)
    requires
        call_ensures(Written::<C>::built, (written, Ok::<Event<C>, String>(event)), emission),
    ensures
        emission matches Ok(sent) && is_sent_on(
            event,
            written.completion,
            written.has_sender,
            sent,
        ),
{
}

/// A write that fails is told as what failed, with its own source.
pub proof fn law_writing_tells_its_failure<C>(
    writing: Writing<C>,
    lost: MongoError,
    uninserted: Result<Written<C>, Error>,
    written: Written<C>,
    source: String,
    unbuilt: Result<Emission<C>, Error>,
)
    requires
        call_ensures(
            Writing::<C>::inserted,
            (writing, Err::<InsertOneResult, MongoError>(lost)),
            uninserted,
        ),
        call_ensures(Written::<C>::built, (written, Err::<Event<C>, String>(source)), unbuilt),
    ensures
        uninserted == Err::<Written<C>, Error>((Error::MongoDB { source: lost })),
        unbuilt == Err::<Emission<C>, Error>((Error::EventBuilder { source })),
{
}

/// Whether a name begins like an update operator.
pub open spec fn begins_like_operator(key: Seq<char>) -> bool {
    key.len() > 0 && key[0] == '$'
}

/// Whether one of the names begins like an update operator, or one does not.
pub open spec fn some_name<V>(fields: Seq<(Seq<char>, V)>, operator: bool) -> bool {
    exists|i: int|
        0 <= i < fields.len() && begins_like_operator((#[trigger] fields[i]).0) == operator
}

/// Update operators alone are applied as they stand. Plain fields alone are
/// applied too, unless their `_id` is neither an object id nor null. A payload
/// of both, and one of neither, are refused.
pub proof fn law_update_is_of_one_kind(payload: Document, built: Result<Document, Error>)
    requires
        call_ensures(build_update_doc, (payload,), built),
    ensures
        ({
            let fields = document_entries(payload);
            let operators = some_name(fields, true);
            let plain = some_name(fields, false);
            let refused_id = lookup(fields, "_id"@) matches Some(id) && !(bson_value(
                id,
            ) is ObjectId) && !(bson_value(id) is Null);
            &&& (built matches Err(Error::EmptyUpsertPayload)) == (!operators && !plain)
            &&& (built matches Err(Error::MixedUpsertPayload)) == (operators && plain)
            &&& operators && !plain ==> built == Ok::<Document, Error>(payload)
            &&& (built matches Err(Error::UnsupportedIdShape)) == (plain && !operators
                && refused_id)
            &&& plain && !operators && !refused_id ==> built is Ok
        }),
{
    lemma_names_of_one_kind(document_entries(payload));
}

/// Where no name begins otherwise, all are operators, and where none begins so,
/// none is.
proof fn lemma_names_of_one_kind(fields: Seq<(Seq<char>, Bson)>)
    ensures
        all_operators(fields) == !some_name(fields, false),
        no_operators(fields) == !some_name(fields, true),
        fields.len() > 0 ==> some_name(fields, true) || some_name(fields, false),
{
    assert forall|i: int| 0 <= i < fields.len() implies begins_like_operator(
        (#[trigger] fields[i]).0,
    ) == is_operator(fields[i].0) by {}
    if !some_name(fields, false) {
        assert forall|i: int| 0 <= i < fields.len() implies is_operator((#[trigger] fields[i]).0) by {
            assert(begins_like_operator(fields[i].0));
        }
    }
    if !some_name(fields, true) {
        assert forall|i: int| 0 <= i < fields.len() implies !is_operator((#[trigger] fields[i]).0) by {
            assert(!begins_like_operator(fields[i].0));
        }
    }
    if fields.len() > 0 {
        let first = begins_like_operator(fields[0].0);
        assert(some_name(fields, first));
    }
}

/// Whether `operators` set each of the fields but the `_id`, no more and no less
/// and in order, under `$set`, and then set an object id on insert, alone, under
/// `$setOnInsert`. There is no other operator, and no operator without a field.
pub open spec fn sets_each_field(
    fields: Seq<(Seq<char>, Bson)>,
    operators: Seq<(Seq<char>, Bson)>,
) -> bool {
    let others = fields.filter(|field: (Seq<char>, Bson)| field.0 != "_id"@);
    let set = lookup(operators, "$set"@);
    let on_insert = lookup(operators, "$setOnInsert"@);
    let id = lookup(fields, "_id"@);
    &&& operators.len() == (if set is Some {
        1int
    } else {
        0int
    }) + (if on_insert is Some {
        1int
    } else {
        0int
    })
    &&& set is Some == (others.len() > 0)
    &&& set matches Some(held) ==> operators[0] == ("$set"@, held) && (bson_value(
        held,
    ) matches BsonValue::Document(document) && document_entries(document) == others)
    &&& on_insert is Some == (id matches Some(held) && bson_value(held) is ObjectId)
    &&& on_insert matches Some(held) ==> operators.last() == ("$setOnInsert"@, held) && (
    bson_value(held) matches BsonValue::Document(document) && document_entries(document).len() == 1
        && document_entries(document)[0].0 == "_id"@ && id == Some(
        document_entries(document)[0].1,
    ))
}

/// The update of a plain payload sets each of its fields.
pub proof fn law_plain_update_sets_each_field(payload: Document, update: Document)
    requires
        call_ensures(build_update_doc, (payload,), Ok(update)),
        !some_name(document_entries(payload), true),
    ensures
        sets_each_field(document_entries(payload), document_entries(update)),
{
    lemma_update_sets_each_field(payload, update);
}

/// The same of whatever is an update of the payload.
proof fn lemma_update_sets_each_field(payload: Document, update: Document)
    requires
        is_update_outcome(payload, Ok(update)),
        !some_name(document_entries(payload), true),
    ensures
        sets_each_field(document_entries(payload), document_entries(update)),
{
    let fields = document_entries(payload);
    let operators = document_entries(update);
    lemma_names_of_one_kind(fields);
    reveal_strlit("$set");
    reveal_strlit("$setOnInsert");
    assert("$set"@.len() != "$setOnInsert"@.len());
    assert(distinct_keys(operators));
    if fields.len() > 0 {
        assert(!is_operator(fields[0].0));
        assert(!all_operators(fields));
    }
    if set_fields(fields).len() > 0 {
        lemma_lookup_at(operators, 0);
    } else if has_key(operators, "$set"@) {
        assert(operators[place_of(operators, "$set"@)].0 == "$set"@);
    }
    if set_on_insert_fields(fields).len() > 0 {
        lemma_lookup_at(operators, operators.len() - 1);
    } else if has_key(operators, "$setOnInsert"@) {
        assert(operators[place_of(operators, "$setOnInsert"@)].0 == "$setOnInsert"@);
    }
}

/// What an update sets is found there as it stands in the payload, and an `_id`
/// never is.
pub proof fn law_set_fields_are_found(
    fields: Seq<(Seq<char>, Bson)>,
    operators: Seq<(Seq<char>, Bson)>,
    set: Bson,
    document: Document,
    key: Seq<char>,
)
    requires
        distinct_keys(fields),
        sets_each_field(fields, operators),
        lookup(operators, "$set"@) == Some(set),
        bson_value(set) == BsonValue::Document(document),
    ensures
        lookup(document_entries(document), "_id"@) is None,
        key != "_id"@ ==> lookup(document_entries(document), key) == lookup(fields, key),
{
    law_set_is_payload_without_id(fields, key);
}

/// An upsert is applied in the configured collection of the configured database,
/// to the first document that the whole configured filter finds, inserting one
/// where it finds none and giving back the document as it then is.
pub proof fn law_upsert_goes_to_its_collection(
    config: Collection,
    data: EventData,
    request: UpsertRequest,
)
    requires
        call_ensures(prepare_upsert, (&config, &data), Ok(request)),
    ensures
        request.db_name == config.db_name,
        request.collection_name == config.collection_name,
        asks_for(document_entries(request.filter), json_members(config.filter)),
        json_members(config.filter).len() > 0,
        request.upsert,
        request.return_updated,
{
    lemma_converted_are_found(json_members(config.filter), document_entries(request.filter));
}

/// The name of a task, and everything else that is configured beside the
/// database, the collection and the filter, decides nothing about where an
/// upsert is applied.
pub proof fn law_upserts_agree(
    config: Collection,
    data: EventData,
    request: UpsertRequest,
    other: Collection,
    other_data: EventData,
    other_request: UpsertRequest,
)
    requires
        call_ensures(prepare_upsert, (&config, &data), Ok(request)),
        call_ensures(prepare_upsert, (&other, &other_data), Ok(other_request)),
        config.db_name == other.db_name,
        config.collection_name == other.collection_name,
        config.filter == other.filter,
    ensures
        request.db_name == other_request.db_name,
        request.collection_name == other_request.collection_name,
        document_entries(request.filter) == document_entries(other_request.filter),
{
    let fields = document_entries(request.filter);
    let others = document_entries(other_request.filter);
    assert forall|i: int| 0 <= i < fields.len() implies fields[i] == #[trigger] others[i] by {
        assert(fields[i].0 == others[i].0);
    }
    assert(fields == others);
}

/// Writes to one collection go to the same place, whatever else is configured and
/// whatever is written.
pub proof fn law_writes_agree(
    config: Collection,
    data: EventData,
    request: WriteRequest,
    other: Collection,
    other_data: EventData,
    other_request: WriteRequest,
)
    requires
        call_ensures(prepare_write, (&config, &data), Ok(request)),
        call_ensures(prepare_write, (&other, &other_data), Ok(other_request)),
        config.db_name == other.db_name,
        config.collection_name == other.collection_name,
    ensures
        request.db_name == other_request.db_name,
        request.collection_name == other_request.collection_name,
        request.subject@ == other_request.subject@,
{
}

/// An upsert applies what the update of the event's own document is: the event
/// converted, and nothing else, decides it.
pub proof fn law_upsert_applies_the_event(
    config: Collection,
    value: Value,
    request: Result<UpsertRequest, Error>,
    payload: Document,
    built: Result<Document, Error>,
)
    requires
        call_ensures(prepare_upsert, (&config, &EventData::Json(value)), request),
        json_to_bson(value) matches Ok(held) && bson_value(held) == BsonValue::Document(payload),
        json_members(config.filter).len() > 0,
        call_ensures(build_update_doc, (payload,), built),
    ensures
        built matches Err(Error::EmptyUpsertPayload) ==> (request matches Err(
            Error::EmptyUpsertPayload,
        )),
        built matches Err(Error::MixedUpsertPayload) ==> (request matches Err(
            Error::MixedUpsertPayload,
        )),
        built matches Err(Error::UnsupportedIdShape) ==> (request matches Err(
            Error::UnsupportedIdShape,
        )),
        built is Ok ==> match request {
            Ok(request) => is_same_update(payload, request.update),
            Err(error) => error matches Error::Bson { source } && exists|i: int|
                0 <= i < json_members(config.filter).len() && json_to_bson(
                    (#[trigger] json_members(config.filter)[i]).1,
                ) == Err::<Bson, ExtendedJsonError>(source),
        },
        request is Ok ==> built is Ok,
{
    lemma_names_of_one_kind(document_entries(payload));
    if let Ok(upsert) = request {
        if !some_name(document_entries(payload), true) {
            lemma_update_sets_each_field(payload, upsert.update);
        }
    }
}

/// Whether `update` applies a payload: operators as they stand, plain fields each
/// by name.
pub open spec fn is_same_update(payload: Document, update: Document) -> bool {
    if some_name(document_entries(payload), true) {
        update == payload
    } else {
        sets_each_field(document_entries(payload), document_entries(update))
    }
}

/// An upsert is refused for the first thing that is wrong: that the event is no
/// JSON, that the filter is empty, that the event has no BSON form, or that its
/// form is no document.
pub proof fn law_upsert_refusals(
    config: Collection,
    data: EventData,
    request: Result<UpsertRequest, Error>,
)
    requires
        call_ensures(prepare_upsert, (&config, &data), request),
    ensures
        !(data is Json) == (request matches Err(Error::UnsupportedEventData)),
        (data is Json && json_members(config.filter).len() == 0) == (request matches Err(
            Error::MissingUpsertFilter,
        )),
        data matches EventData::Json(value) ==> json_members(config.filter).len() > 0 ==> {
            &&& json_to_bson(value) matches Err(source) ==> request == Err::<UpsertRequest, Error>(
                (Error::Bson { source }),
            )
            &&& json_to_bson(value) matches Ok(held) ==> (request matches Err(
                Error::InvalidDocument,
            )) == !(bson_value(held) is Document)
        },
{
}

/// An upsert gives on the document that it left, and is told as what failed where
/// it left none.
pub proof fn law_upserted_document_is_sent_on<C>(
    upserting: Upserting<C>,
    found: Result<Option<Document>, MongoError>,
    next: Result<Upserted<C>, Error>,
    upserted: Upserted<C>,
    event: Result<Event<C>, String>,
    emission: Result<Emission<C>, Error>,
)
    requires
        call_ensures(Upserting::<C>::applied, (upserting, found), next),
        call_ensures(Upserted::<C>::converted, (upserted, event), emission),
    ensures
        match found {
            Ok(Some(document)) => {
                &&& next matches Ok(left)
                &&& left.document == document
                &&& left.completion == upserting.completion
                &&& left.has_sender == upserting.has_sender
            },
            Ok(None) => next matches Err(Error::MissingUpsertedDocument),
            Err(source) => next == Err::<Upserted<C>, Error>((Error::MongoDB { source })),
        },
        match event {
            Ok(event) => emission matches Ok(sent) && is_sent_on(
                event,
                upserted.completion,
                upserted.has_sender,
                sent,
            ),
            Err(source) => emission == Err::<Emission<C>, Error>(
                (Error::MessageConversion { source }),
            ),
        },
{
}

/// Whether every member of a filter has a BSON form.
pub open spec fn is_askable(filter: serde_json::Map<String, Value>) -> bool {
    forall|i: int|
        0 <= i < json_members(filter).len() ==> json_to_bson(
            (#[trigger] json_members(filter)[i]).1,
        ) is Ok
}

/// Whether an event can be written: it is JSON that has the form of a document,
/// and it asks for no `_id` or for one that is spelled right.
pub open spec fn is_writable(data: EventData) -> bool {
    data matches EventData::Json(value) && (json_to_bson(value) matches Ok(held) && bson_value(
        held,
    ) is Document) && match member(value, "_id"@) {
        None => true,
        Some(asked) => json_value(asked) is Null || (is_text_under_oid(asked) && is_object_id_text(
            json_value(member(asked, "$oid"@)->0)->Text_0,
        )),
    }
}

/// Whether an event can be upserted: it is JSON that has the form of a document
/// of update operators alone, or of plain fields alone with no `_id` but an
/// object id or null, and there is a filter that can be asked for.
pub open spec fn is_upsertable(config: Collection, data: EventData) -> bool {
    &&& json_members(config.filter).len() > 0
    &&& is_askable(config.filter)
    &&& data matches EventData::Json(value)
    &&& json_to_bson(value) matches Ok(held)
    &&& bson_value(held) matches BsonValue::Document(payload)
    &&& {
        let fields = document_entries(payload);
        &&& some_name(fields, true) != some_name(fields, false)
        &&& some_name(fields, false) ==> (lookup(fields, "_id"@) matches Some(id) ==> bson_value(
            id,
        ) is ObjectId || bson_value(id) is Null)
    }
}

/// An operation is prepared exactly where it can be.
pub proof fn law_possible_operations_are_prepared(
    config: Collection,
    data: EventData,
    find: Result<FindRequest, Error>,
    write: Result<WriteRequest, Error>,
    upsert: Result<UpsertRequest, Error>,
)
    requires
        call_ensures(prepare_find, (&config,), find),
        call_ensures(prepare_write, (&config, &data), write),
        call_ensures(prepare_upsert, (&config, &data), upsert),
    ensures
        find is Ok == is_askable(config.filter),
        write is Ok == is_writable(data),
        upsert is Ok == is_upsertable(config, data),
        find matches Err(error) ==> error is Bson,
{
    lemma_upsert_is_prepared(config, data, upsert);
    lemma_find_is_prepared(config, find);
}

/// A query is prepared exactly where its filter can be asked for.
proof fn lemma_find_is_prepared(config: Collection, find: Result<FindRequest, Error>)
    requires
        is_find_outcome(config, find),
    ensures
        find is Ok == is_askable(config.filter),
{
    let members = json_members(config.filter);
    if let Ok(request) = find {
        assert forall|i: int| 0 <= i < members.len() implies json_to_bson(
            (#[trigger] members[i]).1,
        ) is Ok by {
            assert(document_entries(request.filter)[i].0 == members[i].0);
        }
    }
}

/// An upsert is prepared exactly where it can be.
proof fn lemma_upsert_is_prepared(
    config: Collection,
    data: EventData,
    upsert: Result<UpsertRequest, Error>,
)
    requires
        is_upsert_outcome(config, data, upsert),
    ensures
        upsert is Ok == is_upsertable(config, data),
{
    let members = json_members(config.filter);
    if let EventData::Json(value) = data {
        if let Ok(held) = json_to_bson(value) {
            if let BsonValue::Document(payload) = bson_value(held) {
                lemma_names_of_one_kind(document_entries(payload));
            }
        }
    }
    if let Ok(request) = upsert {
        assert forall|i: int| 0 <= i < members.len() implies json_to_bson(
            (#[trigger] members[i]).1,
        ) is Ok by {
            assert(document_entries(request.filter)[i].0 == members[i].0);
        }
    }
}

/// Handling an event plans exactly the operations that are possible.
pub proof fn law_possible_events_are_planned<C: Clone>(
    handler: EventHandler<C>,
    event: Event<C>,
    plan: Result<Plan<C>, Error>,
    completion: Option<C>,
    read: Result<Finding<C>, Error>,
    write: Result<Writing<C>, Error>,
    upsert: Result<Upserting<C>, Error>,
)
    requires
        call_ensures(EventHandler::<C>::handle, (&handler, &event), plan),
        call_ensures(EventHandler::<C>::read, (&handler, completion), read),
        call_ensures(EventHandler::<C>::write, (&handler, &event, completion), write),
        call_ensures(EventHandler::<C>::upsert, (&handler, &event, completion), upsert),
    ensures
        plan is Ok == match handler.config.operation {
            Operation::Read => is_askable(handler.config.filter),
            Operation::Write => is_writable(event.data),
            Operation::Upsert => is_upsertable(*handler.config, event.data),
        },
        read is Ok == is_askable(handler.config.filter),
        write is Ok == is_writable(event.data),
        upsert is Ok == is_upsertable(*handler.config, event.data),
{
    let config = configured(handler);
    assert forall|find: Result<FindRequest, Error>| #[trigger]
        is_find_outcome(config, find) implies find is Ok == is_askable(config.filter) by {
        lemma_find_is_prepared(config, find);
    }
    assert forall|upsert: Result<UpsertRequest, Error>| #[trigger]
        is_upsert_outcome(config, event.data, upsert) implies upsert is Ok == is_upsertable(
        config,
        event.data,
    ) by {
        lemma_upsert_is_prepared(config, event.data, upsert);
    }
}

/// What a handler is configured with.
spec fn configured<C>(handler: EventHandler<C>) -> Collection {
    *handler.config
}

/// The members of the filter that a handler is configured with.
spec fn configured_members<C>(handler: EventHandler<C>) -> Seq<(Seq<char>, Value)> {
    json_members(handler.config.filter)
}

/// The configured operation, and no other, is planned for an event, in the
/// configured collection, for the event's own completion.
pub proof fn law_plan_is_the_configured_operation<C: Clone>(
    handler: EventHandler<C>,
    event: Event<C>,
    plan: Plan<C>,
)
    requires
        call_ensures(EventHandler::<C>::handle, (&handler, &event), Ok(plan)),
    ensures
        match plan {
            Plan::Read(finding) => {
                &&& handler.config.operation == Operation::Read
                &&& finding.request.db_name == handler.config.db_name
                &&& finding.request.collection_name == handler.config.collection_name
                &&& asks_for(
                    document_entries(finding.request.filter),
                    json_members(handler.config.filter),
                )
                &&& is_own(event.completion_tx, finding.completion)
                &&& finding.has_sender == handler.tx is Some
            },
            Plan::Write(writing) => {
                &&& handler.config.operation == Operation::Write
                &&& writing.request.db_name == handler.config.db_name
                &&& writing.request.collection_name == handler.config.collection_name
                &&& writing.request.subject@ == handler.config.db_name@ + "."@
                    + handler.config.collection_name@
                &&& is_own(event.completion_tx, writing.completion)
                &&& writing.has_sender == handler.tx is Some
                &&& writing.task_id == handler.task_id
                &&& writing.task_type == handler.task_type
            },
            Plan::Upsert(upserting) => {
                &&& handler.config.operation == Operation::Upsert
                &&& upserting.request.db_name == handler.config.db_name
                &&& upserting.request.collection_name == handler.config.collection_name
                &&& asks_for(
                    document_entries(upserting.request.filter),
                    json_members(handler.config.filter),
                )
                &&& is_own(event.completion_tx, upserting.completion)
                &&& upserting.has_sender == handler.tx is Some
            },
        },
{
    match plan {
        Plan::Read(finding) => lemma_converted_are_found(
            configured_members(handler),
            document_entries(finding.request.filter),
        ),
        Plan::Upsert(upserting) => lemma_converted_are_found(
            configured_members(handler),
            document_entries(upserting.request.filter),
        ),
        _ => {},
    }
}

/// Handling begins as the operation alone does: a read, a write or an upsert of
/// the handler prepares what its configuration and the event say, for the
/// completion that it is given.
pub proof fn law_operations_begin_as_prepared<C>(
    handler: EventHandler<C>,
    event: Event<C>,
    completion: Option<C>,
    read: Result<Finding<C>, Error>,
    write: Result<Writing<C>, Error>,
    upsert: Result<Upserting<C>, Error>,
)
    requires
        call_ensures(EventHandler::<C>::read, (&handler, completion), read),
        call_ensures(EventHandler::<C>::write, (&handler, &event, completion), write),
        call_ensures(EventHandler::<C>::upsert, (&handler, &event, completion), upsert),
    ensures
        read matches Ok(finding) ==> {
            &&& finding.request.db_name == handler.config.db_name
            &&& finding.request.collection_name == handler.config.collection_name
            &&& finding.completion == completion
            &&& finding.has_sender == handler.tx is Some
        },
        write matches Ok(writing) ==> {
            &&& event.data is Json
            &&& writing.request.db_name == handler.config.db_name
            &&& writing.request.collection_name == handler.config.collection_name
            &&& writing.completion == completion
            &&& writing.has_sender == handler.tx is Some
            &&& writing.task_id == handler.task_id
            &&& writing.task_type == handler.task_type
        },
        upsert matches Ok(upserting) ==> {
            &&& event.data is Json
            &&& upserting.request.db_name == handler.config.db_name
            &&& upserting.request.collection_name == handler.config.collection_name
            &&& upserting.completion == completion
            &&& upserting.has_sender == handler.tx is Some
        },
        !(event.data is Json) ==> (write matches Err(Error::UnsupportedEventData)) && (
        upsert matches Err(Error::UnsupportedEventData)),
{
}

/// The outcome of an event is that of sending its result on.
pub proof fn law_outcome_is_that_of_sending<C>(
    handler: EventHandler<C>,
    sent: Result<(), String>,
    outcome: Result<(), Error>,
)
    requires
        call_ensures(EventHandler::<C>::finished, (&handler, sent), outcome),
    ensures
        outcome is Ok == sent is Ok,
        sent matches Err(source) ==> outcome == Err::<(), Error>((Error::SendMessage { source })),
{
}

/// A failure that bad configuration or a malformed event causes is given up, any
/// other failure of an event is tried again, and so is every failed
/// initialization.
pub proof fn law_collection_retries(error: Error, permanent: bool, init: Retry, handle: Retry)
    requires
        call_ensures(Error::is_permanent, (&error,), permanent),
        call_ensures(Error::init_retry, (&error,), init),
        call_ensures(Error::handle_retry, (&error,), handle),
    ensures
        init is Transient,
        handle is Permanent == permanent,
        permanent == match error {
            Error::Auth { .. } => false,
            Error::SendMessage { .. } => false,
            Error::EventBuilder { .. } => false,
            Error::MissingBuilderAttribute(_) => false,
            Error::RetryExhausted { .. } => false,
            Error::MessageConversion { .. } => false,
            Error::UnsupportedEventData => true,
            Error::InvalidDocument => true,
            Error::MissingUpsertFilter => true,
            Error::EmptyUpsertPayload => true,
            Error::MixedUpsertPayload => true,
            Error::MissingUpsertedDocument => false,
            Error::UnsupportedIdShape => true,
            Error::InvalidObjectId { .. } => true,
            Error::SerdeJson { .. } => false,
            Error::MongoDB { .. } => false,
            Error::Bson { .. } => true,
            Error::ClientRegistryMismatch => false,
            Error::ConfigRender { .. } => true,
        },
{
}

/// A processor works with its rendered configuration and with the client that
/// its type and its rendered credentials ask for, beside its own task. Without a
/// client there is no handler, and the registry's reason is told.
pub proof fn law_handler_belongs_to_its_processor<C, X>(
    processor: Processor<C, X>,
    rendered: Collection,
    initializing: Initializing,
    request: ClientRequest<'static>,
    registered: Result<Arc<MongoClient>, RegistryError<Error>>,
    handler: Result<EventHandler<C>, Error>,
)
    requires
        call_ensures(Processor::<C, X>::init, (&processor, Ok(rendered)), Ok(initializing)),
        call_ensures(Processor::<C, X>::client_request, (&processor, &initializing), request),
        call_ensures(
            Processor::<C, X>::event_handler,
            (&processor, initializing, registered),
            handler,
        ),
    ensures
        request.task_type == processor.task_type,
        *request.credentials_path == rendered.credentials_path,
        match registered {
            Ok(client) => {
                &&& handler matches Ok(made)
                &&& made.client == client
                &&& *made.config == rendered
                &&& made.task_id == processor.task_id
                &&& made.task_type == processor.task_type
                &&& made.tx is Some == processor.tx is Some
                &&& made.tx is Some ==> cloned(processor.tx->0, made.tx->0)
            },
            Err(RegistryError::Init { source }) => handler == Err::<EventHandler<C>, Error>(source),
            Err(RegistryError::TypeMismatch) => handler == Err::<EventHandler<C>, Error>(
                Error::ClientRegistryMismatch,
            ),
        },
{
}

/// A configuration that does not render and a client that cannot be connected are
/// told as such.
pub proof fn law_processor_needs_config_and_client<C, X, K>(
    processor: Processor<C, X>,
    rendered: Result<Collection, String>,
    next: Result<Initializing, Error>,
    connected: Result<K, String>,
    client: Result<K, Error>,
)
    requires
        call_ensures(Processor::<C, X>::init, (&processor, rendered), next),
        call_ensures(connected_client::<K>, (connected,), client),
    ensures
        next is Ok == rendered is Ok,
        rendered matches Err(source) ==> next == Err::<Initializing, Error>(
            (Error::ConfigRender { source }),
        ),
        connected matches Ok(made) ==> client == Ok::<K, Error>(made),
        connected matches Err(source) ==> client == Err::<K, Error>((Error::Auth { source })),
{
}

/// A processor is built from what its builder was given, each attribute where it
/// belongs: the sender may be missing and the number is zero without one.
pub proof fn law_processor_is_built_as_given<C, X>(
    fresh: ProcessorBuilder<C, X>,
    config: Arc<Collection>,
    configured: ProcessorBuilder<C, X>,
    receiver: Receiver<Event<C>>,
    receiving: ProcessorBuilder<C, X>,
    task_context: Arc<X>,
    placed: ProcessorBuilder<C, X>,
    task_type: &'static str,
    typed: ProcessorBuilder<C, X>,
    plain: Result<Processor<C, X>, Error>,
    sender: Sender<Event<C>>,
    sending: ProcessorBuilder<C, X>,
    task_id: usize,
    numbered: ProcessorBuilder<C, X>,
    full: Result<Processor<C, X>, Error>,
)
    requires
        call_ensures(ProcessorBuilder::<C, X>::new, (), fresh),
        call_ensures(ProcessorBuilder::<C, X>::config, (fresh, config), configured),
        call_ensures(ProcessorBuilder::<C, X>::receiver, (configured, receiver), receiving),
        call_ensures(ProcessorBuilder::<C, X>::task_context, (receiving, task_context), placed),
        call_ensures(ProcessorBuilder::<C, X>::task_type, (placed, task_type), typed),
        call_ensures(ProcessorBuilder::<C, X>::build, (typed,), plain),
        call_ensures(ProcessorBuilder::<C, X>::sender, (typed, sender), sending),
        call_ensures(ProcessorBuilder::<C, X>::task_id, (sending, task_id), numbered),
        call_ensures(ProcessorBuilder::<C, X>::build, (numbered,), full),
    ensures
        plain matches Ok(built) && built.config == config && built.rx == receiver
            && built.task_context == task_context && built.task_type == task_type
            && built.tx is None && built.task_id == 0,
        full matches Ok(built) && built.config == config && built.rx == receiver
            && built.task_context == task_context && built.task_type == task_type && built.tx
            == Some(sender) && built.task_id == task_id,
{
}

/// Setting one attribute of a builder leaves the others, and a later setting
/// takes the place of an earlier one.
pub proof fn law_processor_attributes_are_independent<C, X>(
    builder: ProcessorBuilder<C, X>,
    config: Arc<Collection>,
    configured: ProcessorBuilder<C, X>,
    receiver: Receiver<Event<C>>,
    receiving: ProcessorBuilder<C, X>,
    sender: Sender<Event<C>>,
    sending: ProcessorBuilder<C, X>,
    task_id: usize,
    numbered: ProcessorBuilder<C, X>,
    task_context: Arc<X>,
    placed: ProcessorBuilder<C, X>,
    task_type: &'static str,
    typed: ProcessorBuilder<C, X>,
)
    requires
        call_ensures(ProcessorBuilder::<C, X>::config, (builder, config), configured),
        call_ensures(ProcessorBuilder::<C, X>::receiver, (builder, receiver), receiving),
        call_ensures(ProcessorBuilder::<C, X>::sender, (builder, sender), sending),
        call_ensures(ProcessorBuilder::<C, X>::task_id, (builder, task_id), numbered),
        call_ensures(ProcessorBuilder::<C, X>::task_context, (builder, task_context), placed),
        call_ensures(ProcessorBuilder::<C, X>::task_type, (builder, task_type), typed),
    ensures
        configured == (ProcessorBuilder { config: Some(config), ..builder }),
        receiving == (ProcessorBuilder { rx: Some(receiver), ..builder }),
        sending == (ProcessorBuilder { tx: Some(sender), ..builder }),
        numbered == (ProcessorBuilder { task_id, ..builder }),
        placed == (ProcessorBuilder { task_context: Some(task_context), ..builder }),
        typed == (ProcessorBuilder { task_type: Some(task_type), ..builder }),
{
}

/// A processor is built exactly where the four attributes that it needs are given,
/// and the first that is missing is named.
pub proof fn law_processor_needs_its_attributes<C, X>(
    builder: ProcessorBuilder<C, X>,
    built: Result<Processor<C, X>, Error>,
)
    requires
        call_ensures(ProcessorBuilder::<C, X>::build, (builder,), built),
    ensures
        built is Ok == (builder.config is Some && builder.rx is Some && builder.task_context is Some
            && builder.task_type is Some),
        built matches Err(error) ==> (error matches Error::MissingBuilderAttribute(name) && name@
            == (if builder.config is None {
            "config"@
        } else if builder.rx is None {
            "receiver"@
        } else if builder.task_context is None {
            "task_context"@
        } else {
            "task_type"@
        })),
{
}

/// The message of a failure tells what failed and then what caused it, word for
/// word, so that no cause is lost.
pub proof fn law_message_keeps_the_cause(error: Error, text: String)
    requires
        call_ensures(Error::to_string, (&error,), text),
    ensures
        error matches Error::Auth { source } ==> text@ == "Authentication error: "@ + source@,
        error matches Error::SendMessage { source } ==> text@
            == "Sending event to channel failed with error: "@ + source@,
        error matches Error::EventBuilder { source } ==> text@
            == "Event builder failed with error: "@ + source@,
        error matches Error::MissingBuilderAttribute(name) ==> text@
            == "Missing required attribute: "@ + name@,
        error matches Error::MessageConversion { source } ==> text@
            == "Message conversion failed with error: "@ + source@,
        error matches Error::ConfigRender { source } ==> text@
            == "Config template rendering error: "@ + source@,
        error matches Error::MongoDB { source } ==> exists|told: String| #[trigger]
            to_string_from_display_ensures(&source, told) && text@ == "MongoDB error: "@ + told@,
        error matches Error::Bson { source } ==> exists|told: String| #[trigger]
            to_string_from_display_ensures(&source, told) && text@
                == "JSON to BSON conversion error: "@ + told@,
        error matches Error::InvalidObjectId { source } ==> exists|told: String| #[trigger]
            to_string_from_display_ensures(&source, told) && text@
                == "Invalid ObjectId in event's `_id`: "@ + told@,
        error matches Error::RetryExhausted { source } ==> exists|told: Seq<char>| #[trigger]
            is_message(*source, told) && text@ == "Task failed after all retry attempts: "@ + told,
{
    if let Error::RetryExhausted { source } = error {
        reveal_with_fuel(is_message, 2);
        let prefix = "Task failed after all retry attempts: "@;
        let told = text@.skip(prefix.len() as int);
        assert(text@ == prefix + told);
        assert(is_message(*source, told));
    }
}

} // verus!
