//! Update documents.

use crate::document::{
    bson_document, bson_id_kind, bson_value, document_entries, document_insert, document_into_iter,
    document_is_empty, document_keys, document_new, BsonValue, IdKind,
};
use crate::entries::{distinct_keys, has_key, lemma_lookup_at, lookup, place_of};
use crate::mongo::error::Error;
use crate::text::{begins_with, same_text};
use bson::{Bson, Document};
use vstd::prelude::*;

verus! {

/// What an upsert payload is made of.
pub enum PayloadKind {
    Empty,
    /// Update operators alone.
    Operators,
    /// Update operators and plain fields.
    Mixed,
    /// Plain fields alone.
    Plain,
}

/// Whether a field name is an update operator.
pub open spec fn is_operator(key: Seq<char>) -> bool {
    key.len() > 0 && key[0] == '$'
}

/// Whether every field is an update operator.
pub open spec fn all_operators(fields: Seq<(Seq<char>, Bson)>) -> bool {
    forall|i: int| 0 <= i < fields.len() ==> is_operator((#[trigger] fields[i]).0)
}

/// Whether no field is an update operator.
pub open spec fn no_operators(fields: Seq<(Seq<char>, Bson)>) -> bool {
    forall|i: int| 0 <= i < fields.len() ==> !is_operator((#[trigger] fields[i]).0)
}

/// The kind of a payload with these fields.
pub open spec fn payload_kind(fields: Seq<(Seq<char>, Bson)>) -> PayloadKind {
    if fields.len() == 0 {
        PayloadKind::Empty
    } else if all_operators(fields) {
        PayloadKind::Operators
    } else if no_operators(fields) {
        PayloadKind::Plain
    } else {
        PayloadKind::Mixed
    }
}

/// The fields that an update sets: all but `_id`, in order.
pub open spec fn set_fields(fields: Seq<(Seq<char>, Bson)>) -> Seq<(Seq<char>, Bson)> {
    fields.filter(|field: (Seq<char>, Bson)| field.0 != "_id"@)
}

/// The fields that an update sets only where it inserts: an `_id` that is an
/// object id.
pub open spec fn set_on_insert_fields(fields: Seq<(Seq<char>, Bson)>) -> Seq<(Seq<char>, Bson)> {
    match lookup(fields, "_id"@) {
        Some(id) => if bson_value(id) is ObjectId {
            seq![("_id"@, id)]
        } else {
            Seq::empty()
        },
        None => Seq::empty(),
    }
}

/// Whether a payload names an `_id` that is neither an object id nor null.
pub open spec fn has_unsupported_id(fields: Seq<(Seq<char>, Bson)>) -> bool {
    lookup(fields, "_id"@) matches Some(id) && !(bson_value(id) is ObjectId || bson_value(
        id,
    ) is Null)
}

/// Whether `value` is a document with exactly these fields, in order.
pub open spec fn holds_fields(value: Bson, fields: Seq<(Seq<char>, Bson)>) -> bool {
    bson_value(value) matches BsonValue::Document(document) && document_entries(document) == fields
}

/// Whether `update` is the update document of a plain payload: what is to be
/// set under `$set`, then what is to be set on insert under `$setOnInsert`, each
/// only where there is something to set.
pub open spec fn is_update_of(
    fields: Seq<(Seq<char>, Bson)>,
    update: Seq<(Seq<char>, Bson)>,
) -> bool {
    let set = set_fields(fields);
    let set_on_insert = set_on_insert_fields(fields);
    let before_insert: int = if set.len() > 0 {
        1
    } else {
        0
    };
    &&& update.len() == before_insert + set_on_insert.len()
    &&& set.len() > 0 ==> update[0].0 == "$set"@ && holds_fields(update[0].1, set)
    &&& set_on_insert.len() > 0 ==> update[before_insert].0 == "$setOnInsert"@ && holds_fields(
        update[before_insert].1,
        set_on_insert,
    )
}

/// Whether `built` is what an upsert payload is turned into. A payload holds no
/// name twice.
pub open spec fn is_update_outcome(payload: Document, built: Result<Document, Error>) -> bool {
    let fields = document_entries(payload);
    &&& distinct_keys(fields)
    &&& match payload_kind(fields) {
        PayloadKind::Empty => built matches Err(Error::EmptyUpsertPayload),
        PayloadKind::Operators => built == Ok::<Document, Error>(payload),
        PayloadKind::Mixed => built matches Err(Error::MixedUpsertPayload),
        PayloadKind::Plain => if has_unsupported_id(fields) {
            built matches Err(Error::UnsupportedIdShape)
        } else {
            built matches Ok(update) && is_update_of(fields, document_entries(update))
        },
    }
}

/// How the next field changes what is set and what is set on insert.
proof fn lemma_next_field(fields: Seq<(Seq<char>, Bson)>, at: int)
    requires
        distinct_keys(fields),
        0 <= at < fields.len(),
    ensures
        set_fields(fields.take(at + 1)) == if fields[at].0 != "_id"@ {
            set_fields(fields.take(at)).push(fields[at])
        } else {
            set_fields(fields.take(at))
        },
        fields[at].0 != "_id"@ ==> !has_key(set_fields(fields.take(at)), fields[at].0),
        fields[at].0 == "_id"@ ==> set_on_insert_fields(fields.take(at)) == Seq::<
            (Seq<char>, Bson),
        >::empty(),
        set_on_insert_fields(fields.take(at + 1)) == if fields[at].0 != "_id"@ {
            set_on_insert_fields(fields.take(at))
        } else if bson_value(fields[at].1) is ObjectId {
            seq![fields[at]]
        } else {
            Seq::empty()
        },
        fields[at].0 == "_id"@ ==> lookup(fields, "_id"@) == Some(fields[at].1),
{
    let keep = |field: (Seq<char>, Bson)| field.0 != "_id"@;
    let before = fields.take(at);
    let after = fields.take(at + 1);
    assert(after.drop_last() == before);
    assert(after.last() == fields[at]);
    reveal(Seq::filter);
    if fields[at].0 != "_id"@ && has_key(set_fields(before), fields[at].0) {
        let place = place_of(set_fields(before), fields[at].0);
        let found = set_fields(before)[place];
        assert(set_fields(before).contains(found));
        before.lemma_filter_contains_rev(keep, found);
        let origin = choose|i: int| 0 <= i < before.len() && before[i] == found;
        assert(fields[origin].0 != fields[at].0);
    }
    assert(distinct_keys(before)) by {
        assert forall|i: int, j: int| 0 <= i < j < before.len() implies (#[trigger] before[i]).0
            != (#[trigger] before[j]).0 by {
            assert(fields[i].0 != fields[j].0);
        }
    }
    assert(distinct_keys(after)) by {
        assert forall|i: int, j: int| 0 <= i < j < after.len() implies (#[trigger] after[i]).0
            != (#[trigger] after[j]).0 by {
            assert(fields[i].0 != fields[j].0);
        }
    }
    if fields[at].0 == "_id"@ {
        lemma_lookup_at(fields, at);
        assert(after[at] == fields[at]);
        lemma_lookup_at(after, at);
        if has_key(before, "_id"@) {
            let place = place_of(before, "_id"@);
            assert(fields[place].0 != fields[at].0);
        }
        assert(set_on_insert_fields(before) == Seq::<(Seq<char>, Bson)>::empty());
        if bson_value(fields[at].1) is ObjectId {
            assert(set_on_insert_fields(after) == seq![fields[at]]);
        }
    } else if has_key(before, "_id"@) {
        let place = place_of(before, "_id"@);
        lemma_lookup_at(before, place);
        assert(after[place] == before[place]);
        lemma_lookup_at(after, place);
    } else if has_key(after, "_id"@) {
        let place = place_of(after, "_id"@);
        assert(before[place].0 == "_id"@);
    }
}

/// Turns an upsert payload into a MongoDB update document.
///
/// Mixing operators with plain fields is rejected rather than guessed at:
/// wrapping an operator key in `$set` would write a field literally named
/// `$inc` instead of incrementing. `_id` is immutable, so it goes to
/// `$setOnInsert`: a `$set` on a matched document would fail the update.
pub fn build_update_doc(payload: Document) -> (built: Result<Document, Error>)
    ensures
        is_update_outcome(payload, built),
{
    if document_is_empty(&payload) {
        return Err(Error::EmptyUpsertPayload);
    }
    let ghost fields = document_entries(payload);
    let keys = document_keys(&payload);
    assert(distinct_keys(fields)) by {
        assert forall|i: int, j: int| 0 <= i < j < fields.len() implies (#[trigger] fields[i]).0
            != (#[trigger] fields[j]).0 by {
            assert(keys@[i]@ != keys@[j]@);
        }
    }
    let mut operators: usize = 0;
    let mut at: usize = 0;
    while at < keys.len()
        invariant
            operators <= at <= keys.len(),
            fields.len() == keys.len(),
            forall|i: int| 0 <= i < keys@.len() ==> (#[trigger] keys@[i])@ == fields[i].0,
            (operators == at) == all_operators(fields.take(at as int)),
            (operators == 0) == no_operators(fields.take(at as int)),
        decreases keys.len() - at,
    {
        let found = begins_with(keys[at].as_str(), '$');
        proof {
            let before = fields.take(at as int);
            let after = fields.take(at as int + 1);
            assert(forall|i: int| 0 <= i < at ==> after[i] == before[i]);
            assert(after[at as int].0 == keys@[at as int]@);
        }
        if found {
            operators = operators + 1;
        }
        at = at + 1;
    }
    assert(fields.take(at as int) == fields);
    if operators == keys.len() {
        return Ok(payload);
    }
    if operators > 0 {
        return Err(Error::MixedUpsertPayload);
    }
    let mut set = document_new();
    let mut set_on_insert = document_new();
    let entries = document_into_iter(payload);
    let ghost held = entries@;
    assert(set_fields(fields.take(0)) == Seq::<(Seq<char>, Bson)>::empty()) by {
        reveal(Seq::filter);
    }
    for entry in walk: entries.into_iter()
        invariant
            walk.seq() == held,
            held.len() == fields.len(),
            forall|i: int|
                0 <= i < held.len() ==> (#[trigger] held[i]).0@ == fields[i].0 && held[i].1
                    == fields[i].1,
            distinct_keys(fields),
            document_entries(set) == set_fields(fields.take(walk.index())),
            document_entries(set_on_insert) == set_on_insert_fields(fields.take(walk.index())),
            !has_unsupported_id(fields.take(walk.index())),
            fields == document_entries(payload),
            payload_kind(fields) is Plain,
    {
        let (key, value) = entry;
        let ghost here = walk.index();
        proof {
            lemma_next_field(fields, here);
        }
        if same_text(key.as_str(), "_id") {
            match bson_id_kind(&value) {
                IdKind::ObjectId => document_insert(&mut set_on_insert, key, value),
                // Dropped, not stored: MongoDB generates the `_id` on insert.
                IdKind::Null => {},
                IdKind::Other => return Err(Error::UnsupportedIdShape),
            }
        } else {
            document_insert(&mut set, key, value);
        }
    }
    assert(fields.take(fields.len() as int) == fields);
    let mut update = document_new();
    if !document_is_empty(&set) {
        document_insert(&mut update, "$set".to_string(), bson_document(set));
    }
    proof {
        reveal_strlit("$set");
        reveal_strlit("$setOnInsert");
        assert("$set"@.len() != "$setOnInsert"@.len());
    }
    if !document_is_empty(&set_on_insert) {
        document_insert(&mut update, "$setOnInsert".to_string(), bson_document(set_on_insert));
    }
    Ok(update)
}

/// What is set holds no `_id`, and apart from it every field of the payload
/// with its value, and nothing else.
pub proof fn law_set_is_payload_without_id(fields: Seq<(Seq<char>, Bson)>, key: Seq<char>)
    requires
        distinct_keys(fields),
    ensures
        lookup(set_fields(fields), "_id"@) is None,
        key != "_id"@ ==> lookup(set_fields(fields), key) == lookup(fields, key),
{
    let keep = |field: (Seq<char>, Bson)| field.0 != "_id"@;
    let set = set_fields(fields);
    lemma_set_fields_distinct(fields);
    if has_key(set, "_id"@) {
        fields.lemma_filter_pred(keep, place_of(set, "_id"@));
    }
    if key != "_id"@ {
        if has_key(fields, key) {
            let place = place_of(fields, key);
            fields.lemma_filter_contains(keep, place);
            let kept = choose|i: int| 0 <= i < set.len() && set[i] == fields[place];
            lemma_lookup_at(set, kept);
            lemma_lookup_at(fields, place);
        } else if has_key(set, key) {
            let kept = place_of(set, key);
            assert(set.contains(set[kept]));
            fields.lemma_filter_contains_rev(keep, set[kept]);
        }
    }
}

/// Dropping `_id` keeps names distinct.
proof fn lemma_set_fields_distinct(fields: Seq<(Seq<char>, Bson)>)
    requires
        distinct_keys(fields),
    ensures
        distinct_keys(set_fields(fields)),
    decreases fields.len(),
{
    reveal(Seq::filter);
    if fields.len() > 0 {
        let rest = fields.drop_last();
        let last = fields.last();
        assert forall|i: int, j: int| 0 <= i < j < rest.len() implies (#[trigger] rest[i]).0 != (
        #[trigger] rest[j]).0 by {
            assert(fields[i].0 != fields[j].0);
        }
        lemma_set_fields_distinct(rest);
        assert(rest == fields.take(fields.len() - 1));
        assert(fields == fields.take(fields.len() as int));
        lemma_next_field(fields, fields.len() - 1);
        let set = set_fields(fields);
        assert forall|i: int, j: int| 0 <= i < j < set.len() implies (#[trigger] set[i]).0 != (
        #[trigger] set[j]).0 by {
            let before = set_fields(rest);
            if j < before.len() {
                assert(before[i].0 != before[j].0);
            } else {
                assert(set[i] == before[i]);
                assert(set[j] == last);
            }
        }
    }
}

/// Every field of an update document is an update operator: it is never a
/// mixture of operators and plain fields.
pub proof fn law_update_has_operators_alone(payload: Document, update: Document)
    requires
        is_update_outcome(payload, Ok(update)),
    ensures
        all_operators(document_entries(update)),
{
    reveal_strlit("$set");
    reveal_strlit("$setOnInsert");
}

/// An update document that has something to apply is a payload that is applied
/// as it stands: building an update of it gives it back.
pub proof fn law_update_is_stable(
    payload: Document,
    update: Document,
    again: Result<Document, Error>,
)
    requires
        is_update_outcome(payload, Ok(update)),
        document_entries(update).len() > 0,
        is_update_outcome(update, again),
    ensures
        again == Ok::<Document, Error>(update),
{
    law_update_has_operators_alone(payload, update);
}

/// A plain payload is applied without loss: a field other than `_id` is set, and
/// an object id is set on insert, so that a lookup in the update document finds
/// what the payload holds.
pub proof fn law_update_holds_payload(payload: Document, update: Document, key: Seq<char>)
    requires
        payload_kind(document_entries(payload)) is Plain,
        is_update_outcome(payload, Ok(update)),
        has_key(document_entries(payload), key),
    ensures
        key != "_id"@ ==> {
            &&& lookup(document_entries(update), "$set"@) matches Some(set)
            &&& bson_value(set) matches BsonValue::Document(document)
            &&& lookup(document_entries(document), key) == lookup(document_entries(payload), key)
        },
        key == "_id"@ && bson_value(lookup(document_entries(payload), key)->0) is ObjectId ==> {
            &&& lookup(document_entries(update), "$setOnInsert"@) matches Some(set)
            &&& bson_value(set) matches BsonValue::Document(document)
            &&& lookup(document_entries(document), key) == lookup(document_entries(payload), key)
        },
{
    let fields = document_entries(payload);
    let entries = document_entries(update);
    reveal_strlit("$set");
    reveal_strlit("$setOnInsert");
    assert("$set"@.len() != "$setOnInsert"@.len());
    law_set_is_payload_without_id(fields, key);
    let set = set_fields(fields);
    let set_on_insert = set_on_insert_fields(fields);
    assert(distinct_keys(entries));
    if key != "_id"@ {
        assert(has_key(set, key));
        assert(set.len() > 0);
        lemma_lookup_at(entries, 0);
    } else if bson_value(lookup(fields, key)->0) is ObjectId {
        let place = entries.len() - 1;
        lemma_lookup_at(entries, place);
        lemma_lookup_at(set_on_insert, 0);
    }
}

/// The `_id` of a matched document is left alone: what a plain payload sets never
/// holds one, and `$set` holds nothing but fields of the payload.
pub proof fn law_update_never_sets_id(payload: Document, update: Document, key: Seq<char>)
    requires
        payload_kind(document_entries(payload)) is Plain,
        is_update_outcome(payload, Ok(update)),
    ensures
        lookup(document_entries(update), "$set"@) matches Some(set) ==> {
            &&& bson_value(set) matches BsonValue::Document(document)
            &&& lookup(document_entries(document), "_id"@) is None
            &&& lookup(document_entries(document), key) is Some ==> lookup(
                document_entries(document),
                key,
            ) == lookup(document_entries(payload), key)
        },
{
    let fields = document_entries(payload);
    let entries = document_entries(update);
    reveal_strlit("$set");
    reveal_strlit("$setOnInsert");
    assert("$set"@.len() != "$setOnInsert"@.len());
    law_set_is_payload_without_id(fields, key);
    assert(distinct_keys(entries));
    if has_key(entries, "$set"@) {
        let place = place_of(entries, "$set"@);
        assert(set_fields(fields).len() > 0 && place == 0);
        lemma_lookup_at(entries, 0);
    }
}

} // verus!
