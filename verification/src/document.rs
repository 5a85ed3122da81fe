//! BSON values and documents, as `bson` holds them.

use crate::entries::{distinct_keys, put};
use crate::json::{json_members, json_value, JsonValue};
use bson::extjson::de::Error as ExtendedJsonError;
use bson::oid::Error as ObjectIdError;
use bson::oid::ObjectId;
use bson::{Bson, Document};
use serde_json::Value;
use vstd::prelude::*;

verus! {

#[verifier::external_type_specification]
#[verifier::external_body]
pub struct ExBson(bson::Bson);

#[verifier::external_type_specification]
#[verifier::external_body]
pub struct ExDocument(bson::Document);

#[verifier::external_type_specification]
#[verifier::external_body]
pub struct ExObjectId(bson::oid::ObjectId);

#[verifier::external_type_specification]
#[verifier::external_body]
pub struct ExObjectIdError(ObjectIdError);

#[verifier::external_type_specification]
#[verifier::external_body]
pub struct ExExtendedJsonError(ExtendedJsonError);

/// What a BSON value is at its outermost layer.
pub enum BsonValue {
    Null,
    Boolean(bool),
    Int32(i32),
    Int64(i64),
    /// A float; which one is not told.
    Double,
    Text(Seq<char>),
    Array(Seq<Bson>),
    ObjectId(ObjectId),
    Document(Document),
    /// A value of any other BSON type.
    Other,
}

/// What `bson::Bson` holds at its outermost layer.
pub uninterp spec fn bson_value(value: Bson) -> BsonValue;

/// What `bson::Document` holds: its fields, in the order in which it is walked.
pub uninterp spec fn document_entries(document: Document) -> Seq<(Seq<char>, Bson)>;

/// What `bson::oid::ObjectId` holds: its bytes.
pub uninterp spec fn object_id_bytes(id: ObjectId) -> Seq<u8>;

/// What `bson::Bson::try_from` makes of a JSON value.
pub uninterp spec fn json_to_bson(value: Value) -> Result<Bson, ExtendedJsonError>;

/// A name that makes a JSON object an extended JSON value rather than a
/// document.
pub open spec fn is_extended_json_key(key: Seq<char>) -> bool {
    ||| key == "$oid"@
    ||| key == "$symbol"@
    ||| key == "$regularExpression"@
    ||| key == "$numberInt"@
    ||| key == "$numberLong"@
    ||| key == "$numberDouble"@
    ||| key == "$numberDecimal"@
    ||| key == "$binary"@
    ||| key == "$uuid"@
    ||| key == "$code"@
    ||| key == "$timestamp"@
    ||| key == "$date"@
    ||| key == "$minKey"@
    ||| key == "$maxKey"@
    ||| key == "$dbPointer"@
    ||| key == "$undefined"@
}

/// Whether an object with these members is no extended JSON value.
pub open spec fn is_plain_object(members: Seq<(Seq<char>, Value)>) -> bool {
    forall|i: int| 0 <= i < members.len() ==> !is_extended_json_key((#[trigger] members[i]).0)
}

/// Whether `entries` are the members converted one by one, in order.
pub open spec fn all_converted(
    members: Seq<(Seq<char>, Value)>,
    entries: Seq<(Seq<char>, Bson)>,
) -> bool {
    &&& entries.len() == members.len()
    &&& forall|i: int|
        0 <= i < members.len() ==> (#[trigger] entries[i]).0 == members[i].0 && json_to_bson(
            members[i].1,
        ) == Ok::<Bson, ExtendedJsonError>(entries[i].1)
}

/// Whether `error` is what the first member that cannot be converted fails with.
pub open spec fn first_failure(
    members: Seq<(Seq<char>, Value)>,
    error: ExtendedJsonError,
) -> bool {
    exists|i: int|
        {
            &&& 0 <= i < members.len()
            &&& json_to_bson((#[trigger] members[i]).1) == Err::<Bson, ExtendedJsonError>(error)
            &&& forall|j: int| 0 <= j < i ==> json_to_bson((#[trigger] members[j]).1) is Ok
        }
}

/// Whether a conversion gave a value of the given kind.
pub open spec fn gives(converted: Result<Bson, ExtendedJsonError>, expected: BsonValue) -> bool {
    converted matches Ok(value) && bson_value(value) == expected
}

/// Whether `values` are the items converted one by one, in order.
pub open spec fn all_items_converted(items: Seq<Value>, values: Seq<Bson>) -> bool {
    &&& values.len() == items.len()
    &&& forall|i: int|
        0 <= i < items.len() ==> json_to_bson(items[i]) == Ok::<Bson, ExtendedJsonError>(
            #[trigger] values[i],
        )
}

/// Whether `error` is what the first item that cannot be converted fails with.
pub open spec fn first_item_failure(items: Seq<Value>, error: ExtendedJsonError) -> bool {
    exists|i: int|
        {
            &&& 0 <= i < items.len()
            &&& json_to_bson(#[trigger] items[i]) == Err::<Bson, ExtendedJsonError>(error)
            &&& forall|j: int| 0 <= j < i ==> json_to_bson(#[trigger] items[j]) is Ok
        }
}

/// The text of an object id in extended JSON: that of a lone member `$oid`.
pub open spec fn extended_id_text(members: Seq<(Seq<char>, Value)>) -> Option<Seq<char>> {
    if members.len() == 1 && members[0].0 == "$oid"@ {
        match json_value(members[0].1) {
            JsonValue::Text(text) => Some(text),
            _ => None,
        }
    } else {
        None
    }
}

/// Whether a conversion gave the object id that `text` spells, or failed where it
/// spells none.
pub open spec fn gives_id(text: Seq<char>, converted: Result<Bson, ExtendedJsonError>) -> bool {
    match converted {
        Ok(held) => {
            &&& is_object_id_text(text)
            &&& bson_value(held) matches BsonValue::ObjectId(id)
            &&& object_id_bytes(id) == hex_bytes(text)
            &&& parsed_object_id(text) == Ok::<ObjectId, ObjectIdError>(id)
        },
        Err(_) => !is_object_id_text(text),
    }
}

/// What is known of the conversion of a JSON value at its outermost layer:
/// scalars keep their type and value, an array becomes an array, its items
/// converted one by one, an object that is no extended JSON value becomes a
/// document, its members converted one by one, and an object id in extended JSON
/// becomes that object id. An integer that `i64` does not reach becomes a float,
/// and a float stays one. Nothing is said of other extended JSON values.
pub open spec fn conversion(value: JsonValue, converted: Result<Bson, ExtendedJsonError>) -> bool {
    match value {
        JsonValue::Null => gives(converted, BsonValue::Null),
        JsonValue::Bool(truth) => gives(converted, BsonValue::Boolean(truth)),
        JsonValue::Integer(number) => if i32::MIN <= number <= i32::MAX {
            gives(converted, BsonValue::Int32(number as i32))
        } else if i64::MIN <= number <= i64::MAX {
            gives(converted, BsonValue::Int64(number as i64))
        } else {
            gives(converted, BsonValue::Double)
        },
        JsonValue::Float => gives(converted, BsonValue::Double),
        JsonValue::Text(text) => gives(converted, BsonValue::Text(text)),
        JsonValue::Array(items) => match converted {
            Ok(held) => bson_value(held) matches BsonValue::Array(values) && all_items_converted(
                items,
                values,
            ),
            Err(error) => first_item_failure(items, error),
        },
        JsonValue::Object(map) => match extended_id_text(json_members(map)) {
            Some(text) => gives_id(text, converted),
            None => is_plain_object(json_members(map)) ==> match converted {
                Ok(held) => {
                    &&& bson_value(held) matches BsonValue::Document(document)
                    &&& all_converted(json_members(map), document_entries(document))
                    &&& distinct_keys(document_entries(document))
                },
                Err(error) => first_failure(json_members(map), error),
            },
        },
    }
}

/// What is known of the conversion of a JSON value down to a depth: that of its
/// outermost layer, and of each value inside that was converted, or that could
/// not be, what is known of its own.
pub open spec fn converted_within(
    value: Value,
    converted: Result<Bson, ExtendedJsonError>,
    depth: nat,
) -> bool
    decreases depth,
{
    &&& conversion(json_value(value), converted)
    &&& depth > 0 ==> (converted matches Ok(held) ==> match (json_value(value), bson_value(held)) {
        (JsonValue::Array(items), BsonValue::Array(values)) => forall|i: int|
            0 <= i < items.len() ==> converted_within(
                items[i],
                Ok(#[trigger] values[i]),
                (depth - 1) as nat,
            ),
        (
            JsonValue::Object(map),
            BsonValue::Document(document),
        ) => is_plain_object(json_members(map)) ==> forall|i: int|
            0 <= i < json_members(map).len() ==> converted_within(
                json_members(map)[i].1,
                Ok((#[trigger] document_entries(document)[i]).1),
                (depth - 1) as nat,
            ),
        _ => true,
    })
    &&& depth > 0 ==> (converted matches Err(error) ==> match json_value(value) {
        JsonValue::Array(items) => forall|i: int|
            0 <= i < items.len() && json_to_bson(#[trigger] items[i]) == Err::<
                Bson,
                ExtendedJsonError,
            >(error) ==> converted_within(items[i], Err(error), (depth - 1) as nat),
        JsonValue::Object(map) => is_plain_object(json_members(map)) ==> forall|i: int|
            0 <= i < json_members(map).len() && json_to_bson((#[trigger] json_members(map)[i]).1)
                == Err::<Bson, ExtendedJsonError>(error) ==> converted_within(
                json_members(map)[i].1,
                Err(error),
                (depth - 1) as nat,
            ),
        _ => true,
    })
}

/// What is known of the conversion of a JSON value, at every depth.
pub open spec fn converts(value: Value, converted: Result<Bson, ExtendedJsonError>) -> bool {
    forall|depth: nat| #[trigger] converted_within(value, converted, depth)
}

/// Whether each of `entries` is its member converted, with its type and value.
pub open spec fn members_convert(
    members: Seq<(Seq<char>, Value)>,
    entries: Seq<(Seq<char>, Bson)>,
) -> bool {
    &&& all_converted(members, entries)
    &&& distinct_keys(entries)
    &&& forall|i: int|
        0 <= i < members.len() ==> converts(members[i].1, Ok((#[trigger] entries[i]).1))
}

/// Whether `error` is what the first member that cannot be converted fails with,
/// with what is known of that failure.
pub open spec fn members_fail(
    members: Seq<(Seq<char>, Value)>,
    error: ExtendedJsonError,
) -> bool {
    exists|i: int|
        {
            &&& 0 <= i < members.len()
            &&& json_to_bson((#[trigger] members[i]).1) == Err::<Bson, ExtendedJsonError>(error)
            &&& forall|j: int| 0 <= j < i ==> json_to_bson((#[trigger] members[j]).1) is Ok
            &&& converts(members[i].1, Err(error))
        }
}

/// Whether a JSON value surely has a BSON form: down to its last layer, of at
/// most `layers` arrays and objects, each object is no extended JSON value, or is
/// an object id in extended JSON that is spelled right.
pub open spec fn is_convertible(value: Value, layers: nat) -> bool
    decreases layers,
{
    match json_value(value) {
        JsonValue::Array(items) => layers > 0 && forall|i: int|
            0 <= i < items.len() ==> is_convertible(#[trigger] items[i], (layers - 1) as nat),
        JsonValue::Object(map) => match extended_id_text(json_members(map)) {
            Some(text) => is_object_id_text(text),
            None => layers > 0 && is_plain_object(json_members(map)) && forall|i: int|
                0 <= i < json_members(map).len() ==> is_convertible(
                    (#[trigger] json_members(map)[i]).1,
                    (layers - 1) as nat,
                ),
        },
        _ => true,
    }
}

/// Whether `c` is a hexadecimal digit.
pub open spec fn is_hex_digit(c: char) -> bool {
    ('0' <= c && c <= '9') || ('a' <= c && c <= 'f') || ('A' <= c && c <= 'F')
}

/// The value of a hexadecimal digit.
pub open spec fn hex_digit(c: char) -> int {
    if c <= '9' {
        c as int - '0' as int
    } else if c <= 'F' {
        c as int - 'A' as int + 10
    } else {
        c as int - 'a' as int + 10
    }
}

/// Whether `text` spells an object id: twelve bytes in hexadecimal.
pub open spec fn is_object_id_text(text: Seq<char>) -> bool {
    &&& text.len() == 24
    &&& forall|i: int| 0 <= i < 24 ==> is_hex_digit(#[trigger] text[i])
}

/// What `bson::oid::ObjectId::parse_str` makes of a text.
pub uninterp spec fn parsed_object_id(text: Seq<char>) -> Result<ObjectId, ObjectIdError>;

/// The bytes that `text` spells.
pub open spec fn hex_bytes(text: Seq<char>) -> Seq<u8> {
    Seq::new(
        text.len() / 2,
        |i: int| (hex_digit(text[2 * i]) * 16 + hex_digit(text[2 * i + 1])) as u8,
    )
}

/// The lower-case hexadecimal digit of a value.
pub open spec fn hex_char(digit: int) -> char {
    if digit < 10 {
        (digit + '0' as int) as char
    } else {
        (digit - 10 + 'a' as int) as char
    }
}

/// The text that spells `bytes`.
pub open spec fn hex_text(bytes: Seq<u8>) -> Seq<char> {
    Seq::new(
        bytes.len() * 2,
        |i: int|
            hex_char(
                if i % 2 == 0 {
                    bytes[i / 2] as int / 16
                } else {
                    bytes[i / 2] as int % 16
                },
            ),
    )
}

/// What the `Display` form of `bson::Bson` reads.
pub uninterp spec fn bson_text(value: Bson) -> Seq<char>;

/// The outermost layer of a BSON value, as far as an identifier is told by it.
pub enum IdKind {
    Null,
    ObjectId,
    Other,
}

/// `bson::Bson::try_from` of a JSON value: extended JSON, canonical or relaxed,
/// to BSON. The result is a function of the value; what is known of it beyond
/// that is `converts`.
#[verifier::external_body]
pub(crate) fn bson_from_json(value: &Value) -> (converted: Result<Bson, ExtendedJsonError>)
    ensures
        converted == json_to_bson(*value),
        converts(*value, converted),
{
    Bson::try_from(value.clone())
}

/// Takes the document out of the variant `bson::Bson::Document`.
#[verifier::external_body]
pub(crate) fn bson_into_document(value: Bson) -> (found: Option<Document>)
    ensures
        match bson_value(value) {
            BsonValue::Document(document) => found == Some(document),
            _ => found is None,
        },
{
    match value {
        Bson::Document(document) => Some(document),
        _ => None,
    }
}

/// Tells the variants `bson::Bson::Null` and `bson::Bson::ObjectId` from each
/// other and from the rest.
#[verifier::external_body]
pub(crate) fn bson_id_kind(value: &Bson) -> (kind: IdKind)
    ensures
        kind is Null == (bson_value(*value) is Null),
        kind is ObjectId == (bson_value(*value) is ObjectId),
{
    match value {
        Bson::Null => IdKind::Null,
        Bson::ObjectId(_) => IdKind::ObjectId,
        _ => IdKind::Other,
    }
}

/// The `Display` form of `bson::Bson`. The text is a function of the value; that
/// of an object id spells its bytes.
#[verifier::external_body]
pub(crate) fn bson_to_string(value: &Bson) -> (text: String)
    ensures
        text@ == bson_text(*value),
        bson_value(*value) matches BsonValue::ObjectId(id) ==> text@ == "ObjectId(\""@ + hex_text(
            object_id_bytes(id),
        ) + "\")"@,
{
    value.to_string()
}

/// The variant `bson::Bson::ObjectId`.
#[verifier::external_body]
pub(crate) fn bson_object_id(id: ObjectId) -> (value: Bson)
    ensures
        bson_value(value) == BsonValue::ObjectId(id),
{
    Bson::ObjectId(id)
}

/// The variant `bson::Bson::Document`.
#[verifier::external_body]
pub(crate) fn bson_document(document: Document) -> (value: Bson)
    ensures
        bson_value(value) == BsonValue::Document(document),
{
    Bson::Document(document)
}

/// `bson::Document::new`: a document without fields.
#[verifier::external_body]
pub(crate) fn document_new() -> (document: Document)
    ensures
        document_entries(document) == Seq::<(Seq<char>, Bson)>::empty(),
{
    Document::new()
}

/// `bson::Document::insert`: a field of that name gets the new value in its
/// place, a new field comes last.
#[verifier::external_body]
pub(crate) fn document_insert(document: &mut Document, key: String, value: Bson)
    ensures
        document_entries(*final(document)) == put(document_entries(*old(document)), key@, value),
{
    document.insert(key, value);
}

/// `bson::Document::is_empty`.
#[verifier::external_body]
pub(crate) fn document_is_empty(document: &Document) -> (empty: bool)
    ensures
        empty == (document_entries(*document).len() == 0),
{
    document.is_empty()
}

/// `bson::Document::keys`: hands out the name of each field once, in the
/// document's order. A document holds no name twice.
#[verifier::external_body]
pub(crate) fn document_keys(document: &Document) -> (keys: Vec<&String>)
    ensures
        keys@.len() == document_entries(*document).len(),
        forall|i: int|
            0 <= i < keys@.len() ==> (#[trigger] keys@[i])@ == document_entries(*document)[i].0,
        forall|i: int, j: int|
            0 <= i < j < keys@.len() ==> (#[trigger] keys@[i])@ != (#[trigger] keys@[j])@,
{
    document.keys().collect()
}

/// `bson::Document::into_iter`: hands out the fields, in the document's order.
/// A document holds no name twice.
#[verifier::external_body]
pub(crate) fn document_into_iter(document: Document) -> (fields: Vec<(String, Bson)>)
    ensures
        fields@.len() == document_entries(document).len(),
        forall|i: int|
            0 <= i < fields@.len() ==> (#[trigger] fields@[i]).0@ == document_entries(
                document,
            )[i].0 && fields@[i].1 == document_entries(document)[i].1,
        forall|i: int, j: int|
            0 <= i < j < fields@.len() ==> (#[trigger] fields@[i]).0@ != (#[trigger] fields@[j]).0@,
{
    document.into_iter().collect()
}

/// `bson::oid::ObjectId::new`: an id made of the time, a number drawn for the
/// process and a counter. Nothing is known of it beforehand. It panics where
/// the system clock stands before 1970 or past the seconds that `u32` counts.
#[verifier::external_body]
pub(crate) fn object_id_new() -> (id: ObjectId) {
    ObjectId::new()
}

/// `bson::oid::ObjectId::parse_str`: the id that twenty-four hexadecimal digits
/// spell; any other text is refused, with an error that is a function of the
/// text.
#[verifier::external_body]
pub(crate) fn object_id_parse(text: &str) -> (parsed: Result<ObjectId, ObjectIdError>)
    ensures
        parsed == parsed_object_id(text@),
        parsed is Ok == is_object_id_text(text@),
        parsed matches Ok(id) ==> object_id_bytes(id) == hex_bytes(text@),
{
    ObjectId::parse_str(text)
}

/// Types and values are kept inside too: what a plain object or an array is
/// converted to holds each of its values converted, at every depth.
pub proof fn law_conversion_goes_inside(value: Value, held: Bson)
    requires
        converts(value, Ok(held)),
    ensures
        json_value(value) matches JsonValue::Array(items) ==> {
            &&& bson_value(held) matches BsonValue::Array(values)
            &&& values.len() == items.len()
            &&& forall|i: int| 0 <= i < items.len() ==> converts(items[i], Ok(#[trigger] values[i]))
        },
        json_value(value) matches JsonValue::Object(map) ==> is_plain_object(json_members(map)) ==> {
            &&& bson_value(held) matches BsonValue::Document(document)
            &&& members_convert(json_members(map), document_entries(document))
        },
{
    let converted = Ok::<Bson, ExtendedJsonError>(held);
    assert(converted_within(value, converted, 0));
    match (json_value(value), bson_value(held)) {
        (JsonValue::Array(items), BsonValue::Array(values)) => {
            assert forall|i: int| 0 <= i < items.len() implies converts(
                items[i],
                Ok(#[trigger] values[i]),
            ) by {
                assert forall|depth: nat| #[trigger]
                    converted_within(items[i], Ok(values[i]), depth) by {
                    assert(converted_within(value, converted, depth + 1));
                }
            }
        },
        (JsonValue::Object(map), BsonValue::Document(document)) => {
            if is_plain_object(json_members(map)) {
                let entries = document_entries(document);
                assert forall|i: int| 0 <= i < json_members(map).len() implies converts(
                    json_members(map)[i].1,
                    Ok((#[trigger] entries[i]).1),
                ) by {
                    assert forall|depth: nat| #[trigger]
                        converted_within(json_members(map)[i].1, Ok(entries[i].1), depth) by {
                        assert(converted_within(value, converted, depth + 1));
                    }
                }
            }
        },
        _ => {},
    }
}

/// A failure comes from inside too: where a plain object or an array has no BSON
/// form, the first of its values that has none is why.
pub proof fn law_failure_comes_from_inside(value: Value, error: ExtendedJsonError)
    requires
        converts(value, Err(error)),
    ensures
        json_value(value) matches JsonValue::Array(items) ==> exists|i: int|
            {
                &&& 0 <= i < items.len()
                &&& forall|j: int| 0 <= j < i ==> json_to_bson(#[trigger] items[j]) is Ok
                &&& converts(#[trigger] items[i], Err(error))
            },
        json_value(value) matches JsonValue::Object(map) ==> is_plain_object(json_members(map))
            ==> members_fail(json_members(map), error),
{
    let converted = Err::<Bson, ExtendedJsonError>(error);
    assert(converted_within(value, converted, 0));
    match json_value(value) {
        JsonValue::Array(items) => {
            let i = choose|i: int|
                {
                    &&& 0 <= i < items.len()
                    &&& json_to_bson(#[trigger] items[i]) == Err::<Bson, ExtendedJsonError>(error)
                    &&& forall|j: int| 0 <= j < i ==> json_to_bson(#[trigger] items[j]) is Ok
                };
            assert forall|depth: nat| #[trigger] converted_within(items[i], converted, depth) by {
                assert(converted_within(value, converted, depth + 1));
            }
        },
        JsonValue::Object(map) => {
            let members = json_members(map);
            if is_plain_object(members) {
                let i = choose|i: int|
                    {
                        &&& 0 <= i < members.len()
                        &&& json_to_bson((#[trigger] members[i]).1) == Err::<
                            Bson,
                            ExtendedJsonError,
                        >(error)
                        &&& forall|j: int|
                            0 <= j < i ==> json_to_bson((#[trigger] members[j]).1) is Ok
                    };
                assert forall|depth: nat| #[trigger]
                    converted_within(members[i].1, converted, depth) by {
                    assert(converted_within(value, converted, depth + 1));
                }
            }
        },
        _ => {},
    }
}

/// A JSON value that surely has a BSON form is converted: scalars always are, and
/// so is what is made of them without extended JSON.
pub proof fn law_convertible_values_convert(
    value: Value,
    converted: Result<Bson, ExtendedJsonError>,
    layers: nat,
)
    requires
        converts(value, converted),
        is_convertible(value, layers),
    ensures
        converted is Ok,
    decreases layers, 0nat,
{
    assert(converted_within(value, converted, 0));
    if let Err(error) = converted {
        law_failure_comes_from_inside(value, error);
        match json_value(value) {
            JsonValue::Array(items) => {
                let i = choose|i: int|
                    {
                        &&& 0 <= i < items.len()
                        &&& forall|j: int| 0 <= j < i ==> json_to_bson(#[trigger] items[j]) is Ok
                        &&& converts(#[trigger] items[i], Err(error))
                    };
                law_convertible_values_convert(items[i], Err(error), (layers - 1) as nat);
            },
            JsonValue::Object(map) => {
                if extended_id_text(json_members(map)) is None {
                    law_convertible_members_convert(
                        json_members(map),
                        error,
                        (layers - 1) as nat,
                    );
                }
            },
            _ => {},
        }
    }
}

/// Members that surely have a BSON form never fail.
pub proof fn law_convertible_members_convert(
    members: Seq<(Seq<char>, Value)>,
    error: ExtendedJsonError,
    layers: nat,
)
    requires
        forall|i: int|
            0 <= i < members.len() ==> is_convertible((#[trigger] members[i]).1, layers),
    ensures
        !members_fail(members, error),
    decreases layers, 1nat,
{
    if members_fail(members, error) {
        let i = choose|i: int|
            {
                &&& 0 <= i < members.len()
                &&& json_to_bson((#[trigger] members[i]).1) == Err::<Bson, ExtendedJsonError>(
                    error,
                )
                &&& forall|j: int| 0 <= j < i ==> json_to_bson((#[trigger] members[j]).1) is Ok
                &&& converts(members[i].1, Err(error))
            };
        law_convertible_values_convert(members[i].1, Err(error), layers);
    }
}

/// The text that spells twelve bytes spells an object id, and spells them.
pub proof fn law_hex_round_trip(bytes: Seq<u8>)
    requires
        bytes.len() == 12,
    ensures
        is_object_id_text(hex_text(bytes)),
        hex_bytes(hex_text(bytes)) == bytes,
{
    let text = hex_text(bytes);
    assert forall|i: int| 0 <= i < 24 implies is_hex_digit(#[trigger] text[i]) by {
        let byte = bytes[i / 2] as int;
        assert(0 <= byte / 16 < 16 && 0 <= byte % 16 < 16);
    }
    assert forall|i: int| 0 <= i < 12 implies #[trigger] hex_bytes(text)[i] == bytes[i] by {
        let byte = bytes[i] as int;
        assert(text[2 * i] == hex_char(byte / 16));
        assert(text[2 * i + 1] == hex_char(byte % 16));
        assert(hex_digit(hex_char(byte / 16)) == byte / 16);
        assert(hex_digit(hex_char(byte % 16)) == byte % 16);
    }
    assert(hex_bytes(text) == bytes);
}

} // verus!
