//! Query documents.

use crate::document::{
    bson_from_json, converts, document_entries, document_insert, document_new, is_convertible,
    json_to_bson, law_convertible_members_convert, members_convert, members_fail,
};
use crate::entries::distinct_keys;
use crate::json::{json_map_iter, json_members};
use crate::mongo::error::Error;
use bson::extjson::de::Error as ExtendedJsonError;
use bson::{Bson, Document};
use serde_json::Value;
use vstd::prelude::*;

verus! {

/// Whether `built` is the query document of a configured filter.
pub open spec fn is_filter_outcome(
    filter: serde_json::Map<String, Value>,
    built: Result<Document, Error>,
) -> bool {
    match built {
        Ok(document) => members_convert(json_members(filter), document_entries(document)),
        Err(error) => error matches Error::Bson { source } && members_fail(
            json_members(filter),
            source,
        ),
    }
}

/// Turns a configured filter into a query document: each member converted to
/// BSON, with its type and value, in the filter's order. The first member that has no BSON form decides
/// the error.
pub fn build_filter_doc(filter: &serde_json::Map<String, Value>) -> (built: Result<
    Document,
    Error,
>)
    ensures
        is_filter_outcome(*filter, built),
        distinct_keys(json_members(*filter)),
{
    let mut document = document_new();
    let members = json_map_iter(filter);
    let ghost held = json_members(*filter);
    assert(distinct_keys(held)) by {
        assert forall|i: int, j: int| 0 <= i < j < held.len() implies (#[trigger] held[i]).0 != (
        #[trigger] held[j]).0 by {
            assert(members@[i].0@ != members@[j].0@);
        }
    }
    let mut at: usize = 0;
    while at < members.len()
        invariant
            at <= members.len(),
            held == json_members(*filter),
            distinct_keys(held),
            held.len() == members.len(),
            forall|i: int|
                0 <= i < members@.len() ==> (#[trigger] members@[i]).0@ == held[i].0
                    && *members@[i].1 == held[i].1,
            forall|i: int, j: int|
                0 <= i < j < members@.len() ==> (#[trigger] members@[i]).0@ != (
                #[trigger] members@[j]).0@,
            members_convert(held.take(at as int), document_entries(document)),
        decreases members.len() - at,
    {
        let (key, value) = members[at];
        match bson_from_json(value) {
            Ok(converted) => {
                let ghost before = document_entries(document);
                document_insert(&mut document, key.clone(), converted);
                proof {
                    assert forall|i: int| 0 <= i < before.len() implies (#[trigger] before[i]).0
                        != key@ by {
                        assert(before[i].0 == held.take(at as int)[i].0);
                        assert(members@[i].0@ != members@[at as int].0@);
                    }
                    let grown = held.take(at as int + 1);
                    assert forall|i: int| 0 <= i < grown.len() implies (
                    #[trigger] document_entries(document)[i]).0 == grown[i].0
                        && json_to_bson(grown[i].1) == Ok::<Bson, ExtendedJsonError>(
                        document_entries(document)[i].1,
                    ) && converts(grown[i].1, Ok(document_entries(document)[i].1)) by {
                        if i < at {
                            assert(held.take(at as int)[i] == grown[i]);
                            assert(document_entries(document)[i] == before[i]);
                        }
                    }
                }
            },
            Err(source) => {
                proof {
                    assert forall|j: int| 0 <= j < at implies json_to_bson(
                        (#[trigger] held[j]).1,
                    ) is Ok by {
                        assert(held.take(at as int)[j] == held[j]);
                        assert(document_entries(document)[j].0 == held[j].0);
                    }
                    assert(held[at as int].1 == *value);
                }
                return Err(Error::Bson { source });
            },
        }
        at = at + 1;
    }
    proof {
        assert(held.take(at as int) == held);
    }
    Ok(document)
}

/// A filter whose values surely have a BSON form is always built.
pub proof fn law_convertible_filters_are_built(
    filter: serde_json::Map<String, Value>,
    built: Result<Document, Error>,
    layers: nat,
)
    requires
        is_filter_outcome(filter, built),
        forall|i: int|
            0 <= i < json_members(filter).len() ==> is_convertible(
                (#[trigger] json_members(filter)[i]).1,
                layers,
            ),
    ensures
        built is Ok,
{
    if let Err(error) = built {
        if let Error::Bson { source } = error {
            law_convertible_members_convert(json_members(filter), source, layers);
        }
    }
}

} // verus!
