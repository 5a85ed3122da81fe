//! Reading the documents that match a filter.

use crate::event::{route_completion, routed, Emission, Event};
use crate::json::{
    is_object_of, json_integer, json_map_insert, json_map_new, json_object, JsonValue,
};
use crate::mongo::config::Collection;
use crate::mongo::error::Error;
use crate::mongo::filter::{build_filter_doc, is_filter_outcome};
use bson::Document;
use mongodb::error::Error as MongoError;
use serde_json::Value;
use vstd::prelude::*;

verus! {

/// A query, and where.
#[derive(Debug)]
pub struct FindRequest {
    pub db_name: String,
    pub collection_name: String,
    pub filter: Document,
}

/// Whether `request` is what a collection is queried by.
pub open spec fn is_find_outcome(
    config: Collection,
    request: Result<FindRequest, Error>,
) -> bool {
    match request {
        Ok(request) => {
            &&& request.db_name == config.db_name
            &&& request.collection_name == config.collection_name
            &&& is_filter_outcome(config.filter, Ok(request.filter))
        },
        Err(error) => is_filter_outcome(config.filter, Err(error)),
    }
}

/// Prepares the query of the configured collection with its filter.
pub fn prepare_find(config: &Collection) -> (request: Result<FindRequest, Error>)
    ensures
        is_find_outcome(*config, request),
{
    match build_filter_doc(&config.filter) {
        Ok(filter) => Ok(
            FindRequest {
                db_name: config.db_name.clone(),
                collection_name: config.collection_name.clone(),
                filter,
            },
        ),
        Err(error) => Err(error),
    }
}

/// A query that is being answered: next it is opened and its first document
/// is fetched.
#[derive(Debug)]
pub struct Finding<C> {
    pub request: FindRequest,
    pub completion: Option<C>,
    pub has_sender: bool,
}

/// An answer with a document that is still to be emitted: next the document
/// after it is fetched.
///
/// The completion must only fire on the last emitted event, and a fetch that
/// gives nothing is the only way to know that a document is the last one. So
/// each document waits until the one after it has been fetched.
#[derive(Debug)]
pub struct Reading<C> {
    pub pending: Document,
    pub completion: Option<C>,
    pub has_sender: bool,
}

/// A document to emit: next it is turned into an event.
#[derive(Debug)]
pub struct Found<C> {
    pub document: Document,
    /// The document after it, if it is not the last one.
    pub rest: Option<Document>,
    pub completion: Option<C>,
    pub has_sender: bool,
}

/// An event to send, and how to go on after that.
#[derive(Debug)]
pub struct Step<C> {
    pub emission: Emission<C>,
    pub rest: Option<Reading<C>>,
}

/// What the first fetch decides.
#[derive(Debug)]
pub enum Opened<C> {
    /// No document matches: no event is sent, and the completion is signalled
    /// with this value.
    Empty { signal: Option<C>, value: Value },
    /// There is a document to emit.
    Reading(Reading<C>),
}

/// The result of a query that matched nothing.
pub fn no_match() -> (value: Value)
    ensures
        is_object_of(value, seq![("matched"@, JsonValue::Integer(0))]),
{
    let mut map = json_map_new();
    json_map_insert(&mut map, "matched".to_string(), json_integer(0));
    json_object(map)
}

impl<C> Finding<C> {
    /// Goes on with the first document, if there is one.
    pub fn opened(self, first: Result<Option<Document>, MongoError>) -> (next: Result<
        Opened<C>,
        Error,
    >)
        ensures
            match first {
                Err(source) => next == Err::<Opened<C>, Error>((Error::MongoDB { source })),
                Ok(None) => {
                    &&& next matches Ok(Opened::Empty { signal, value })
                    &&& signal == self.completion
                    &&& is_object_of(value, seq![("matched"@, JsonValue::Integer(0))])
                },
                Ok(Some(document)) => next == Ok::<Opened<C>, Error>(
                    Opened::Reading(
                        (Reading {
                            pending: document,
                            completion: self.completion,
                            has_sender: self.has_sender,
                        }),
                    ),
                ),
            },
    {
        match first {
            Ok(Some(document)) => Ok(
                Opened::Reading(
                    Reading {
                        pending: document,
                        completion: self.completion,
                        has_sender: self.has_sender,
                    },
                ),
            ),
            Ok(None) => Ok(Opened::Empty { signal: self.completion, value: no_match() }),
            Err(source) => Err(Error::MongoDB { source }),
        }
    }
}

impl<C> Reading<C> {
    /// Goes on with the document after the pending one, if there is one.
    pub fn fetched(self, next: Result<Option<Document>, MongoError>) -> (found: Result<
        Found<C>,
        Error,
    >)
        ensures
            match next {
                Ok(rest) => found == Ok::<Found<C>, Error>(
                    (Found {
                        document: self.pending,
                        rest,
                        completion: self.completion,
                        has_sender: self.has_sender,
                    }),
                ),
                Err(source) => found == Err::<Found<C>, Error>((Error::MongoDB { source })),
            },
    {
        match next {
            Ok(rest) => Ok(
                Found {
                    document: self.pending,
                    rest,
                    completion: self.completion,
                    has_sender: self.has_sender,
                },
            ),
            Err(source) => Err(Error::MongoDB { source }),
        }
    }
}

/// The step that a document's event leads to: the event is sent as it is while
/// documents are left, and with the completion where it is the last one.
pub open spec fn step<C>(found: Found<C>, event: Event<C>) -> Step<C> {
    match found.rest {
        Some(document) => Step {
            emission: Emission { event, signal: None },
            rest: Some(
                Reading {
                    pending: document,
                    completion: found.completion,
                    has_sender: found.has_sender,
                },
            ),
        },
        None => Step {
            emission: routed(event, found.completion, found.has_sender),
            rest: None,
        },
    }
}

impl<C> Found<C> {
    /// Goes on with the document's event.
    pub fn converted(self, event: Result<Event<C>, String>) -> (next: Result<Step<C>, Error>)
        ensures
            match event {
                Ok(event) => next == Ok::<Step<C>, Error>(step(self, event)),
                Err(source) => next == Err::<Step<C>, Error>((Error::MessageConversion { source })),
            },
    {
        let event = match event {
            Ok(event) => event,
            Err(source) => return Err(Error::MessageConversion { source }),
        };
        match self.rest {
            Some(document) => Ok(
                Step {
                    emission: Emission { event, signal: None },
                    rest: Some(
                        Reading {
                            pending: document,
                            completion: self.completion,
                            has_sender: self.has_sender,
                        },
                    ),
                },
            ),
            None => Ok(
                Step {
                    emission: route_completion(event, self.completion, self.has_sender),
                    rest: None,
                },
            ),
        }
    }
}

/// What is fetched next where the documents in `left` are still to come.
pub open spec fn next_of(left: Seq<Document>) -> Option<Document> {
    if left.len() == 0 {
        None
    } else {
        Some(left[0])
    }
}

/// Everything that is emitted from a reading on, where the documents in `left`
/// are fetched after the pending one and `to_event` turns documents into events.
pub open spec fn emissions<C>(
    reading: Reading<C>,
    left: Seq<Document>,
    to_event: spec_fn(Document) -> Event<C>,
) -> Seq<Emission<C>>
    decreases left.len(),
{
    let found = Found {
        document: reading.pending,
        rest: next_of(left),
        completion: reading.completion,
        has_sender: reading.has_sender,
    };
    let taken = step(found, to_event(found.document));
    match taken.rest {
        Some(rest) if left.len() > 0 => seq![taken.emission] + emissions(
            rest,
            left.drop_first(),
            to_event,
        ),
        _ => seq![taken.emission],
    }
}

/// A read emits every matching document, once and in order, and the completion
/// fires on the last one alone.
pub proof fn law_read_emits_every_document<C>(
    reading: Reading<C>,
    left: Seq<Document>,
    to_event: spec_fn(Document) -> Event<C>,
)
    ensures
        ({
            let all = seq![reading.pending] + left;
            let sent = emissions(reading, left, to_event);
            &&& sent.len() == all.len()
            &&& forall|i: int|
                0 <= i < left.len() ==> #[trigger] sent[i] == (Emission {
                    event: to_event(all[i]),
                    signal: None::<C>,
                })
            &&& sent.last() == routed(
                to_event(all.last()),
                reading.completion,
                reading.has_sender,
            )
        }),
    decreases left.len(),
{
    if left.len() > 0 {
        let rest = Reading {
            pending: left[0],
            completion: reading.completion,
            has_sender: reading.has_sender,
        };
        let after = left.drop_first();
        law_read_emits_every_document(rest, after, to_event);
        let sent = emissions(reading, left, to_event);
        let later = emissions(rest, after, to_event);
        let all = seq![reading.pending] + left;
        let remaining = seq![left[0]] + after;
        assert(remaining == left);
        assert(sent.drop_first() == later);
        assert forall|i: int| 0 <= i < left.len() implies #[trigger] sent[i] == (Emission {
            event: to_event(all[i]),
            signal: None::<C>,
        }) by {
            if i > 0 {
                assert(sent[i] == later[i - 1]);
                assert(all[i] == remaining[i - 1]);
            }
        }
        assert(sent.last() == later.last());
        assert(all.last() == remaining.last());
    }
}

} // verus!
