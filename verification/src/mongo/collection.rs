//! The task that reads, writes or upserts documents of a collection.

use crate::event::{passed_on, Event};
use crate::mongo::config::{Collection, Operation};
use crate::mongo::error::Error;
use crate::mongo::read::{is_find_outcome, prepare_find, FindRequest, Finding};
use crate::mongo::upsert::{is_upsert_outcome, prepare_upsert, UpsertRequest, Upserting};
use crate::mongo::write::{is_write_outcome, prepare_write, WriteRequest, Writing};
use crate::task::RegistryError;
use mongodb::Client as MongoClient;
use std::path::PathBuf;
use std::sync::Arc;
use tokio::sync::mpsc::{Receiver, Sender};
use vstd::prelude::*;

verus! {

#[verifier::external_type_specification]
#[verifier::external_body]
pub struct ExMongoClient(MongoClient);

/// Handles the events of a collection processor.
#[verifier::reject_recursive_types(C)]
pub struct EventHandler<C> {
    pub client: Arc<MongoClient>,
    pub config: Arc<Collection>,
    pub task_id: usize,
    pub tx: Option<Sender<Event<C>>>,
    pub task_type: &'static str,
}

/// What is to be done in the collection for an event.
#[derive(Debug)]
pub enum Plan<C> {
    Read(Finding<C>),
    Write(Writing<C>),
    Upsert(Upserting<C>),
}

impl<C> EventHandler<C> {
    /// Whether `next` is how a read begins.
    pub open spec fn begins_read(
        self,
        completion: Option<C>,
        next: Result<Finding<C>, Error>,
    ) -> bool {
        match next {
            Ok(finding) => {
                &&& is_find_outcome(*self.config, Ok::<FindRequest, Error>(finding.request))
                &&& finding.completion == completion
                &&& finding.has_sender == self.tx is Some
            },
            Err(error) => is_find_outcome(*self.config, Err::<FindRequest, Error>(error)),
        }
    }

    /// Whether `next` is how an event is begun to be written.
    pub open spec fn begins_write(
        self,
        event: Event<C>,
        completion: Option<C>,
        next: Result<Writing<C>, Error>,
    ) -> bool {
        match next {
            Ok(writing) => {
                &&& is_write_outcome(
                    *self.config,
                    event.data,
                    Ok::<WriteRequest, Error>(writing.request),
                )
                &&& writing.completion == completion
                &&& writing.has_sender == self.tx is Some
                &&& writing.task_id == self.task_id
                &&& writing.task_type == self.task_type
            },
            Err(error) => is_write_outcome(
                *self.config,
                event.data,
                Err::<WriteRequest, Error>(error),
            ),
        }
    }

    /// Whether `next` is how an event is begun to be upserted.
    pub open spec fn begins_upsert(
        self,
        event: Event<C>,
        completion: Option<C>,
        next: Result<Upserting<C>, Error>,
    ) -> bool {
        match next {
            Ok(upserting) => {
                &&& is_upsert_outcome(
                    *self.config,
                    event.data,
                    Ok::<UpsertRequest, Error>(upserting.request),
                )
                &&& upserting.completion == completion
                &&& upserting.has_sender == self.tx is Some
            },
            Err(error) => is_upsert_outcome(
                *self.config,
                event.data,
                Err::<UpsertRequest, Error>(error),
            ),
        }
    }

    /// Whether `plan` is what the configured operation does for an event.
    pub open spec fn plans(
        self,
        event: Event<C>,
        completion: Option<C>,
        plan: Result<Plan<C>, Error>,
    ) -> bool {
        match self.config.operation {
            Operation::Read => match plan {
                Ok(Plan::Read(finding)) => self.begins_read(completion, Ok(finding)),
                Ok(_) => false,
                Err(error) => self.begins_read(completion, Err(error)),
            },
            Operation::Write => match plan {
                Ok(Plan::Write(writing)) => self.begins_write(event, completion, Ok(writing)),
                Ok(_) => false,
                Err(error) => self.begins_write(event, completion, Err(error)),
            },
            Operation::Upsert => match plan {
                Ok(Plan::Upsert(upserting)) => self.begins_upsert(event, completion, Ok(upserting)),
                Ok(_) => false,
                Err(error) => self.begins_upsert(event, completion, Err(error)),
            },
        }
    }

    /// Starts handling an event with the configured operation.
    pub fn handle(&self, event: &Event<C>) -> (plan: Result<Plan<C>, Error>) where C: Clone
        ensures
            exists|completion: Option<C>| #[trigger]
                passed_on(event.completion_tx, completion) && self.plans(*event, completion, plan),
    {
        let completion = event.completion_tx.clone();
        let ghost handed = completion;
        assert(passed_on(event.completion_tx, handed));
        let plan = match self.config.operation {
            Operation::Read => match self.read(completion) {
                Ok(finding) => Ok(Plan::Read(finding)),
                Err(error) => Err(error),
            },
            Operation::Write => match self.write(event, completion) {
                Ok(writing) => Ok(Plan::Write(writing)),
                Err(error) => Err(error),
            },
            Operation::Upsert => match self.upsert(event, completion) {
                Ok(upserting) => Ok(Plan::Upsert(upserting)),
                Err(error) => Err(error),
            },
        };
        assert(self.plans(*event, handed, plan));
        plan
    }

    /// Starts to query the configured collection with its filter, to emit each
    /// matching document as an event.
    pub fn read(&self, completion: Option<C>) -> (next: Result<Finding<C>, Error>)
        ensures
            self.begins_read(completion, next),
    {
        match prepare_find(&self.config) {
            Ok(request) => Ok(Finding { request, completion, has_sender: self.tx.is_some() }),
            Err(error) => Err(error),
        }
    }

    /// Starts to insert an event's JSON payload as a document.
    pub fn write(&self, event: &Event<C>, completion: Option<C>) -> (next: Result<
        Writing<C>,
        Error,
    >)
        ensures
            self.begins_write(*event, completion, next),
    {
        match prepare_write(&self.config, &event.data) {
            Ok(request) => Ok(
                Writing {
                    request,
                    completion,
                    has_sender: self.tx.is_some(),
                    task_id: self.task_id,
                    task_type: self.task_type,
                },
            ),
            Err(error) => Err(error),
        }
    }

    /// Starts to apply an event's JSON payload to the first document that matches
    /// the filter, to insert one if nothing matches.
    pub fn upsert(&self, event: &Event<C>, completion: Option<C>) -> (next: Result<
        Upserting<C>,
        Error,
    >)
        ensures
            self.begins_upsert(*event, completion, next),
    {
        match prepare_upsert(&self.config, &event.data) {
            Ok(request) => Ok(Upserting { request, completion, has_sender: self.tx.is_some() }),
            Err(error) => Err(error),
        }
    }

    /// The outcome of an event that was sent on.
    pub fn finished(&self, sent: Result<(), String>) -> (outcome: Result<(), Error>)
        ensures
            match sent {
                Ok(_) => outcome is Ok,
                Err(source) => outcome == Err::<(), Error>((Error::SendMessage { source })),
            },
    {
        match sent {
            Ok(_) => Ok(()),
            Err(source) => Err(Error::SendMessage { source }),
        }
    }
}

/// Whatever is wrong with an event or with the filter is found before the
/// database is asked, and is never retried: a plan that cannot be made fails
/// for good.
pub proof fn law_unplannable_events_are_given_up<C>(
    handler: EventHandler<C>,
    event: Event<C>,
    completion: Option<C>,
    error: Error,
)
    requires
        handler.plans(event, completion, Err(error)),
    ensures
        error.permanent(),
{
}

/// A collection processor: reads, writes, or upserts documents depending on the
/// configured operation. `X` is the context that the host application runs it in.
#[verifier::reject_recursive_types(C)]
#[derive(Debug)]
pub struct Processor<C, X> {
    pub config: Arc<Collection>,
    pub rx: Receiver<Event<C>>,
    pub tx: Option<Sender<Event<C>>>,
    pub task_id: usize,
    pub task_context: Arc<X>,
    pub task_type: &'static str,
}

/// A processor with its rendered configuration: next the client that it needs is
/// looked up.
#[derive(Debug)]
pub struct Initializing {
    pub config: Collection,
}

/// A client that was to be connected.
pub fn connected_client<K>(connected: Result<K, String>) -> (client: Result<K, Error>)
    ensures
        match connected {
            Ok(made) => client == Ok::<K, Error>(made),
            Err(source) => client == Err::<K, Error>((Error::Auth { source })),
        },
{
    match connected {
        Ok(client) => Ok(client),
        Err(source) => Err(Error::Auth { source }),
    }
}

/// Which client a processor needs. Processors that ask for the same share one.
#[derive(Debug)]
pub struct ClientRequest<'a> {
    pub task_type: &'static str,
    pub credentials_path: &'a Option<PathBuf>,
}

impl<C, X> Processor<C, X> {
    /// First step of initialization: the configuration, rendered without an
    /// event.
    pub fn init(&self, rendered: Result<Collection, String>) -> (next: Result<Initializing, Error>)
        ensures
            match rendered {
                Ok(config) => next == Ok::<Initializing, Error>((Initializing { config })),
                Err(source) => next == Err::<Initializing, Error>((Error::ConfigRender { source })),
            },
    {
        match rendered {
            Ok(config) => Ok(Initializing { config }),
            Err(source) => Err(Error::ConfigRender { source }),
        }
    }

    /// Second step of initialization: the type of the task and the rendered
    /// credentials say which client is needed.
    pub fn client_request<'a>(&self, initializing: &'a Initializing) -> (request: ClientRequest<'a>)
        ensures
            request == self.request_of(*initializing),
    {
        ClientRequest {
            task_type: self.task_type,
            credentials_path: &initializing.config.credentials_path,
        }
    }

    /// The client that is needed with this rendered configuration.
    pub open spec fn request_of(self, initializing: Initializing) -> ClientRequest<'static> {
        ClientRequest {
            task_type: self.task_type,
            credentials_path: &initializing.config.credentials_path,
        }
    }

    /// Whether `handler` is the handler of the task's events, with this client
    /// and this rendered configuration.
    pub open spec fn is_handler(
        self,
        initializing: Initializing,
        client: Arc<MongoClient>,
        handler: EventHandler<C>,
    ) -> bool {
        &&& handler.client == client
        &&& *handler.config == initializing.config
        &&& handler.task_id == self.task_id
        &&& handler.task_type == self.task_type
        &&& passed_on(self.tx, handler.tx)
    }

    /// Last step of initialization: the handler of the task's events, with the
    /// shared client and the rendered configuration.
    pub fn event_handler(
        &self,
        initializing: Initializing,
        registered: Result<Arc<MongoClient>, RegistryError<Error>>,
    ) -> (handler: Result<EventHandler<C>, Error>)
        ensures
            match registered {
                Err(RegistryError::Init { source }) => handler == Err::<EventHandler<C>, Error>(
                    source,
                ),
                Err(RegistryError::TypeMismatch) => handler == Err::<EventHandler<C>, Error>(
                    Error::ClientRegistryMismatch,
                ),
                Ok(client) => handler matches Ok(made) && self.is_handler(
                    initializing,
                    client,
                    made,
                ),
            },
    {
        match registered {
            Ok(client) => Ok(
                EventHandler {
                    client,
                    config: Arc::new(initializing.config),
                    task_id: self.task_id,
                    tx: self.tx.clone(),
                    task_type: self.task_type,
                },
            ),
            Err(RegistryError::Init { source }) => Err(source),
            Err(RegistryError::TypeMismatch) => Err(Error::ClientRegistryMismatch),
        }
    }
}

/// Processors of one type with the same rendered credentials share a client: they
/// ask the registry for the same, and where it holds a client for that, both
/// handlers hold that client, each beside its own task and its own rendered
/// configuration.
pub proof fn law_processors_share_a_client<C, X>(
    first: Processor<C, X>,
    first_rendered: Initializing,
    first_handler: EventHandler<C>,
    second: Processor<C, X>,
    second_rendered: Initializing,
    second_handler: EventHandler<C>,
    registry: spec_fn(ClientRequest<'static>) -> Arc<MongoClient>,
)
    requires
        first.task_type == second.task_type,
        first_rendered.config.credentials_path == second_rendered.config.credentials_path,
        first.is_handler(first_rendered, registry(first.request_of(first_rendered)), first_handler),
        second.is_handler(
            second_rendered,
            registry(second.request_of(second_rendered)),
            second_handler,
        ),
    ensures
        first.request_of(first_rendered) == second.request_of(second_rendered),
        first_handler.client == second_handler.client,
        *second_handler.config == second_rendered.config,
        second_handler.task_id == second.task_id,
        second_handler.task_type == second.task_type,
        passed_on(second.tx, second_handler.tx),
{
}

/// Builder of a collection processor.
#[verifier::reject_recursive_types(C)]
pub struct ProcessorBuilder<C, X> {
    pub config: Option<Arc<Collection>>,
    pub rx: Option<Receiver<Event<C>>>,
    pub tx: Option<Sender<Event<C>>>,
    pub task_id: usize,
    pub task_context: Option<Arc<X>>,
    pub task_type: Option<&'static str>,
}

impl<C, X> Default for ProcessorBuilder<C, X> {
    fn default() -> (builder: Self)
        ensures
            builder == (ProcessorBuilder::<C, X> {
                config: None,
                rx: None,
                tx: None,
                task_id: 0,
                task_context: None,
                task_type: None,
            }),
    {
        ProcessorBuilder {
            config: None,
            rx: None,
            tx: None,
            task_id: 0,
            task_context: None,
            task_type: None,
        }
    }
}

impl<C, X> ProcessorBuilder<C, X> {
    /// A builder without attributes.
    pub fn new() -> (builder: ProcessorBuilder<C, X>)
        ensures
            builder == (ProcessorBuilder::<C, X> {
                config: None,
                rx: None,
                tx: None,
                task_id: 0,
                task_context: None,
                task_type: None,
            }),
    {
        ProcessorBuilder::default()
    }

    /// Sets the configuration.
    pub fn config(self, config: Arc<Collection>) -> (builder: Self)
        ensures
            builder == (ProcessorBuilder { config: Some(config), ..self }),
    {
        ProcessorBuilder { config: Some(config), ..self }
    }

    /// Sets the channel that events come from.
    pub fn receiver(self, receiver: Receiver<Event<C>>) -> (builder: Self)
        ensures
            builder == (ProcessorBuilder { rx: Some(receiver), ..self }),
    {
        ProcessorBuilder { rx: Some(receiver), ..self }
    }

    /// Sets an optional downstream sender. Omit for terminal (leaf) tasks.
    pub fn sender(self, sender: Sender<Event<C>>) -> (builder: Self)
        ensures
            builder == (ProcessorBuilder { tx: Some(sender), ..self }),
    {
        ProcessorBuilder { tx: Some(sender), ..self }
    }

    /// Sets the number of the task in its flow.
    pub fn task_id(self, task_id: usize) -> (builder: Self)
        ensures
            builder == (ProcessorBuilder { task_id, ..self }),
    {
        ProcessorBuilder { task_id, ..self }
    }

    /// Sets the context that the task runs in.
    pub fn task_context(self, task_context: Arc<X>) -> (builder: Self)
        ensures
            builder == (ProcessorBuilder { task_context: Some(task_context), ..self }),
    {
        ProcessorBuilder { task_context: Some(task_context), ..self }
    }

    /// Sets the type of the task.
    pub fn task_type(self, task_type: &'static str) -> (builder: Self)
        ensures
            builder == (ProcessorBuilder { task_type: Some(task_type), ..self }),
    {
        ProcessorBuilder { task_type: Some(task_type), ..self }
    }

    /// The first required attribute that is missing.
    pub open spec fn missing(self) -> Option<Seq<char>> {
        if self.config is None {
            Some("config"@)
        } else if self.rx is None {
            Some("receiver"@)
        } else if self.task_context is None {
            Some("task_context"@)
        } else if self.task_type is None {
            Some("task_type"@)
        } else {
            None
        }
    }

    /// The collection processor. All but the sender and the number are required.
    pub fn build(self) -> (processor: Result<Processor<C, X>, Error>)
        ensures
            match self.missing() {
                Some(attribute) => processor matches Err(Error::MissingBuilderAttribute(name))
                    && name@ == attribute,
                None => processor == Ok::<Processor<C, X>, Error>(
                    (Processor {
                        config: self.config->0,
                        rx: self.rx->0,
                        tx: self.tx,
                        task_id: self.task_id,
                        task_context: self.task_context->0,
                        task_type: self.task_type->0,
                    }),
                ),
            },
    {
        let config = match self.config {
            Some(config) => config,
            None => return Err(Error::MissingBuilderAttribute("config".to_string())),
        };
        let rx = match self.rx {
            Some(rx) => rx,
            None => return Err(Error::MissingBuilderAttribute("receiver".to_string())),
        };
        let task_context = match self.task_context {
            Some(task_context) => task_context,
            None => return Err(Error::MissingBuilderAttribute("task_context".to_string())),
        };
        let task_type = match self.task_type {
            Some(task_type) => task_type,
            None => return Err(Error::MissingBuilderAttribute("task_type".to_string())),
        };
        Ok(Processor { config, rx, tx: self.tx, task_id: self.task_id, task_context, task_type })
    }
}

} // verus!
