//! Task connectors of an event flow: a Kafka producer and a MongoDB collection
//! processor.
//!
//! A connector receives events, does its work against an outside service and
//! emits the result downstream. This crate holds the decisions of that work,
//! with their contracts; the host application performs the reads, the sends
//! and the waits between them.

pub mod text;
pub mod entries;
pub mod json;
pub mod document;
pub mod stream;
pub mod event;
pub mod task;
pub mod kafka;
pub mod mongo;
