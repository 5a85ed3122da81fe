//! Configuration of the collection processor.

use serde_json::Value;
use std::path::PathBuf;
use vstd::prelude::*;

verus! {

/// What a processor does with its collection.
#[derive(Debug, Clone, Copy, PartialEq, Eq, Structural)]
pub enum Operation {
    Read,
    Write,
    Upsert,
}

/// What a collection processor is configured with.
#[derive(Debug, PartialEq)]
pub struct Collection {
    pub name: String,
    pub operation: Operation,
    pub db_name: String,
    pub collection_name: String,
    pub filter: serde_json::Map<String, Value>,
    pub credentials_path: Option<PathBuf>,
    pub depends_on: Option<Vec<String>>,
}

} // verus!
