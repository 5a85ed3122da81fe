//! The MongoDB collection processor.

pub mod collection;
pub mod config;
pub mod error;
pub mod filter;
pub mod laws;
pub mod read;
pub mod update;
pub mod upsert;
pub mod write;
