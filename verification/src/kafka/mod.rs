//! The Kafka producer.

pub mod client;
pub mod config;
pub mod laws;
pub mod produce;
