//! Configuration of the producer.

use std::path::PathBuf;
use std::time::Duration;
use vstd::prelude::*;

verus! {

/// The broker list of a configuration that names none.
pub fn default_brokers() -> (brokers: String)
    ensures
        brokers@ == "localhost:9092"@,
{
    "localhost:9092".to_string()
}

/// What a producer task is configured with.
#[derive(PartialEq, Clone, Debug)]
pub struct Produce {
    pub name: String,
    pub credentials_path: Option<PathBuf>,
    pub brokers: String,
    pub topic: String,
    pub message_key: Option<String>,
    pub ack_timeout: Option<Duration>,
    pub depends_on: Option<Vec<String>>,
}

impl Default for Produce {
    fn default() -> (config: Self)
        ensures
            config.name@ == Seq::<char>::empty(),
            config.credentials_path is None,
            config.brokers@ == Seq::<char>::empty(),
            config.topic@ == Seq::<char>::empty(),
            config.message_key is None,
            config.ack_timeout is None,
            config.depends_on is None,
    {
        Produce {
            name: String::new(),
            credentials_path: None,
            brokers: String::new(),
            topic: String::new(),
            message_key: None,
            ack_timeout: None,
            depends_on: None,
        }
    }
}

} // verus!
