use flowgen::kafka::config::{default_brokers, Produce};
use std::path::PathBuf;

#[test]
fn test_produce_default() {
    let config = Produce::default();
    assert_eq!(config.name, String::new());
    assert_eq!(config.brokers, String::new());
    assert_eq!(config.topic, String::new());
    assert_eq!(config.credentials_path, None);
}

#[test]
fn test_produce_creation() {
    let config = Produce {
        name: "test_producer".to_string(),
        brokers: "kafka:9092".to_string(),
        topic: "test-topic".to_string(),
        message_key: Some("key-{{id}}".to_string()),
        credentials_path: Some(PathBuf::from("/path/to/kafka.creds")),
        ..Default::default()
    };
    assert_eq!(config.name, "test_producer");
    assert_eq!(config.brokers, "kafka:9092");
    assert_eq!(config.topic, "test-topic");
    assert_eq!(config.message_key, Some("key-{{id}}".to_string()));
}

#[test]
fn test_produce_clone() {
    let config = Produce {
        name: "clone_producer".to_string(),
        brokers: "clone:9092".to_string(),
        topic: "clone-topic".to_string(),
        ..Default::default()
    };
    let cloned = config.clone();
    assert_eq!(config, cloned);
}

#[test]
fn default_broker_is_local() {
    assert_eq!(default_brokers(), "localhost:9092");
}
