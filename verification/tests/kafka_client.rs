use flowgen::kafka::client::{
    apply_credentials, build_base_config, default_sasl_mechanism, BaseConfig, Client, Credentials,
    CredentialsFile, Error, SaslCredentials, SslCredentials, DEFAULT_KAFKA_BROKERS,
};
use rdkafka::config::ClientConfig;
use rdkafka::error::KafkaError;
use std::path::PathBuf;

fn login() -> SaslCredentials {
    SaslCredentials {
        username: "ada".to_string(),
        password: "lovelace".to_string(),
        mechanism: default_sasl_mechanism(),
    }
}

fn certificate() -> SslCredentials {
    SslCredentials {
        ca_location: Some(PathBuf::from("/certs/ca.pem")),
        certificate_location: Some(PathBuf::from("/certs/client.pem")),
        key_location: Some(PathBuf::from("/certs/client.key")),
        key_password: Some("sesame".to_string()),
    }
}

fn loaded(sasl: Option<SaslCredentials>, ssl: Option<SslCredentials>) -> CredentialsFile {
    CredentialsFile::Loaded(Credentials { sasl, ssl })
}

fn unreadable() -> CredentialsFile {
    CredentialsFile::Unreadable {
        source: std::io::Error::new(std::io::ErrorKind::NotFound, "not found"),
    }
}

fn malformed() -> CredentialsFile {
    let source = serde_json::from_str::<serde_json::Value>("not valid json").unwrap_err();
    CredentialsFile::Malformed { source }
}

fn path() -> PathBuf {
    PathBuf::from("/missing.json")
}

fn finished(built: BaseConfig, file: CredentialsFile) -> Result<ClientConfig, Error> {
    match built {
        BaseConfig::NeedsCredentials(pending) => {
            assert_eq!(pending.path, path());
            pending.loaded(file)
        }
        BaseConfig::Complete(_) => panic!("the credentials are not applied"),
    }
}

fn complete(built: BaseConfig) -> ClientConfig {
    match built {
        BaseConfig::Complete(config) => config,
        BaseConfig::NeedsCredentials(pending) => panic!("no credentials, got {pending:?}"),
    }
}

fn configured(file: CredentialsFile) -> Result<ClientConfig, Error> {
    finished(build_base_config(&Some(path()), "kafka:9092"), file)
}

#[test]
fn base_config_without_credentials() {
    let config = complete(build_base_config(&None, "kafka:9092"));
    assert_eq!(config.get("bootstrap.servers"), Some("kafka:9092"));
    assert_eq!(config.get("message.timeout.ms"), Some("5000"));
    assert_eq!(config.get("security.protocol"), None);
    assert_eq!(config.config_map().len(), 2);
}

#[test]
fn default_mechanism_is_scram() {
    assert_eq!(default_sasl_mechanism(), "SCRAM-SHA-256");
}

#[test]
fn login_alone_is_sasl_plaintext() {
    let config = configured(loaded(Some(login()), None)).unwrap();
    assert_eq!(config.get("sasl.mechanism"), Some("SCRAM-SHA-256"));
    assert_eq!(config.get("sasl.username"), Some("ada"));
    assert_eq!(config.get("sasl.password"), Some("lovelace"));
    assert_eq!(config.get("security.protocol"), Some("SASL_PLAINTEXT"));
    assert_eq!(config.get("ssl.ca.location"), None);
    assert_eq!(config.config_map().len(), 6);
}

#[test]
fn certificate_alone_is_ssl() {
    let config = configured(loaded(None, Some(certificate()))).unwrap();
    assert_eq!(config.get("ssl.ca.location"), Some("/certs/ca.pem"));
    assert_eq!(
        config.get("ssl.certificate.location"),
        Some("/certs/client.pem")
    );
    assert_eq!(config.get("ssl.key.location"), Some("/certs/client.key"));
    assert_eq!(config.get("ssl.key.password"), Some("sesame"));
    assert_eq!(config.get("security.protocol"), Some("SSL"));
    assert_eq!(config.get("sasl.username"), None);
    assert_eq!(config.config_map().len(), 7);
}

#[test]
fn certificate_decides_the_protocol_beside_a_login() {
    let file = loaded(Some(login()), Some(certificate()));
    let config = configured(file).unwrap();
    assert_eq!(config.get("security.protocol"), Some("SSL"));
    assert_eq!(config.get("sasl.username"), Some("ada"));
    assert_eq!(config.get("sasl.password"), Some("lovelace"));
    assert_eq!(config.get("sasl.mechanism"), Some("SCRAM-SHA-256"));
    assert_eq!(config.get("bootstrap.servers"), Some("kafka:9092"));
    assert_eq!(config.get("message.timeout.ms"), Some("5000"));
}

#[test]
fn empty_certificate_sets_the_protocol_alone() {
    let ssl = SslCredentials {
        ca_location: None,
        certificate_location: None,
        key_location: None,
        key_password: None,
    };
    let config = configured(loaded(None, Some(ssl))).unwrap();
    assert_eq!(config.get("security.protocol"), Some("SSL"));
    assert_eq!(config.config_map().len(), 3);
}

#[test]
fn empty_credentials_set_nothing() {
    let mut config = ClientConfig::new();
    config.set("client.id", "mine");
    assert!(apply_credentials(&mut config, &path(), loaded(None, None)).is_ok());
    assert_eq!(config.get("client.id"), Some("mine"));
    assert_eq!(config.config_map().len(), 1);
}

#[test]
fn credentials_leave_other_settings_alone() {
    let mut config = ClientConfig::new();
    config.set("client.id", "mine");
    config.set("security.protocol", "PLAINTEXT");
    assert!(apply_credentials(&mut config, &path(), loaded(Some(login()), None)).is_ok());
    assert_eq!(config.get("client.id"), Some("mine"));
    assert_eq!(config.get("security.protocol"), Some("SASL_PLAINTEXT"));
}

#[test]
fn unreadable_file_is_an_error_and_changes_nothing() {
    let mut config = ClientConfig::new();
    let result = apply_credentials(&mut config, &path(), unreadable());
    assert!(config.config_map().is_empty());
    let error = result.unwrap_err();
    assert_eq!(
        error.to_string(),
        "Error reading credentials file '/missing.json': not found"
    );
    match error {
        Error::ReadCredentials { path, .. } => assert_eq!(path, PathBuf::from("/missing.json")),
        other => panic!("unexpected error {other:?}"),
    }
}

#[test]
fn malformed_file_is_an_error() {
    let error = configured(malformed()).unwrap_err();
    assert!(matches!(error, Error::ParseCredentials { .. }));
    assert_eq!(
        error.to_string(),
        "Error parsing credentials file: expected ident at line 1 column 2"
    );
}

#[test]
fn new_client_is_not_connected() {
    let client: Client<u8, u8> = Client::new(
        Some(PathBuf::from("/kafka.json")),
        Some("kafka:9092".to_string()),
    );
    assert_eq!(client.credentials_path, Some(PathBuf::from("/kafka.json")));
    assert_eq!(client.brokers, Some("kafka:9092".to_string()));
    assert_eq!(client.producer, None);
    assert_eq!(client.admin_client, None);
}

#[test]
fn client_connects_to_its_brokers_or_the_default() {
    assert_eq!(DEFAULT_KAFKA_BROKERS, "localhost:9092");
    let client: Client<u8, u8> = Client::new(None, None);
    let config = complete(client.connect_config());
    assert_eq!(config.get("bootstrap.servers"), Some("localhost:9092"));

    let client: Client<u8, u8> = Client::new(None, Some("a:1,b:2".to_string()));
    let config = complete(client.connect_config());
    assert_eq!(config.get("bootstrap.servers"), Some("a:1,b:2"));
}

#[test]
fn client_with_a_path_needs_its_credentials() {
    let client: Client<u8, u8> = Client::new(Some(path()), None);
    let config = finished(client.connect_config(), loaded(Some(login()), None)).unwrap();
    assert_eq!(config.get("sasl.username"), Some("ada"));
    assert_eq!(config.get("bootstrap.servers"), Some("localhost:9092"));

    let error = finished(client.connect_config(), unreadable()).unwrap_err();
    match error {
        Error::ReadCredentials { path: named, .. } => assert_eq!(named, path()),
        other => panic!("unexpected error {other:?}"),
    }
}

#[test]
fn client_keeps_what_the_connection_makes() {
    let client: Client<u8, u16> = Client::new(None, None);
    let client = client.with_producer(Ok(7)).unwrap();
    let client = client.with_admin_client(Ok(9)).unwrap();
    assert_eq!(client.producer, Some(7));
    assert_eq!(client.admin_client, Some(9));
}

#[test]
fn client_reports_what_could_not_be_made() {
    let client: Client<u8, u8> = Client::new(None, None);
    let error = client.with_producer(Err(KafkaError::Canceled)).err().unwrap();
    assert!(matches!(error, Error::CreateProducer { .. }));
    assert_eq!(
        error.to_string(),
        format!("Error creating Kafka producer: {}", KafkaError::Canceled)
    );

    let client: Client<u8, u8> = Client::new(None, None);
    let error = client
        .with_admin_client(Err(KafkaError::Canceled))
        .err()
        .unwrap();
    assert!(matches!(error, Error::CreateAdminClient { .. }));
    assert_eq!(
        error.to_string(),
        format!("Error creating Kafka admin client: {}", KafkaError::Canceled)
    );
}

#[test]
fn client_error_messages() {
    assert_eq!(
        Error::NoCredentials.to_string(),
        "No authentication credentials provided"
    );
    assert_eq!(
        Error::MissingBuilderAttribute("brokers".to_string()).to_string(),
        "Missing required builder attribute: brokers"
    );
}
