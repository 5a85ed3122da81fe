//! The Kafka client: credentials, settings and connection.

use crate::text::{behind, path_text, path_to_string, wraps_message};
use rdkafka::config::ClientConfig;
use rdkafka::error::KafkaError;
use serde_json::Error as JsonError;
use std::io::Error as IoError;
use std::path::PathBuf;
use vstd::prelude::*;

verus! {

#[verifier::external_type_specification]
#[verifier::external_body]
pub struct ExClientConfig(rdkafka::config::ClientConfig);

#[verifier::external_type_specification]
#[verifier::external_body]
pub struct ExKafkaError(rdkafka::error::KafkaError);

/// The brokers of a client that is given none.
pub const DEFAULT_KAFKA_BROKERS: &'static str = "localhost:9092";

/// How a client proves who it is.
#[derive(Debug, Clone, PartialEq, Default)]
pub struct Credentials {
    pub sasl: Option<SaslCredentials>,
    pub ssl: Option<SslCredentials>,
}

/// A name and a password.
#[derive(Debug, Clone, PartialEq)]
pub struct SaslCredentials {
    pub username: String,
    pub password: String,
    pub mechanism: String,
}

/// The mechanism of credentials that name none.
pub fn default_sasl_mechanism() -> (mechanism: String)
    ensures
        mechanism@ == "SCRAM-SHA-256"@,
{
    "SCRAM-SHA-256".to_string()
}

/// Certificates and keys.
#[derive(Debug, Clone, PartialEq)]
pub struct SslCredentials {
    pub ca_location: Option<PathBuf>,
    pub certificate_location: Option<PathBuf>,
    pub key_location: Option<PathBuf>,
    pub key_password: Option<String>,
}

/// What can go wrong in making a client.
#[allow(inconsistent_fields)]
#[derive(Debug)]
#[non_exhaustive]
pub enum Error {
    ReadCredentials { path: PathBuf, source: IoError },
    ParseCredentials { source: JsonError },
    CreateProducer { source: KafkaError },
    CreateAdminClient { source: KafkaError },
    NoCredentials,
    MissingBuilderAttribute(String),
}

/// What became of a credentials file that was to be read.
#[allow(inconsistent_fields)]
#[derive(Debug)]
pub enum CredentialsFile {
    Unreadable { source: IoError },
    Malformed { source: JsonError },
    Loaded(Credentials),
}

/// A configuration whose credentials are still to be applied: next the file at
/// `path` is read.
#[derive(Debug)]
pub struct PendingConfig {
    pub config: ClientConfig,
    pub path: PathBuf,
}

/// A base configuration.
#[derive(Debug)]
pub enum BaseConfig {
    /// There are no credentials to apply.
    Complete(ClientConfig),
    NeedsCredentials(PendingConfig),
}

/// A client before and after it is connected. `P` is the producer and `A` the
/// admin client that the connection makes.
pub struct Client<P, A> {
    pub credentials_path: Option<PathBuf>,
    pub brokers: Option<String>,
    pub producer: Option<P>,
    pub admin_client: Option<A>,
}

/// What `rdkafka::config::ClientConfig` holds: its parameters.
pub uninterp spec fn client_settings(config: ClientConfig) -> Map<Seq<char>, Seq<char>>;

/// `rdkafka::config::ClientConfig::new`: no parameter is set.
#[verifier::external_body]
pub(crate) fn client_config_new() -> (config: ClientConfig)
    ensures
        (client_settings(config) == Map::<Seq<char>, Seq<char>>::empty()),
{
    ClientConfig::new()
}

/// `rdkafka::config::ClientConfig::set`: sets one parameter, in place of any
/// earlier value.
#[verifier::external_body]
pub(crate) fn client_config_set(config: &mut ClientConfig, key: &str, value: &str)
    ensures
        client_settings(*final(config)) == client_settings(*old(config)).insert(key@, value@),
{
    config.set(key, value);
}

/// Whether `text` is the message of `error`.
pub open spec fn is_message(error: Error, text: Seq<char>) -> bool {
    match error {
        Error::ReadCredentials { path, source } => wraps_message(
            text,
            "Error reading credentials file '"@ + path_text(path) + "': "@,
            &source,
        ),
        Error::ParseCredentials { source } => wraps_message(
            text,
            "Error parsing credentials file: "@,
            &source,
        ),
        Error::CreateProducer { source } => wraps_message(
            text,
            "Error creating Kafka producer: "@,
            &source,
        ),
        Error::CreateAdminClient { source } => wraps_message(
            text,
            "Error creating Kafka admin client: "@,
            &source,
        ),
        Error::NoCredentials => text == "No authentication credentials provided"@,
        Error::MissingBuilderAttribute(name) => text == "Missing required builder attribute: "@
            + name@,
    }
}

impl Error {
    /// The message of this error.
    pub fn to_string(&self) -> (text: String)
        ensures
            is_message(*self, text@),
    {
        match self {
            Error::ReadCredentials { path, source } => {
                let named = behind("Error reading credentials file '", path_to_string(path)).concat(
                    "': ",
                );
                behind(named.as_str(), source.to_string())
            },
            Error::ParseCredentials { source } => behind(
                "Error parsing credentials file: ",
                source.to_string(),
            ),
            Error::CreateProducer { source } => behind(
                "Error creating Kafka producer: ",
                source.to_string(),
            ),
            Error::CreateAdminClient { source } => behind(
                "Error creating Kafka admin client: ",
                source.to_string(),
            ),
            Error::NoCredentials => "No authentication credentials provided".to_string(),
            Error::MissingBuilderAttribute(name) => behind(
                "Missing required builder attribute: ",
                name.clone(),
            ),
        }
    }
}

/// The settings after one that may be missing.
pub open spec fn with_optional(
    settings: Map<Seq<char>, Seq<char>>,
    key: Seq<char>,
    value: Option<Seq<char>>,
) -> Map<Seq<char>, Seq<char>> {
    match value {
        Some(value) => settings.insert(key, value),
        None => settings,
    }
}

/// The settings of a login by name and password.
pub open spec fn with_sasl(
    settings: Map<Seq<char>, Seq<char>>,
    sasl: SaslCredentials,
) -> Map<Seq<char>, Seq<char>> {
    settings.insert("sasl.mechanism"@, sasl.mechanism@).insert(
        "sasl.username"@,
        sasl.username@,
    ).insert("sasl.password"@, sasl.password@).insert("security.protocol"@, "SASL_PLAINTEXT"@)
}

/// The text of a path that may be missing.
pub open spec fn optional_path_text(path: Option<PathBuf>) -> Option<Seq<char>> {
    match path {
        Some(path) => Some(path_text(path)),
        None => None,
    }
}

/// The settings of a login by certificate.
pub open spec fn with_ssl(
    settings: Map<Seq<char>, Seq<char>>,
    ssl: SslCredentials,
) -> Map<Seq<char>, Seq<char>> {
    let ca = with_optional(
        settings,
        "ssl.ca.location"@,
        optional_path_text(ssl.ca_location),
    );
    let certificate = with_optional(
        ca,
        "ssl.certificate.location"@,
        optional_path_text(ssl.certificate_location),
    );
    let key = with_optional(
        certificate,
        "ssl.key.location"@,
        optional_path_text(ssl.key_location),
    );
    let password = with_optional(
        key,
        "ssl.key.password"@,
        match ssl.key_password {
            Some(password) => Some(password@),
            None => None,
        },
    );
    password.insert("security.protocol"@, "SSL"@)
}

/// The settings with credentials applied: the name and password first, then the
/// certificate.
pub open spec fn with_credentials(
    settings: Map<Seq<char>, Seq<char>>,
    credentials: Credentials,
) -> Map<Seq<char>, Seq<char>> {
    let named = match credentials.sasl {
        Some(sasl) => with_sasl(settings, sasl),
        None => settings,
    };
    match credentials.ssl {
        Some(ssl) => with_ssl(named, ssl),
        None => named,
    }
}

/// The settings of a client without credentials.
pub open spec fn base_settings(brokers: Seq<char>) -> Map<Seq<char>, Seq<char>> {
    Map::<Seq<char>, Seq<char>>::empty().insert("bootstrap.servers"@, brokers).insert(
        "message.timeout.ms"@,
        "5000"@,
    )
}

/// The error of a credentials file at `path` that gave no credentials.
pub open spec fn is_load_error(path: PathBuf, file: CredentialsFile, error: Error) -> bool {
    match file {
        CredentialsFile::Unreadable { source } => error == (Error::ReadCredentials {
            path,
            source,
        }),
        CredentialsFile::Malformed { source } => error == (Error::ParseCredentials { source }),
        CredentialsFile::Loaded(_) => false,
    }
}

/// Applies SASL/SSL credentials to a `ClientConfig`. `file` is what became of the
/// credentials file at `path`. One that gave no credentials is an error, and
/// leaves the settings as they were.
pub fn apply_credentials(
    config: &mut ClientConfig,
    path: &PathBuf,
    file: CredentialsFile,
) -> (applied: Result<(), Error>)
    ensures
        match applied {
            Ok(_) => file matches CredentialsFile::Loaded(credentials) && client_settings(
                *final(config),
            ) == with_credentials(client_settings(*old(config)), credentials),
            Err(error) => is_load_error(*path, file, error) && client_settings(*final(config))
                == client_settings(*old(config)),
        },
{
    let credentials = match file {
        CredentialsFile::Unreadable { source } => {
            return Err(Error::ReadCredentials { path: path.clone(), source });
        },
        CredentialsFile::Malformed { source } => {
            return Err(Error::ParseCredentials { source });
        },
        CredentialsFile::Loaded(credentials) => credentials,
    };
    if let Some(sasl) = &credentials.sasl {
        client_config_set(config, "sasl.mechanism", sasl.mechanism.as_str());
        client_config_set(config, "sasl.username", sasl.username.as_str());
        client_config_set(config, "sasl.password", sasl.password.as_str());
        client_config_set(config, "security.protocol", "SASL_PLAINTEXT");
    }
    if let Some(ssl) = &credentials.ssl {
        if let Some(ca) = &ssl.ca_location {
            client_config_set(config, "ssl.ca.location", path_to_string(ca).as_str());
        }
        if let Some(certificate) = &ssl.certificate_location {
            client_config_set(
                config,
                "ssl.certificate.location",
                path_to_string(certificate).as_str(),
            );
        }
        if let Some(key) = &ssl.key_location {
            client_config_set(config, "ssl.key.location", path_to_string(key).as_str());
        }
        if let Some(password) = &ssl.key_password {
            client_config_set(config, "ssl.key.password", password.as_str());
        }
        client_config_set(config, "security.protocol", "SSL");
    }
    Ok(())
}

/// Whether `built` is the base configuration for these brokers: credentials are
/// still to be applied exactly where there is a path to read them from.
pub open spec fn is_base_config(
    credentials_path: Option<PathBuf>,
    brokers: Seq<char>,
    built: BaseConfig,
) -> bool {
    match credentials_path {
        None => built matches BaseConfig::Complete(config) && client_settings(config)
            == base_settings(brokers),
        Some(path) => built matches BaseConfig::NeedsCredentials(pending) && pending.path == path
            && client_settings(pending.config) == base_settings(brokers),
    }
}

/// Builds a base `ClientConfig` from the broker string and the optional
/// credentials path.
pub fn build_base_config(credentials_path: &Option<PathBuf>, brokers: &str) -> (built: BaseConfig)
    ensures
        is_base_config(*credentials_path, brokers@, built),
{
    let mut config = client_config_new();
    client_config_set(&mut config, "bootstrap.servers", brokers);
    client_config_set(&mut config, "message.timeout.ms", "5000");
    match credentials_path {
        Some(path) => BaseConfig::NeedsCredentials(PendingConfig { config, path: path.clone() }),
        None => BaseConfig::Complete(config),
    }
}

impl PendingConfig {
    /// Whether `finished` is this configuration with the credentials of its file.
    pub open spec fn finishes(
        self,
        file: CredentialsFile,
        finished: Result<ClientConfig, Error>,
    ) -> bool {
        match file {
            CredentialsFile::Loaded(credentials) => finished matches Ok(config) && client_settings(
                config,
            ) == with_credentials(client_settings(self.config), credentials),
            _ => finished matches Err(error) && is_load_error(self.path, file, error),
        }
    }

    /// Goes on with what became of the credentials file.
    pub fn loaded(self, file: CredentialsFile) -> (finished: Result<ClientConfig, Error>)
        ensures
            self.finishes(file, finished),
    {
        let mut config = self.config;
        match apply_credentials(&mut config, &self.path, file) {
            Ok(_) => Ok(config),
            Err(error) => Err(error),
        }
    }
}

impl<P, A> Client<P, A> {
    /// A client that is not connected.
    pub fn new(credentials_path: Option<PathBuf>, brokers: Option<String>) -> (client: Self)
        ensures
            client == (Client::<P, A> {
                credentials_path,
                brokers,
                producer: None,
                admin_client: None,
            }),
    {
        Client { credentials_path, brokers, producer: None, admin_client: None }
    }

    /// The brokers that the client connects to.
    pub open spec fn connects_to(self) -> Seq<char> {
        match self.brokers {
            Some(brokers) => brokers@,
            None => DEFAULT_KAFKA_BROKERS@,
        }
    }

    /// First step of connecting: the base configuration of the client. Where it
    /// still needs its credentials, these come next; then the producer and the
    /// admin client are made with it.
    pub fn connect_config(&self) -> (built: BaseConfig)
        ensures
            is_base_config(self.credentials_path, self.connects_to(), built),
    {
        let brokers = match &self.brokers {
            Some(brokers) => brokers.clone(),
            None => DEFAULT_KAFKA_BROKERS.to_string(),
        };
        build_base_config(&self.credentials_path, brokers.as_str())
    }

    /// Second step of connecting: the producer, where it could be made.
    pub fn with_producer(self, created: Result<P, KafkaError>) -> (client: Result<Self, Error>)
        ensures
            match created {
                Ok(producer) => client == Ok::<Self, Error>(
                    (Client { producer: Some(producer), ..self }),
                ),
                Err(source) => client == Err::<Self, Error>((Error::CreateProducer { source })),
            },
    {
        match created {
            Ok(producer) => Ok(Client { producer: Some(producer), ..self }),
            Err(source) => Err(Error::CreateProducer { source }),
        }
    }

    /// Last step of connecting: the admin client, where it could be made.
    pub fn with_admin_client(self, created: Result<A, KafkaError>) -> (client: Result<Self, Error>)
        ensures
            match created {
                Ok(admin_client) => client == Ok::<Self, Error>(
                    (Client { admin_client: Some(admin_client), ..self }),
                ),
                Err(source) => client == Err::<Self, Error>((Error::CreateAdminClient { source })),
            },
    {
        match created {
            Ok(admin_client) => Ok(Client { admin_client: Some(admin_client), ..self }),
            Err(source) => Err(Error::CreateAdminClient { source }),
        }
    }
}

/// A parameter that credentials set.
pub open spec fn is_credential_key(key: Seq<char>) -> bool {
    ||| key == "sasl.mechanism"@
    ||| key == "sasl.username"@
    ||| key == "sasl.password"@
    ||| key == "ssl.ca.location"@
    ||| key == "ssl.certificate.location"@
    ||| key == "ssl.key.location"@
    ||| key == "ssl.key.password"@
    ||| key == "security.protocol"@
}

/// The parameter `key` has the value `value`.
pub open spec fn has_setting(
    settings: Map<Seq<char>, Seq<char>>,
    key: Seq<char>,
    value: Seq<char>,
) -> bool {
    settings.dom().contains(key) && settings[key] == value
}

/// A client with a credentials path never connects without its credentials: the
/// configuration that it goes on with has them applied over the base settings.
/// A client without one has the base settings alone.
pub proof fn law_credentials_are_applied(
    credentials_path: Option<PathBuf>,
    brokers: Seq<char>,
    built: BaseConfig,
    file: CredentialsFile,
    config: ClientConfig,
)
    requires
        is_base_config(credentials_path, brokers, built),
        match built {
            BaseConfig::Complete(complete) => config == complete,
            BaseConfig::NeedsCredentials(pending) => pending.finishes(file, Ok(config)),
        },
    ensures
        match credentials_path {
            Some(_) => file matches CredentialsFile::Loaded(credentials) && client_settings(config)
                == with_credentials(base_settings(brokers), credentials),
            None => client_settings(config) == base_settings(brokers),
        },
{
}

/// Credentials touch no parameter but their own.
pub proof fn law_credentials_touch_their_own_settings(
    settings: Map<Seq<char>, Seq<char>>,
    credentials: Credentials,
    key: Seq<char>,
)
    requires
        !is_credential_key(key),
    ensures
        with_credentials(settings, credentials).dom().contains(key) == settings.dom().contains(key),
        settings.dom().contains(key) ==> with_credentials(settings, credentials)[key]
            == settings[key],
{
}

/// A client always has its brokers and its timeout set, whatever its
/// credentials.
pub proof fn law_base_settings_survive(brokers: Seq<char>, credentials: Credentials)
    ensures
        has_setting(
            with_credentials(base_settings(brokers), credentials),
            "bootstrap.servers"@,
            brokers,
        ),
        has_setting(
            with_credentials(base_settings(brokers), credentials),
            "message.timeout.ms"@,
            "5000"@,
        ),
{
    lemma_setting_names();
    law_credentials_touch_their_own_settings(
        base_settings(brokers),
        credentials,
        "bootstrap.servers"@,
    );
    law_credentials_touch_their_own_settings(
        base_settings(brokers),
        credentials,
        "message.timeout.ms"@,
    );
}

/// A certificate decides the protocol: with one it is `SSL`, also beside a name
/// and a password; with a name and a password alone it is `SASL_PLAINTEXT`; and
/// without either nothing is set.
pub proof fn law_protocol_of_credentials(
    settings: Map<Seq<char>, Seq<char>>,
    credentials: Credentials,
)
    ensures
        credentials.ssl is Some ==> has_setting(
            with_credentials(settings, credentials),
            "security.protocol"@,
            "SSL"@,
        ),
        credentials.ssl is None && credentials.sasl is Some ==> has_setting(
            with_credentials(settings, credentials),
            "security.protocol"@,
            "SASL_PLAINTEXT"@,
        ),
        credentials.ssl is None && credentials.sasl is None ==> with_credentials(
            settings,
            credentials,
        ) == settings,
{
}

/// A name and a password reach the client as they stand in the credentials, also
/// beside a certificate.
pub proof fn law_login_reaches_client(
    settings: Map<Seq<char>, Seq<char>>,
    credentials: Credentials,
)
    ensures
        credentials.sasl matches Some(sasl) ==> {
            let applied = with_credentials(settings, credentials);
            &&& has_setting(applied, "sasl.mechanism"@, sasl.mechanism@)
            &&& has_setting(applied, "sasl.username"@, sasl.username@)
            &&& has_setting(applied, "sasl.password"@, sasl.password@)
        },
{
    lemma_setting_names();
}

/// The names of the parameters differ, the most of them in their second letter.
proof fn lemma_setting_names()
    ensures
        !is_credential_key("bootstrap.servers"@),
        !is_credential_key("message.timeout.ms"@),
        "bootstrap.servers"@ != "message.timeout.ms"@,
        "sasl.mechanism"@ != "sasl.username"@,
        "sasl.mechanism"@ != "sasl.password"@,
        "sasl.username"@ != "sasl.password"@,
        "sasl.mechanism"@[1] == 'a',
        "sasl.username"@[1] == 'a',
        "sasl.password"@[1] == 'a',
        "ssl.ca.location"@[1] == 's',
        "ssl.certificate.location"@[1] == 's',
        "ssl.key.location"@[1] == 's',
        "ssl.key.password"@[1] == 's',
        "security.protocol"@[1] == 'e',
{
    reveal_strlit("bootstrap.servers");
    reveal_strlit("message.timeout.ms");
    reveal_strlit("sasl.mechanism");
    reveal_strlit("sasl.username");
    reveal_strlit("sasl.password");
    reveal_strlit("ssl.ca.location");
    reveal_strlit("ssl.certificate.location");
    reveal_strlit("ssl.key.location");
    reveal_strlit("ssl.key.password");
    reveal_strlit("security.protocol");
    assert("bootstrap.servers"@[0] == 'b' && "message.timeout.ms"@[0] == 'm');
    assert("sasl.mechanism"@[0] == 's' && "sasl.username"@[0] == 's' && "sasl.password"@[0] == 's');
    assert("sasl.mechanism"@[1] == 'a' && "sasl.username"@[1] == 'a' && "sasl.password"@[1] == 'a');
    assert("sasl.mechanism"@[5] == 'm' && "sasl.username"@[5] == 'u' && "sasl.password"@[5] == 'p');
    assert("ssl.ca.location"@[0] == 's' && "ssl.ca.location"@[1] == 's');
    assert("ssl.certificate.location"@[0] == 's' && "ssl.certificate.location"@[1] == 's');
    assert("ssl.key.location"@[0] == 's' && "ssl.key.location"@[1] == 's');
    assert("ssl.key.password"@[0] == 's' && "ssl.key.password"@[1] == 's');
    assert("security.protocol"@[0] == 's' && "security.protocol"@[1] == 'e');
}

} // verus!
