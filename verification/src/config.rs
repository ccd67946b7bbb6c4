//! Where the control plane keeps its records, and how it protects its listeners.

use crate::api::admission;
use crate::auth::{AuthConfig, TokensView};
use crate::duration::{Duration, NANOS_PER_MILLI};
use crate::manifest;
use crate::string_map::{self, StringMap};
use crate::text::{self, is_blank, same_text, starts_with};
use vstd::prelude::*;
use vstd::string::*;

verus! {

/// The setting for how many connections the store opens.
pub const POSTGRES_MAX_CONNECTIONS_ENV: &'static str = "SLEEPYPODS_POSTGRES_MAX_CONNECTIONS";

/// The setting for how long an operation may take.
pub const OPERATION_TIMEOUT_ENV: &'static str = "SLEEPYPODS_OPERATION_TIMEOUT_MS";

/// The setting for how long an operation waits for a connection.
pub const POSTGRES_POOL_WAIT_TIMEOUT_ENV: &'static str = "SLEEPYPODS_POSTGRES_POOL_WAIT_TIMEOUT_MS";

/// The setting for how long connecting may take.
pub const POSTGRES_CONNECTION_TIMEOUT_ENV: &'static str =
    "SLEEPYPODS_POSTGRES_CONNECTION_TIMEOUT_MS";

/// The setting for how long a statement may take.
pub const POSTGRES_STATEMENT_TIMEOUT_ENV: &'static str = "SLEEPYPODS_POSTGRES_STATEMENT_TIMEOUT_MS";

/// The setting for how long repeated requests are recognised.
pub const POSTGRES_IDEMPOTENCY_RETENTION_ENV: &'static str =
    "SLEEPYPODS_POSTGRES_IDEMPOTENCY_RETENTION_MS";

/// The file with the certificate of the listeners.
pub const TLS_CERT_FILE_ENV: &'static str = "SLEEPYPODS_CONTROL_PLANE_TLS_CERT_FILE";

/// The file with the key of the listeners.
pub const TLS_KEY_FILE_ENV: &'static str = "SLEEPYPODS_CONTROL_PLANE_TLS_KEY_FILE";

/// The address under which workloads reach the listeners.
pub const PUBLIC_ENDPOINT_ENV: &'static str = "SLEEPYPODS_CONTROL_PLANE_PUBLIC_ENDPOINT";

/// The certificate authority that workloads check the listeners against.
pub const TLS_CA_PEM_ENV: &'static str = "SLEEPYPODS_CONTROL_PLANE_TLS_CA_PEM";

/// The file with the keys that seal certificates.
pub const SEALING_KEYS_FILE_ENV: &'static str = "SLEEPYPODS_CERTIFICATE_SEALING_KEYS_FILE";

/// The most connections that the store opens.
pub const MAX_CONNECTIONS: usize = 1024;

/// The longest that an operation may take, in milliseconds: a day.
pub const MAX_TIMEOUT_MILLIS: u64 = 86_400_000;

/// The longest that repeated requests are recognised, in milliseconds: a year.
pub const MAX_IDEMPOTENCY_RETENTION_MILLIS: u64 = 31_536_000_000;

/// A store that keeps records.
#[derive(Clone, Copy, Debug, PartialEq, Eq, Structural)]
pub enum StoreProviderName {
    Postgres,
}

/// The store that a word names.
pub open spec fn named_provider(word: Seq<char>) -> Option<StoreProviderName> {
    if word == "postgres"@ {
        Some(StoreProviderName::Postgres)
    } else {
        None
    }
}

impl StoreProviderName {
    /// Reads the word for a store.
    pub fn parse(word: &str) -> (provider: Option<StoreProviderName>)
        ensures
            provider == named_provider(word@),
    {
        if same_text(word, "postgres") {
            Some(StoreProviderName::Postgres)
        } else {
            None
        }
    }
}

/// A Postgres database that keeps records.
#[derive(Clone, Debug, PartialEq, Eq)]
pub struct PostgresStoreConfig {
    pub url: String,
    pub max_connections: usize,
    pub operation_timeout: Duration,
    pub pool_wait_timeout: Duration,
    pub connection_timeout: Duration,
    pub statement_timeout: Duration,
    pub idempotency_retention: Option<Duration>,
}

/// The mathematical model of a [`PostgresStoreConfig`], with spans in nanoseconds.
#[verifier::ext_equal]
pub struct PostgresView {
    pub url: Seq<char>,
    pub max_connections: usize,
    pub operation_timeout: nat,
    pub pool_wait_timeout: nat,
    pub connection_timeout: nat,
    pub statement_timeout: nat,
    pub idempotency_retention: Option<nat>,
}

impl View for PostgresStoreConfig {
    type V = PostgresView;

    open spec fn view(&self) -> PostgresView {
        PostgresView {
            url: self.url@,
            max_connections: self.max_connections,
            operation_timeout: self.operation_timeout@,
            pool_wait_timeout: self.pool_wait_timeout@,
            connection_timeout: self.connection_timeout@,
            statement_timeout: self.statement_timeout@,
            idempotency_retention: manifest::optional_view(self.idempotency_retention),
        }
    }
}

/// So many milliseconds.
pub open spec fn millis(count: nat) -> nat {
    count * NANOS_PER_MILLI as nat
}

/// A database where nothing but its address is set.
pub open spec fn default_postgres(url: Seq<char>) -> PostgresView {
    PostgresView {
        url,
        max_connections: 16,
        operation_timeout: admission::seconds(30),
        pool_wait_timeout: admission::seconds(5),
        connection_timeout: admission::seconds(5),
        statement_timeout: admission::seconds(30),
        idempotency_retention: None,
    }
}

/// The first setting of a database that is out of its limits.
pub open spec fn setting_out_of_limits(config: PostgresView) -> Option<Seq<char>> {
    let longest = millis(MAX_TIMEOUT_MILLIS as nat);
    if !(1 <= config.max_connections <= MAX_CONNECTIONS) {
        Some(POSTGRES_MAX_CONNECTIONS_ENV@)
    } else if !(0 < config.operation_timeout <= longest) {
        Some(OPERATION_TIMEOUT_ENV@)
    } else if !(0 < config.pool_wait_timeout <= longest) {
        Some(POSTGRES_POOL_WAIT_TIMEOUT_ENV@)
    } else if !(0 < config.connection_timeout <= longest) {
        Some(POSTGRES_CONNECTION_TIMEOUT_ENV@)
    } else if !(0 < config.statement_timeout <= longest) {
        Some(POSTGRES_STATEMENT_TIMEOUT_ENV@)
    } else if config.idempotency_retention matches Some(retention) && !(0 < retention <= millis(
        MAX_IDEMPOTENCY_RETENTION_MILLIS as nat,
    )) {
        Some(POSTGRES_IDEMPOTENCY_RETENTION_ENV@)
    } else {
        None
    }
}

fn within(span: Duration, longest: Duration) -> (result: bool)
    ensures
        result == (0 < span@ <= longest@),
{
    !span.is_zero() && !span.longer_than(longest)
}

impl PostgresStoreConfig {
    /// The database at an address, if the address is not blank.
    pub fn new(url: &str) -> (config: Option<PostgresStoreConfig>)
        ensures
            match config {
                Some(config) => !text::blank(url@) && config@ == default_postgres(url@),
                None => text::blank(url@),
            },
    {
        if is_blank(url) {
            return None;
        }
        Some(
            PostgresStoreConfig {
                url: url.to_owned(),
                max_connections: 16,
                operation_timeout: Duration::from_secs(30),
                pool_wait_timeout: Duration::from_secs(5),
                connection_timeout: Duration::from_secs(5),
                statement_timeout: Duration::from_secs(30),
                idempotency_retention: None,
            },
        )
    }

    /// Checks every setting against its limits, and names the first that is out
    /// of them.
    pub fn validate_limits(&self) -> (result: Result<(), &'static str>)
        ensures
            match result {
                Ok(_) => setting_out_of_limits(self@) is None,
                Err(name) => setting_out_of_limits(self@) == Some(name@),
            },
    {
        let longest = Duration::from_millis(MAX_TIMEOUT_MILLIS);
        if self.max_connections < 1 || self.max_connections > MAX_CONNECTIONS {
            return Err(POSTGRES_MAX_CONNECTIONS_ENV);
        }
        if !within(self.operation_timeout, longest) {
            return Err(OPERATION_TIMEOUT_ENV);
        }
        if !within(self.pool_wait_timeout, longest) {
            return Err(POSTGRES_POOL_WAIT_TIMEOUT_ENV);
        }
        if !within(self.connection_timeout, longest) {
            return Err(POSTGRES_CONNECTION_TIMEOUT_ENV);
        }
        if !within(self.statement_timeout, longest) {
            return Err(POSTGRES_STATEMENT_TIMEOUT_ENV);
        }
        match self.idempotency_retention {
            Some(retention) => {
                if !within(retention, Duration::from_millis(MAX_IDEMPOTENCY_RETENTION_MILLIS)) {
                    return Err(POSTGRES_IDEMPOTENCY_RETENTION_ENV);
                }
            },
            None => {},
        }
        Ok(())
    }
}

/// Where records are kept.
#[derive(Clone, Debug, PartialEq, Eq)]
pub enum StoreProviderConfig {
    Postgres(PostgresStoreConfig),
}

impl View for StoreProviderConfig {
    type V = PostgresView;

    open spec fn view(&self) -> PostgresView {
        match self {
            StoreProviderConfig::Postgres(config) => config@,
        }
    }
}

impl StoreProviderConfig {
    /// The store.
    pub fn provider_name(&self) -> (name: StoreProviderName)
        ensures
            name == StoreProviderName::Postgres,
    {
        StoreProviderName::Postgres
    }
}

/// Where records are kept, and how callers show who they are.
#[derive(Clone, Debug, PartialEq, Eq)]
pub struct ControlPlaneConfig {
    pub store: StoreProviderConfig,
    pub auth: AuthConfig,
}

/// The mathematical model of a [`ControlPlaneConfig`].
#[verifier::ext_equal]
pub struct ControlPlaneView {
    pub store: PostgresView,
    pub auth: Option<TokensView>,
}

impl View for ControlPlaneConfig {
    type V = ControlPlaneView;

    open spec fn view(&self) -> ControlPlaneView {
        ControlPlaneView { store: self.store@, auth: self.auth@ }
    }
}

impl ControlPlaneConfig {
    /// A store, and how callers show who they are.
    pub fn new(store: StoreProviderConfig, auth: AuthConfig) -> (config: ControlPlaneConfig)
        ensures
            config.store == store,
            config.auth == auth,
    {
        ControlPlaneConfig { store, auth }
    }
}

/// How the listeners and the certificates are protected.
#[derive(Clone, Debug, PartialEq, Eq)]
pub struct RuntimeSecurityConfig {
    pub cert_file: Option<String>,
    pub key_file: Option<String>,
    pub public_endpoint: Option<String>,
    pub ca_pem: Option<String>,
    pub sealing_keys_file: Option<String>,
}

/// The mathematical model of a [`RuntimeSecurityConfig`].
#[verifier::ext_equal]
pub struct SecurityView {
    pub cert_file: Option<Seq<char>>,
    pub key_file: Option<Seq<char>>,
    pub public_endpoint: Option<Seq<char>>,
    pub ca_pem: Option<Seq<char>>,
    pub sealing_keys_file: Option<Seq<char>>,
}

impl View for RuntimeSecurityConfig {
    type V = SecurityView;

    open spec fn view(&self) -> SecurityView {
        SecurityView {
            cert_file: manifest::optional_view(self.cert_file),
            key_file: manifest::optional_view(self.key_file),
            public_endpoint: manifest::optional_view(self.public_endpoint),
            ca_pem: manifest::optional_view(self.ca_pem),
            sealing_keys_file: manifest::optional_view(self.sealing_keys_file),
        }
    }
}

/// What is set under a name, unless it is blank.
pub open spec fn set_value(values: Seq<(Seq<char>, Seq<char>)>, name: Seq<char>) -> Option<
    Seq<char>,
> {
    match string_map::entry_of(values, name) {
        Some(value) => if text::blank(value) {
            None
        } else {
            Some(value)
        },
        None => None,
    }
}

/// What is set under a name, unless it is blank.
pub fn find_value<'a>(values: &'a StringMap<String>, name: &str) -> (value: Option<&'a str>)
    ensures
        match value {
            Some(value) => set_value(values@, name@) == Some(value@) && !text::blank(value@),
            None => set_value(values@, name@) is None,
        },
{
    match values.get(name) {
        Some(value) => {
            if is_blank(value.as_str()) {
                None
            } else {
                Some(value.as_str())
            }
        },
        None => None,
    }
}

fn owned_value(values: &StringMap<String>, name: &str) -> (value: Option<String>)
    ensures
        manifest::optional_view(value) == set_value(values@, name@),
{
    match find_value(values, name) {
        Some(value) => Some(value.to_owned()),
        None => None,
    }
}

/// How the values protect the listeners and the certificates.
pub open spec fn security_of(values: Seq<(Seq<char>, Seq<char>)>) -> SecurityView {
    SecurityView {
        cert_file: set_value(values, TLS_CERT_FILE_ENV@),
        key_file: set_value(values, TLS_KEY_FILE_ENV@),
        public_endpoint: set_value(values, PUBLIC_ENDPOINT_ENV@),
        ca_pem: set_value(values, TLS_CA_PEM_ENV@),
        sealing_keys_file: set_value(values, SEALING_KEYS_FILE_ENV@),
    }
}

/// What is wrong with a protection: a certificate, its key and the address belong
/// together, the address is one of an encrypted listener, and certificates are
/// sealed only for callers that show who they are over encrypted listeners.
pub open spec fn security_fault(security: SecurityView, authenticated: bool) -> Option<Seq<char>> {
    let encrypted = security.cert_file is Some;
    if security.key_file is Some != encrypted || security.public_endpoint is Some != encrypted {
        Some("TLS certificate, key and public endpoint must be configured together"@)
    } else if security.public_endpoint matches Some(endpoint) && !text::opens_with(
        endpoint,
        "https://"@,
    ) {
        Some("public endpoint must use https"@)
    } else if security.sealing_keys_file is Some && !encrypted {
        Some("certificate delivery requires TLS"@)
    } else if security.sealing_keys_file is Some && !authenticated {
        Some("certificate delivery requires authentication"@)
    } else {
        None
    }
}

impl RuntimeSecurityConfig {
    /// Reads how the listeners and the certificates are protected.
    pub fn parse(values: &StringMap<String>, authenticated: bool) -> (result: Result<
        RuntimeSecurityConfig,
        &'static str,
    >)
        ensures
            match result {
                Ok(security) => security@ == security_of(values@) && security_fault(
                    security_of(values@),
                    authenticated,
                ) is None,
                Err(reason) => security_fault(security_of(values@), authenticated) == Some(
                    reason@,
                ),
            },
    {
        let security = RuntimeSecurityConfig {
            cert_file: owned_value(values, TLS_CERT_FILE_ENV),
            key_file: owned_value(values, TLS_KEY_FILE_ENV),
            public_endpoint: owned_value(values, PUBLIC_ENDPOINT_ENV),
            ca_pem: owned_value(values, TLS_CA_PEM_ENV),
            sealing_keys_file: owned_value(values, SEALING_KEYS_FILE_ENV),
        };
        let encrypted = security.cert_file.is_some();
        if security.key_file.is_some() != encrypted || security.public_endpoint.is_some()
            != encrypted {
            return Err("TLS certificate, key and public endpoint must be configured together");
        }
        match &security.public_endpoint {
            Some(endpoint) => {
                if !starts_with(endpoint.as_str(), "https://") {
                    return Err("public endpoint must use https");
                }
            },
            None => {},
        }
        if security.sealing_keys_file.is_some() && !encrypted {
            return Err("certificate delivery requires TLS");
        }
        if security.sealing_keys_file.is_some() && !authenticated {
            return Err("certificate delivery requires authentication");
        }
        Ok(security)
    }
}

} // verus!
