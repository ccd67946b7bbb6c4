//! How the control plane is set up from its environment, and how its tasks live
//! and end.

use crate::api::admission::{self, ApiLimits, ApiLimitsView};
use crate::auth::{self, AuthConfig, InvalidStaticBearerTokens, StaticBearerTokens, TokensView};
use crate::config::{
    self, find_value, ControlPlaneConfig, ControlPlaneView, PostgresStoreConfig, PostgresView,
    RuntimeSecurityConfig, SecurityView, StoreProviderConfig, StoreProviderName,
    OPERATION_TIMEOUT_ENV, POSTGRES_CONNECTION_TIMEOUT_ENV, POSTGRES_IDEMPOTENCY_RETENTION_ENV,
    POSTGRES_MAX_CONNECTIONS_ENV, POSTGRES_POOL_WAIT_TIMEOUT_ENV, POSTGRES_STATEMENT_TIMEOUT_ENV,
};
use crate::duration::Duration;
use crate::materializer::KubernetesMaterializer;
use crate::net::{self, parse_socket, SocketAddr};
use crate::string_map::{self, StringMap};
use crate::target::{self, InvalidMaterializationTarget, MaterializationTarget, TargetView};
use crate::text::{self, parse_u64, quoted, same_text, to_ascii_small, trim};
use vstd::prelude::*;
use vstd::string::*;

verus! {

/// Carries the proxy and sidecar services, which in-cluster workloads reach.
pub const CONTROL_PLANE_LISTEN_ADDR_ENV: &'static str = "SLEEPYPODS_CONTROL_PLANE_LISTEN_ADDR";

/// Carries the operator service alone, on a listener that a workload has no reason
/// to reach. Keeping the two apart lets a NetworkPolicy separate them.
pub const OPERATOR_LISTEN_ADDR_ENV: &'static str = "SLEEPYPODS_CONTROL_PLANE_OPERATOR_LISTEN_ADDR";

/// Carries the operator service for browsers.
pub const OPERATOR_GRPC_WEB_LISTEN_ADDR_ENV: &'static str =
    "SLEEPYPODS_OPERATOR_GRPC_WEB_LISTEN_ADDR";

/// Names the store.
pub const STORE_PROVIDER_ENV: &'static str = "SLEEPYPODS_STORE_PROVIDER";

/// Where the Postgres database is.
pub const POSTGRES_URL_ENV: &'static str = "SLEEPYPODS_POSTGRES_URL";

/// The cluster that workloads run in.
pub const CLUSTER_ID_ENV: &'static str = "SLEEPYPODS_CLUSTER_ID";

/// The namespace that workloads run in.
pub const NAMESPACE_ENV: &'static str = "SLEEPYPODS_NAMESPACE";

/// How callers show who they are.
pub const AUTH_MODE_ENV: &'static str = "SLEEPYPODS_CONTROL_PLANE_AUTH_MODE";

/// The token of operators.
pub const AUTH_OPERATOR_TOKEN_ENV: &'static str = "SLEEPYPODS_CONTROL_PLANE_OPERATOR_TOKEN";

/// The token of proxies.
pub const AUTH_PROXY_TOKEN_ENV: &'static str = "SLEEPYPODS_CONTROL_PLANE_PROXY_TOKEN";

/// The token of sidecars.
pub const AUTH_SIDECAR_TOKEN_ENV: &'static str = "SLEEPYPODS_CONTROL_PLANE_SIDECAR_TOKEN";

/// Carries metrics.
pub const METRICS_LISTEN_ADDR_ENV: &'static str = "SLEEPYPODS_CONTROL_PLANE_METRICS_LISTEN_ADDR";

/// How many sockets are accepted at once.
pub const MAX_CONNECTIONS_ENV: &'static str = "SLEEPYPODS_CONTROL_PLANE_MAX_CONNECTIONS";

/// How many calls run at once.
pub const MAX_RPCS_ENV: &'static str = "SLEEPYPODS_CONTROL_PLANE_MAX_RPCS";

/// How many proxies subscribe at once.
pub const MAX_SUBSCRIPTION_STREAMS_ENV: &'static str =
    "SLEEPYPODS_CONTROL_PLANE_MAX_SUBSCRIPTION_STREAMS";

/// How many answers one proxy relies on at once.
pub const MAX_SUBSCRIPTIONS_PER_STREAM_ENV: &'static str =
    "SLEEPYPODS_CONTROL_PLANE_MAX_SUBSCRIPTIONS_PER_STREAM";

/// How long delivering an answer may take.
pub const UNARY_DELIVERY_TIMEOUT_ENV: &'static str =
    "SLEEPYPODS_CONTROL_PLANE_UNARY_DELIVERY_TIMEOUT_MS";

/// How long setting a connection up may take.
pub const SETUP_TIMEOUT_ENV: &'static str = "SLEEPYPODS_CONTROL_PLANE_SETUP_TIMEOUT_MS";

/// How long writing to a connection may take.
pub const WRITE_TIMEOUT_ENV: &'static str = "SLEEPYPODS_CONTROL_PLANE_WRITE_TIMEOUT_MS";

/// How long looking a route up may take.
pub const LOOKUP_TIMEOUT_ENV: &'static str = "SLEEPYPODS_CONTROL_PLANE_LOOKUP_TIMEOUT_MS";

/// How long a proxy may take to receive an answer.
pub const RESPONSE_TIMEOUT_ENV: &'static str = "SLEEPYPODS_CONTROL_PLANE_RESPONSE_TIMEOUT_MS";

/// How long a subscription stream lives.
pub const SUBSCRIPTION_LIFETIME_ENV: &'static str =
    "SLEEPYPODS_CONTROL_PLANE_SUBSCRIPTION_LIFETIME_MS";

/// How long a proxy keeps where a route leads.
pub const POSITIVE_ROUTE_CACHE_TTL_ENV: &'static str =
    "SLEEPYPODS_CONTROL_PLANE_POSITIVE_ROUTE_CACHE_TTL_MS";

/// The longest that a single request may take, in milliseconds.
pub const REQUEST_TIMEOUT_CAP: u64 = 60_000;

/// The longest that a stream lives or an answer is kept, in milliseconds. Both
/// span many requests, so they reach past the cap on a single one.
pub const STREAM_LIFETIME_CAP: u64 = 600_000;

// ---------------------------------------------------------------------------
// The configuration
// ---------------------------------------------------------------------------
/// What the control plane runs with.
#[derive(Clone, Debug, PartialEq, Eq)]
pub struct RuntimeConfig {
    pub listen_addr: SocketAddr,
    pub operator_listen_addr: SocketAddr,
    pub operator_grpc_web_listen_addr: Option<SocketAddr>,
    pub metrics_listen_addr: Option<SocketAddr>,
    pub control_plane: ControlPlaneConfig,
    pub target: MaterializationTarget,
    pub api_limits: ApiLimits,
    pub security: RuntimeSecurityConfig,
}

/// The mathematical model of a [`RuntimeConfig`].
#[verifier::ext_equal]
pub struct RuntimeView {
    pub listen_addr: SocketAddr,
    pub operator_listen_addr: SocketAddr,
    pub operator_grpc_web_listen_addr: Option<SocketAddr>,
    pub metrics_listen_addr: Option<SocketAddr>,
    pub control_plane: ControlPlaneView,
    pub target: TargetView,
    pub api_limits: ApiLimitsView,
    pub security: SecurityView,
}

impl View for RuntimeConfig {
    type V = RuntimeView;

    open spec fn view(&self) -> RuntimeView {
        RuntimeView {
            listen_addr: self.listen_addr,
            operator_listen_addr: self.operator_listen_addr,
            operator_grpc_web_listen_addr: self.operator_grpc_web_listen_addr,
            metrics_listen_addr: self.metrics_listen_addr,
            control_plane: self.control_plane@,
            target: self.target@,
            api_limits: self.api_limits@,
            security: self.security@,
        }
    }
}

/// Why the control plane cannot run.
#[allow(inconsistent_fields)]
#[derive(Clone, Debug, PartialEq, Eq)]
pub enum RuntimeConfigError {
    InvalidSecurity(&'static str),
    MissingEnv { name: &'static str },
    InvalidListenAddr { name: &'static str, value: String },
    InvalidStoreProvider { value: String },
    /// The address of the database is blank.
    InvalidPostgresConfig,
    InvalidPostgresSetting { name: &'static str },
    InvalidMaterializationTarget(InvalidMaterializationTarget),
    InvalidAuthMode { value: String },
    InvalidAuthConfig(InvalidStaticBearerTokens),
}

/// The mathematical model of a [`RuntimeConfigError`].
#[allow(inconsistent_fields)]
#[verifier::ext_equal]
pub enum RuntimeErrorView {
    InvalidSecurity(Seq<char>),
    MissingEnv { name: Seq<char> },
    InvalidListenAddr { name: Seq<char>, value: Seq<char> },
    InvalidStoreProvider { value: Seq<char> },
    InvalidPostgresConfig,
    InvalidPostgresSetting { name: Seq<char> },
    InvalidMaterializationTarget(Seq<char>),
    InvalidAuthMode { value: Seq<char> },
    InvalidAuthConfig(InvalidStaticBearerTokens),
}

impl View for RuntimeConfigError {
    type V = RuntimeErrorView;

    open spec fn view(&self) -> RuntimeErrorView {
        match self {
            RuntimeConfigError::InvalidSecurity(reason) => RuntimeErrorView::InvalidSecurity(
                reason@,
            ),
            RuntimeConfigError::MissingEnv { name } => RuntimeErrorView::MissingEnv {
                name: name@,
            },
            RuntimeConfigError::InvalidListenAddr { name, value } => {
                RuntimeErrorView::InvalidListenAddr { name: name@, value: value@ }
            },
            RuntimeConfigError::InvalidStoreProvider { value } => {
                RuntimeErrorView::InvalidStoreProvider { value: value@ }
            },
            RuntimeConfigError::InvalidPostgresConfig => RuntimeErrorView::InvalidPostgresConfig,
            RuntimeConfigError::InvalidPostgresSetting { name } => {
                RuntimeErrorView::InvalidPostgresSetting { name: name@ }
            },
            RuntimeConfigError::InvalidMaterializationTarget(source) => {
                RuntimeErrorView::InvalidMaterializationTarget(source.field@)
            },
            RuntimeConfigError::InvalidAuthMode { value } => RuntimeErrorView::InvalidAuthMode {
                value: value@,
            },
            RuntimeConfigError::InvalidAuthConfig(source) => RuntimeErrorView::InvalidAuthConfig(
                *source,
            ),
        }
    }
}

/// The sentence that tells an operator why the control plane cannot run.
pub open spec fn runtime_error_text(error: RuntimeErrorView) -> Seq<char> {
    match error {
        RuntimeErrorView::InvalidSecurity(reason) => reason,
        RuntimeErrorView::MissingEnv { name } => name + " is required"@,
        RuntimeErrorView::InvalidListenAddr { name, value } => name + " value "@
            + text::quoted_text(value)
            + " is not a valid listen address: invalid socket address syntax"@,
        RuntimeErrorView::InvalidStoreProvider { value } => STORE_PROVIDER_ENV@ + " value "@
            + text::quoted_text(value) + " is not supported"@,
        RuntimeErrorView::InvalidPostgresConfig => "Postgres URL must not be empty"@,
        RuntimeErrorView::InvalidPostgresSetting { name } => name
            + " must be a positive integer within the documented Postgres setting limits"@,
        RuntimeErrorView::InvalidMaterializationTarget(field) => field + " must not be empty"@,
        RuntimeErrorView::InvalidAuthMode { value } => AUTH_MODE_ENV@ + " value "@
            + text::quoted_text(value) + " is not supported"@,
        RuntimeErrorView::InvalidAuthConfig(InvalidStaticBearerTokens::InvalidToken { role }) => {
            auth::role_word(role) + " bearer token must be visible ASCII"@
        },
        RuntimeErrorView::InvalidAuthConfig(
            InvalidStaticBearerTokens::DuplicateToken { first, second },
        ) => auth::role_word(first) + " and "@ + auth::role_word(second)
            + " bearer tokens must differ"@,
    }
}

impl RuntimeConfigError {
    /// The sentence that tells an operator why the control plane cannot run.
    pub fn to_text(&self) -> (sentence: String)
        ensures
            sentence@ == runtime_error_text(self@),
    {
        match self {
            RuntimeConfigError::InvalidSecurity(reason) => (*reason).to_owned(),
            RuntimeConfigError::MissingEnv { name } => (*name).to_owned().concat(" is required"),
            RuntimeConfigError::InvalidListenAddr { name, value } => (*name).to_owned().concat(
                " value ",
            ).concat(quoted(value.as_str()).as_str()).concat(
                " is not a valid listen address: invalid socket address syntax",
            ),
            RuntimeConfigError::InvalidStoreProvider { value } => {
                STORE_PROVIDER_ENV.to_owned().concat(" value ").concat(
                    quoted(value.as_str()).as_str(),
                ).concat(" is not supported")
            },
            RuntimeConfigError::InvalidPostgresConfig => {
                "Postgres URL must not be empty".to_owned()
            },
            RuntimeConfigError::InvalidPostgresSetting { name } => (*name).to_owned().concat(
                " must be a positive integer within the documented Postgres setting limits",
            ),
            RuntimeConfigError::InvalidMaterializationTarget(source) => {
                source.field.to_owned().concat(" must not be empty")
            },
            RuntimeConfigError::InvalidAuthMode { value } => {
                AUTH_MODE_ENV.to_owned().concat(" value ").concat(
                    quoted(value.as_str()).as_str(),
                ).concat(" is not supported")
            },
            RuntimeConfigError::InvalidAuthConfig(source) => source.to_text(),
        }
    }
}

/// What a step of reading the configuration comes to.
pub open spec fn answer<T: View>(result: Result<T, RuntimeConfigError>) -> Result<
    T::V,
    RuntimeErrorView,
> {
    match result {
        Ok(value) => Ok(value@),
        Err(error) => Err(error@),
    }
}

/// What a step with a plain value comes to.
pub open spec fn plain_answer<T>(result: Result<T, RuntimeConfigError>) -> Result<
    T,
    RuntimeErrorView,
> {
    match result {
        Ok(value) => Ok(value),
        Err(error) => Err(error@),
    }
}

/// What is set, each name with its value.
pub type ValuesView = Seq<(Seq<char>, Seq<char>)>;

/// A value that must be set.
pub open spec fn required(values: ValuesView, name: Seq<char>) -> Result<
    Seq<char>,
    RuntimeErrorView,
> {
    match config::set_value(values, name) {
        Some(value) => Ok(value),
        None => Err(RuntimeErrorView::MissingEnv { name }),
    }
}

/// Finds a value that must be set.
pub fn required_value<'a>(values: &'a StringMap<String>, name: &'static str) -> (result: Result<
    &'a str,
    RuntimeConfigError,
>)
    ensures
        match result {
            Ok(value) => required(values@, name@) == Ok::<Seq<char>, RuntimeErrorView>(value@),
            Err(error) => required(values@, name@) == Err::<Seq<char>, RuntimeErrorView>(error@),
        },
{
    match find_value(values, name) {
        Some(value) => Ok(value),
        None => Err(RuntimeConfigError::MissingEnv { name }),
    }
}

/// The address that a value writes.
pub open spec fn written_address(name: Seq<char>, value: Seq<char>) -> Result<
    SocketAddr,
    RuntimeErrorView,
> {
    match net::parsed_socket(value) {
        Some(address) => Ok(address),
        None => Err(RuntimeErrorView::InvalidListenAddr { name, value }),
    }
}

/// An address that must be set.
pub open spec fn required_address(values: ValuesView, name: Seq<char>) -> Result<
    SocketAddr,
    RuntimeErrorView,
> {
    match required(values, name) {
        Ok(value) => written_address(name, value),
        Err(error) => Err(error),
    }
}

/// An address that may be set.
pub open spec fn optional_address(values: ValuesView, name: Seq<char>) -> Result<
    Option<SocketAddr>,
    RuntimeErrorView,
> {
    match config::set_value(values, name) {
        None => Ok(None),
        Some(value) => match written_address(name, value) {
            Ok(address) => Ok(Some(address)),
            Err(error) => Err(error),
        },
    }
}

/// Reads the address that a value writes.
pub fn parse_socket_addr(name: &'static str, value: &str) -> (result: Result<
    SocketAddr,
    RuntimeConfigError,
>)
    ensures
        plain_answer(result) == written_address(name@, value@),
{
    match parse_socket(value) {
        Some(address) => Ok(address),
        None => Err(RuntimeConfigError::InvalidListenAddr { name, value: value.to_owned() }),
    }
}

/// Reads an address that must be set.
pub fn parse_required_socket_addr(values: &StringMap<String>, name: &'static str) -> (result: Result<
    SocketAddr,
    RuntimeConfigError,
>)
    ensures
        plain_answer(result) == required_address(values@, name@),
{
    let value = required_value(values, name)?;
    parse_socket_addr(name, value)
}

/// Reads an address that may be set.
pub fn parse_optional_socket_addr(values: &StringMap<String>, name: &'static str) -> (result: Result<
    Option<SocketAddr>,
    RuntimeConfigError,
>)
    ensures
        plain_answer(result) == optional_address(values@, name@),
{
    match find_value(values, name) {
        None => Ok(None),
        Some(value) => match parse_socket_addr(name, value) {
            Ok(address) => Ok(Some(address)),
            Err(error) => Err(error),
        },
    }
}

// ---------------------------------------------------------------------------
// Numbers
// ---------------------------------------------------------------------------
/// What is set under a name is a positive number of at most the maximum, and one
/// that the database can keep; or nothing is set.
pub open spec fn setting_fits(values: ValuesView, name: Seq<char>, maximum: nat) -> bool {
    match string_map::entry_of(values, name) {
        None => true,
        Some(value) => text::parsed_u64(value) matches Some(number) && 0 < number <= i64::MAX
            && number <= maximum,
    }
}

/// The number that is set under a name.
pub open spec fn setting(values: ValuesView, name: Seq<char>) -> Option<u64> {
    match string_map::entry_of(values, name) {
        None => None,
        Some(value) => text::parsed_u64(value),
    }
}

/// The span that is set in milliseconds under a name, or another.
pub open spec fn span_or(values: ValuesView, name: Seq<char>, otherwise: nat) -> nat {
    match setting(values, name) {
        Some(number) => config::millis(number as nat),
        None => otherwise,
    }
}

/// The number that is set under a name, or another.
pub open spec fn count_or(values: ValuesView, name: Seq<char>, otherwise: usize) -> usize {
    match setting(values, name) {
        Some(number) => number as usize,
        None => otherwise,
    }
}

/// A setting that cannot be used.
pub open spec fn bad_setting<T>(name: Seq<char>) -> Result<T, RuntimeErrorView> {
    Err(RuntimeErrorView::InvalidPostgresSetting { name })
}

/// Reads a positive number that may be set.
pub fn postgres_positive_integer(values: &StringMap<String>, name: &'static str) -> (result: Result<
    Option<u64>,
    RuntimeConfigError,
>)
    ensures
        match result {
            Ok(number) => setting_fits(values@, name@, u64::MAX as nat) && number == setting(
                values@,
                name@,
            ),
            Err(error) => !setting_fits(values@, name@, u64::MAX as nat) && Err::<
                (),
                RuntimeErrorView,
            >(error@) == bad_setting::<()>(name@),
        },
{
    match values.get(name) {
        None => Ok(None),
        Some(value) => match parse_u64(value.as_str()) {
            Some(number) => {
                if 0 < number && number <= 9_223_372_036_854_775_807 {
                    Ok(Some(number))
                } else {
                    Err(RuntimeConfigError::InvalidPostgresSetting { name })
                }
            },
            None => Err(RuntimeConfigError::InvalidPostgresSetting { name }),
        },
    }
}

fn capped_number(values: &StringMap<String>, name: &'static str, maximum: u64) -> (result: Result<
    Option<u64>,
    RuntimeConfigError,
>)
    ensures
        match result {
            Ok(number) => setting_fits(values@, name@, maximum as nat) && number == setting(
                values@,
                name@,
            ),
            Err(error) => !setting_fits(values@, name@, maximum as nat) && Err::<
                (),
                RuntimeErrorView,
            >(error@) == bad_setting::<()>(name@),
        },
{
    match postgres_positive_integer(values, name)? {
        None => Ok(None),
        Some(number) => {
            if number > maximum {
                Err(RuntimeConfigError::InvalidPostgresSetting { name })
            } else {
                Ok(Some(number))
            }
        },
    }
}

fn capped_span(
    values: &StringMap<String>,
    name: &'static str,
    maximum: u64,
    otherwise: Duration,
) -> (result: Result<Duration, RuntimeConfigError>)
    ensures
        match result {
            Ok(span) => setting_fits(values@, name@, maximum as nat) && span@ == span_or(
                values@,
                name@,
                otherwise@,
            ),
            Err(error) => !setting_fits(values@, name@, maximum as nat) && Err::<
                (),
                RuntimeErrorView,
            >(error@) == bad_setting::<()>(name@),
        },
{
    match capped_number(values, name, maximum)? {
        Some(number) => Ok(Duration::from_millis(number)),
        None => Ok(otherwise),
    }
}

fn capped_count(
    values: &StringMap<String>,
    name: &'static str,
    maximum: u64,
    otherwise: usize,
) -> (result: Result<usize, RuntimeConfigError>)
    requires
        maximum <= usize::MAX,
    ensures
        match result {
            Ok(count) => setting_fits(values@, name@, maximum as nat) && count == count_or(
                values@,
                name@,
                otherwise,
            ),
            Err(error) => !setting_fits(values@, name@, maximum as nat) && Err::<
                (),
                RuntimeErrorView,
            >(error@) == bad_setting::<()>(name@),
        },
{
    match capped_number(values, name, maximum)? {
        Some(number) => Ok(number as usize),
        None => Ok(otherwise),
    }
}

// ---------------------------------------------------------------------------
// The store
// ---------------------------------------------------------------------------
/// The database with what is set for it.
pub open spec fn postgres_of(values: ValuesView, url: Seq<char>) -> PostgresView {
    let base = config::default_postgres(url);
    PostgresView {
        url,
        max_connections: count_or(values, POSTGRES_MAX_CONNECTIONS_ENV@, base.max_connections),
        operation_timeout: span_or(values, OPERATION_TIMEOUT_ENV@, base.operation_timeout),
        pool_wait_timeout: span_or(values, POSTGRES_POOL_WAIT_TIMEOUT_ENV@, base.pool_wait_timeout),
        connection_timeout: span_or(
            values,
            POSTGRES_CONNECTION_TIMEOUT_ENV@,
            base.connection_timeout,
        ),
        statement_timeout: span_or(values, POSTGRES_STATEMENT_TIMEOUT_ENV@, base.statement_timeout),
        idempotency_retention: match setting(values, POSTGRES_IDEMPOTENCY_RETENTION_ENV@) {
            Some(number) => Some(config::millis(number as nat)),
            None => None,
        },
    }
}

/// The database that the values set up: first every setting must be a number, then
/// every number must be within its limits.
pub open spec fn postgres_outcome(values: ValuesView, url: Seq<char>) -> Result<
    PostgresView,
    RuntimeErrorView,
> {
    if !setting_fits(values, POSTGRES_MAX_CONNECTIONS_ENV@, usize::MAX as nat) {
        bad_setting(POSTGRES_MAX_CONNECTIONS_ENV@)
    } else if !setting_fits(values, OPERATION_TIMEOUT_ENV@, u64::MAX as nat) {
        bad_setting(OPERATION_TIMEOUT_ENV@)
    } else if !setting_fits(values, POSTGRES_POOL_WAIT_TIMEOUT_ENV@, u64::MAX as nat) {
        bad_setting(POSTGRES_POOL_WAIT_TIMEOUT_ENV@)
    } else if !setting_fits(values, POSTGRES_CONNECTION_TIMEOUT_ENV@, u64::MAX as nat) {
        bad_setting(POSTGRES_CONNECTION_TIMEOUT_ENV@)
    } else if !setting_fits(values, POSTGRES_STATEMENT_TIMEOUT_ENV@, u64::MAX as nat) {
        bad_setting(POSTGRES_STATEMENT_TIMEOUT_ENV@)
    } else if !setting_fits(values, POSTGRES_IDEMPOTENCY_RETENTION_ENV@, u64::MAX as nat) {
        bad_setting(POSTGRES_IDEMPOTENCY_RETENTION_ENV@)
    } else {
        match config::setting_out_of_limits(postgres_of(values, url)) {
            Some(name) => bad_setting(name),
            None => Ok(postgres_of(values, url)),
        }
    }
}

fn parse_postgres(values: &StringMap<String>, url: &str) -> (result: Result<
    PostgresStoreConfig,
    RuntimeConfigError,
>)
    requires
        !text::blank(url@),
    ensures
        answer(result) == postgres_outcome(values@, url@),
{
    let base = match PostgresStoreConfig::new(url) {
        Some(base) => base,
        None => {
            return Err(RuntimeConfigError::InvalidPostgresConfig);
        },
    };
    let widest: u64 = 18_446_744_073_709_551_615;
    let max_connections: usize = capped_count(
        values,
        POSTGRES_MAX_CONNECTIONS_ENV,
        usize::MAX as u64,
        base.max_connections,
    )?;
    let operation_timeout = capped_span(
        values,
        OPERATION_TIMEOUT_ENV,
        widest,
        base.operation_timeout,
    )?;
    let pool_wait_timeout = capped_span(
        values,
        POSTGRES_POOL_WAIT_TIMEOUT_ENV,
        widest,
        base.pool_wait_timeout,
    )?;
    let connection_timeout = capped_span(
        values,
        POSTGRES_CONNECTION_TIMEOUT_ENV,
        widest,
        base.connection_timeout,
    )?;
    let statement_timeout = capped_span(
        values,
        POSTGRES_STATEMENT_TIMEOUT_ENV,
        widest,
        base.statement_timeout,
    )?;
    let idempotency_retention = match postgres_positive_integer(
        values,
        POSTGRES_IDEMPOTENCY_RETENTION_ENV,
    )? {
        Some(number) => Some(Duration::from_millis(number)),
        None => None,
    };
    let config = PostgresStoreConfig {
        url: base.url,
        max_connections,
        operation_timeout,
        pool_wait_timeout,
        connection_timeout,
        statement_timeout,
        idempotency_retention,
    };
    match config.validate_limits() {
        Ok(_) => Ok(config),
        Err(name) => Err(RuntimeConfigError::InvalidPostgresSetting { name }),
    }
}

/// The store that the values set up.
pub open spec fn store_outcome(values: ValuesView) -> Result<PostgresView, RuntimeErrorView> {
    match required(values, STORE_PROVIDER_ENV@) {
        Err(error) => Err(error),
        Ok(provider) => match config::named_provider(provider) {
            None => Err(RuntimeErrorView::InvalidStoreProvider { value: provider }),
            Some(StoreProviderName::Postgres) => match required(values, POSTGRES_URL_ENV@) {
                Err(error) => Err(error),
                Ok(url) => postgres_outcome(values, url),
            },
        },
    }
}

fn parse_store(values: &StringMap<String>) -> (result: Result<
    StoreProviderConfig,
    RuntimeConfigError,
>)
    ensures
        answer(result) == store_outcome(values@),
{
    let provider = required_value(values, STORE_PROVIDER_ENV)?;
    match StoreProviderName::parse(provider) {
        None => Err(RuntimeConfigError::InvalidStoreProvider { value: provider.to_owned() }),
        Some(StoreProviderName::Postgres) => {
            let url = required_value(values, POSTGRES_URL_ENV)?;
            let config = parse_postgres(values, url)?;
            Ok(StoreProviderConfig::Postgres(config))
        },
    }
}

// ---------------------------------------------------------------------------
// Callers
// ---------------------------------------------------------------------------
/// How the values have callers show who they are.
pub open spec fn auth_outcome(values: ValuesView) -> Result<Option<TokensView>, RuntimeErrorView> {
    match required(values, AUTH_MODE_ENV@) {
        Err(error) => Err(error),
        Ok(mode) => {
            let word = text::ascii_small(text::trimmed(mode));
            if word == "no-auth"@ {
                Ok(None)
            } else if word == "static-bearer-token"@ || word == "static-bearer-tokens"@ {
                match required(values, AUTH_OPERATOR_TOKEN_ENV@) {
                    Err(error) => Err(error),
                    Ok(operator) => match required(values, AUTH_PROXY_TOKEN_ENV@) {
                        Err(error) => Err(error),
                        Ok(proxy) => match required(values, AUTH_SIDECAR_TOKEN_ENV@) {
                            Err(error) => Err(error),
                            Ok(sidecar) => {
                                let tokens = TokensView { operator, proxy, sidecar };
                                match auth::tokens_fault(tokens) {
                                    Some(fault) => Err(RuntimeErrorView::InvalidAuthConfig(fault)),
                                    None => Ok(Some(tokens)),
                                }
                            },
                        },
                    },
                }
            } else {
                Err(RuntimeErrorView::InvalidAuthMode { value: mode })
            }
        },
    }
}

/// Reads how callers show who they are.
pub fn parse_auth_config(values: &StringMap<String>) -> (result: Result<
    AuthConfig,
    RuntimeConfigError,
>)
    ensures
        answer(result) == auth_outcome(values@),
{
    let mode = required_value(values, AUTH_MODE_ENV)?;
    let trimmed = trim(mode);
    let word = to_ascii_small(trimmed.as_str());
    if same_text(word.as_str(), "no-auth") {
        return Ok(AuthConfig::NoAuth);
    }
    if same_text(word.as_str(), "static-bearer-token") || same_text(
        word.as_str(),
        "static-bearer-tokens",
    ) {
        let operator = required_value(values, AUTH_OPERATOR_TOKEN_ENV)?;
        let proxy = required_value(values, AUTH_PROXY_TOKEN_ENV)?;
        let sidecar = required_value(values, AUTH_SIDECAR_TOKEN_ENV)?;
        return match StaticBearerTokens::new(operator, proxy, sidecar) {
            Ok(tokens) => Ok(AuthConfig::StaticBearerTokens(tokens)),
            Err(fault) => Err(RuntimeConfigError::InvalidAuthConfig(fault)),
        };
    }
    Err(RuntimeConfigError::InvalidAuthMode { value: mode.to_owned() })
}

// ---------------------------------------------------------------------------
// Limits
// ---------------------------------------------------------------------------
/// What the control plane takes on, as it is set.
pub open spec fn limits_of(values: ValuesView) -> ApiLimitsView {
    let base = admission::default_limits();
    ApiLimitsView {
        accepted_connections: count_or(values, MAX_CONNECTIONS_ENV@, base.accepted_connections),
        rpc_concurrency: count_or(values, MAX_RPCS_ENV@, base.rpc_concurrency),
        subscription_streams: count_or(
            values,
            MAX_SUBSCRIPTION_STREAMS_ENV@,
            base.subscription_streams,
        ),
        subscriptions_per_stream: count_or(
            values,
            MAX_SUBSCRIPTIONS_PER_STREAM_ENV@,
            base.subscriptions_per_stream,
        ),
        unary_delivery_timeout: span_or(
            values,
            UNARY_DELIVERY_TIMEOUT_ENV@,
            base.unary_delivery_timeout,
        ),
        setup_timeout: span_or(values, SETUP_TIMEOUT_ENV@, base.setup_timeout),
        write_timeout: span_or(values, WRITE_TIMEOUT_ENV@, base.write_timeout),
        lookup_timeout: span_or(values, LOOKUP_TIMEOUT_ENV@, base.lookup_timeout),
        response_timeout: span_or(values, RESPONSE_TIMEOUT_ENV@, base.response_timeout),
        subscription_lifetime: span_or(
            values,
            SUBSCRIPTION_LIFETIME_ENV@,
            base.subscription_lifetime,
        ),
        positive_route_cache_ttl: span_or(
            values,
            POSITIVE_ROUTE_CACHE_TTL_ENV@,
            base.positive_route_cache_ttl,
        ),
    }
}

/// What the values have the control plane take on: each setting within its cap.
pub open spec fn limits_outcome(values: ValuesView) -> Result<ApiLimitsView, RuntimeErrorView> {
    let request = REQUEST_TIMEOUT_CAP as nat;
    let stream = STREAM_LIFETIME_CAP as nat;
    if !setting_fits(values, MAX_CONNECTIONS_ENV@, 4096) {
        bad_setting(MAX_CONNECTIONS_ENV@)
    } else if !setting_fits(values, MAX_RPCS_ENV@, 4096) {
        bad_setting(MAX_RPCS_ENV@)
    } else if !setting_fits(values, MAX_SUBSCRIPTION_STREAMS_ENV@, 1024) {
        bad_setting(MAX_SUBSCRIPTION_STREAMS_ENV@)
    } else if !setting_fits(values, MAX_SUBSCRIPTIONS_PER_STREAM_ENV@, 4096) {
        bad_setting(MAX_SUBSCRIPTIONS_PER_STREAM_ENV@)
    } else if !setting_fits(values, UNARY_DELIVERY_TIMEOUT_ENV@, request) {
        bad_setting(UNARY_DELIVERY_TIMEOUT_ENV@)
    } else if !setting_fits(values, SETUP_TIMEOUT_ENV@, request) {
        bad_setting(SETUP_TIMEOUT_ENV@)
    } else if !setting_fits(values, WRITE_TIMEOUT_ENV@, request) {
        bad_setting(WRITE_TIMEOUT_ENV@)
    } else if !setting_fits(values, LOOKUP_TIMEOUT_ENV@, request) {
        bad_setting(LOOKUP_TIMEOUT_ENV@)
    } else if !setting_fits(values, RESPONSE_TIMEOUT_ENV@, request) {
        bad_setting(RESPONSE_TIMEOUT_ENV@)
    } else if !setting_fits(values, SUBSCRIPTION_LIFETIME_ENV@, stream) {
        bad_setting(SUBSCRIPTION_LIFETIME_ENV@)
    } else if !setting_fits(values, POSITIVE_ROUTE_CACHE_TTL_ENV@, stream) {
        bad_setting(POSITIVE_ROUTE_CACHE_TTL_ENV@)
    } else {
        Ok(limits_of(values))
    }
}

fn parse_limits(values: &StringMap<String>) -> (result: Result<ApiLimits, RuntimeConfigError>)
    ensures
        answer(result) == limits_outcome(values@),
{
    let base = ApiLimits::default();
    let request: u64 = REQUEST_TIMEOUT_CAP;
    let stream: u64 = STREAM_LIFETIME_CAP;
    let accepted_connections: usize = capped_count(
        values,
        MAX_CONNECTIONS_ENV,
        4096,
        base.accepted_connections,
    )?;
    let rpc_concurrency: usize = capped_count(values, MAX_RPCS_ENV, 4096, base.rpc_concurrency)?;
    let subscription_streams: usize = capped_count(
        values,
        MAX_SUBSCRIPTION_STREAMS_ENV,
        1024,
        base.subscription_streams,
    )?;
    let subscriptions_per_stream: usize = capped_count(
        values,
        MAX_SUBSCRIPTIONS_PER_STREAM_ENV,
        4096,
        base.subscriptions_per_stream,
    )?;
    let unary_delivery_timeout = capped_span(
        values,
        UNARY_DELIVERY_TIMEOUT_ENV,
        request,
        base.unary_delivery_timeout,
    )?;
    let setup_timeout = capped_span(values, SETUP_TIMEOUT_ENV, request, base.setup_timeout)?;
    let write_timeout = capped_span(values, WRITE_TIMEOUT_ENV, request, base.write_timeout)?;
    let lookup_timeout = capped_span(values, LOOKUP_TIMEOUT_ENV, request, base.lookup_timeout)?;
    let response_timeout = capped_span(
        values,
        RESPONSE_TIMEOUT_ENV,
        request,
        base.response_timeout,
    )?;
    let subscription_lifetime = capped_span(
        values,
        SUBSCRIPTION_LIFETIME_ENV,
        stream,
        base.subscription_lifetime,
    )?;
    let positive_route_cache_ttl = capped_span(
        values,
        POSITIVE_ROUTE_CACHE_TTL_ENV,
        stream,
        base.positive_route_cache_ttl,
    )?;
    Ok(
        ApiLimits {
            rpc_concurrency,
            accepted_connections,
            setup_timeout,
            write_timeout,
            unary_delivery_timeout,
            subscription_streams,
            subscriptions_per_stream,
            subscription_lifetime,
            lookup_timeout,
            response_timeout,
            positive_route_cache_ttl,
        },
    )
}

// ---------------------------------------------------------------------------
// The whole
// ---------------------------------------------------------------------------
/// Where the values have workloads run.
pub open spec fn target_outcome(values: ValuesView) -> Result<TargetView, RuntimeErrorView> {
    match required(values, CLUSTER_ID_ENV@) {
        Err(error) => Err(error),
        Ok(cluster_id) => match required(values, NAMESPACE_ENV@) {
            Err(error) => Err(error),
            Ok(namespace) => Ok(TargetView { cluster_id, namespace }),
        },
    }
}

fn parse_target(values: &StringMap<String>) -> (result: Result<
    MaterializationTarget,
    RuntimeConfigError,
>)
    ensures
        answer(result) == target_outcome(values@),
{
    let cluster_id = required_value(values, CLUSTER_ID_ENV)?;
    let namespace = required_value(values, NAMESPACE_ENV)?;
    match MaterializationTarget::new(cluster_id, namespace) {
        Ok(target) => Ok(target),
        Err(error) => Err(RuntimeConfigError::InvalidMaterializationTarget(error)),
    }
}

/// How the values protect the listeners and the certificates, beside a database
/// that keeps one connection for certificates apart.
pub open spec fn security_outcome(
    values: ValuesView,
    authenticated: bool,
    max_connections: usize,
) -> Result<SecurityView, RuntimeErrorView> {
    let security = config::security_of(values);
    match config::security_fault(security, authenticated) {
        Some(reason) => Err(RuntimeErrorView::InvalidSecurity(reason)),
        None => if security.sealing_keys_file is Some && max_connections < 2 {
            Err(
                RuntimeErrorView::InvalidSecurity(
                    "certificate delivery requires at least two PostgreSQL connections"@,
                ),
            )
        } else {
            Ok(security)
        },
    }
}

fn parse_security(values: &StringMap<String>, authenticated: bool, max_connections: usize) -> (result:
    Result<RuntimeSecurityConfig, RuntimeConfigError>)
    ensures
        answer(result) == security_outcome(values@, authenticated, max_connections),
{
    match RuntimeSecurityConfig::parse(values, authenticated) {
        Err(reason) => Err(RuntimeConfigError::InvalidSecurity(reason)),
        Ok(security) => {
            if security.sealing_keys_file.is_some() && max_connections < 2 {
                return Err(
                    RuntimeConfigError::InvalidSecurity(
                        "certificate delivery requires at least two PostgreSQL connections",
                    ),
                );
            }
            Ok(security)
        },
    }
}

/// Where the control plane listens.
#[verifier::ext_equal]
pub struct ListenersView {
    pub workload: SocketAddr,
    pub operator: SocketAddr,
    pub web: Option<SocketAddr>,
    pub metrics: Option<SocketAddr>,
}

/// Where the values have the control plane listen.
pub open spec fn listeners_outcome(values: ValuesView) -> Result<ListenersView, RuntimeErrorView> {
    match required_address(values, CONTROL_PLANE_LISTEN_ADDR_ENV@) {
        Err(error) => Err(error),
        Ok(workload) => match required_address(values, OPERATOR_LISTEN_ADDR_ENV@) {
            Err(error) => Err(error),
            Ok(operator) => match optional_address(values, OPERATOR_GRPC_WEB_LISTEN_ADDR_ENV@) {
                Err(error) => Err(error),
                Ok(web) => match optional_address(values, METRICS_LISTEN_ADDR_ENV@) {
                    Err(error) => Err(error),
                    Ok(metrics) => Ok(ListenersView { workload, operator, web, metrics }),
                },
            },
        },
    }
}

/// What the control plane runs with, or the first thing that is wrong: the
/// listeners, the store, the callers, the protection, the target, the limits.
pub open spec fn runtime_outcome(values: ValuesView) -> Result<RuntimeView, RuntimeErrorView> {
    match listeners_outcome(values) {
        Err(error) => Err(error),
        Ok(listeners) => match store_outcome(values) {
            Err(error) => Err(error),
            Ok(store) => match auth_outcome(values) {
                Err(error) => Err(error),
                Ok(auth) => match security_outcome(values, auth is Some, store.max_connections) {
                    Err(error) => Err(error),
                    Ok(security) => match target_outcome(values) {
                        Err(error) => Err(error),
                        Ok(target) => match limits_outcome(values) {
                            Err(error) => Err(error),
                            Ok(api_limits) => Ok(
                                RuntimeView {
                                    listen_addr: listeners.workload,
                                    operator_listen_addr: listeners.operator,
                                    operator_grpc_web_listen_addr: listeners.web,
                                    metrics_listen_addr: listeners.metrics,
                                    control_plane: ControlPlaneView { store, auth },
                                    target,
                                    api_limits,
                                    security,
                                },
                            ),
                        },
                    },
                },
            },
        },
    }
}

/// The pairs of a list, as they are seen.
pub open spec fn pairs_view(pairs: Seq<(String, String)>) -> ValuesView {
    Seq::new(pairs.len(), |i: int| (pairs[i].0@, pairs[i].1@))
}

impl RuntimeConfig {
    /// What the control plane runs with where these names have these values. The
    /// last value of a name counts.
    pub fn from_key_values(values: Vec<(String, String)>) -> (result: Result<
        RuntimeConfig,
        RuntimeConfigError,
    >)
        ensures
            answer(result) == runtime_outcome(string_map::entries_from(pairs_view(values@))),
    {
        let ghost pairs = values@;
        let values = StringMap::from_pairs(values);
        assert(values@ == string_map::entries_from(pairs_view(pairs)));
        let listen_addr = parse_required_socket_addr(&values, CONTROL_PLANE_LISTEN_ADDR_ENV)?;
        let operator_listen_addr = parse_required_socket_addr(&values, OPERATOR_LISTEN_ADDR_ENV)?;
        let operator_grpc_web_listen_addr = parse_optional_socket_addr(
            &values,
            OPERATOR_GRPC_WEB_LISTEN_ADDR_ENV,
        )?;
        let metrics_listen_addr = parse_optional_socket_addr(&values, METRICS_LISTEN_ADDR_ENV)?;
        let store = parse_store(&values)?;
        let auth = parse_auth_config(&values)?;
        let max_connections: usize = match &store {
            StoreProviderConfig::Postgres(config) => config.max_connections,
        };
        let security = parse_security(&values, auth.is_configured(), max_connections)?;
        let target = parse_target(&values)?;
        let api_limits = parse_limits(&values)?;
        Ok(
            RuntimeConfig {
                listen_addr,
                operator_listen_addr,
                operator_grpc_web_listen_addr,
                metrics_listen_addr,
                control_plane: ControlPlaneConfig::new(store, auth),
                target,
                api_limits,
                security,
            },
        )
    }
}

/// A configuration that is accepted is within its limits: every request is
/// answered or given up within a minute, a stream lives and an answer is kept for
/// ten minutes at most, the database is within its own limits and has a
/// connection for certificates where it delivers them, and certificates are
/// delivered only over encrypted listeners to callers that are told apart.
pub proof fn law_accepted_configuration_is_bounded(values: ValuesView)
    ensures
        runtime_outcome(values) matches Ok(accepted) ==> {
            let minute = config::millis(REQUEST_TIMEOUT_CAP as nat);
            let longest = config::millis(STREAM_LIFETIME_CAP as nat);
            let limits = accepted.api_limits;
            &&& 0 < limits.accepted_connections <= 4096
            &&& 0 < limits.rpc_concurrency <= 4096
            &&& 0 < limits.subscription_streams <= 1024
            &&& 0 < limits.subscriptions_per_stream <= 4096
            &&& 0 < limits.unary_delivery_timeout <= minute
            &&& 0 < limits.setup_timeout <= minute
            &&& 0 < limits.write_timeout <= minute
            &&& 0 < limits.lookup_timeout <= minute
            &&& 0 < limits.response_timeout <= minute
            &&& 0 < limits.subscription_lifetime <= longest
            &&& 0 < limits.positive_route_cache_ttl <= longest
            &&& config::setting_out_of_limits(accepted.control_plane.store) is None
            &&& !text::blank(accepted.target.cluster_id) && !text::blank(accepted.target.namespace)
            &&& accepted.control_plane.auth matches Some(tokens) ==> auth::tokens_fault(
                tokens,
            ) is None
            &&& accepted.security.sealing_keys_file is Some ==> {
                &&& accepted.security.cert_file is Some
                &&& accepted.security.key_file is Some
                &&& accepted.security.public_endpoint is Some
                &&& accepted.control_plane.auth is Some
                &&& accepted.control_plane.store.max_connections >= 2
            }
        },
{
}

/// Puts the token of the sidecars into the materializer, which hands it to every
/// sidecar that it renders.
pub fn materializer_with_runtime_auth<C>(
    materializer: KubernetesMaterializer<C>,
    auth_config: &AuthConfig,
) -> (ready: KubernetesMaterializer<C>)
    ensures
        ready.client() == materializer.client(),
        ready.transport() == materializer.transport(),
        ready.token() == (match auth_config@ {
            Some(tokens) => Some(tokens.sidecar),
            None => None,
        }),
{
    let token = match auth_config.sidecar_bearer_token() {
        Some(token) => Some(token.duplicate()),
        None => None,
    };
    materializer.with_sidecar_control_plane_token(token)
}

// ---------------------------------------------------------------------------
// Tasks
// ---------------------------------------------------------------------------
/// How many failures in a row a task stands.
pub const MAX_FAILURES: u32 = 5;

/// How many changes are read at once.
pub const ROUTE_CHANGE_BATCH: u32 = 1024;

/// How many failures in a row there have been after one more attempt.
pub open spec fn failures_after(failures: u32, succeeded: bool) -> u32 {
    if succeeded {
        0
    } else {
        (failures + 1) as u32
    }
}

/// How many failures in a row end a list of attempts.
pub open spec fn trailing_failures(attempts: Seq<bool>) -> nat
    decreases attempts.len(),
{
    if attempts.len() == 0 || attempts.last() {
        0
    } else {
        trailing_failures(attempts.drop_last()) + 1
    }
}

/// The count that a task keeps of its failures is how many end the list of its
/// attempts, so it gives up exactly when the last ones failed in a row.
pub proof fn law_count_follows_the_attempts(attempts: Seq<bool>, failures: u32, succeeded: bool)
    requires
        failures == trailing_failures(attempts),
        failures < MAX_FAILURES,
    ensures
        failures_after(failures, succeeded) == trailing_failures(attempts.push(succeeded)),
        failures_after(failures, succeeded) >= MAX_FAILURES <==> trailing_failures(
            attempts.push(succeeded),
        ) == MAX_FAILURES,
{
    assert(attempts.push(succeeded).drop_last() =~= attempts);
}

/// Counts the failures in a row, and tells whether the task gives up.
pub fn count_failure(failures: u32, succeeded: bool) -> (counted: (u32, bool))
    requires
        failures < MAX_FAILURES,
    ensures
        counted.0 == failures_after(failures, succeeded),
        counted.1 == (counted.0 >= MAX_FAILURES),
{
    if succeeded {
        (0, false)
    } else {
        let more: u32 = failures + 1;
        (more, more >= MAX_FAILURES)
    }
}

/// Where the task that passes changes of routes on has come to.
#[derive(Clone, Copy, Debug, PartialEq, Eq, Structural)]
pub struct DispatchState {
    /// The last revision that was passed on. There is none until the first is
    /// read: what was changed before the task began says nothing to subscribers,
    /// who look routes up as they are now.
    pub cursor: Option<u64>,
    pub failures: u32,
}

/// What the task reads next.
#[derive(Clone, Copy, Debug, PartialEq, Eq, Structural)]
pub enum DispatchLoad {
    /// The newest revision.
    Revision,
    /// The changes behind a revision.
    Changes { from: u64, limit: u32 },
}

/// What was read.
#[derive(Clone, Copy, Debug, PartialEq, Eq, Structural)]
pub enum DispatchEvent {
    Revision(u64),
    /// Changes up to a revision. Where some are gone, subscribers start over.
    Changes { reset: bool, cursor: u64 },
    Failed,
}

/// What is done with what was read.
#[derive(Clone, Copy, Debug, PartialEq, Eq, Structural)]
pub struct DispatchStep {
    pub state: DispatchState,
    /// All subscribers start over, before any change is passed on.
    pub reset: bool,
    /// The changes that were read are passed on.
    pub publish: bool,
    /// The task gives up.
    pub stop: bool,
}

impl DispatchState {
    /// Where the task begins.
    pub fn begin() -> (state: DispatchState)
        ensures
            state.cursor is None,
            state.failures == 0,
    {
        DispatchState { cursor: None, failures: 0 }
    }

    /// What the task reads next.
    pub fn next_load(&self) -> (load: DispatchLoad)
        ensures
            load == (match self.cursor {
                None => DispatchLoad::Revision,
                Some(from) => DispatchLoad::Changes { from, limit: ROUTE_CHANGE_BATCH },
            }),
    {
        match self.cursor {
            None => DispatchLoad::Revision,
            Some(from) => DispatchLoad::Changes { from, limit: ROUTE_CHANGE_BATCH },
        }
    }
}

/// What is done with what was read. A failure before the first revision is known
/// resets nothing, since nobody has been told anything.
pub open spec fn dispatched(state: DispatchState, event: DispatchEvent) -> DispatchStep {
    let failures = failures_after(state.failures, event !is Failed);
    match event {
        DispatchEvent::Revision(revision) => DispatchStep {
            state: DispatchState { cursor: Some(revision), failures },
            reset: false,
            publish: false,
            stop: false,
        },
        DispatchEvent::Changes { reset, cursor } => DispatchStep {
            state: DispatchState { cursor: Some(cursor), failures },
            reset,
            publish: true,
            stop: false,
        },
        DispatchEvent::Failed => DispatchStep {
            state: DispatchState { cursor: state.cursor, failures },
            reset: state.cursor is Some,
            publish: false,
            stop: failures >= MAX_FAILURES,
        },
    }
}

/// Decides what is done with what was read.
pub fn dispatch_step(state: &DispatchState, event: DispatchEvent) -> (step: DispatchStep)
    requires
        state.failures < MAX_FAILURES,
    ensures
        step == dispatched(*state, event),
        !step.stop ==> step.state.failures < MAX_FAILURES,
{
    match event {
        DispatchEvent::Revision(revision) => DispatchStep {
            state: DispatchState { cursor: Some(revision), failures: 0 },
            reset: false,
            publish: false,
            stop: false,
        },
        DispatchEvent::Changes { reset, cursor } => DispatchStep {
            state: DispatchState { cursor: Some(cursor), failures: 0 },
            reset,
            publish: true,
            stop: false,
        },
        DispatchEvent::Failed => {
            let (failures, stop) = count_failure(state.failures, false);
            DispatchStep {
                state: DispatchState { cursor: state.cursor, failures },
                reset: state.cursor.is_some(),
                publish: false,
                stop,
            }
        },
    }
}

/// Subscribers who may have missed a change are told to start over: whenever
/// changes could not be read, and whenever some are gone.
pub proof fn law_a_missed_change_resets(state: DispatchState, event: DispatchEvent)
    requires
        state.cursor is Some,
        state.failures < MAX_FAILURES,
    ensures
        event is Failed ==> dispatched(state, event).reset && dispatched(state, event).state.cursor
            == state.cursor,
        event matches DispatchEvent::Changes { reset: true, .. } ==> dispatched(state, event).reset,
        dispatched(state, event).publish ==> event is Changes,
{
}

// ---------------------------------------------------------------------------
// Ending
// ---------------------------------------------------------------------------
/// How a task ended.
#[derive(Clone, Debug, PartialEq, Eq)]
pub enum TaskOutcome {
    Finished,
    Failed(String),
}

/// What ended the run of all tasks.
#[derive(Clone, Debug, PartialEq, Eq)]
pub enum RunEnd {
    /// The process was asked to end.
    Signal,
    /// A task ended, though tasks run for as long as the process does.
    Task(TaskOutcome),
}

/// The error with which the end of a run begins.
pub open spec fn first_error(end: RunEnd) -> Option<Seq<char>> {
    match end {
        RunEnd::Signal => None,
        RunEnd::Task(TaskOutcome::Failed(error)) => Some(error@),
        RunEnd::Task(TaskOutcome::Finished) => Some("critical runtime task exited unexpectedly"@),
    }
}

/// The error that remains after a task ended while the others are being awaited:
/// the first one.
pub open spec fn error_after(error: Option<Seq<char>>, outcome: TaskOutcome) -> Option<Seq<char>> {
    match (error, outcome) {
        (Some(first), _) => Some(first),
        (None, TaskOutcome::Failed(later)) => Some(later@),
        (None, TaskOutcome::Finished) => None,
    }
}

/// The error that remains after the first `count` of the other tasks ended.
pub open spec fn errors_after(error: Option<Seq<char>>, outcomes: Seq<TaskOutcome>, count: nat) -> Option<
    Seq<char>,
>
    decreases count,
{
    if count == 0 || count > outcomes.len() {
        error
    } else {
        error_after(errors_after(error, outcomes, (count - 1) as nat), outcomes[count - 1])
    }
}

/// What a run comes to: the first error, or that the tasks did not end in time.
pub open spec fn run_verdict(end: RunEnd, outcomes: Seq<TaskOutcome>, drained: bool) -> Option<
    Seq<char>,
> {
    match errors_after(first_error(end), outcomes, outcomes.len()) {
        Some(error) => Some(error),
        None => if drained {
            None
        } else {
            Some("runtime shutdown deadline exceeded"@)
        },
    }
}

/// What a run comes to, from what ended it, how the other tasks ended, and whether
/// all of them did so in time.
pub fn supervise_verdict(end: RunEnd, outcomes: Vec<TaskOutcome>, drained: bool) -> (error: Option<
    String,
>)
    ensures
        crate::manifest::optional_view(error) == run_verdict(end, outcomes@, drained),
{
    let mut error: Option<String> = match end {
        RunEnd::Signal => None,
        RunEnd::Task(TaskOutcome::Failed(error)) => Some(error),
        RunEnd::Task(TaskOutcome::Finished) => Some(
            "critical runtime task exited unexpectedly".to_owned(),
        ),
    };
    let ghost first = crate::manifest::optional_view(error);
    let mut at: usize = 0;
    while at < outcomes.len()
        invariant
            at <= outcomes@.len(),
            crate::manifest::optional_view(error) == errors_after(first, outcomes@, at as nat),
        decreases outcomes@.len() - at,
    {
        if error.is_none() {
            match &outcomes[at] {
                TaskOutcome::Failed(later) => {
                    error = Some(later.clone());
                },
                TaskOutcome::Finished => {},
            }
        }
        at = at + 1;
    }
    if error.is_none() && !drained {
        return Some("runtime shutdown deadline exceeded".to_owned());
    }
    error
}

proof fn lemma_error_stays(error: Seq<char>, outcomes: Seq<TaskOutcome>, count: nat)
    ensures
        errors_after(Some(error), outcomes, count) == Some(error),
    decreases count,
{
    if count > 0 && count <= outcomes.len() {
        lemma_error_stays(error, outcomes, (count - 1) as nat);
    }
}

proof fn lemma_no_error_means_all_finished(outcomes: Seq<TaskOutcome>, count: nat, at: int)
    requires
        0 <= at < count <= outcomes.len(),
        errors_after(None, outcomes, count) is None,
    ensures
        outcomes[at] is Finished,
    decreases count,
{
    if at < count - 1 {
        lemma_no_error_means_all_finished(outcomes, (count - 1) as nat, at);
    }
}

/// A run comes to no error only where the process was asked to end, every task
/// finished, and all did so in time. Whatever ended a run first is what it comes
/// to, whatever fails later.
pub proof fn law_no_failure_is_hidden(end: RunEnd, outcomes: Seq<TaskOutcome>, drained: bool)
    ensures
        run_verdict(end, outcomes, drained) is None ==> end is Signal && drained && forall|i: int|
            0 <= i < outcomes.len() ==> (#[trigger] outcomes[i]) is Finished,
        first_error(end) matches Some(error) ==> run_verdict(end, outcomes, drained) == Some(error),
{
    if let Some(error) = first_error(end) {
        lemma_error_stays(error, outcomes, outcomes.len());
    } else if run_verdict(end, outcomes, drained) is None {
        assert forall|i: int| 0 <= i < outcomes.len() implies (#[trigger] outcomes[i]) is Finished by {
            lemma_no_error_means_all_finished(outcomes, outcomes.len(), i);
        }
    }
}

} // verus!
