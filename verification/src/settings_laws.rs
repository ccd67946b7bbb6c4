//! How the settings of a process and what it serves hang together.

use crate::auth::{self, CallerRole, TokensView};
use crate::certificate::work::{self, Turn, WorkStage};
use crate::config::{self, PostgresView, SecurityView, StoreProviderName};
use crate::gauges::{self, GaugeView};
use crate::listeners::{self, Listener, ListenerKind, ServedApi};
use crate::materialization::{
    MaterializationBacklogOperationalMetrics, MaterializationHeldKeysOperationalMetrics,
    MaterializationOperationalMetrics, MaterializationState,
};
use crate::manifest::{pod, RenderManifestOptions};
use crate::net;
use crate::runtime::{
    self, DispatchEvent, DispatchState, RunEnd, RuntimeErrorView, RuntimeView, TaskOutcome, ValuesView,
};
use crate::string_map;
use crate::target;
use crate::text;
use vstd::prelude::*;

verus! {

// ---------------------------------------------------------------------------
// Values
// ---------------------------------------------------------------------------
/// A value is taken as it stands; one that is blank is as good as none.
pub proof fn law_a_blank_value_is_none(values: ValuesView, name: Seq<char>)
    ensures
        config::set_value(values, name) is Some <==> string_map::entry_of(values, name) is Some
            && !text::blank(string_map::entry_of(values, name)->Some_0),
        config::set_value(values, name) is Some ==> config::set_value(values, name)
            == string_map::entry_of(values, name),
        runtime::required(values, name) is Ok <==> config::set_value(values, name) is Some,
        runtime::required(values, name) is Ok ==> Some(runtime::required(values, name)->Ok_0)
            == string_map::entry_of(values, name),
        runtime::required(values, name) is Err ==> runtime::required(values, name)->Err_0 == (
        RuntimeErrorView::MissingEnv { name }),
{
}

/// An address is there where it was written, and must be one wherever it was; one that is
/// required must have been.
pub proof fn law_an_address_is_read_where_it_was_written(values: ValuesView, name: Seq<char>)
    ensures
        ({
            let written = config::set_value(values, name);
            let needed = runtime::required_address(values, name);
            let wished = runtime::optional_address(values, name);
            &&& needed is Ok <==> written is Some && net::parsed_socket(written->Some_0) is Some
            &&& needed is Ok ==> Some(needed->Ok_0) == net::parsed_socket(written->Some_0)
            &&& wished is Ok <==> written is None || net::parsed_socket(written->Some_0) is Some
            &&& wished is Ok ==> (wished->Ok_0 is Some <==> written is Some)
            &&& wished is Ok && written is Some ==> wished->Ok_0 == net::parsed_socket(
                written->Some_0,
            )
            &&& written is Some && net::parsed_socket(written->Some_0) is None ==> needed->Err_0
                == (RuntimeErrorView::InvalidListenAddr { name, value: written->Some_0 })
                && wished->Err_0 == needed->Err_0
        }),
{
}

/// A number may be left out; where it is written it is one, above zero and no larger than
/// its limit.
pub proof fn law_a_number_keeps_to_its_limit(values: ValuesView, name: Seq<char>, maximum: nat)
    ensures
        string_map::entry_of(values, name) is None ==> runtime::setting_fits(values, name, maximum)
            && runtime::setting(values, name) is None,
        string_map::entry_of(values, name) is Some ==> runtime::setting(values, name)
            == text::parsed_u64(string_map::entry_of(values, name)->Some_0),
        string_map::entry_of(values, name) is Some ==> (runtime::setting_fits(
            values,
            name,
            maximum,
        ) <==> runtime::setting(values, name) is Some && 1 <= runtime::setting(values, name)->Some_0
            <= maximum && runtime::setting(values, name)->Some_0 <= i64::MAX),
{
}

/// A span is what its setting says, in milliseconds, or what it is where nothing is said.
pub open spec fn follows_span(values: ValuesView, name: Seq<char>, span: nat, otherwise: nat) -> bool {
    match string_map::entry_of(values, name) {
        Some(value) => text::parsed_u64(value) is Some && span == text::parsed_u64(value)->Some_0
            * 1_000_000,
        None => span == otherwise,
    }
}

/// A count is what its setting says, or what it is where nothing is said.
pub open spec fn follows_count(
    values: ValuesView,
    name: Seq<char>,
    count: usize,
    otherwise: usize,
) -> bool {
    match string_map::entry_of(values, name) {
        Some(value) => text::parsed_u64(value) is Some && count == text::parsed_u64(value)->Some_0,
        None => count == otherwise,
    }
}

/// Every limit of the API follows its own setting, and is otherwise what is good for most.
pub proof fn law_every_limit_follows_its_setting(values: ValuesView)
    requires
        runtime::limits_outcome(values) is Ok,
    ensures
        ({
            let limits = runtime::limits_outcome(values)->Ok_0;
            let second: nat = 1_000_000_000;
            &&& follows_count(
                values,
                "SLEEPYPODS_CONTROL_PLANE_MAX_CONNECTIONS"@,
                limits.accepted_connections,
                256,
            )
            &&& follows_count(
                values,
                "SLEEPYPODS_CONTROL_PLANE_MAX_RPCS"@,
                limits.rpc_concurrency,
                128,
            )
            &&& follows_count(
                values,
                "SLEEPYPODS_CONTROL_PLANE_MAX_SUBSCRIPTION_STREAMS"@,
                limits.subscription_streams,
                64,
            )
            &&& follows_count(
                values,
                "SLEEPYPODS_CONTROL_PLANE_MAX_SUBSCRIPTIONS_PER_STREAM"@,
                limits.subscriptions_per_stream,
                256,
            )
            &&& follows_span(
                values,
                "SLEEPYPODS_CONTROL_PLANE_UNARY_DELIVERY_TIMEOUT_MS"@,
                limits.unary_delivery_timeout,
                5 * second,
            )
            &&& follows_span(
                values,
                "SLEEPYPODS_CONTROL_PLANE_SETUP_TIMEOUT_MS"@,
                limits.setup_timeout,
                5 * second,
            )
            &&& follows_span(
                values,
                "SLEEPYPODS_CONTROL_PLANE_WRITE_TIMEOUT_MS"@,
                limits.write_timeout,
                5 * second,
            )
            &&& follows_span(
                values,
                "SLEEPYPODS_CONTROL_PLANE_LOOKUP_TIMEOUT_MS"@,
                limits.lookup_timeout,
                3 * second,
            )
            &&& follows_span(
                values,
                "SLEEPYPODS_CONTROL_PLANE_RESPONSE_TIMEOUT_MS"@,
                limits.response_timeout,
                second,
            )
            &&& follows_span(
                values,
                "SLEEPYPODS_CONTROL_PLANE_SUBSCRIPTION_LIFETIME_MS"@,
                limits.subscription_lifetime,
                60 * second,
            )
            &&& follows_span(
                values,
                "SLEEPYPODS_CONTROL_PLANE_POSITIVE_ROUTE_CACHE_TTL_MS"@,
                limits.positive_route_cache_ttl,
                120 * second,
            )
        }),
{
}

/// Everything about the database follows its own setting, and is otherwise what is good
/// for most.
pub proof fn law_the_database_follows_its_settings(values: ValuesView, url: Seq<char>)
    requires
        runtime::postgres_outcome(values, url) is Ok,
    ensures
        ({
            let store = runtime::postgres_outcome(values, url)->Ok_0;
            let second: nat = 1_000_000_000;
            let retention = string_map::entry_of(
                values,
                "SLEEPYPODS_POSTGRES_IDEMPOTENCY_RETENTION_MS"@,
            );
            &&& store.url == url
            &&& follows_count(
                values,
                "SLEEPYPODS_POSTGRES_MAX_CONNECTIONS"@,
                store.max_connections,
                16,
            )
            &&& follows_span(
                values,
                "SLEEPYPODS_OPERATION_TIMEOUT_MS"@,
                store.operation_timeout,
                30 * second,
            )
            &&& follows_span(
                values,
                "SLEEPYPODS_POSTGRES_POOL_WAIT_TIMEOUT_MS"@,
                store.pool_wait_timeout,
                5 * second,
            )
            &&& follows_span(
                values,
                "SLEEPYPODS_POSTGRES_CONNECTION_TIMEOUT_MS"@,
                store.connection_timeout,
                5 * second,
            )
            &&& follows_span(
                values,
                "SLEEPYPODS_POSTGRES_STATEMENT_TIMEOUT_MS"@,
                store.statement_timeout,
                30 * second,
            )
            &&& store.idempotency_retention is Some <==> retention is Some
            &&& retention is Some ==> text::parsed_u64(retention->Some_0) is Some
                && store.idempotency_retention->Some_0 == text::parsed_u64(retention->Some_0)->Some_0
                * 1_000_000
        }),
{
}

/// The settings of the database are within limits exactly where there are 1 to 1024
/// connections, every span is above zero and no longer than a day, and what is kept of
/// requests is kept for no longer than a year.
pub proof fn law_the_database_keeps_within_limits(store: PostgresView)
    ensures
        ({
            let day: nat = 24 * 60 * 60 * 1_000_000_000;
            config::setting_out_of_limits(store) is None <==> {
                &&& 1 <= store.max_connections <= 1024
                &&& 0 < store.operation_timeout <= day
                &&& 0 < store.pool_wait_timeout <= day
                &&& 0 < store.connection_timeout <= day
                &&& 0 < store.statement_timeout <= day
                &&& store.idempotency_retention is Some ==> 0
                    < store.idempotency_retention->Some_0 <= 365 * day
            }
        }),
{
}

/// The store is the one that is known by its name, at the address that was set.
pub proof fn law_the_store_is_known_by_name(values: ValuesView, word: Seq<char>)
    ensures
        config::named_provider(word) == Some(StoreProviderName::Postgres) <==> word == "postgres"@,
        runtime::store_outcome(values) is Ok ==> config::set_value(
            values,
            "SLEEPYPODS_STORE_PROVIDER"@,
        ) == Some("postgres"@),
        runtime::store_outcome(values) is Ok ==> config::set_value(
            values,
            "SLEEPYPODS_POSTGRES_URL"@,
        ) == Some(runtime::store_outcome(values)->Ok_0.url),
{
}

/// A process that starts listens where it was told to, serves the target it was told and
/// knows each caller by the token that was set for them.
pub proof fn law_a_process_does_as_it_is_told(values: ValuesView)
    requires
        runtime::runtime_outcome(values) is Ok,
    ensures
        ({
            let view = runtime::runtime_outcome(values)->Ok_0;
            let workload = config::set_value(values, "SLEEPYPODS_CONTROL_PLANE_LISTEN_ADDR"@);
            let operator = config::set_value(
                values,
                "SLEEPYPODS_CONTROL_PLANE_OPERATOR_LISTEN_ADDR"@,
            );
            let web = config::set_value(values, "SLEEPYPODS_OPERATOR_GRPC_WEB_LISTEN_ADDR"@);
            let metrics = config::set_value(
                values,
                "SLEEPYPODS_CONTROL_PLANE_METRICS_LISTEN_ADDR"@,
            );
            let tokens = view.control_plane.auth;
            &&& workload is Some && net::parsed_socket(workload->Some_0) == Some(view.listen_addr)
            &&& operator is Some && net::parsed_socket(operator->Some_0) == Some(
                view.operator_listen_addr,
            )
            &&& view.operator_grpc_web_listen_addr is Some <==> web is Some
            &&& web is Some ==> net::parsed_socket(web->Some_0)
                == view.operator_grpc_web_listen_addr
            &&& view.metrics_listen_addr is Some <==> metrics is Some
            &&& metrics is Some ==> net::parsed_socket(metrics->Some_0) == view.metrics_listen_addr
            &&& config::set_value(values, "SLEEPYPODS_CLUSTER_ID"@) == Some(view.target.cluster_id)
            &&& config::set_value(values, "SLEEPYPODS_NAMESPACE"@) == Some(view.target.namespace)
            &&& config::set_value(values, "SLEEPYPODS_POSTGRES_URL"@) == Some(
                view.control_plane.store.url,
            )
            &&& tokens is Some ==> config::set_value(
                values,
                "SLEEPYPODS_CONTROL_PLANE_OPERATOR_TOKEN"@,
            ) == Some(tokens->Some_0.of(CallerRole::Operator))
            &&& tokens is Some ==> config::set_value(
                values,
                "SLEEPYPODS_CONTROL_PLANE_PROXY_TOKEN"@,
            ) == Some(tokens->Some_0.of(CallerRole::Proxy))
            &&& tokens is Some ==> config::set_value(
                values,
                "SLEEPYPODS_CONTROL_PLANE_SIDECAR_TOKEN"@,
            ) == Some(tokens->Some_0.of(CallerRole::Sidecar))
            &&& Ok::<_, RuntimeErrorView>(view.api_limits) == runtime::limits_outcome(values)
            &&& Ok::<_, RuntimeErrorView>(view.control_plane.store) == runtime::store_outcome(values)
            &&& Ok::<_, RuntimeErrorView>(tokens) == runtime::auth_outcome(values)
        }),
{
}

/// Callers are known by tokens, or not at all, exactly as the mode says; no other mode is
/// one, and tokens that do not tell callers apart are none.
pub proof fn law_the_mode_says_how_callers_are_known(values: ValuesView, mode: Seq<char>)
    requires
        config::set_value(values, "SLEEPYPODS_CONTROL_PLANE_AUTH_MODE"@) == Some(mode),
    ensures
        ({
            let word = text::ascii_small(text::trimmed(mode));
            let known = runtime::auth_outcome(values);
            &&& word == "no-auth"@ ==> known is Ok && known->Ok_0 is None
            &&& word == "static-bearer-token"@ || word == "static-bearer-tokens"@ ==> known is Err
                || known->Ok_0 is Some
            &&& word != "no-auth"@ && word != "static-bearer-token"@ && word
                != "static-bearer-tokens"@ ==> known->Err_0 == (RuntimeErrorView::InvalidAuthMode {
                value: mode,
            })
            &&& known is Ok && known->Ok_0 is Some ==> auth::tokens_fault(known->Ok_0->Some_0)
                is None
        }),
{
    reveal_strlit("no-auth");
    reveal_strlit("static-bearer-token");
    reveal_strlit("static-bearer-tokens");
    assert("no-auth"@.len() != "static-bearer-token"@.len());
    assert("no-auth"@.len() != "static-bearer-tokens"@.len());
}

/// What keeps connections safe stands where it was set.
pub proof fn law_security_follows_its_settings(values: ValuesView)
    ensures
        ({
            let security = config::security_of(values);
            &&& security.cert_file == config::set_value(
                values,
                "SLEEPYPODS_CONTROL_PLANE_TLS_CERT_FILE"@,
            )
            &&& security.key_file == config::set_value(
                values,
                "SLEEPYPODS_CONTROL_PLANE_TLS_KEY_FILE"@,
            )
            &&& security.public_endpoint == config::set_value(
                values,
                "SLEEPYPODS_CONTROL_PLANE_PUBLIC_ENDPOINT"@,
            )
            &&& security.ca_pem == config::set_value(
                values,
                "SLEEPYPODS_CONTROL_PLANE_TLS_CA_PEM"@,
            )
            &&& security.sealing_keys_file == config::set_value(
                values,
                "SLEEPYPODS_CERTIFICATE_SEALING_KEYS_FILE"@,
            )
        }),
{
}

/// Connections are kept safe by all of it or none; the endpoint is then a safe one; and
/// certificates are handed out only over safe connections to callers that are known, by a
/// process with a connection to spare.
pub proof fn law_certificates_go_over_safe_connections(
    values: ValuesView,
    security: SecurityView,
    authenticated: bool,
    max_connections: usize,
)
    ensures
        config::security_fault(security, authenticated) is None <==> {
            &&& security.cert_file is Some <==> security.key_file is Some
            &&& security.cert_file is Some <==> security.public_endpoint is Some
            &&& security.public_endpoint is Some ==> text::opens_with(
                security.public_endpoint->Some_0,
                "https://"@,
            )
            &&& security.sealing_keys_file is Some ==> security.cert_file is Some && authenticated
        },
        runtime::security_outcome(values, authenticated, max_connections) is Ok <==> {
            &&& config::security_fault(config::security_of(values), authenticated) is None
            &&& config::security_of(values).sealing_keys_file is Some ==> max_connections >= 2
        },
        runtime::security_outcome(values, authenticated, max_connections) is Ok
            ==> runtime::security_outcome(values, authenticated, max_connections)->Ok_0
            == config::security_of(values),
{
}

// ---------------------------------------------------------------------------
// Callers and listeners
// ---------------------------------------------------------------------------
/// A token is at least one character, each of them one that can be seen and sent.
pub proof fn law_a_token_can_be_sent(secret: Seq<char>)
    ensures
        auth::bearer_token(secret) <==> secret.len() > 0 && forall|i: int|
            0 <= i < secret.len() ==> '!' <= #[trigger] secret[i] <= '~',
{
}

/// Three tokens are taken exactly where each can be sent and no two are the same.
pub proof fn law_tokens_are_apart(tokens: TokensView)
    ensures
        auth::tokens_fault(tokens) is None <==> {
            &&& auth::bearer_token(tokens.of(CallerRole::Operator))
            &&& auth::bearer_token(tokens.of(CallerRole::Proxy))
            &&& auth::bearer_token(tokens.of(CallerRole::Sidecar))
            &&& tokens.of(CallerRole::Operator) != tokens.of(CallerRole::Proxy)
            &&& tokens.of(CallerRole::Operator) != tokens.of(CallerRole::Sidecar)
            &&& tokens.of(CallerRole::Proxy) != tokens.of(CallerRole::Sidecar)
        },
        auth::tokens_fault(tokens) is Some && auth::tokens_fault(tokens)->Some_0 is InvalidToken
            ==> !auth::bearer_token(tokens.of(auth::tokens_fault(tokens)->Some_0->role)),
        auth::tokens_fault(tokens) is Some && auth::tokens_fault(tokens)->Some_0 is DuplicateToken
            ==> ({
            let fault = auth::tokens_fault(tokens)->Some_0;
            &&& fault->first != fault->second
            &&& tokens.of(fault->first) == tokens.of(fault->second)
        }),
{
}

/// Callers are named in these words.
pub proof fn law_callers_have_their_words(role: CallerRole)
    ensures
        role == CallerRole::Operator ==> auth::role_word(role) == "operator"@,
        role == CallerRole::Proxy ==> auth::role_word(role) == "proxy"@,
        role == CallerRole::Sidecar ==> auth::role_word(role) == "sidecar"@,
{
}

/// Each service is for the callers it is named after, and is carried by the listeners that
/// they reach and by no other.
pub proof fn law_services_are_for_their_callers(api: ServedApi, kind: ListenerKind)
    ensures
        listeners::role_of(api) == CallerRole::Proxy <==> api == ServedApi::Proxy,
        listeners::role_of(api) == CallerRole::Sidecar <==> api == ServedApi::Sidecar,
        listeners::role_of(api) == CallerRole::Operator <==> api == ServedApi::Operator,
        listeners::carried(kind).contains(api) <==> {
            ||| kind == ListenerKind::Workload && api != ServedApi::Operator
            ||| (kind == ListenerKind::Operator || kind == ListenerKind::OperatorWeb) && api
                == ServedApi::Operator
        },
        listeners::native(kind) <==> kind != ListenerKind::OperatorWeb && kind
            != ListenerKind::Metrics,
{
    let carried = listeners::carried(kind);
    assert(kind == ListenerKind::Workload ==> carried[0] == ServedApi::Proxy && carried[1]
        == ServedApi::Sidecar);
    assert(kind == ListenerKind::Operator || kind == ListenerKind::OperatorWeb ==> carried[0]
        == ServedApi::Operator);
}

/// A process listens at the two addresses it must have, and at each of the other two where
/// it was given; each address carries what it was given for.
pub proof fn law_every_address_is_listened_at(config: RuntimeView, listener: Listener)
    ensures
        listeners::listeners_of(config).contains(listener) <==> {
            ||| listener == Listener { kind: ListenerKind::Workload, address: config.listen_addr }
            ||| listener == Listener {
                kind: ListenerKind::Operator,
                address: config.operator_listen_addr,
            }
            ||| config.operator_grpc_web_listen_addr is Some && listener == Listener {
                kind: ListenerKind::OperatorWeb,
                address: config.operator_grpc_web_listen_addr->Some_0,
            }
            ||| config.metrics_listen_addr is Some && listener == Listener {
                kind: ListenerKind::Metrics,
                address: config.metrics_listen_addr->Some_0,
            }
        },
{
    let all = listeners::listeners_of(config);
    let web = listeners::asked_for(
        ListenerKind::OperatorWeb,
        config.operator_grpc_web_listen_addr,
    );
    assert(all[0] == Listener { kind: ListenerKind::Workload, address: config.listen_addr });
    assert(all[1] == Listener {
        kind: ListenerKind::Operator,
        address: config.operator_listen_addr,
    });
    if let Some(address) = config.operator_grpc_web_listen_addr {
        assert(all[2] == Listener { kind: ListenerKind::OperatorWeb, address });
    }
    if let Some(address) = config.metrics_listen_addr {
        assert(all[2 + web.len() as int] == Listener { kind: ListenerKind::Metrics, address });
    }
}

/// A target is taken exactly where both its parts are said, and the first that is not is
/// named.
pub proof fn law_a_target_says_both_its_parts(cluster_id: Seq<char>, namespace: Seq<char>)
    ensures
        target::lacking_field(cluster_id, namespace) is None <==> !text::blank(cluster_id)
            && !text::blank(namespace),
        text::blank(cluster_id) ==> target::lacking_field(cluster_id, namespace) == Some(
            "cluster_id"@,
        ),
        !text::blank(cluster_id) && text::blank(namespace) ==> target::lacking_field(
            cluster_id,
            namespace,
        ) == Some("namespace"@),
{
}

// ---------------------------------------------------------------------------
// Tasks
// ---------------------------------------------------------------------------
/// What is passed on follows what was read: the place moves to what was read and stays
/// where reading failed, failures count up and a success clears them, changes are passed on
/// exactly where they were read, and the fifth failure in a row is the last.
pub proof fn law_changes_are_passed_on_as_read(state: DispatchState, event: DispatchEvent)
    requires
        state.failures < u32::MAX,
    ensures
        ({
            let step = runtime::dispatched(state, event);
            &&& event is Failed ==> step.state.cursor == state.cursor && step.state.failures
                == state.failures + 1
            &&& event !is Failed ==> step.state.failures == 0
            &&& event is Revision ==> step.state.cursor == Some(event->Revision_0) && !step.reset
            &&& event is Changes ==> step.state.cursor == Some(event->cursor) && step.reset
                == event->reset
            &&& step.publish <==> event is Changes
            &&& step.stop <==> event is Failed && state.failures + 1 >= 5
        }),
{
}

/// A run ends with the first thing that went wrong, and well exactly where nothing did and
/// everything came to its end in time.
pub proof fn law_a_run_ends_with_its_first_error(
    end: RunEnd,
    outcomes: Seq<TaskOutcome>,
    drained: bool,
    at: int,
)
    ensures
        end is Task && end->Task_0 is Failed ==> runtime::run_verdict(end, outcomes, drained)
            == Some(end->Task_0->Failed_0@),
        end is Task && end->Task_0 is Finished ==> runtime::run_verdict(end, outcomes, drained)
            is Some,
        end is Signal && 0 <= at < outcomes.len() && outcomes[at] is Failed && (forall|earlier: int|
            0 <= earlier < at ==> #[trigger] outcomes[earlier] is Finished) ==> runtime::run_verdict(
            end,
            outcomes,
            drained,
        ) == Some(outcomes[at]->Failed_0@),
        end is Signal && (forall|i: int|
            0 <= i < outcomes.len() ==> #[trigger] outcomes[i] is Finished) ==> (
        runtime::run_verdict(end, outcomes, drained) is None <==> drained),
{
    if end is Task {
        lemma_first_error_stays(runtime::first_error(end)->Some_0, outcomes, 0, outcomes.len(), end);
    } else {
        if 0 <= at < outcomes.len() && outcomes[at] is Failed && (forall|earlier: int|
            0 <= earlier < at ==> #[trigger] outcomes[earlier] is Finished) {
            lemma_all_well(outcomes, at as nat);
            lemma_first_error_stays(
                outcomes[at]->Failed_0@,
                outcomes,
                (at + 1) as nat,
                outcomes.len(),
                end,
            );
        }
        if forall|i: int| 0 <= i < outcomes.len() ==> #[trigger] outcomes[i] is Finished {
            lemma_all_well(outcomes, outcomes.len());
        }
    }
}

proof fn lemma_all_well(outcomes: Seq<TaskOutcome>, count: nat)
    requires
        count <= outcomes.len(),
        forall|i: int| 0 <= i < count ==> #[trigger] outcomes[i] is Finished,
    ensures
        runtime::errors_after(None, outcomes, count) is None,
    decreases count,
{
    if count > 0 {
        lemma_all_well(outcomes, (count - 1) as nat);
        assert(outcomes[count - 1] is Finished);
    }
}

proof fn lemma_first_error_stays(
    error: Seq<char>,
    outcomes: Seq<TaskOutcome>,
    count: nat,
    more: nat,
    end: RunEnd,
)
    requires
        count <= more <= outcomes.len(),
        runtime::errors_after(runtime::first_error(end), outcomes, count) == Some(error),
    ensures
        runtime::errors_after(runtime::first_error(end), outcomes, more) == Some(error),
    decreases more,
{
    if count < more {
        lemma_first_error_stays(error, outcomes, count, (more - 1) as nat, end);
    }
}

// ---------------------------------------------------------------------------
// Work on certificates
// ---------------------------------------------------------------------------
/// Work on certificates gets all connections but one, and never more than four.
pub proof fn law_certificates_leave_a_connection(database_capacity: usize)
    ensures
        work::operation_capacity(database_capacity) <= 4,
        database_capacity > 0 ==> work::operation_capacity(database_capacity) < database_capacity,
        work::operation_capacity(database_capacity) == 4 || work::operation_capacity(
            database_capacity,
        ) + 1 == database_capacity || database_capacity == 0,
{
}

/// Work goes on exactly where it was its turn, and otherwise says what it had to wait for.
pub proof fn law_work_waits_for_its_turn(stage: WorkStage, turn: Turn)
    ensures
        work::refusal(stage, turn) is None <==> turn == Turn::Granted,
        stage == WorkStage::Operation && turn != Turn::Granted ==> work::refusal(stage, turn)
            == Some("certificate work capacity exhausted"@),
        stage == WorkStage::Crypto && turn != Turn::Granted ==> work::refusal(stage, turn) == Some(
            "certificate crypto capacity exhausted"@,
        ),
        stage == WorkStage::WatchAdmission && turn != Turn::Granted ==> work::refusal(stage, turn)
            == Some("certificate watch admission capacity exhausted"@),
        stage == WorkStage::WatchTurn && turn == Turn::TimedOut ==> work::refusal(stage, turn)
            == Some("certificate watch admission deadline elapsed"@),
        stage == WorkStage::WatchTurn && turn == Turn::Exhausted ==> work::refusal(stage, turn)
            == Some("certificate watch admission closed"@),
{
}

// ---------------------------------------------------------------------------
// What is shown of the work
// ---------------------------------------------------------------------------
/// Everything that was counted is shown: open changes, blocked failures, and of every state
/// how many wait, for how long the oldest has, and how many keys are held.
pub proof fn law_everything_counted_is_shown(
    metrics: MaterializationOperationalMetrics,
    waiting: int,
    held: int,
)
    ensures
        ({
            let shown = gauges::gauges_of(Some(metrics));
            &&& shown.contains(GaugeView::UncertainEffects { count: metrics.uncertain_effects })
            &&& shown.contains(GaugeView::BlockedFailures { count: metrics.blocked_failures })
            &&& 0 <= waiting < metrics.backlog_states@.len() ==> {
                let row = metrics.backlog_states@[waiting];
                &&& shown.contains(GaugeView::Nonterminal { state: row.state, count: row.count })
                &&& row.oldest_age is Some ==> shown.contains(
                    GaugeView::OldestAge { state: row.state, age: row.oldest_age->Some_0@ },
                )
                &&& row.oldest_age is None ==> shown.contains(
                    GaugeView::OldestAge { state: row.state, age: 0 },
                )
            }
            &&& 0 <= held < metrics.held_key_states@.len() ==> shown.contains(
                GaugeView::KeysHeld {
                    state: metrics.held_key_states@[held].state,
                    count: metrics.held_key_states@[held].exclusivity_keys_held,
                },
            )
        }),
{
    let shown = gauges::gauges_of(Some(metrics));
    let zero = gauges::zero_gauges();
    let backlog = gauges::backlog_gauges(
        metrics.backlog_states@,
        metrics.backlog_states@.len(),
    );
    let keys = gauges::held_key_gauges(metrics.held_key_states@, metrics.held_key_states@.len());
    assert(shown[8] == GaugeView::UncertainEffects { count: metrics.uncertain_effects });
    assert(shown[9] == GaugeView::BlockedFailures { count: metrics.blocked_failures });
    if 0 <= waiting < metrics.backlog_states@.len() {
        lemma_backlog_place(metrics.backlog_states@, metrics.backlog_states@.len(), waiting);
        assert(shown[10 + 2 * waiting] == backlog[2 * waiting]);
        assert(shown[11 + 2 * waiting] == backlog[2 * waiting + 1]);
    }
    if 0 <= held < metrics.held_key_states@.len() {
        lemma_held_place(metrics.held_key_states@, metrics.held_key_states@.len(), held);
        assert(shown[10 + backlog.len() as int + held] == keys[held]);
    }
}

proof fn lemma_backlog_place(
    states: Seq<MaterializationBacklogOperationalMetrics>,
    count: nat,
    at: int,
)
    requires
        count <= states.len(),
    ensures
        gauges::backlog_gauges(states, count).len() == 2 * count,
        0 <= at < count ==> gauges::backlog_gauges(states, count)[2 * at] == (
        GaugeView::Nonterminal { state: states[at].state, count: states[at].count }),
        0 <= at < count ==> gauges::backlog_gauges(states, count)[2 * at + 1] == (
        GaugeView::OldestAge {
            state: states[at].state,
            age: match states[at].oldest_age {
                Some(age) => age@,
                None => 0,
            },
        }),
    decreases count,
{
    if count > 0 {
        lemma_backlog_place(states, (count - 1) as nat, at);
    }
}

proof fn lemma_held_place(
    states: Seq<MaterializationHeldKeysOperationalMetrics>,
    count: nat,
    at: int,
)
    requires
        count <= states.len(),
    ensures
        gauges::held_key_gauges(states, count).len() == count,
        0 <= at < count ==> gauges::held_key_gauges(states, count)[at] == (GaugeView::KeysHeld {
            state: states[at].state,
            count: states[at].exclusivity_keys_held,
        }),
    decreases count,
{
    if count > 0 {
        lemma_held_place(states, (count - 1) as nat, at);
    }
}

// ---------------------------------------------------------------------------
// Sentences
// ---------------------------------------------------------------------------
/// What is wrong with the settings is said with the name of the setting or with the value
/// that is wrong.
pub proof fn law_a_wrong_setting_is_named(name: Seq<char>, value: Seq<char>)
    ensures
        runtime::runtime_error_text(RuntimeErrorView::MissingEnv { name }) == name
            + " is required"@,
        runtime::runtime_error_text(RuntimeErrorView::InvalidSecurity(value)) == value,
        runtime::runtime_error_text(RuntimeErrorView::InvalidListenAddr { name, value }) == name
            + " value "@ + text::quoted_text(value)
            + " is not a valid listen address: invalid socket address syntax"@,
        runtime::runtime_error_text(RuntimeErrorView::InvalidStoreProvider { value })
            == "SLEEPYPODS_STORE_PROVIDER"@ + " value "@ + text::quoted_text(value)
            + " is not supported"@,
        runtime::runtime_error_text(RuntimeErrorView::InvalidAuthMode { value })
            == "SLEEPYPODS_CONTROL_PLANE_AUTH_MODE"@ + " value "@ + text::quoted_text(value)
            + " is not supported"@,
        runtime::runtime_error_text(RuntimeErrorView::InvalidMaterializationTarget(name)) == name
            + " must not be empty"@,
        runtime::runtime_error_text(RuntimeErrorView::InvalidPostgresSetting { name }) == name
            + " must be a positive integer within the documented Postgres setting limits"@,
{
}

/// A sidecar is told what the materializer was given: the token, the address and the
/// authority, each where there is one.
pub proof fn law_options_are_passed_on(options: RenderManifestOptions<'_>)
    ensures
        ({
            let view = pod::options_view(options);
            &&& view.token is Some <==> options.sidecar_control_plane_token is Some
            &&& view.token is Some ==> view.token->Some_0
                == options.sidecar_control_plane_token->Some_0@
            &&& view.endpoint is Some <==> options.sidecar_control_plane_endpoint is Some
            &&& view.endpoint is Some ==> view.endpoint->Some_0
                == options.sidecar_control_plane_endpoint->Some_0@
            &&& view.ca is Some <==> options.sidecar_control_plane_ca is Some
            &&& view.ca is Some ==> view.ca->Some_0 == options.sidecar_control_plane_ca->Some_0@
        }),
{
}

/// Pairs of names and values make a map in which each name has the value it was given last.
pub proof fn law_the_last_value_counts(pairs: ValuesView, name: Seq<char>, value: Seq<char>, other: Seq<char>)
    ensures
        string_map::entry_of(string_map::entries_from(pairs.push((name, value))), name) == Some(
            value,
        ),
        other != name ==> string_map::entry_of(
            string_map::entries_from(pairs.push((name, value))),
            other,
        ) == string_map::entry_of(string_map::entries_from(pairs), other),
        string_map::entry_of(string_map::entries_from(Seq::<(Seq<char>, Seq<char>)>::empty()), other)
            is None,
{
    broadcast use string_map::lemma_entry_of_with_entry;

    assert(pairs.push((name, value)).drop_last() =~= pairs);
}

/// Before anything was counted everything shown is zero: what waits and how long, for what
/// waits to wake and to go, and the keys that are held in any state but the last.
pub proof fn law_nothing_counted_shows_zero(at: int, state: MaterializationState)
    ensures
        ({
            let shown = gauges::gauges_of(None);
            let waits = state == MaterializationState::Pending || state
                == MaterializationState::Deleting;
            &&& 0 <= at < shown.len() ==> (shown[at] is Nonterminal && shown[at]->Nonterminal_count
                == 0) || (shown[at] is OldestAge && shown[at]->age == 0) || (shown[at] is KeysHeld
                && shown[at]->KeysHeld_count == 0)
            &&& shown.contains(GaugeView::Nonterminal { state, count: 0 }) <==> waits
            &&& shown.contains(GaugeView::OldestAge { state, age: 0 }) <==> waits
            &&& shown.contains(GaugeView::KeysHeld { state, count: 0 }) <==> state
                != MaterializationState::Deleted
        }),
{
    let shown = gauges::gauges_of(None);
    assert(shown[0] == GaugeView::Nonterminal { state: MaterializationState::Pending, count: 0 });
    assert(shown[1] == GaugeView::OldestAge { state: MaterializationState::Pending, age: 0 });
    assert(shown[2] == GaugeView::Nonterminal { state: MaterializationState::Deleting, count: 0 });
    assert(shown[3] == GaugeView::OldestAge { state: MaterializationState::Deleting, age: 0 });
    assert(shown[4] == GaugeView::KeysHeld { state: MaterializationState::Pending, count: 0 });
    assert(shown[5] == GaugeView::KeysHeld { state: MaterializationState::Ready, count: 0 });
    assert(shown[6] == GaugeView::KeysHeld { state: MaterializationState::Failed, count: 0 });
    assert(shown[7] == GaugeView::KeysHeld { state: MaterializationState::Deleting, count: 0 });
}

} // verus!
