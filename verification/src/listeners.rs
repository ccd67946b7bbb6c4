//! What the process listens on, what it serves there, and for whom.

use crate::auth::{self, CallerRole, TokensView};
use crate::materializer::KubernetesMaterializer;
use crate::net::SocketAddr;
use crate::runtime::{materializer_with_runtime_auth, RuntimeConfig, RuntimeView};
use vstd::prelude::*;
use vstd::string::*;

verus! {

/// How long a call may take, in seconds.
pub const CALL_TIMEOUT_SECONDS: u64 = 10;

/// How many calls one connection may have open.
pub const MAX_CONCURRENT_STREAMS: u32 = 32;

/// How often a quiet connection is asked whether it is there, in seconds.
pub const KEEPALIVE_INTERVAL_SECONDS: u64 = 20;

/// How long a connection has to answer that, in seconds.
pub const KEEPALIVE_TIMEOUT_SECONDS: u64 = 5;

/// A service of the control plane.
#[derive(Clone, Copy, Debug, PartialEq, Eq, Structural)]
pub enum ServedApi {
    Proxy,
    Sidecar,
    Operator,
}

/// What a listener is for.
#[derive(Clone, Copy, Debug, PartialEq, Eq, Structural)]
pub enum ListenerKind {
    /// Workloads in the cluster reach it.
    Workload,
    /// An operator reaches it.
    Operator,
    /// An operator's browser reaches it.
    OperatorWeb,
    /// Metrics are read from it.
    Metrics,
}

/// One listener of the process.
#[derive(Clone, Copy, Debug, PartialEq, Eq, Structural)]
pub struct Listener {
    pub kind: ListenerKind,
    pub address: SocketAddr,
}

/// The services that a listener carries.
pub open spec fn carried(kind: ListenerKind) -> Seq<ServedApi> {
    match kind {
        ListenerKind::Workload => seq![ServedApi::Proxy, ServedApi::Sidecar],
        ListenerKind::Operator => seq![ServedApi::Operator],
        ListenerKind::OperatorWeb => seq![ServedApi::Operator],
        ListenerKind::Metrics => Seq::empty(),
    }
}

/// The services that a listener carries.
pub fn carried_apis(kind: ListenerKind) -> (apis: Vec<ServedApi>)
    ensures
        apis@ == carried(kind),
{
    match kind {
        ListenerKind::Workload => vec![ServedApi::Proxy, ServedApi::Sidecar],
        ListenerKind::Operator => vec![ServedApi::Operator],
        ListenerKind::OperatorWeb => vec![ServedApi::Operator],
        ListenerKind::Metrics => vec![],
    }
}

/// The callers that a service is for.
pub open spec fn role_of(api: ServedApi) -> CallerRole {
    match api {
        ServedApi::Proxy => CallerRole::Proxy,
        ServedApi::Sidecar => CallerRole::Sidecar,
        ServedApi::Operator => CallerRole::Operator,
    }
}

/// The callers that a service is for.
pub fn required_role(api: ServedApi) -> (role: CallerRole)
    ensures
        role == role_of(api),
{
    match api {
        ServedApi::Proxy => CallerRole::Proxy,
        ServedApi::Sidecar => CallerRole::Sidecar,
        ServedApi::Operator => CallerRole::Operator,
    }
}

/// The process encrypts what it says on this listener, where it was given a
/// certificate.
pub open spec fn native(kind: ListenerKind) -> bool {
    kind == ListenerKind::Workload || kind == ListenerKind::Operator
}

/// The process encrypts what it says on this listener, where it was given a
/// certificate.
pub fn is_native(kind: ListenerKind) -> (result: bool)
    ensures
        result == native(kind),
{
    matches!(kind, ListenerKind::Workload | ListenerKind::Operator)
}

/// A listener that is there only when it is asked for.
pub open spec fn asked_for(kind: ListenerKind, address: Option<SocketAddr>) -> Seq<Listener> {
    match address {
        Some(address) => seq![Listener { kind, address }],
        None => Seq::empty(),
    }
}

/// The listeners of a process.
pub open spec fn listeners_of(config: RuntimeView) -> Seq<Listener> {
    seq![
        Listener { kind: ListenerKind::Workload, address: config.listen_addr },
        Listener { kind: ListenerKind::Operator, address: config.operator_listen_addr },
    ] + asked_for(ListenerKind::OperatorWeb, config.operator_grpc_web_listen_addr) + asked_for(
        ListenerKind::Metrics,
        config.metrics_listen_addr,
    )
}

/// The listeners that a process opens, in the order in which it opens them.
pub fn planned_listeners(config: &RuntimeConfig) -> (listeners: Vec<Listener>)
    ensures
        listeners@ == listeners_of(config@),
{
    let mut listeners = vec![
        Listener { kind: ListenerKind::Workload, address: config.listen_addr },
        Listener { kind: ListenerKind::Operator, address: config.operator_listen_addr },
    ];
    if let Some(address) = config.operator_grpc_web_listen_addr {
        listeners.push(Listener { kind: ListenerKind::OperatorWeb, address });
    }
    if let Some(address) = config.metrics_listen_addr {
        listeners.push(Listener { kind: ListenerKind::Metrics, address });
    }
    assert(listeners@ =~= listeners_of(config@));
    listeners
}

/// The operator service stays off the listener that workloads reach, and stands
/// alone on every listener that carries it.
pub proof fn law_operators_are_served_apart(config: RuntimeView, at: int)
    requires
        0 <= at < listeners_of(config).len(),
    ensures
        listeners_of(config)[at].kind == ListenerKind::Workload ==> !carried(
            listeners_of(config)[at].kind,
        ).contains(ServedApi::Operator),
        carried(listeners_of(config)[at].kind).contains(ServedApi::Operator) ==> carried(
            listeners_of(config)[at].kind,
        ) == seq![ServedApi::Operator],
{
    let apis = carried(listeners_of(config)[at].kind);
    if listeners_of(config)[at].kind == ListenerKind::Workload {
        assert(apis[0] != ServedApi::Operator && apis[1] != ServedApi::Operator);
    }
}

/// A token that was accepted opens the service of its own role and no other: no
/// token of a workload opens the operator service.
pub proof fn law_a_token_opens_one_service(tokens: TokensView, left: ServedApi, right: ServedApi)
    requires
        auth::tokens_fault(tokens) is None,
        tokens.of(role_of(left)) == tokens.of(role_of(right)),
    ensures
        left == right,
{
    auth::law_token_tells_the_role(tokens, role_of(left), role_of(right));
}

/// The materializer that the process runs with: sidecars get the token of their
/// role, and the address and the certificate authority that the process is reached
/// with.
pub fn runtime_materializer<C>(
    materializer: KubernetesMaterializer<C>,
    config: &RuntimeConfig,
) -> (ready: KubernetesMaterializer<C>)
    ensures
        ready.client() == materializer.client(),
        ready.token() == (match config@.control_plane.auth {
            Some(tokens) => Some(tokens.sidecar),
            None => None,
        }),
        ready.transport() == (config@.security.public_endpoint, config@.security.ca_pem),
{
    let endpoint = match &config.security.public_endpoint {
        Some(endpoint) => Some(endpoint.as_str().to_owned()),
        None => None,
    };
    let ca_pem = match &config.security.ca_pem {
        Some(ca_pem) => Some(ca_pem.as_str().to_owned()),
        None => None,
    };
    materializer_with_runtime_auth(
        materializer,
        &config.control_plane.auth,
    ).with_sidecar_control_plane_transport(endpoint, ca_pem)
}

} // verus!
