//! Which calls are let in, and for how long.

use super::status::{self, ApiStatus, StatusCode, StatusView};
use crate::certificate::work::WATCH_STREAMS;
use crate::duration::{Duration, NANOS_PER_SEC};
use crate::manifest;
use crate::text::{self, ends_with, same_text, starts_with};
use vstd::prelude::*;

verus! {

/// How much the control plane takes on.
#[derive(Clone, Debug, PartialEq, Eq)]
pub struct ApiLimits {
    pub rpc_concurrency: usize,
    pub accepted_connections: usize,
    pub setup_timeout: Duration,
    pub write_timeout: Duration,
    pub unary_delivery_timeout: Duration,
    pub subscription_streams: usize,
    pub subscriptions_per_stream: usize,
    pub subscription_lifetime: Duration,
    pub lookup_timeout: Duration,
    pub response_timeout: Duration,
    /// Positive route cache lifetime handed to proxies. Subscription
    /// invalidations are the primary freshness mechanism; this is the bound on
    /// how long a dropped event can go unnoticed. It outlives
    /// `subscription_lifetime`, because a proxy carries cached answers across an
    /// orderly stream rotation and registers them on the replacement stream.
    pub positive_route_cache_ttl: Duration,
}

/// The mathematical model of [`ApiLimits`]: spans in nanoseconds.
#[verifier::ext_equal]
pub struct ApiLimitsView {
    pub rpc_concurrency: usize,
    pub accepted_connections: usize,
    pub setup_timeout: nat,
    pub write_timeout: nat,
    pub unary_delivery_timeout: nat,
    pub subscription_streams: usize,
    pub subscriptions_per_stream: usize,
    pub subscription_lifetime: nat,
    pub lookup_timeout: nat,
    pub response_timeout: nat,
    pub positive_route_cache_ttl: nat,
}

impl View for ApiLimits {
    type V = ApiLimitsView;

    open spec fn view(&self) -> ApiLimitsView {
        ApiLimitsView {
            rpc_concurrency: self.rpc_concurrency,
            accepted_connections: self.accepted_connections,
            setup_timeout: self.setup_timeout@,
            write_timeout: self.write_timeout@,
            unary_delivery_timeout: self.unary_delivery_timeout@,
            subscription_streams: self.subscription_streams,
            subscriptions_per_stream: self.subscriptions_per_stream,
            subscription_lifetime: self.subscription_lifetime@,
            lookup_timeout: self.lookup_timeout@,
            response_timeout: self.response_timeout@,
            positive_route_cache_ttl: self.positive_route_cache_ttl@,
        }
    }
}

/// So many seconds.
pub open spec fn seconds(count: nat) -> nat {
    count * NANOS_PER_SEC as nat
}

/// What the control plane takes on where nothing else is set.
pub open spec fn default_limits() -> ApiLimitsView {
    ApiLimitsView {
        rpc_concurrency: 128,
        accepted_connections: 256,
        setup_timeout: seconds(5),
        write_timeout: seconds(5),
        unary_delivery_timeout: seconds(5),
        subscription_streams: 64,
        subscriptions_per_stream: 256,
        subscription_lifetime: seconds(60),
        lookup_timeout: seconds(3),
        response_timeout: seconds(1),
        positive_route_cache_ttl: seconds(120),
    }
}

impl Default for ApiLimits {
    fn default() -> (limits: ApiLimits)
        ensures
            limits@ == default_limits(),
            limits@.positive_route_cache_ttl > limits@.subscription_lifetime,
    {
        ApiLimits {
            rpc_concurrency: 128,
            accepted_connections: 256,
            setup_timeout: Duration::from_secs(5),
            write_timeout: Duration::from_secs(5),
            unary_delivery_timeout: Duration::from_secs(5),
            subscription_streams: 64,
            subscriptions_per_stream: 256,
            subscription_lifetime: Duration::from_secs(60),
            lookup_timeout: Duration::from_secs(3),
            response_timeout: Duration::from_secs(1),
            positive_route_cache_ttl: Duration::from_secs(120),
        }
    }
}

/// The path of the call that watches certificates.
pub const WATCH_CERTIFICATES_PATH: &'static str =
    "/sleepypods.controlplane.v1.ProxyControlPlane/WatchTlsCertificates";

/// A call is about certificates.
pub open spec fn about_certificates(path: Seq<char>) -> bool {
    ||| path == "/sleepypods.controlplane.v1.OperatorControlPlane/PublishCertificate"@
    ||| path == "/sleepypods.controlplane.v1.OperatorControlPlane/GetCertificateMetadata"@
    ||| path == "/sleepypods.controlplane.v1.OperatorControlPlane/SetTlsBinding"@
    ||| path == "/sleepypods.controlplane.v1.OperatorControlPlane/GetTlsBinding"@
    ||| path == "/sleepypods.controlplane.v1.OperatorControlPlane/RemoveCertificate"@
    ||| path == "/sleepypods.controlplane.v1.OperatorControlPlane/ReencryptCertificate"@
    ||| path == "/sleepypods.controlplane.v1.ProxyControlPlane/ResolveTlsCertificate"@
    ||| path == WATCH_CERTIFICATES_PATH@
}

/// Whether a call is about certificates.
pub fn certificate_method(path: &str) -> (result: bool)
    ensures
        result == about_certificates(path@),
{
    same_text(path, "/sleepypods.controlplane.v1.OperatorControlPlane/PublishCertificate")
        || same_text(
        path,
        "/sleepypods.controlplane.v1.OperatorControlPlane/GetCertificateMetadata",
    ) || same_text(path, "/sleepypods.controlplane.v1.OperatorControlPlane/SetTlsBinding")
        || same_text(path, "/sleepypods.controlplane.v1.OperatorControlPlane/GetTlsBinding")
        || same_text(path, "/sleepypods.controlplane.v1.OperatorControlPlane/RemoveCertificate")
        || same_text(
        path,
        "/sleepypods.controlplane.v1.OperatorControlPlane/ReencryptCertificate",
    ) || same_text(path, "/sleepypods.controlplane.v1.ProxyControlPlane/ResolveTlsCertificate")
        || same_text(path, WATCH_CERTIFICATES_PATH)
}

/// A call comes from a browser.
pub open spec fn from_browser(content_type: Option<Seq<char>>) -> bool {
    match content_type {
        Some(content_type) => text::opens_with(content_type, "application/grpc-web"@),
        None => false,
    }
}

fn is_from_browser(content_type: Option<&str>) -> (result: bool)
    ensures
        result == from_browser(seen_header(content_type)),
{
    match content_type {
        Some(content_type) => starts_with(content_type, "application/grpc-web"),
        None => false,
    }
}

/// The model of a header that may be absent.
pub open spec fn seen_header(value: Option<&str>) -> Option<Seq<char>> {
    match value {
        Some(value) => Some(value@),
        None => None,
    }
}

/// Which capacity a call draws on. Calls about certificates never take that of
/// the others.
#[derive(Clone, Copy, Debug, PartialEq, Eq, Structural)]
pub enum CapacityPool {
    Ordinary,
    Certificate,
    CertificateWatch,
}

/// What is done with a call before its body is read.
#[derive(Clone, Debug, PartialEq, Eq)]
pub struct AdmissionPlan {
    pub pool: CapacityPool,
    /// The answer keeps its place for as long as the subscription lives.
    pub subscription: bool,
    /// How long the handler may take, where that is fixed.
    pub deadline: Option<Duration>,
}

/// The capacity that a call draws on.
pub open spec fn pool_of(path: Seq<char>) -> CapacityPool {
    if path == WATCH_CERTIFICATES_PATH@ {
        CapacityPool::CertificateWatch
    } else if about_certificates(path) {
        CapacityPool::Certificate
    } else {
        CapacityPool::Ordinary
    }
}

/// A call opens a stream of changes.
pub open spec fn opens_subscription(path: Seq<char>) -> bool {
    path == WATCH_CERTIFICATES_PATH@ || text::closes_with(path, "/ProxyControlPlane/Subscribe"@)
}

/// The refusal of a call about certificates that comes from a browser.
pub open spec fn native_tls_required() -> StatusView {
    status::refused(
        StatusCode::PermissionDenied,
        "certificate operations require native TLS"@,
    )
}

/// How long the handler of a call may take, where that is fixed.
pub open spec fn handler_deadline(path: Seq<char>) -> Option<nat> {
    if about_certificates(path) {
        Some(seconds(10))
    } else {
        None
    }
}

/// Decides what is done with a call before its body is read: a call about
/// certificates must not come from a browser.
pub fn plan_admission(path: &str, content_type: Option<&str>) -> (result: Result<
    AdmissionPlan,
    ApiStatus,
>)
    ensures
        match result {
            Ok(plan) => {
                &&& !(about_certificates(path@) && from_browser(seen_header(content_type)))
                &&& plan.pool == pool_of(path@)
                &&& plan.subscription == opens_subscription(path@)
                &&& manifest::optional_view(plan.deadline) == handler_deadline(path@)
            },
            Err(refusal) => {
                &&& about_certificates(path@)
                &&& from_browser(seen_header(content_type))
                &&& refusal@ == native_tls_required()
            },
        },
{
    let certificate = certificate_method(path);
    if certificate && is_from_browser(content_type) {
        return Err(
            ApiStatus::new(
                StatusCode::PermissionDenied,
                "certificate operations require native TLS",
            ),
        );
    }
    let watch = same_text(path, WATCH_CERTIFICATES_PATH);
    let pool = if watch {
        CapacityPool::CertificateWatch
    } else if certificate {
        CapacityPool::Certificate
    } else {
        CapacityPool::Ordinary
    };
    let deadline = if certificate {
        Some(Duration::from_secs(10))
    } else {
        None
    };
    Ok(
        AdmissionPlan {
            pool,
            subscription: watch || ends_with(path, "/ProxyControlPlane/Subscribe"),
            deadline,
        },
    )
}

/// However many calls about certificates come in, they leave the capacity of the
/// ordinary ones alone, and the other way round.
pub proof fn law_pools_are_apart(path: Seq<char>)
    ensures
        pool_of(path) == CapacityPool::Ordinary <==> !about_certificates(path),
{
}

/// How many calls a pool takes at a time.
pub open spec fn capacity_of(pool: CapacityPool, limit: usize) -> usize {
    match pool {
        CapacityPool::Ordinary => limit,
        CapacityPool::Certificate => 8,
        CapacityPool::CertificateWatch => WATCH_STREAMS,
    }
}

/// The capacity of each pool: what is set for ordinary calls, eight for those
/// about certificates, and as many watches as there are streams.
pub fn pool_capacity(pool: CapacityPool, limit: usize) -> (capacity: usize)
    ensures
        capacity == capacity_of(pool, limit),
{
    match pool {
        CapacityPool::Ordinary => limit,
        CapacityPool::Certificate => 8,
        CapacityPool::CertificateWatch => WATCH_STREAMS,
    }
}

/// The refusal where a pool has no capacity left.
pub fn capacity_exhausted() -> (refusal: ApiStatus)
    ensures
        refusal@ == status::refused(
            StatusCode::ResourceExhausted,
            "control-plane RPC capacity exhausted"@,
        ),
{
    ApiStatus::new(StatusCode::ResourceExhausted, "control-plane RPC capacity exhausted")
}

/// The refusal where a call about certificates took too long.
pub fn certificate_deadline_exceeded() -> (refusal: ApiStatus)
    ensures
        refusal@ == status::refused(
            StatusCode::DeadlineExceeded,
            "certificate RPC deadline exceeded"@,
        ),
{
    ApiStatus::new(StatusCode::DeadlineExceeded, "certificate RPC deadline exceeded")
}

/// A browser asks for text rather than bytes.
pub open spec fn wants_text(accept: Option<Seq<char>>) -> bool {
    accept == Some("application/grpc-web-text"@) || accept == Some(
        "application/grpc-web-text+proto"@,
    )
}

/// What a browser is answered in.
pub open spec fn answered_in(content_type: Option<Seq<char>>, accept: Option<Seq<char>>) -> Option<
    Seq<char>,
> {
    if !from_browser(content_type) {
        None
    } else if wants_text(accept) {
        Some("application/grpc-web-text+proto"@)
    } else {
        Some("application/grpc-web+proto"@)
    }
}

/// The content type of a refusal for lack of capacity, where the call comes from a
/// browser.
pub fn exhausted_content_type(content_type: Option<&str>, accept: Option<&str>) -> (header: Option<
    &'static str,
>)
    ensures
        seen_header(header) == answered_in(seen_header(content_type), seen_header(accept)),
{
    if !is_from_browser(content_type) {
        return None;
    }
    let text = match accept {
        Some(accept) => same_text(accept, "application/grpc-web-text") || same_text(
            accept,
            "application/grpc-web-text+proto",
        ),
        None => false,
    };
    if text {
        Some("application/grpc-web-text+proto")
    } else {
        Some("application/grpc-web+proto")
    }
}

/// How long an answer may take to be delivered before its connection is cut: a
/// subscription as long as it lives, anything else as long as is set. Nothing is
/// watched over where a subscription was refused.
pub fn delivery_limit(
    subscription: bool,
    lease_lifetime: Option<Duration>,
    delivery_timeout: Duration,
) -> (limit: Option<Duration>)
    ensures
        limit == (if subscription {
            lease_lifetime
        } else {
            Some(delivery_timeout)
        }),
{
    if subscription {
        lease_lifetime
    } else {
        Some(delivery_timeout)
    }
}

} // verus!
