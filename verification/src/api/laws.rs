//! What callers may rely on in the answers they get.

use super::admission::{self, CapacityPool};
use super::proxy::{
    self, InvalidationReason, SubscribeInput, SubscribeResponse, SubscriptionsView,
    WakeInstanceError, WakeInstanceResult, WakeResponseView, WireHost, WireIdentity,
    WireIdentityKind, WireRouteEntry,
};
use super::status::{StatusCode, StatusView};
use super::stream::{self, StreamView};
use crate::instance::InstanceRecord;
use crate::materialization::MaterializationRecord;
use crate::route::{
    self, ProtocolRoute, RouteBindingChange, RouteEntry, RouteHostKind, RouteHostView,
    RouteIdentityView, RouteResolution,
};
use crate::route_laws;
use crate::store::StoreErrorView;
use crate::string_map;
use crate::text;
use vstd::prelude::*;

verus! {

// ---------------------------------------------------------------------------
// Identities
// ---------------------------------------------------------------------------
/// A host can be read: it says what it is, and it is not empty.
pub open spec fn readable_host(host: WireHost) -> bool {
    (host.kind is Exact || host.kind is WildcardSuffix) && !text::blank(host.host@)
}

/// A host is read exactly where it says what it is and is not empty, and then as what it
/// says, under the very name that was sent.
pub proof fn law_a_host_is_read_as_sent(host: WireHost)
    ensures
        proxy::sent_host(host) is Ok <==> readable_host(host),
        proxy::sent_host(host) is Ok ==> proxy::sent_host(host)->Ok_0.host == host.host@,
        proxy::sent_host(host) is Ok ==> (proxy::sent_host(host)->Ok_0.kind
            == RouteHostKind::Exact <==> host.kind is Exact),
        proxy::sent_host(host) is Err ==> proxy::sent_host(host)->Err_0.code
            == StatusCode::InvalidArgument,
{
}

/// A path begins with a slash.
pub open spec fn rooted(path: Seq<char>) -> bool {
    path.len() > 0 && path[0] == '/'
}

/// An identity is read exactly where its host can be and its path, if it has one, begins
/// with a slash; it is then of the protocol it was sent for, with the host and the path
/// that were sent.
pub proof fn law_an_identity_is_read_as_sent(
    host: Option<WireHost>,
    path_prefix: Option<String>,
)
    ensures
        ({
            let http = proxy::sent_identity(
                WireIdentity { kind: Some(WireIdentityKind::Http { host, path_prefix }) },
            );
            let sni = proxy::sent_identity(WireIdentity { kind: Some(WireIdentityKind::Sni { host }) });
            let neither = proxy::sent_identity(WireIdentity { kind: None });
            let readable = host is Some && readable_host(host->Some_0);
            &&& http is Ok <==> readable && (path_prefix is None || rooted(path_prefix->Some_0@))
            &&& http is Ok ==> http->Ok_0 is Http && Ok::<RouteHostView, StatusView>(
                http->Ok_0->Http_host,
            ) == proxy::sent_host(host->Some_0)
            &&& http is Ok ==> (http->Ok_0->path is Some <==> path_prefix is Some)
            &&& http is Ok && path_prefix is Some ==> http->Ok_0->path->Some_0
                == path_prefix->Some_0@
            &&& sni is Ok <==> readable
            &&& sni is Ok ==> sni->Ok_0 is Sni && Ok::<RouteHostView, StatusView>(
                sni->Ok_0->Sni_host,
            ) == proxy::sent_host(host->Some_0)
            &&& neither is Err
            &&& http is Err ==> http->Err_0.code == StatusCode::InvalidArgument
            &&& sni is Err ==> sni->Err_0.code == StatusCode::InvalidArgument
            &&& neither->Err_0.code == StatusCode::InvalidArgument
        }),
{
    reveal_strlit("/");
    if let Some(path) = path_prefix {
        if path@.len() > 0 {
            assert(path@.take(1)[0] == path@[0]);
            assert(path@[0] == '/' ==> path@.take(1) =~= "/"@);
        }
    }
}

/// What is sent out is read back as what it was.
pub proof fn law_a_sent_identity_is_read_back(wire: WireIdentity, identity: RouteIdentityView)
    requires
        proxy::sends(wire, identity),
        !text::blank(route_laws::host_of(identity).host),
        identity is Http && identity->path is Some ==> rooted(identity->path->Some_0),
    ensures
        proxy::sent_identity(wire) == Ok::<RouteIdentityView, StatusView>(identity),
{
    match wire.kind {
        Some(WireIdentityKind::Http { host, path_prefix }) => {
            law_an_identity_is_read_as_sent(host, path_prefix);
        },
        Some(WireIdentityKind::Sni { host }) => {
            law_an_identity_is_read_as_sent(host, None);
        },
        None => {},
    }
}

/// An identity is too long exactly where its host has more than 253 bytes or its path
/// more than 4096.
pub proof fn law_a_long_identity_is_refused(host: WireHost, path_prefix: Option<String>)
    ensures
        proxy::identity_size_verdict(
            WireIdentity { kind: Some(WireIdentityKind::Http { host: Some(host), path_prefix }) },
        ) is Ok <==> route::bytes_of(host.host@) <= 253 && (path_prefix is None || route::bytes_of(
            path_prefix->Some_0@,
        ) <= 4096),
        proxy::identity_size_verdict(
            WireIdentity { kind: Some(WireIdentityKind::Sni { host: Some(host) }) },
        ) is Ok <==> route::bytes_of(host.host@) <= 253,
        proxy::identity_size_verdict(WireIdentity { kind: None }) is Err,
{
}

/// A name is taken exactly where it is not empty and has no more than 4096 bytes.
pub proof fn law_a_name_is_neither_empty_nor_long(value: Seq<char>, field: Seq<char>)
    ensures
        proxy::field_verdict(value, field) is Ok <==> !text::blank(value) && route::bytes_of(value)
            <= 4096,
        proxy::field_verdict(value, field) is Err ==> proxy::field_verdict(value, field)->Err_0.code
            == StatusCode::InvalidArgument,
{
}

// ---------------------------------------------------------------------------
// Subscriptions
// ---------------------------------------------------------------------------
/// A route is asked for in vain exactly where no more answers may be relied on, the
/// request has no name or what is asked for cannot be read.
pub proof fn law_a_sound_request_is_looked_up(
    request_id: String,
    identity: WireIdentity,
    active: nat,
    limit: nat,
)
    ensures
        ({
            let refusal = proxy::subscribe_refusal(
                SubscribeInput::SubscribeRoute { request_id, identity: Some(identity) },
                active,
                limit,
            );
            &&& refusal is None <==> active < limit && !text::blank(request_id@) && route::bytes_of(
                request_id@,
            ) <= 4096 && proxy::identity_size_verdict(identity) is Ok && proxy::sent_identity(
                identity,
            ) is Ok
            &&& active >= limit ==> refusal->Some_0.code == StatusCode::ResourceExhausted
            &&& active < limit && refusal is Some ==> refusal->Some_0.code
                == StatusCode::InvalidArgument
            &&& proxy::subscribe_refusal(
                SubscribeInput::SubscribeRoute { request_id, identity: None },
                active,
                limit,
            ) is Some
        }),
{
    match identity.kind {
        Some(WireIdentityKind::Http { host, path_prefix }) => {
            law_an_identity_is_read_as_sent(host, path_prefix);
        },
        Some(WireIdentityKind::Sni { host }) => {
            law_an_identity_is_read_as_sent(host, None);
        },
        None => {},
    }
}

/// A subscription may be given up however many there are, under any name that is one; and
/// a request that asks for nothing is refused.
pub proof fn law_a_subscription_may_be_given_up(subscription_id: String, active: nat, limit: nat)
    ensures
        proxy::subscribe_refusal(SubscribeInput::Unsubscribe { subscription_id }, active, limit)
            is None <==> !text::blank(subscription_id@) && route::bytes_of(subscription_id@)
            <= 4096,
        proxy::subscribe_refusal(SubscribeInput::Missing, active, limit) is Some,
        proxy::subscribe_refusal(SubscribeInput::Missing, active, limit)->Some_0.code
            == StatusCode::InvalidArgument,
{
}

/// An answer is remembered for what it was: the route and the instance it led to, what was
/// asked for, what matched, and the protocol of what matched.
pub proof fn law_an_answer_is_remembered(
    request: RouteIdentityView,
    matched: RouteIdentityView,
    entry: RouteEntry,
)
    ensures
        ({
            let kept = proxy::subscription_for(request, matched, entry);
            &&& kept.route_binding_id == entry.route_binding_id@
            &&& kept.instance_id == entry.instance_id@
            &&& kept.request_identity == request
            &&& kept.matched_identity == matched
            &&& kept.protocol == ProtocolRoute::Http <==> matched is Http
            &&& kept.protocol == ProtocolRoute::TlsSni <==> matched is Sni
        }),
{
}

/// A proxy is told that a route is gone exactly where the route was removed; any other
/// change is told as a change.
pub proof fn law_the_reason_is_what_happened(event: RouteBindingChange)
    ensures
        proxy::reason_of(event) == InvalidationReason::RouteRemoved <==> event is Route
            && event->removed,
        proxy::reason_of(event) == InvalidationReason::RouteChanged <==> !(event is Route
            && event->removed),
{
}

/// No more is reported than has become stale, and what is reported and what is kept are
/// together what there was.
pub proof fn law_only_stale_answers_are_reported(
    subscriptions: SubscriptionsView,
    event: RouteBindingChange,
    at: int,
)
    requires
        0 <= at < proxy::stale_ids(subscriptions, subscriptions.len(), event).len(),
    ensures
        exists|i: int|
            0 <= i < subscriptions.len() && (#[trigger] subscriptions[i]).0 == proxy::stale_ids(
                subscriptions,
                subscriptions.len(),
                event,
            )[at] && proxy::made_stale(subscriptions[i].1, event),
        proxy::stale_ids(subscriptions, subscriptions.len(), event).len() + proxy::untouched(
            subscriptions,
            subscriptions.len(),
            event,
        ).len() == subscriptions.len(),
{
    let i = lemma_reported(subscriptions, subscriptions.len(), event, at);
    assert(subscriptions[i].0 == proxy::stale_ids(subscriptions, subscriptions.len(), event)[at]);
    lemma_counted(subscriptions, subscriptions.len(), event);
}

proof fn lemma_counted(subscriptions: SubscriptionsView, count: nat, event: RouteBindingChange)
    requires
        count <= subscriptions.len(),
    ensures
        proxy::stale_ids(subscriptions, count, event).len() + proxy::untouched(
            subscriptions,
            count,
            event,
        ).len() == count,
    decreases count,
{
    if count > 0 {
        lemma_counted(subscriptions, (count - 1) as nat, event);
    }
}

proof fn lemma_reported(
    subscriptions: SubscriptionsView,
    count: nat,
    event: RouteBindingChange,
    at: int,
) -> (i: int)
    requires
        count <= subscriptions.len(),
        0 <= at < proxy::stale_ids(subscriptions, count, event).len(),
    ensures
        0 <= i < count,
        subscriptions[i].0 == proxy::stale_ids(subscriptions, count, event)[at],
        proxy::made_stale(subscriptions[i].1, event),
    decreases count,
{
    let before = proxy::stale_ids(subscriptions, (count - 1) as nat, event);
    if at < before.len() {
        lemma_reported(subscriptions, (count - 1) as nat, event, at)
    } else {
        count - 1
    }
}

/// A route is sent as it was found: the route, the instance as it stands, and where it can
/// be reached, if it can.
pub proof fn law_a_route_is_sent_as_found(wire: WireRouteEntry, entry: RouteEntry)
    requires
        proxy::sends_entry(wire, entry),
    ensures
        wire.route_binding_id@ == entry.route_binding_id@,
        wire.instance_id@ == entry.instance_id@,
        wire.instance_state == entry.instance_state,
        wire.instance_generation == entry.instance_generation@,
        wire.backend_uri is Some <==> entry.backend is Some,
        entry.backend is Some ==> wire.backend_uri->Some_0@ == entry.backend->Some_0@.uri,
        wire.backend_generation is Some <==> entry.backend_generation is Some,
        entry.backend_generation is Some ==> wire.backend_generation->Some_0
            == entry.backend_generation->Some_0@,
{
}

/// An answer to a request bears its name: where a route was found the number it is relied on
/// under, what matched and where it leads, for as long as it may be kept; and else what was
/// asked for.
pub proof fn law_an_answer_bears_the_name_of_its_request(
    response: SubscribeResponse,
    stream: StreamView,
    resolution: RouteResolution,
    positive_cache_ttl: nat,
)
    requires
        stream::answers(response, stream, resolution, positive_cache_ttl),
    ensures
        stream.awaiting is Some,
        response is RouteResolved <==> resolution is Resolved,
        response is RouteMiss <==> resolution is Miss,
        response is RouteResolved ==> {
            &&& response->RouteResolved_request_id@ == stream.awaiting->Some_0.0
            &&& response->RouteResolved_subscription_id@ == proxy::subscription_name(
                (stream.number + 1) as u64,
            )
            &&& proxy::sends(
                response->RouteResolved_matched_identity,
                resolution->Resolved_matched_identity@,
            )
            &&& proxy::sends_entry(response->RouteResolved_route, resolution->Resolved_entry)
            &&& response->RouteResolved_ttl_millis * 1_000_000 <= positive_cache_ttl
        },
        response is RouteMiss ==> {
            &&& response->RouteMiss_request_id@ == stream.awaiting->Some_0.0
            &&& proxy::sends(response->RouteMiss_request_identity, stream.awaiting->Some_0.1)
            &&& response->RouteMiss_ttl_millis * 1_000_000 <= resolution->Miss_negative_cache@
        },
{
}

/// A time is told in whole milliseconds: never more than it is, and less than one short of
/// it unless it is beyond all counting.
pub proof fn law_a_time_is_told_in_milliseconds(span: nat)
    ensures
        proxy::whole_millis(span) * 1_000_000 <= span,
        span < 0x1_0000_0000_0000_0000 * 1_000_000 ==> span < (proxy::whole_millis(span) + 1)
            * 1_000_000,
{
}

// ---------------------------------------------------------------------------
// Streams
// ---------------------------------------------------------------------------
/// A sound request is what is looked up next; everything else about the stream stays.
pub proof fn law_a_request_is_looked_up(
    stream: StreamView,
    request_id: String,
    identity: WireIdentity,
)
    requires
        !stream.ended,
        stream.subscriptions.len() < stream.limit,
        !text::blank(request_id@),
        route::bytes_of(request_id@) <= 4096,
        proxy::identity_size_verdict(identity) is Ok,
        proxy::sent_identity(identity) is Ok,
    ensures
        ({
            let after = stream::asked(
                stream,
                SubscribeInput::SubscribeRoute { request_id, identity: Some(identity) },
            );
            &&& after.awaiting == Some((request_id@, proxy::sent_identity(identity)->Ok_0))
            &&& after.subscriptions == stream.subscriptions
            &&& after.number == stream.number
            &&& after.limit == stream.limit
            &&& !after.ended
        }),
{
}

/// A refused request ends the stream, and nothing is looked up any more.
pub proof fn law_a_refused_request_ends_the_stream(stream: StreamView, input: SubscribeInput)
    requires
        !stream.ended,
        proxy::subscribe_refusal(input, stream.subscriptions.len(), stream.limit as nat) is Some,
    ensures
        stream::asked(stream, input).ended,
        stream::asked(stream, input).awaiting is None,
{
}

/// A subscription that is given up is relied on no more, and every other still is.
pub proof fn law_a_given_up_subscription_is_forgotten(
    stream: StreamView,
    subscription_id: String,
    other: Seq<char>,
)
    requires
        !stream.ended,
        !text::blank(subscription_id@),
        route::bytes_of(subscription_id@) <= 4096,
        string_map::sorted_keys(stream.subscriptions),
    ensures
        ({
            let after = stream::asked(stream, SubscribeInput::Unsubscribe { subscription_id });
            &&& !after.ended
            &&& after.awaiting == stream.awaiting
            &&& after.number == stream.number
            &&& string_map::entry_of(after.subscriptions, subscription_id@) is None
            &&& other != subscription_id@ ==> string_map::entry_of(after.subscriptions, other)
                == string_map::entry_of(stream.subscriptions, other)
        }),
{
    string_map::lemma_entry_of_without_entry(
        stream.subscriptions,
        subscription_id@,
        subscription_id@,
    );
    string_map::lemma_entry_of_without_entry(stream.subscriptions, subscription_id@, other);
}

/// An answer that was found is relied on under the next number, for what was asked and
/// what matched; every other answer stays. Where none was found nothing is relied on.
pub proof fn law_a_found_answer_is_relied_on(
    stream: StreamView,
    resolution: RouteResolution,
    other: Seq<char>,
)
    requires
        stream.awaiting is Some,
        stream.number < u64::MAX,
    ensures
        ({
            let after = stream::answered(stream, resolution);
            let name = proxy::subscription_name((stream.number + 1) as u64);
            &&& after.awaiting is None
            &&& after.ended == stream.ended
            &&& resolution is Resolved ==> after.number == stream.number + 1
            &&& resolution is Resolved ==> string_map::entry_of(after.subscriptions, name) is Some
            &&& resolution is Resolved ==> ({
                let kept = string_map::entry_of(after.subscriptions, name)->Some_0;
                &&& kept.request_identity == stream.awaiting->Some_0.1
                &&& kept.matched_identity == resolution->matched_identity@
                &&& kept.instance_id == resolution->entry.instance_id@
                &&& kept.route_binding_id == resolution->entry.route_binding_id@
            })
            &&& resolution is Resolved && other != name ==> string_map::entry_of(
                after.subscriptions,
                other,
            ) == string_map::entry_of(stream.subscriptions, other)
            &&& resolution is Miss ==> after.subscriptions == stream.subscriptions && after.number
                == stream.number
        }),
{
    broadcast use string_map::lemma_entry_of_with_entry;

}

// ---------------------------------------------------------------------------
// Waking
// ---------------------------------------------------------------------------
/// A running instance is answered with where it can be reached, by its own name and
/// generation; one that cannot be reached is not.
pub proof fn law_a_running_instance_is_reached(
    asked: Seq<char>,
    instance: InstanceRecord,
    materialization: MaterializationRecord,
    activation_timeout: nat,
)
    ensures
        ({
            let answer = proxy::wake_outcome(
                asked,
                WakeInstanceResult::AlreadyRunning { instance, materialization },
                activation_timeout,
            );
            &&& answer is Ok <==> materialization.backend is Some
            &&& answer is Ok ==> answer->Ok_0 == (WakeResponseView::Ready {
                instance_id: instance.id@,
                instance_generation: instance.generation@,
                backend_uri: materialization.backend->Some_0@.uri,
                backend_generation: materialization.backend_generation@,
            })
            &&& answer is Err ==> answer->Err_0.code == StatusCode::FailedPrecondition
        }),
{
}

/// A waking instance is answered as waking, by its own name and generation.
pub proof fn law_a_waking_instance_is_told_so(
    asked: Seq<char>,
    instance: InstanceRecord,
    activation_timeout: nat,
)
    ensures
        proxy::wake_outcome(asked, WakeInstanceResult::AlreadyWaking { instance }, activation_timeout)
            == Ok::<WakeResponseView, StatusView>(
            WakeResponseView::StillWaking {
                instance_id: instance.id@,
                instance_generation: instance.generation@,
            },
        ),
{
}

/// The code under which a failed wake is refused, where it is refused.
pub open spec fn wake_code(error: WakeInstanceError) -> Option<StatusCode> {
    if error is NotFound {
        Some(StatusCode::NotFound)
    } else if error is ReadyMaterializationNotFound || error is WorkloadClassNotFound {
        Some(StatusCode::FailedPrecondition)
    } else if error is Render || error is SleepPolicy {
        Some(StatusCode::Internal)
    } else if error is Materializer {
        Some(StatusCode::Unavailable)
    } else {
        None
    }
}

/// A wake that failed is told as what it was: a conflict with both generations, an
/// instance that goes as going, and everything else as a refusal of its own kind.
pub proof fn law_a_failed_wake_is_told_apart(
    asked: Seq<char>,
    error: WakeInstanceError,
    activation_timeout: nat,
)
    ensures
        ({
            let answer = proxy::wake_outcome(
                asked,
                WakeInstanceResult::Failed(error),
                activation_timeout,
            );
            &&& answer is Ok <==> error is GenerationConflict || error is Unavailable
            &&& error is GenerationConflict ==> answer->Ok_0 == (
            WakeResponseView::GenerationConflict {
                instance_id: asked,
                expected_generation: error->expected@,
                actual_generation: error->actual@,
            })
            &&& error is Unavailable ==> answer->Ok_0 == (WakeResponseView::Unavailable {
                instance_id: error->Unavailable_instance.id@,
                instance_generation: error->Unavailable_instance.generation@,
                reason: error->reason,
            })
            &&& wake_code(error) is Some ==> answer->Err_0.code == wake_code(error)->Some_0
            &&& error is Store ==> answer->Err_0 == proxy::store_refusal(
                error->Store_0@,
                activation_timeout,
            )
        }),
{
}

/// Those that watch routes learn of an instance that a wake has failed for after it began,
/// and of no other.
pub proof fn law_a_begun_wake_is_passed_on(result: WakeInstanceResult)
    ensures
        proxy::moved_by(result) is Some <==> result is Failed && (result->Failed_0
            is WorkloadClassNotFound || result->Failed_0 is Render || result->Failed_0
            is SleepPolicy || result->Failed_0 is Materializer),
        result is Failed && result->Failed_0 is WorkloadClassNotFound ==> proxy::moved_by(result)
            == Some(result->Failed_0->WorkloadClassNotFound_instance.id@),
        result is Failed && result->Failed_0 is Render ==> proxy::moved_by(result) == Some(
            result->Failed_0->Render_instance.id@,
        ),
        result is Failed && result->Failed_0 is SleepPolicy ==> proxy::moved_by(result) == Some(
            result->Failed_0->SleepPolicy_instance.id@,
        ),
        result is Failed && result->Failed_0 is Materializer ==> proxy::moved_by(result) == Some(
            result->Failed_0->Materializer_instance.id@,
        ),
{
}

// ---------------------------------------------------------------------------
// Refusals
// ---------------------------------------------------------------------------
/// The code under which what the store refuses is passed on.
pub open spec fn passes_on(code: StatusCode, error: StoreErrorView) -> bool {
    match code {
        StatusCode::InvalidArgument => error is InvalidArgument,
        StatusCode::NotFound => error is NotFound,
        StatusCode::AlreadyExists => error is AlreadyExists || error is IdempotencyConflict,
        StatusCode::FailedPrecondition => {
            ||| error is SleepDeferred
            ||| error is GenerationConflict
            ||| error is ExclusivityConflict
            ||| error is IdempotencyResourceDeleted
        },
        StatusCode::Aborted => error is LeaseConflict,
        StatusCode::Unavailable => error is Unavailable,
        StatusCode::Internal => error is Internal,
        _ => false,
    }
}

/// A refusal of the store is passed on under the code of its kind and in its own words.
/// Only a sleep that comes later says when, and never later than a wake may take.
pub proof fn law_a_refusal_is_passed_on(error: StoreErrorView, activation_timeout: nat)
    requires
        error is SleepDeferred ==> error->retry_after <= u128::MAX,
    ensures
        ({
            let refusal = proxy::store_refusal(error, activation_timeout);
            &&& passes_on(refusal.code, error)
            &&& refusal.retry_after_millis is Some <==> error is SleepDeferred
            &&& error is SleepDeferred ==> ({
                let wait = refusal.retry_after_millis->Some_0;
                &&& wait * 1_000_000 <= error->retry_after
                &&& wait * 1_000_000 <= activation_timeout
                &&& error->retry_after < (wait + 1) * 1_000_000 || activation_timeout < (wait + 1)
                    * 1_000_000
            })
            &&& error is InvalidArgument ==> refusal.message == error->InvalidArgument_message
            &&& error is LeaseConflict ==> refusal.message == error->LeaseConflict_message
            &&& error is Unavailable ==> refusal.message == error->Unavailable_message
            &&& error is Internal ==> refusal.message == error->Internal_message
            &&& error is NotFound ==> refusal.message == error->NotFound_resource + " not found"@
            &&& error is AlreadyExists ==> refusal.message == error->AlreadyExists_resource
                + " already exists"@
        }),
{
}

// ---------------------------------------------------------------------------
// Admission
// ---------------------------------------------------------------------------
/// The watch has a pool of its own, the other calls about certificates share one, and
/// everything else is ordinary. The watch stays open, as a subscription does.
pub proof fn law_calls_keep_to_their_pools(path: Seq<char>)
    ensures
        ({
            let watch =
                "/sleepypods.controlplane.v1.ProxyControlPlane/WatchTlsCertificates"@;
            &&& admission::pool_of(path) == CapacityPool::CertificateWatch <==> path == watch
            &&& admission::pool_of(path) == CapacityPool::Ordinary
                <==> !admission::about_certificates(path)
            &&& admission::about_certificates(watch)
            &&& admission::opens_subscription(watch)
            &&& path != watch ==> (admission::opens_subscription(path) <==> exists|front: Seq<char>|
                path == #[trigger] (front + "/ProxyControlPlane/Subscribe"@))
        }),
{
    let ending = "/ProxyControlPlane/Subscribe"@;
    if text::closes_with(path, ending) {
        let front = path.take(path.len() - ending.len());
        assert(path =~= front + ending);
    }
    assert forall|front: Seq<char>| path == #[trigger] (front + ending) implies text::closes_with(
        path,
        ending,
    ) by {
        assert(path.skip(path.len() - ending.len()) =~= ending);
    }
}

/// The calls about certificates are these.
pub proof fn law_calls_about_certificates_are_named(path: Seq<char>)
    ensures
        admission::about_certificates(
            "/sleepypods.controlplane.v1.OperatorControlPlane/PublishCertificate"@,
        ),
        admission::about_certificates(
            "/sleepypods.controlplane.v1.OperatorControlPlane/GetCertificateMetadata"@,
        ),
        admission::about_certificates(
            "/sleepypods.controlplane.v1.OperatorControlPlane/SetTlsBinding"@,
        ),
        admission::about_certificates(
            "/sleepypods.controlplane.v1.OperatorControlPlane/GetTlsBinding"@,
        ),
        admission::about_certificates(
            "/sleepypods.controlplane.v1.OperatorControlPlane/RemoveCertificate"@,
        ),
        admission::about_certificates(
            "/sleepypods.controlplane.v1.OperatorControlPlane/ReencryptCertificate"@,
        ),
        admission::about_certificates(
            "/sleepypods.controlplane.v1.ProxyControlPlane/ResolveTlsCertificate"@,
        ),
{
}

/// A call comes from a browser exactly where its content type begins as theirs do.
pub proof fn law_a_browser_is_told_by_its_content(content_type: Seq<char>)
    ensures
        admission::from_browser(Some(content_type)) <==> exists|rest: Seq<char>|
            content_type == #[trigger] ("application/grpc-web"@ + rest),
        !admission::from_browser(None),
{
    let opening = "application/grpc-web"@;
    if text::opens_with(content_type, opening) {
        let rest = content_type.skip(opening.len() as int);
        assert(content_type =~= opening + rest);
    }
    assert forall|rest: Seq<char>| content_type == #[trigger] (opening + rest) implies text::opens_with(
        content_type,
        opening,
    ) by {
        assert(content_type.take(opening.len() as int) =~= opening);
    }
}

/// A cached answer outlives the stream it came by, so that a proxy can carry it over; and
/// looking a route up and answering end before the stream does.
pub proof fn law_answers_outlive_their_stream()
    ensures
        admission::default_limits().positive_route_cache_ttl
            > admission::default_limits().subscription_lifetime,
        admission::default_limits().lookup_timeout + admission::default_limits().response_timeout
            < admission::default_limits().subscription_lifetime,
        admission::default_limits().rpc_concurrency
            <= admission::default_limits().accepted_connections,
        admission::default_limits().subscription_streams
            <= admission::default_limits().rpc_concurrency,
        forall|count: nat| #[trigger] admission::seconds(count) == count * 1_000_000_000,
{
}

/// A proxy is told of every answer that has become stale, under its name and with the same
/// reason.
pub proof fn law_every_stale_answer_is_told(
    responses: Seq<SubscribeResponse>,
    ids: Seq<Seq<char>>,
    because: InvalidationReason,
    at: int,
)
    requires
        proxy::reports(responses, ids, because),
    ensures
        responses.len() == ids.len(),
        0 <= at < ids.len() ==> responses[at] is RouteInvalidated
            && responses[at]->RouteInvalidated_subscription_id@ == ids[at]
            && responses[at]->RouteInvalidated_reason == because,
{
}

/// A browser wants text exactly where it says so, and a call about certificates that comes
/// from one is denied.
pub proof fn law_a_browser_says_what_it_wants(accept: Seq<char>)
    ensures
        admission::wants_text(Some(accept)) <==> accept == "application/grpc-web-text"@ || accept
            == "application/grpc-web-text+proto"@,
        !admission::wants_text(None),
        admission::native_tls_required().code == StatusCode::PermissionDenied,
        admission::native_tls_required().message == "certificate operations require native TLS"@,
        admission::native_tls_required().retry_after_millis is None,
{
}

/// Ordinary calls have the room that was set, calls about certificates have eight places,
/// and there are as many watches as streams; a call about certificates has ten seconds.
pub proof fn law_every_call_has_its_room(path: Seq<char>, limit: usize)
    ensures
        admission::capacity_of(CapacityPool::Ordinary, limit) == limit,
        admission::capacity_of(CapacityPool::Certificate, limit) == 8,
        admission::capacity_of(CapacityPool::CertificateWatch, limit) == 16,
        admission::handler_deadline(path) is Some <==> admission::pool_of(path)
            != CapacityPool::Ordinary,
        admission::handler_deadline(path) is Some ==> admission::handler_deadline(path)->Some_0
            == 10_000_000_000,
{
}

/// A browser is answered in text where it wants text and in bytes where it does not, and
/// nobody else is answered so.
pub proof fn law_a_browser_is_answered_as_it_wants(
    content_type: Option<Seq<char>>,
    accept: Option<Seq<char>>,
)
    ensures
        admission::answered_in(content_type, accept) is Some <==> admission::from_browser(
            content_type,
        ),
        admission::from_browser(content_type) && admission::wants_text(accept)
            ==> admission::answered_in(content_type, accept) == Some(
            "application/grpc-web-text+proto"@,
        ),
        admission::from_browser(content_type) && !admission::wants_text(accept)
            ==> admission::answered_in(content_type, accept) == Some(
            "application/grpc-web+proto"@,
        ),
{
}

} // verus!
