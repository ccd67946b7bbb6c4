//! What the control plane answers a proxy: where routes lead, which answers have
//! become stale, and what became of a wake.

use super::status::{self, ApiStatus, StatusCode, StatusView};
use crate::duration::{Duration, NANOS_PER_MILLI};
use crate::ids::{BackendGeneration, Generation, InstanceId, RouteBindingId};
use crate::instance::{InstanceRecord, InstanceState};
use crate::manifest;
use crate::materialization::MaterializationRecord;
use crate::route::{
    self, is_closer, protocol_for_route_identity, route_match_score, PathPrefix, ProtocolRoute,
    RouteBindingChange, RouteEntry, RouteHost, RouteHostKind, RouteHostView, RouteIdentity,
    RouteIdentityView, RouteResolution,
};
use crate::store::{StoreError, StoreErrorView};
use crate::string_map::{self, StringMap};
use crate::target::MaterializationTarget;
use crate::text::{self, decimal_text, is_blank, quoted, same_text, wide_decimal_text};
use vstd::prelude::*;
use vstd::string::*;

verus! {

/// The service that proxies call.
pub const PROXY_SERVICE_NAME: &'static str = "sleepypods.controlplane.v1.ProxyControlPlane";

/// How many answers wait for a slow proxy.
pub const SUBSCRIBE_RESPONSE_BUFFER: usize = 16;

// ---------------------------------------------------------------------------
// Identities as they are sent
// ---------------------------------------------------------------------------
/// The kind of a host as it is sent.
#[derive(Clone, Copy, Debug, PartialEq, Eq, Structural)]
pub enum WireHostKind {
    Unspecified,
    Exact,
    WildcardSuffix,
    Unknown,
}

/// A host as it is sent.
#[derive(Clone, Debug, PartialEq, Eq)]
pub struct WireHost {
    pub kind: WireHostKind,
    pub host: String,
}

/// What an identity that is sent speaks of.
#[derive(Clone, Debug, PartialEq, Eq)]
pub enum WireIdentityKind {
    Http { host: Option<WireHost>, path_prefix: Option<String> },
    Sni { host: Option<WireHost> },
}

/// An identity as it is sent.
#[derive(Clone, Debug, PartialEq, Eq)]
pub struct WireIdentity {
    pub kind: Option<WireIdentityKind>,
}

fn invalid<T>(message: &str) -> (result: Result<T, ApiStatus>)
    ensures
        result matches Err(refusal) && refusal@ == status::refused(
            StatusCode::InvalidArgument,
            message@,
        ),
{
    Err(ApiStatus::new(StatusCode::InvalidArgument, message))
}

/// A request that makes no sense.
pub open spec fn invalid_argument<T>(message: Seq<char>) -> Result<T, StatusView> {
    Err(status::refused(StatusCode::InvalidArgument, message))
}

/// The host that was sent.
pub open spec fn sent_host(host: WireHost) -> Result<RouteHostView, StatusView> {
    match host.kind {
        WireHostKind::Unknown => invalid_argument("route host kind is invalid"@),
        WireHostKind::Unspecified => invalid_argument("route host kind is required"@),
        WireHostKind::Exact => if text::blank(host.host@) {
            invalid_argument("route host must not be empty"@)
        } else {
            Ok(RouteHostView { kind: RouteHostKind::Exact, host: host.host@ })
        },
        WireHostKind::WildcardSuffix => if text::blank(host.host@) {
            invalid_argument("route host must not be empty"@)
        } else {
            Ok(RouteHostView { kind: RouteHostKind::WildcardSuffix, host: host.host@ })
        },
    }
}

/// The identity that was sent.
pub open spec fn sent_identity(identity: WireIdentity) -> Result<RouteIdentityView, StatusView> {
    match identity.kind {
        None => invalid_argument("route identity kind is required"@),
        Some(WireIdentityKind::Http { host, path_prefix }) => match host {
            None => invalid_argument("HTTP route host is required"@),
            Some(host) => match sent_host(host) {
                Err(refusal) => Err(refusal),
                Ok(host) => match path_prefix {
                    None => Ok(RouteIdentityView::Http { host, path: None }),
                    Some(path) => if text::opens_with(path@, "/"@) {
                        Ok(RouteIdentityView::Http { host, path: Some(path@) })
                    } else {
                        invalid_argument("route path prefix must begin with a slash"@)
                    },
                },
            },
        },
        Some(WireIdentityKind::Sni { host }) => match host {
            None => invalid_argument("SNI route host is required"@),
            Some(host) => match sent_host(host) {
                Err(refusal) => Err(refusal),
                Ok(host) => Ok(RouteIdentityView::Sni { host }),
            },
        },
    }
}

fn make_host(kind: RouteHostKind, host: &str) -> (result: Result<RouteHost, ApiStatus>)
    ensures
        status::answer(result) == (if text::blank(host@) {
            invalid_argument::<RouteHostView>("route host must not be empty"@)
        } else {
            Ok::<RouteHostView, StatusView>(RouteHostView { kind, host: host@ })
        }),
{
    match RouteHost::new(kind, host) {
        Ok(host) => Ok(host),
        Err(error) => invalid(error.message),
    }
}

/// Reads a host that was sent.
pub fn route_host_from_proto(host: &WireHost) -> (result: Result<RouteHost, ApiStatus>)
    ensures
        status::answer(result) == sent_host(*host),
{
    match host.kind {
        WireHostKind::Unknown => invalid("route host kind is invalid"),
        WireHostKind::Unspecified => invalid("route host kind is required"),
        WireHostKind::Exact => make_host(RouteHostKind::Exact, host.host.as_str()),
        WireHostKind::WildcardSuffix => {
            make_host(RouteHostKind::WildcardSuffix, host.host.as_str())
        },
    }
}

/// Reads an identity that was sent.
pub fn route_identity_from_proto(identity: &WireIdentity) -> (result: Result<
    RouteIdentity,
    ApiStatus,
>)
    ensures
        status::answer(result) == sent_identity(*identity),
{
    match &identity.kind {
        None => invalid("route identity kind is required"),
        Some(WireIdentityKind::Http { host, path_prefix }) => match host {
            None => invalid("HTTP route host is required"),
            Some(host) => {
                let host = route_host_from_proto(host)?;
                match path_prefix {
                    None => Ok(RouteIdentity::Http { host, path: None }),
                    Some(path) => match PathPrefix::new(path.as_str()) {
                        Ok(path) => Ok(RouteIdentity::Http { host, path: Some(path) }),
                        Err(error) => invalid(error.message),
                    },
                }
            },
        },
        Some(WireIdentityKind::Sni { host }) => match host {
            None => invalid("SNI route host is required"),
            Some(host) => {
                let host = route_host_from_proto(host)?;
                Ok(RouteIdentity::Sni { host })
            },
        },
    }
}

/// A host to send.
pub fn route_host_to_proto(host: &RouteHost) -> (wire: WireHost)
    ensures
        wire.host@ == host@.host,
        wire.kind == wire_kind(host@.kind),
        sent_host(wire) == Ok::<RouteHostView, StatusView>(host@),
{
    let kind = match host.kind() {
        RouteHostKind::Exact => WireHostKind::Exact,
        RouteHostKind::WildcardSuffix => WireHostKind::WildcardSuffix,
    };
    WireHost { kind, host: host.as_str().to_owned() }
}

/// How the kind of a host is sent.
pub open spec fn wire_kind(kind: RouteHostKind) -> WireHostKind {
    match kind {
        RouteHostKind::Exact => WireHostKind::Exact,
        RouteHostKind::WildcardSuffix => WireHostKind::WildcardSuffix,
    }
}

/// What is sent speaks of an identity.
pub open spec fn sends(wire: WireIdentity, identity: RouteIdentityView) -> bool {
    match (identity, wire.kind) {
        (
            RouteIdentityView::Http { host, path },
            Some(WireIdentityKind::Http { host: Some(sent), path_prefix }),
        ) => {
            &&& sent.host@ == host.host
            &&& sent.kind == wire_kind(host.kind)
            &&& manifest::optional_view(path_prefix) == path
        },
        (RouteIdentityView::Sni { host }, Some(WireIdentityKind::Sni { host: Some(sent) })) => {
            &&& sent.host@ == host.host
            &&& sent.kind == wire_kind(host.kind)
        },
        _ => false,
    }
}

/// An identity to send. Whoever reads it gets the same identity back.
pub fn route_identity_to_proto(identity: &RouteIdentity) -> (wire: WireIdentity)
    ensures
        sends(wire, identity@),
        sent_identity(wire) == Ok::<RouteIdentityView, StatusView>(identity@),
{
    let kind = match identity {
        RouteIdentity::Http { host, path } => {
            let path_prefix = match path {
                Some(path) => Some(path.as_str().to_owned()),
                None => None,
            };
            WireIdentityKind::Http { host: Some(route_host_to_proto(host)), path_prefix }
        },
        RouteIdentity::Sni { host } => WireIdentityKind::Sni {
            host: Some(route_host_to_proto(host)),
        },
    };
    WireIdentity { kind: Some(kind) }
}

/// An identity is not longer than what is supported.
pub open spec fn identity_size_verdict(identity: WireIdentity) -> Result<(), StatusView> {
    let too_long = match identity.kind {
        None => false,
        Some(WireIdentityKind::Http { host, path_prefix }) => {
            ||| host matches Some(host) && route::bytes_of(host.host@) > 253
            ||| path_prefix matches Some(path) && route::bytes_of(path@) > 4096
        },
        Some(WireIdentityKind::Sni { host }) => host matches Some(host) && route::bytes_of(host.host@)
            > 253,
    };
    if identity.kind is None {
        invalid_argument("route identity required"@)
    } else if too_long {
        invalid_argument("route identity exceeds supported length"@)
    } else {
        Ok(())
    }
}

fn host_too_long(host: &Option<WireHost>) -> (result: bool)
    ensures
        result == (host matches Some(host) && route::bytes_of(host.host@) > 253),
{
    match host {
        Some(host) => byte_length_above(host.host.as_str(), 253),
        None => false,
    }
}

fn byte_length_above(content: &str, limit: usize) -> (result: bool)
    ensures
        result == (route::bytes_of(content@) > limit),
{
    let bytes = content.as_bytes();
    bytes.len() > limit
}

/// Checks that an identity is not longer than what is supported.
pub fn validate_identity_size(identity: &WireIdentity) -> (result: Result<(), ApiStatus>)
    ensures
        status::plain_answer(result) == identity_size_verdict(*identity),
{
    let too_long = match &identity.kind {
        None => {
            return invalid("route identity required");
        },
        Some(WireIdentityKind::Http { host, path_prefix }) => {
            let long_path = match path_prefix {
                Some(path) => byte_length_above(path.as_str(), 4096),
                None => false,
            };
            host_too_long(host) || long_path
        },
        Some(WireIdentityKind::Sni { host }) => host_too_long(host),
    };
    if too_long {
        return invalid("route identity exceeds supported length");
    }
    Ok(())
}

/// A field that must hold something, and not too much.
pub open spec fn field_verdict(value: Seq<char>, field: Seq<char>) -> Result<(), StatusView> {
    if route::bytes_of(value) > 4096 {
        invalid_argument(field + " exceeds 4096 bytes"@)
    } else if text::blank(value) {
        invalid_argument(field + " must not be empty"@)
    } else {
        Ok(())
    }
}

/// Checks that a field holds something, and not too much.
pub fn non_empty_field(value: &str, field: &str) -> (result: Result<(), ApiStatus>)
    ensures
        status::plain_answer(result) == field_verdict(value@, field@),
{
    if byte_length_above(value, 4096) {
        return invalid(field.to_owned().concat(" exceeds 4096 bytes").as_str());
    }
    if is_blank(value) {
        return invalid(field.to_owned().concat(" must not be empty").as_str());
    }
    Ok(())
}

// ---------------------------------------------------------------------------
// Subscriptions
// ---------------------------------------------------------------------------
/// An answer that a proxy still relies on.
#[derive(Clone, Debug, PartialEq, Eq)]
pub struct ActiveRouteSubscription {
    pub route_binding_id: RouteBindingId,
    pub instance_id: InstanceId,
    pub request_identity: RouteIdentity,
    pub matched_identity: RouteIdentity,
    pub protocol: ProtocolRoute,
}

/// The mathematical model of an [`ActiveRouteSubscription`].
#[verifier::ext_equal]
pub struct SubscriptionView {
    pub route_binding_id: Seq<char>,
    pub instance_id: Seq<char>,
    pub request_identity: RouteIdentityView,
    pub matched_identity: RouteIdentityView,
    pub protocol: ProtocolRoute,
}

impl View for ActiveRouteSubscription {
    type V = SubscriptionView;

    open spec fn view(&self) -> SubscriptionView {
        SubscriptionView {
            route_binding_id: self.route_binding_id@,
            instance_id: self.instance_id@,
            request_identity: self.request_identity@,
            matched_identity: self.matched_identity@,
            protocol: self.protocol,
        }
    }
}

impl ActiveRouteSubscription {
    /// The same subscription once more.
    pub fn duplicate(&self) -> (subscription: ActiveRouteSubscription)
        ensures
            subscription@ == self@,
    {
        ActiveRouteSubscription {
            route_binding_id: self.route_binding_id.duplicate(),
            instance_id: self.instance_id.duplicate(),
            request_identity: self.request_identity.duplicate(),
            matched_identity: self.matched_identity.duplicate(),
            protocol: self.protocol,
        }
    }
}

/// A change makes an answer stale: everything, the instance behind it, the route
/// itself, or another route that fits the request more closely.
pub open spec fn made_stale(subscription: SubscriptionView, event: RouteBindingChange) -> bool {
    match event {
        RouteBindingChange::Reset => true,
        RouteBindingChange::Instance(id) => subscription.instance_id == id@,
        RouteBindingChange::Route { route_binding_id, removed, identity, protocol } => {
            if subscription.route_binding_id == route_binding_id@ {
                true
            } else if removed {
                false
            } else {
                match (identity, protocol) {
                    (Some(identity), Some(protocol)) => subscription.protocol == protocol && match (
                        route::match_score(identity@, subscription.request_identity),
                        route::match_score(
                            subscription.matched_identity,
                            subscription.request_identity,
                        ),
                    ) {
                        (Some(new), Some(cached)) => route::closer(new, cached),
                        (Some(_), None) => true,
                        (None, _) => false,
                    },
                    _ => false,
                }
            }
        },
    }
}

/// Whether a change makes an answer stale.
pub fn subscription_invalidated_by_event(
    subscription: &ActiveRouteSubscription,
    event: &RouteBindingChange,
) -> (stale: bool)
    ensures
        stale == made_stale(subscription@, *event),
{
    match event {
        RouteBindingChange::Reset => true,
        RouteBindingChange::Instance(id) => same_text(
            subscription.instance_id.as_str(),
            id.as_str(),
        ),
        RouteBindingChange::Route { route_binding_id, removed, identity, protocol } => {
            if same_text(subscription.route_binding_id.as_str(), route_binding_id.as_str()) {
                return true;
            }
            if *removed {
                return false;
            }
            match (identity, protocol) {
                (Some(identity), Some(protocol)) => {
                    if subscription.protocol != *protocol {
                        return false;
                    }
                    match route_match_score(identity, &subscription.request_identity) {
                        None => false,
                        Some(new) => match route_match_score(
                            &subscription.matched_identity,
                            &subscription.request_identity,
                        ) {
                            None => true,
                            Some(cached) => is_closer(new, cached),
                        },
                    }
                },
                _ => false,
            }
        },
    }
}

/// Why an answer is stale.
#[derive(Clone, Copy, Debug, PartialEq, Eq, Structural)]
pub enum InvalidationReason {
    RouteRemoved,
    RouteChanged,
}

/// Why a change makes answers stale.
pub open spec fn reason_of(event: RouteBindingChange) -> InvalidationReason {
    match event {
        RouteBindingChange::Route { removed, .. } => if removed {
            InvalidationReason::RouteRemoved
        } else {
            InvalidationReason::RouteChanged
        },
        _ => InvalidationReason::RouteChanged,
    }
}

/// Why a change makes answers stale.
pub fn route_change_reason_to_proto(event: &RouteBindingChange) -> (reason: InvalidationReason)
    ensures
        reason == reason_of(*event),
{
    match event {
        RouteBindingChange::Route { removed, .. } => {
            if *removed {
                InvalidationReason::RouteRemoved
            } else {
                InvalidationReason::RouteChanged
            }
        },
        _ => InvalidationReason::RouteChanged,
    }
}

/// The subscriptions of a stream, each under its identifier.
pub type SubscriptionsView = Seq<(Seq<char>, SubscriptionView)>;

/// The first `count` subscriptions that a change leaves as they are.
pub open spec fn untouched(
    subscriptions: SubscriptionsView,
    count: nat,
    event: RouteBindingChange,
) -> SubscriptionsView
    decreases count,
{
    if count == 0 || count > subscriptions.len() {
        Seq::empty()
    } else {
        let before = untouched(subscriptions, (count - 1) as nat, event);
        if made_stale(subscriptions[count - 1].1, event) {
            before
        } else {
            before.push(subscriptions[count - 1])
        }
    }
}

/// The identifiers of the first `count` subscriptions that a change makes stale.
pub open spec fn stale_ids(
    subscriptions: SubscriptionsView,
    count: nat,
    event: RouteBindingChange,
) -> Seq<Seq<char>>
    decreases count,
{
    if count == 0 || count > subscriptions.len() {
        Seq::empty()
    } else {
        let before = stale_ids(subscriptions, (count - 1) as nat, event);
        if made_stale(subscriptions[count - 1].1, event) {
            before.push(subscriptions[count - 1].0)
        } else {
            before
        }
    }
}

proof fn lemma_untouched_stem(
    subscriptions: SubscriptionsView,
    count: nat,
    event: RouteBindingChange,
    at: int,
)
    requires
        count <= subscriptions.len(),
        0 <= at < untouched(subscriptions, count, event).len(),
    ensures
        exists|i: int|
            0 <= i < count && subscriptions[i] == untouched(subscriptions, count, event)[at]
                && !made_stale((#[trigger] subscriptions[i]).1, event),
    decreases count,
{
    if count > 0 {
        let before = untouched(subscriptions, (count - 1) as nat, event);
        if at < before.len() {
            lemma_untouched_stem(subscriptions, (count - 1) as nat, event, at);
            let i = choose|i: int|
                0 <= i < count - 1 && subscriptions[i] == before[at] && !made_stale(
                    (#[trigger] subscriptions[i]).1,
                    event,
                );
            assert(untouched(subscriptions, count, event)[at] == before[at]);
            assert(subscriptions[i] == before[at]);
        } else {
            assert(subscriptions[count - 1] == untouched(subscriptions, count, event)[at]);
        }
    }
}

proof fn lemma_kept_or_reported(
    subscriptions: SubscriptionsView,
    count: nat,
    event: RouteBindingChange,
    at: int,
)
    requires
        0 <= at < count <= subscriptions.len(),
    ensures
        made_stale(subscriptions[at].1, event) ==> stale_ids(
            subscriptions,
            count,
            event,
        ).contains(subscriptions[at].0),
        !made_stale(subscriptions[at].1, event) ==> untouched(
            subscriptions,
            count,
            event,
        ).contains(subscriptions[at]),
    decreases count,
{
    let stale = stale_ids(subscriptions, count, event);
    let kept = untouched(subscriptions, count, event);
    if at == count - 1 {
        if made_stale(subscriptions[at].1, event) {
            assert(stale[stale.len() - 1] == subscriptions[at].0);
        } else {
            assert(kept[kept.len() - 1] == subscriptions[at]);
        }
    } else {
        lemma_kept_or_reported(subscriptions, (count - 1) as nat, event, at);
        let stale_before = stale_ids(subscriptions, (count - 1) as nat, event);
        let kept_before = untouched(subscriptions, (count - 1) as nat, event);
        if made_stale(subscriptions[at].1, event) {
            let i = choose|i: int|
                0 <= i < stale_before.len() && stale_before[i] == subscriptions[at].0;
            assert(stale[i] == subscriptions[at].0);
        } else {
            let i = choose|i: int|
                0 <= i < kept_before.len() && kept_before[i] == subscriptions[at];
            assert(kept[i] == subscriptions[at]);
        }
    }
}

/// Every answer that a proxy relies on is either kept as it is or reported stale,
/// and none that is kept is stale.
pub proof fn law_every_answer_is_kept_or_reported(
    subscriptions: SubscriptionsView,
    event: RouteBindingChange,
    at: int,
)
    requires
        0 <= at < subscriptions.len(),
    ensures
        made_stale(subscriptions[at].1, event) ==> stale_ids(
            subscriptions,
            subscriptions.len(),
            event,
        ).contains(subscriptions[at].0),
        !made_stale(subscriptions[at].1, event) ==> untouched(
            subscriptions,
            subscriptions.len(),
            event,
        ).contains(subscriptions[at]),
        forall|i: int|
            0 <= i < untouched(subscriptions, subscriptions.len(), event).len() ==> !made_stale(
                (#[trigger] untouched(subscriptions, subscriptions.len(), event)[i]).1,
                event,
            ),
{
    lemma_kept_or_reported(subscriptions, subscriptions.len(), event, at);
    assert forall|i: int|
        0 <= i < untouched(subscriptions, subscriptions.len(), event).len() implies !made_stale(
        (#[trigger] untouched(subscriptions, subscriptions.len(), event)[i]).1,
        event,
    ) by {
        lemma_untouched_stem(subscriptions, subscriptions.len(), event, i);
    }
}

/// Drops the subscriptions that a change makes stale, and tells which.
pub fn invalidations_for_route_event(
    subscriptions: &mut StringMap<ActiveRouteSubscription>,
    event: &RouteBindingChange,
) -> (stale: Vec<String>)
    ensures
        final(subscriptions)@ == untouched(old(subscriptions)@, old(subscriptions)@.len(), *event),
        manifest::views(stale@) == stale_ids(
            old(subscriptions)@,
            old(subscriptions)@.len(),
            *event,
        ),
{
    let ghost whole = subscriptions@;
    let mut kept: StringMap<ActiveRouteSubscription> = StringMap::new();
    let mut stale: Vec<String> = Vec::new();
    let length: usize = subscriptions.len();
    let mut at: usize = 0;
    assert(manifest::views(stale@) =~= Seq::<Seq<char>>::empty());
    while at < length
        invariant
            at <= length,
            length == whole.len(),
            whole == subscriptions@,
            whole == old(subscriptions)@,
            string_map::sorted_keys(whole),
            kept@ == untouched(whole, at as nat, *event),
            manifest::views(stale@) == stale_ids(whole, at as nat, *event),
        decreases length - at,
    {
        let id = subscriptions.key_at(at);
        let subscription = subscriptions.value_at(at);
        if subscription_invalidated_by_event(subscription, event) {
            let ghost before = stale@;
            stale.push(id.clone());
            assert(manifest::views(stale@) =~= manifest::views(before).push(id@));
        } else {
            proof {
                assert forall|i: int| 0 <= i < kept@.len() implies text::text_lt(
                    #[trigger] kept@[i].0,
                    id@,
                ) by {
                    lemma_untouched_stem(whole, at as nat, *event, i);
                    let j = choose|j: int|
                        0 <= j < at && whole[j] == untouched(whole, at as nat, *event)[i]
                            && !made_stale((#[trigger] whole[j]).1, *event);
                    assert(text::text_lt(whole[j].0, whole[at as int].0));
                }
                string_map::lemma_with_entry_last(kept@, id@, subscription@);
            }
            kept.insert(id.clone(), subscription.duplicate());
        }
        at = at + 1;
    }
    *subscriptions = kept;
    stale
}

/// The identifier of a subscription with a number.
pub open spec fn subscription_name(number: u64) -> Seq<char> {
    "sub:"@ + text::decimal(number as nat)
}

/// The next identifier.
pub fn next_subscription_id(next_subscription_number: &mut u64) -> (id: String)
    requires
        *old(next_subscription_number) < u64::MAX,
    ensures
        *final(next_subscription_number) == *old(next_subscription_number) + 1,
        id@ == subscription_name(*final(next_subscription_number)),
{
    *next_subscription_number = *next_subscription_number + 1;
    "sub:".to_owned().concat(decimal_text(*next_subscription_number).as_str())
}

/// No two numbers give one identifier.
pub proof fn law_subscription_ids_differ(left: u64, right: u64)
    ensures
        subscription_name(left) == subscription_name(right) ==> left == right,
{
    if subscription_name(left) == subscription_name(right) {
        let prefix = "sub:"@;
        assert(text::decimal(left as nat) =~= subscription_name(left).skip(prefix.len() as int));
        assert(text::decimal(right as nat) =~= subscription_name(right).skip(prefix.len() as int));
        text::lemma_decimal_injective(left as nat, right as nat);
    }
}

/// What a proxy asks on its stream.
#[derive(Clone, Debug, PartialEq, Eq)]
pub enum SubscribeInput {
    Missing,
    SubscribeRoute { request_id: String, identity: Option<WireIdentity> },
    Unsubscribe { subscription_id: String },
}

/// What is done with what a proxy asks.
#[derive(Clone, Debug, PartialEq, Eq)]
pub enum SubscribeStep {
    /// The route is looked up.
    Resolve { request_id: String, identity: RouteIdentity },
    /// A subscription is forgotten. Nothing is answered, and one that is not
    /// there is forgotten all the same.
    Forget { subscription_id: String },
}

/// Why a request on a stream is refused.
pub open spec fn subscribe_refusal(input: SubscribeInput, active: nat, limit: nat) -> Option<
    StatusView,
> {
    match input {
        SubscribeInput::Missing => Some(
            status::refused(
                StatusCode::InvalidArgument,
                "subscribe request input is required"@,
            ),
        ),
        SubscribeInput::Unsubscribe { subscription_id } => match field_verdict(
            subscription_id@,
            "subscription_id"@,
        ) {
            Err(refusal) => Some(refusal),
            Ok(_) => None,
        },
        SubscribeInput::SubscribeRoute { request_id, identity } => if active >= limit {
            Some(
                status::refused(
                    StatusCode::ResourceExhausted,
                    "subscription entry capacity exhausted"@,
                ),
            )
        } else {
            match field_verdict(request_id@, "request_id"@) {
                Err(refusal) => Some(refusal),
                Ok(_) => match identity {
                    None => Some(
                        status::refused(StatusCode::InvalidArgument, "identity required"@),
                    ),
                    Some(identity) => match identity_size_verdict(identity) {
                        Err(refusal) => Some(refusal),
                        Ok(_) => match sent_identity(identity) {
                            Err(refusal) => Some(refusal),
                            Ok(_) => None,
                        },
                    },
                },
            }
        },
    }
}

/// Decides what is done with what a proxy asks on a stream with so many
/// subscriptions.
pub fn handle_subscribe_request(input: SubscribeInput, active: usize, limit: usize) -> (result: Result<
    SubscribeStep,
    ApiStatus,
>)
    ensures
        match result {
            Err(refusal) => subscribe_refusal(input, active as nat, limit as nat) == Some(refusal@),
            Ok(step) => {
                &&& subscribe_refusal(input, active as nat, limit as nat) is None
                &&& match (input, step) {
                    (
                        SubscribeInput::SubscribeRoute { request_id, identity },
                        SubscribeStep::Resolve { request_id: asked, identity: read },
                    ) => asked == request_id && identity is Some && sent_identity(identity->Some_0)
                        == Ok::<RouteIdentityView, StatusView>(read@),
                    (
                        SubscribeInput::Unsubscribe { subscription_id },
                        SubscribeStep::Forget { subscription_id: named },
                    ) => named == subscription_id,
                    _ => false,
                }
            },
        },
{
    match input {
        SubscribeInput::Missing => invalid("subscribe request input is required"),
        SubscribeInput::Unsubscribe { subscription_id } => {
            non_empty_field(subscription_id.as_str(), "subscription_id")?;
            Ok(SubscribeStep::Forget { subscription_id })
        },
        SubscribeInput::SubscribeRoute { request_id, identity } => {
            if active >= limit {
                return Err(
                    ApiStatus::new(
                        StatusCode::ResourceExhausted,
                        "subscription entry capacity exhausted",
                    ),
                );
            }
            non_empty_field(request_id.as_str(), "request_id")?;
            match identity {
                None => invalid("identity required"),
                Some(identity) => {
                    validate_identity_size(&identity)?;
                    let read = route_identity_from_proto(&identity)?;
                    Ok(SubscribeStep::Resolve { request_id, identity: read })
                },
            }
        },
    }
}

/// A span in whole milliseconds, as far as it fits.
pub open spec fn whole_millis(span: nat) -> u64 {
    if span / NANOS_PER_MILLI as nat <= u64::MAX {
        (span / NANOS_PER_MILLI as nat) as u64
    } else {
        u64::MAX
    }
}

/// How long a proxy may keep an answer.
pub fn cache_policy_to_proto(ttl: Duration) -> (ttl_millis: u64)
    ensures
        ttl_millis == whole_millis(ttl@),
{
    let millis: u128 = ttl.as_millis();
    if millis <= 18_446_744_073_709_551_615 {
        millis as u64
    } else {
        18_446_744_073_709_551_615
    }
}

/// Where a route leads, as it is sent.
#[derive(Clone, Debug, PartialEq, Eq)]
pub struct WireRouteEntry {
    pub route_binding_id: String,
    pub instance_id: String,
    pub instance_state: InstanceState,
    pub instance_generation: u64,
    pub backend_uri: Option<String>,
    pub backend_generation: Option<u64>,
}

/// What is sent says where a route leads.
pub open spec fn sends_entry(wire: WireRouteEntry, entry: RouteEntry) -> bool {
    &&& wire.route_binding_id@ == entry.route_binding_id@
    &&& wire.instance_id@ == entry.instance_id@
    &&& wire.instance_state == entry.instance_state
    &&& wire.instance_generation == entry.instance_generation@
    &&& manifest::optional_view(wire.backend_uri) == (match entry.backend {
        Some(backend) => Some(backend@.uri),
        None => None,
    })
    &&& wire.backend_generation == manifest::optional_view(entry.backend_generation)
}

/// Where a route leads, to send.
pub fn route_entry_to_proto(entry: &RouteEntry) -> (wire: WireRouteEntry)
    ensures
        sends_entry(wire, *entry),
{
    WireRouteEntry {
        route_binding_id: entry.route_binding_id.as_str().to_owned(),
        instance_id: entry.instance_id.as_str().to_owned(),
        instance_state: entry.instance_state,
        instance_generation: entry.instance_generation.get(),
        backend_uri: match &entry.backend {
            Some(backend) => Some(backend.uri().to_owned()),
            None => None,
        },
        backend_generation: match entry.backend_generation {
            Some(generation) => Some(generation.get()),
            None => None,
        },
    }
}

/// What a proxy gets on its stream.
#[derive(Clone, Debug, PartialEq, Eq)]
pub enum SubscribeResponse {
    RouteResolved {
        request_id: String,
        subscription_id: String,
        matched_identity: WireIdentity,
        route: WireRouteEntry,
        ttl_millis: u64,
    },
    RouteMiss { request_id: String, request_identity: WireIdentity, ttl_millis: u64 },
    RouteInvalidated { subscription_id: String, reason: InvalidationReason },
}

/// The subscription that an answer makes.
pub open spec fn subscription_for(
    request: RouteIdentityView,
    matched: RouteIdentityView,
    entry: RouteEntry,
) -> SubscriptionView {
    SubscriptionView {
        route_binding_id: entry.route_binding_id@,
        instance_id: entry.instance_id@,
        request_identity: request,
        matched_identity: matched,
        protocol: route::protocol_of(matched),
    }
}

/// Answers a proxy with what was found, and remembers what it then relies on.
pub fn subscribe_route(
    subscriptions: &mut StringMap<ActiveRouteSubscription>,
    next_subscription_number: &mut u64,
    request_id: String,
    request_identity: RouteIdentity,
    resolution: RouteResolution,
    positive_cache_ttl: Duration,
) -> (response: SubscribeResponse)
    requires
        *old(next_subscription_number) < u64::MAX,
    ensures
        match resolution {
            RouteResolution::Resolved { matched_identity, entry } => {
                &&& *final(next_subscription_number) == *old(next_subscription_number) + 1
                &&& final(subscriptions)@ == string_map::with_entry(
                    old(subscriptions)@,
                    subscription_name(*final(next_subscription_number)),
                    subscription_for(request_identity@, matched_identity@, entry),
                )
                &&& response matches SubscribeResponse::RouteResolved {
                    request_id: asked,
                    subscription_id,
                    matched_identity: matched,
                    route,
                    ttl_millis,
                } && asked == request_id && subscription_id@ == subscription_name(
                    *final(next_subscription_number),
                ) && sends(matched, matched_identity@) && sends_entry(route, entry) && ttl_millis
                    == whole_millis(positive_cache_ttl@)
            },
            RouteResolution::Miss { negative_cache } => {
                &&& *final(next_subscription_number) == *old(next_subscription_number)
                &&& final(subscriptions)@ == old(subscriptions)@
                &&& response matches SubscribeResponse::RouteMiss {
                    request_id: asked,
                    request_identity: identity,
                    ttl_millis,
                } && asked == request_id && sends(identity, request_identity@) && ttl_millis
                    == whole_millis(negative_cache@)
            },
        },
{
    match resolution {
        RouteResolution::Resolved { matched_identity, entry } => {
            let subscription_id = next_subscription_id(next_subscription_number);
            let protocol = protocol_for_route_identity(&matched_identity);
            let subscription = ActiveRouteSubscription {
                route_binding_id: entry.route_binding_id.duplicate(),
                instance_id: entry.instance_id.duplicate(),
                request_identity,
                matched_identity: matched_identity.duplicate(),
                protocol,
            };
            subscriptions.insert(subscription_id.clone(), subscription);
            SubscribeResponse::RouteResolved {
                request_id,
                subscription_id,
                matched_identity: route_identity_to_proto(&matched_identity),
                route: route_entry_to_proto(&entry),
                ttl_millis: cache_policy_to_proto(positive_cache_ttl),
            }
        },
        RouteResolution::Miss { negative_cache } => SubscribeResponse::RouteMiss {
            request_id,
            request_identity: route_identity_to_proto(&request_identity),
            ttl_millis: cache_policy_to_proto(negative_cache),
        },
    }
}

/// Every subscription has an identifier that was given out, the last of which has
/// the number.
pub open spec fn given_out(subscriptions: SubscriptionsView, number: u64) -> bool {
    forall|i: int|
        0 <= i < subscriptions.len() ==> exists|n: u64|
            1 <= n <= number && (#[trigger] subscriptions[i]).0 == #[trigger] subscription_name(n)
}

proof fn lemma_with_new_entry(
    subscriptions: SubscriptionsView,
    id: Seq<char>,
    subscription: SubscriptionView,
)
    requires
        !string_map::has_key(subscriptions, id),
    ensures
        string_map::with_entry(subscriptions, id, subscription).len() == subscriptions.len() + 1,
    decreases subscriptions.len(),
{
    if subscriptions.len() > 0 {
        let rest = subscriptions.drop_first();
        assert(subscriptions[0].0 != id);
        assert forall|i: int| 0 <= i < rest.len() implies #[trigger] rest[i].0 != id by {
            assert(rest[i] == subscriptions[i + 1]);
        }
        lemma_with_new_entry(rest, id, subscription);
    }
}

proof fn lemma_without_entry_stem(subscriptions: SubscriptionsView, id: Seq<char>, at: int)
    requires
        0 <= at < string_map::without_entry(subscriptions, id).len(),
    ensures
        subscriptions.contains(string_map::without_entry(subscriptions, id)[at]),
    decreases subscriptions.len(),
{
    if subscriptions.len() > 0 {
        let rest = subscriptions.drop_first();
        let left = string_map::without_entry(subscriptions, id);
        if subscriptions[0].0 == id {
            assert(left[at] == subscriptions[at + 1]);
        } else if at == 0 {
            assert(left[at] == subscriptions[0]);
        } else {
            lemma_without_entry_stem(rest, id, at - 1);
            let i = choose|i: int|
                0 <= i < rest.len() && rest[i] == string_map::without_entry(rest, id)[at - 1];
            assert(subscriptions[i + 1] == left[at]);
        }
    }
}

/// An identifier is never given out twice on a stream, whatever was dropped in
/// between: the next one is in use by no subscription, so a new answer adds one
/// subscription and replaces none.
pub proof fn law_identifiers_are_fresh(
    subscriptions: SubscriptionsView,
    number: u64,
    subscription: SubscriptionView,
    event: RouteBindingChange,
    dropped: Seq<char>,
)
    requires
        string_map::sorted_keys(subscriptions),
        given_out(subscriptions, number),
        number < u64::MAX,
    ensures
        !string_map::has_key(subscriptions, subscription_name((number + 1) as u64)),
        string_map::with_entry(
            subscriptions,
            subscription_name((number + 1) as u64),
            subscription,
        ).len() == subscriptions.len() + 1,
        given_out(
            string_map::with_entry(
                subscriptions,
                subscription_name((number + 1) as u64),
                subscription,
            ),
            (number + 1) as u64,
        ),
        given_out(untouched(subscriptions, subscriptions.len(), event), number),
        given_out(string_map::without_entry(subscriptions, dropped), number),
{
    let next = (number + 1) as u64;
    let name = subscription_name(next);
    assert forall|i: int| 0 <= i < subscriptions.len() implies #[trigger] subscriptions[i].0
        != name by {
        let n = choose|n: u64|
            1 <= n <= number && subscriptions[i].0 == #[trigger] subscription_name(n);
        law_subscription_ids_differ(n, next);
    }
    lemma_with_new_entry(subscriptions, name, subscription);
    string_map::lemma_with_entry_sorted(subscriptions, name, subscription);
    let more = string_map::with_entry(subscriptions, name, subscription);
    assert forall|j: int| 0 <= j < more.len() implies exists|n: u64|
        1 <= n <= next && (#[trigger] more[j]).0 == #[trigger] subscription_name(n) by {
        if more[j].0 == name {
            assert(more[j].0 == subscription_name(next));
        } else {
            let i = choose|i: int|
                0 <= i < subscriptions.len() && #[trigger] subscriptions[i].0 == more[j].0;
            let n = choose|n: u64|
                1 <= n <= number && subscriptions[i].0 == #[trigger] subscription_name(n);
            assert(more[j].0 == subscription_name(n));
        }
    }
    let kept = untouched(subscriptions, subscriptions.len(), event);
    assert forall|j: int| 0 <= j < kept.len() implies exists|n: u64|
        1 <= n <= number && (#[trigger] kept[j]).0 == #[trigger] subscription_name(n) by {
        lemma_untouched_stem(subscriptions, subscriptions.len(), event, j);
    }
    let left = string_map::without_entry(subscriptions, dropped);
    assert forall|j: int| 0 <= j < left.len() implies exists|n: u64|
        1 <= n <= number && (#[trigger] left[j]).0 == #[trigger] subscription_name(n) by {
        lemma_without_entry_stem(subscriptions, dropped, j);
    }
}

/// What reaches a stream from the broker of changes.
#[derive(Clone, Debug, PartialEq, Eq)]
pub enum BrokerEvent {
    Change(RouteBindingChange),
    /// The stream was too slow, and changes were lost.
    Lagged,
    Closed,
}

/// What is done with what reaches a stream.
#[derive(Clone, Debug, PartialEq, Eq)]
pub enum BrokerStep {
    /// The stream ends, and the proxy starts over.
    End,
    Report(Vec<SubscribeResponse>),
}

/// The responses report the identifiers, in their order, for one reason.
pub open spec fn reports(
    responses: Seq<SubscribeResponse>,
    ids: Seq<Seq<char>>,
    because: InvalidationReason,
) -> bool {
    &&& responses.len() == ids.len()
    &&& forall|i: int|
        0 <= i < responses.len() ==> (#[trigger] responses[i] matches SubscribeResponse::RouteInvalidated {
            subscription_id,
            reason,
        } && subscription_id@ == ids[i] && reason == because)
}

/// Handles what reaches a stream: every answer that became stale is reported, and
/// where changes may have been lost the stream ends.
pub fn handle_broker_event(
    subscriptions: &mut StringMap<ActiveRouteSubscription>,
    event: &BrokerEvent,
) -> (step: BrokerStep)
    ensures
        match *event {
            BrokerEvent::Lagged => step is End && final(subscriptions)@ == old(subscriptions)@,
            BrokerEvent::Closed => step is End && final(subscriptions)@ == old(subscriptions)@,
            BrokerEvent::Change(RouteBindingChange::Reset) => {
                &&& step is End
                &&& final(subscriptions)@ == old(subscriptions)@
            },
            BrokerEvent::Change(change) => {
                &&& final(subscriptions)@ == untouched(
                    old(subscriptions)@,
                    old(subscriptions)@.len(),
                    change,
                )
                &&& step matches BrokerStep::Report(responses) && reports(
                    responses@,
                    stale_ids(old(subscriptions)@, old(subscriptions)@.len(), change),
                    reason_of(change),
                )
            },
        },
{
    match event {
        BrokerEvent::Lagged => BrokerStep::End,
        BrokerEvent::Closed => BrokerStep::End,
        BrokerEvent::Change(RouteBindingChange::Reset) => BrokerStep::End,
        BrokerEvent::Change(change) => {
            let reason = route_change_reason_to_proto(change);
            let stale = invalidations_for_route_event(subscriptions, change);
            let ghost ids = manifest::views(stale@);
            let mut responses: Vec<SubscribeResponse> = Vec::new();
            let mut at: usize = 0;
            while at < stale.len()
                invariant
                    at <= stale@.len(),
                    responses@.len() == at,
                    reason == reason_of(*change),
                    forall|i: int|
                        0 <= i < at ==> (#[trigger] responses@[i] matches SubscribeResponse::RouteInvalidated {
                            subscription_id,
                            reason,
                        } && subscription_id@ == stale@[i]@ && reason == reason_of(*change)),
                decreases stale@.len() - at,
            {
                responses.push(
                    SubscribeResponse::RouteInvalidated {
                        subscription_id: stale[at].clone(),
                        reason,
                    },
                );
                at = at + 1;
            }
            BrokerStep::Report(responses)
        },
    }
}

// ---------------------------------------------------------------------------
// Wakes
// ---------------------------------------------------------------------------
/// An instance to wake.
#[derive(Clone, Debug, PartialEq, Eq)]
pub struct WakeInstanceRequest {
    pub instance_id: InstanceId,
    pub expected_generation: Generation,
    pub target: MaterializationTarget,
    pub backend_generation: Option<BackendGeneration>,
}

/// Reads a wake that was sent.
pub fn proxy_wake_request_from_proto(
    instance_id: &str,
    expected_generation: u64,
    backend_generation: Option<u64>,
    target: MaterializationTarget,
) -> (result: Result<WakeInstanceRequest, ApiStatus>)
    ensures
        match result {
            Ok(request) => {
                &&& crate::kubernetes_name::dns_label(instance_id@)
                &&& request.instance_id@ == instance_id@
                &&& request.expected_generation@ == expected_generation
                &&& request.target == target
                &&& manifest::optional_view(request.backend_generation) == backend_generation
            },
            Err(refusal) => !crate::kubernetes_name::dns_label(instance_id@) && refusal@
                == status::refused(
                StatusCode::InvalidArgument,
                "InstanceId"@ + " cannot be "@ + text::quoted_text(instance_id@),
            ),
        },
{
    match InstanceId::new(instance_id) {
        Err(error) => {
            let message = error.field().to_owned().concat(" cannot be ").concat(
                quoted(error.value()).as_str(),
            );
            invalid(message.as_str())
        },
        Ok(id) => {
            let backend = match backend_generation {
                Some(generation) => Some(BackendGeneration::new(generation)),
                None => None,
            };
            Ok(
                WakeInstanceRequest {
                    instance_id: id,
                    expected_generation: Generation::new(expected_generation),
                    target,
                    backend_generation: backend,
                },
            )
        },
    }
}

/// Why an instance cannot be woken.
#[derive(Clone, Copy, Debug, PartialEq, Eq, Structural)]
pub enum WakeUnavailableReason {
    Deleting,
    Deleted,
}

/// What a proxy gets when it wakes an instance.
#[derive(Clone, Debug, PartialEq, Eq)]
pub enum WakeResponse {
    Ready {
        instance_id: String,
        instance_generation: u64,
        backend_uri: String,
        backend_generation: u64,
    },
    StillWaking { instance_id: String, instance_generation: u64 },
    GenerationConflict { instance_id: String, expected_generation: u64, actual_generation: u64 },
    Unavailable { instance_id: String, instance_generation: u64, reason: WakeUnavailableReason },
}

/// The mathematical model of a [`WakeResponse`].
#[verifier::ext_equal]
pub enum WakeResponseView {
    Ready {
        instance_id: Seq<char>,
        instance_generation: u64,
        backend_uri: Seq<char>,
        backend_generation: u64,
    },
    StillWaking { instance_id: Seq<char>, instance_generation: u64 },
    GenerationConflict {
        instance_id: Seq<char>,
        expected_generation: u64,
        actual_generation: u64,
    },
    Unavailable {
        instance_id: Seq<char>,
        instance_generation: u64,
        reason: WakeUnavailableReason,
    },
}

impl View for WakeResponse {
    type V = WakeResponseView;

    open spec fn view(&self) -> WakeResponseView {
        match self {
            WakeResponse::Ready {
                instance_id,
                instance_generation,
                backend_uri,
                backend_generation,
            } => WakeResponseView::Ready {
                instance_id: instance_id@,
                instance_generation: *instance_generation,
                backend_uri: backend_uri@,
                backend_generation: *backend_generation,
            },
            WakeResponse::StillWaking { instance_id, instance_generation } => {
                WakeResponseView::StillWaking {
                    instance_id: instance_id@,
                    instance_generation: *instance_generation,
                }
            },
            WakeResponse::GenerationConflict {
                instance_id,
                expected_generation,
                actual_generation,
            } => WakeResponseView::GenerationConflict {
                instance_id: instance_id@,
                expected_generation: *expected_generation,
                actual_generation: *actual_generation,
            },
            WakeResponse::Unavailable { instance_id, instance_generation, reason } => {
                WakeResponseView::Unavailable {
                    instance_id: instance_id@,
                    instance_generation: *instance_generation,
                    reason: *reason,
                }
            },
        }
    }
}

/// The answer for an instance that runs: where it runs.
pub open spec fn ready_outcome(instance: InstanceRecord, materialization: MaterializationRecord) -> Result<
    WakeResponseView,
    StatusView,
> {
    match materialization.backend {
        Some(backend) => Ok(
            WakeResponseView::Ready {
                instance_id: instance.id@,
                instance_generation: instance.generation@,
                backend_uri: backend@.uri,
                backend_generation: materialization.backend_generation@,
            },
        ),
        None => Err(
            status::refused(
                StatusCode::FailedPrecondition,
                "ready materialization for instance "@ + instance.id@
                    + " has no backend endpoint"@,
            ),
        ),
    }
}

/// The answer for an instance that runs.
pub fn proxy_ready_response(instance: &InstanceRecord, materialization: &MaterializationRecord) -> (result:
    Result<WakeResponse, ApiStatus>)
    ensures
        status::answer(result) == ready_outcome(*instance, *materialization),
{
    match &materialization.backend {
        Some(backend) => Ok(
            WakeResponse::Ready {
                instance_id: instance.id.as_str().to_owned(),
                instance_generation: instance.generation.get(),
                backend_uri: backend.uri().to_owned(),
                backend_generation: materialization.backend_generation.get(),
            },
        ),
        None => {
            let message = "ready materialization for instance ".to_owned().concat(
                instance.id.as_str(),
            ).concat(" has no backend endpoint");
            Err(ApiStatus::new(StatusCode::FailedPrecondition, message.as_str()))
        },
    }
}

/// The answer for an instance that is on its way.
pub fn proxy_waking_response(instance: &InstanceRecord) -> (response: WakeResponse)
    ensures
        response@ == (WakeResponseView::StillWaking {
            instance_id: instance.id@,
            instance_generation: instance.generation@,
        }),
{
    WakeResponse::StillWaking {
        instance_id: instance.id.as_str().to_owned(),
        instance_generation: instance.generation.get(),
    }
}

/// Why an instance did not wake. `source` is the sentence of the error underneath.
#[allow(inconsistent_fields)]
#[derive(Clone, Debug, PartialEq, Eq)]
pub enum WakeInstanceError {
    NotFound,
    GenerationConflict { expected: Generation, actual: Generation },
    Unavailable { instance: InstanceRecord, reason: WakeUnavailableReason },
    ReadyMaterializationNotFound { instance: InstanceRecord },
    WorkloadClassNotFound { instance: InstanceRecord },
    Render { instance: InstanceRecord, source: String },
    SleepPolicy { instance: InstanceRecord, source: String },
    Materializer { instance: InstanceRecord, source: String },
    Store(StoreError),
}

/// The instance that failed to wake, whose routes then lead elsewhere.
pub fn failed_wake_instance(error: &WakeInstanceError) -> (instance: Option<&InstanceRecord>)
    ensures
        match error {
            WakeInstanceError::WorkloadClassNotFound { instance: failed } => instance == Some(
                failed,
            ),
            WakeInstanceError::Render { instance: failed, .. } => instance == Some(failed),
            WakeInstanceError::SleepPolicy { instance: failed, .. } => instance == Some(failed),
            WakeInstanceError::Materializer { instance: failed, .. } => instance == Some(failed),
            _ => instance is None,
        },
{
    match error {
        WakeInstanceError::WorkloadClassNotFound { instance } => Some(instance),
        WakeInstanceError::Render { instance, .. } => Some(instance),
        WakeInstanceError::SleepPolicy { instance, .. } => Some(instance),
        WakeInstanceError::Materializer { instance, .. } => Some(instance),
        _ => None,
    }
}

/// What a proxy gets for an instance that did not wake.
pub open spec fn wake_error_outcome(
    request_instance_id: Seq<char>,
    error: WakeInstanceError,
    activation_timeout: nat,
) -> Result<WakeResponseView, StatusView> {
    match error {
        WakeInstanceError::NotFound => Err(
            status::refused(StatusCode::NotFound, "instance not found"@),
        ),
        WakeInstanceError::GenerationConflict { expected, actual } => Ok(
            WakeResponseView::GenerationConflict {
                instance_id: request_instance_id,
                expected_generation: expected@,
                actual_generation: actual@,
            },
        ),
        WakeInstanceError::Unavailable { instance, reason } => Ok(
            WakeResponseView::Unavailable {
                instance_id: instance.id@,
                instance_generation: instance.generation@,
                reason,
            },
        ),
        WakeInstanceError::ReadyMaterializationNotFound { instance } => Err(
            status::refused(
                StatusCode::FailedPrecondition,
                "ready materialization was not found for instance "@ + instance.id@
                    + " and configured target"@,
            ),
        ),
        WakeInstanceError::WorkloadClassNotFound { instance } => Err(
            status::refused(
                StatusCode::FailedPrecondition,
                "workload class version was not found for instance "@ + instance.id@,
            ),
        ),
        WakeInstanceError::Render { instance, source } => Err(
            status::refused(
                StatusCode::Internal,
                "manifest render failed for instance "@ + instance.id@ + ": "@ + source@,
            ),
        ),
        WakeInstanceError::SleepPolicy { instance, source } => Err(
            status::refused(
                StatusCode::Internal,
                "sleep policy resolution failed for instance "@ + instance.id@ + ": "@ + source@,
            ),
        ),
        WakeInstanceError::Materializer { instance, source } => Err(
            status::refused(
                StatusCode::Unavailable,
                "materialization failed for instance "@ + instance.id@ + ": "@ + source@,
            ),
        ),
        WakeInstanceError::Store(error) => Err(store_refusal(error@, activation_timeout)),
    }
}

fn about_instance(front: &str, instance: &InstanceRecord, rest: &str) -> (message: String)
    ensures
        message@ == front@ + instance.id@ + rest@,
{
    front.to_owned().concat(instance.id.as_str()).concat(rest)
}

fn caused(front: &str, instance: &InstanceRecord, source: &str) -> (message: String)
    ensures
        message@ == front@ + instance.id@ + ": "@ + source@,
{
    about_instance(front, instance, ": ").concat(source)
}

/// What a proxy gets for an instance that did not wake.
pub fn proxy_wake_error_response(
    request_instance_id: String,
    error: &WakeInstanceError,
    activation_timeout: Duration,
) -> (result: Result<WakeResponse, ApiStatus>)
    ensures
        status::answer(result) == wake_error_outcome(
            request_instance_id@,
            *error,
            activation_timeout@,
        ),
{
    match error {
        WakeInstanceError::NotFound => Err(
            ApiStatus::new(StatusCode::NotFound, "instance not found"),
        ),
        WakeInstanceError::GenerationConflict { expected, actual } => Ok(
            WakeResponse::GenerationConflict {
                instance_id: request_instance_id,
                expected_generation: expected.get(),
                actual_generation: actual.get(),
            },
        ),
        WakeInstanceError::Unavailable { instance, reason } => Ok(
            WakeResponse::Unavailable {
                instance_id: instance.id.as_str().to_owned(),
                instance_generation: instance.generation.get(),
                reason: *reason,
            },
        ),
        WakeInstanceError::ReadyMaterializationNotFound { instance } => Err(
            ApiStatus::new(
                StatusCode::FailedPrecondition,
                about_instance(
                    "ready materialization was not found for instance ",
                    instance,
                    " and configured target",
                ).as_str(),
            ),
        ),
        WakeInstanceError::WorkloadClassNotFound { instance } => {
            let message = "workload class version was not found for instance ".to_owned().concat(
                instance.id.as_str(),
            );
            Err(ApiStatus::new(StatusCode::FailedPrecondition, message.as_str()))
        },
        WakeInstanceError::Render { instance, source } => Err(
            ApiStatus::new(
                StatusCode::Internal,
                caused(
                    "manifest render failed for instance ",
                    instance,
                    source.as_str(),
                ).as_str(),
            ),
        ),
        WakeInstanceError::SleepPolicy { instance, source } => Err(
            ApiStatus::new(
                StatusCode::Internal,
                caused(
                    "sleep policy resolution failed for instance ",
                    instance,
                    source.as_str(),
                ).as_str(),
            ),
        ),
        WakeInstanceError::Materializer { instance, source } => Err(
            ApiStatus::new(
                StatusCode::Unavailable,
                caused(
                    "materialization failed for instance ",
                    instance,
                    source.as_str(),
                ).as_str(),
            ),
        ),
        WakeInstanceError::Store(error) => Err(store_error_to_status(error, activation_timeout)),
    }
}

/// What a wake came to.
#[allow(inconsistent_fields)]
#[derive(Debug, PartialEq, Eq)]
pub enum WakeInstanceResult {
    AlreadyRunning { instance: InstanceRecord, materialization: MaterializationRecord },
    AlreadyWaking { instance: InstanceRecord },
    Failed(WakeInstanceError),
}

/// What a proxy gets for a wake.
pub open spec fn wake_outcome(
    request_instance_id: Seq<char>,
    result: WakeInstanceResult,
    activation_timeout: nat,
) -> Result<WakeResponseView, StatusView> {
    match result {
        WakeInstanceResult::AlreadyRunning { instance, materialization } => ready_outcome(
            instance,
            materialization,
        ),
        WakeInstanceResult::AlreadyWaking { instance } => Ok(
            WakeResponseView::StillWaking {
                instance_id: instance.id@,
                instance_generation: instance.generation@,
            },
        ),
        WakeInstanceResult::Failed(error) => wake_error_outcome(
            request_instance_id,
            error,
            activation_timeout,
        ),
    }
}

/// The instance whose routes lead elsewhere once a wake came to this.
pub open spec fn moved_by(result: WakeInstanceResult) -> Option<Seq<char>> {
    match result {
        WakeInstanceResult::Failed(WakeInstanceError::WorkloadClassNotFound { instance }) => Some(
            instance.id@,
        ),
        WakeInstanceResult::Failed(WakeInstanceError::Render { instance, .. }) => Some(
            instance.id@,
        ),
        WakeInstanceResult::Failed(WakeInstanceError::SleepPolicy { instance, .. }) => Some(
            instance.id@,
        ),
        WakeInstanceResult::Failed(WakeInstanceError::Materializer { instance, .. }) => Some(
            instance.id@,
        ),
        _ => None,
    }
}

/// Answers a proxy that asked for a wake. Beside the answer stands the instance, if
/// any, whose subscribers are told first that its routes changed.
pub fn wake_instance(
    request_instance_id: String,
    result: &WakeInstanceResult,
    activation_timeout: Duration,
) -> (answer: (Option<InstanceId>, Result<WakeResponse, ApiStatus>))
    ensures
        manifest::optional_view(answer.0) == moved_by(*result),
        status::answer(answer.1) == wake_outcome(
            request_instance_id@,
            *result,
            activation_timeout@,
        ),
{
    match result {
        WakeInstanceResult::AlreadyRunning { instance, materialization } => (
            None,
            proxy_ready_response(instance, materialization),
        ),
        WakeInstanceResult::AlreadyWaking { instance } => (
            None,
            Ok(proxy_waking_response(instance)),
        ),
        WakeInstanceResult::Failed(error) => {
            let moved = match failed_wake_instance(error) {
                Some(instance) => Some(instance.id.duplicate()),
                None => None,
            };
            (moved, proxy_wake_error_response(request_instance_id, error, activation_timeout))
        },
    }
}

// ---------------------------------------------------------------------------
// Errors of the store
// ---------------------------------------------------------------------------
/// Who holds an exclusivity key, as far as that is known.
pub open spec fn holder_text(instance_id: Option<Seq<char>>, generation: Option<u64>) -> Seq<char> {
    let named = match instance_id {
        Some(instance_id) => " by instance "@ + instance_id,
        None => Seq::empty(),
    };
    match generation {
        Some(generation) => named + " generation "@ + text::decimal(generation as nat),
        None => named,
    }
}

/// What a caller gets for an error of the store.
pub open spec fn store_refusal(error: StoreErrorView, activation_timeout: nat) -> StatusView {
    match error {
        StoreErrorView::SleepDeferred { retry_after } => {
            let wait = retry_after / NANOS_PER_MILLI as nat;
            let longest = activation_timeout / NANOS_PER_MILLI as nat;
            StatusView {
                code: StatusCode::FailedPrecondition,
                message: "automatic sleep deferred for "@ + text::decimal(wait)
                    + " ms after activation"@,
                retry_after_millis: Some(
                    (if wait <= longest {
                        wait
                    } else {
                        longest
                    }) as u128,
                ),
            }
        },
        StoreErrorView::InvalidArgument { message } => status::refused(
            StatusCode::InvalidArgument,
            message,
        ),
        StoreErrorView::NotFound { resource } => status::refused(
            StatusCode::NotFound,
            resource + " not found"@,
        ),
        StoreErrorView::AlreadyExists { resource } => status::refused(
            StatusCode::AlreadyExists,
            resource + " already exists"@,
        ),
        StoreErrorView::GenerationConflict { expected, actual } => status::refused(
            StatusCode::FailedPrecondition,
            "generation conflict: expected generation "@ + text::decimal(expected as nat)
                + ", found "@ + text::decimal(actual as nat),
        ),
        StoreErrorView::ExclusivityConflict {
            cluster_id,
            namespace,
            key_name,
            owner_instance_id,
            owner_generation,
        } => status::refused(
            StatusCode::FailedPrecondition,
            "exclusivity key "@ + text::quoted_text(key_name)
                + " is already held for target "@ + cluster_id + "/"@ + namespace + holder_text(
                owner_instance_id,
                owner_generation,
            ),
        ),
        StoreErrorView::LeaseConflict { message } => status::refused(StatusCode::Aborted, message),
        StoreErrorView::IdempotencyResourceDeleted { resource } => status::refused(
            StatusCode::FailedPrecondition,
            "idempotent replay refers to a deleted "@ + resource,
        ),
        StoreErrorView::IdempotencyConflict => status::refused(
            StatusCode::AlreadyExists,
            "idempotency key was already used for a different request"@,
        ),
        StoreErrorView::Unavailable { message } => status::refused(
            StatusCode::Unavailable,
            message,
        ),
        StoreErrorView::Internal { message } => status::refused(StatusCode::Internal, message),
    }
}

fn holder(instance_id: &Option<String>, generation: &Option<Generation>) -> (held: String)
    ensures
        held@ == holder_text(
            manifest::optional_view(*instance_id),
            manifest::optional_view(*generation),
        ),
{
    let named = match instance_id {
        Some(instance_id) => " by instance ".to_owned().concat(instance_id.as_str()),
        None => String::new(),
    };
    assert(instance_id is None ==> named@ =~= Seq::<char>::empty());
    match generation {
        Some(generation) => named.concat(" generation ").concat(generation.to_text().as_str()),
        None => named,
    }
}

/// What a caller gets for an error of the store. An instance that may not sleep
/// yet is told when to ask again, and not to wait longer than an activation takes.
pub fn store_error_to_status(error: &StoreError, activation_timeout: Duration) -> (refusal: ApiStatus)
    ensures
        refusal@ == store_refusal(error@, activation_timeout@),
{
    match error {
        StoreError::SleepDeferred { retry_after } => {
            let wait: u128 = retry_after.as_millis();
            let longest: u128 = activation_timeout.as_millis();
            let message = "automatic sleep deferred for ".to_owned().concat(
                wide_decimal_text(wait).as_str(),
            ).concat(" ms after activation");
            ApiStatus {
                code: StatusCode::FailedPrecondition,
                message,
                retry_after_millis: Some(
                    if wait <= longest {
                        wait
                    } else {
                        longest
                    },
                ),
            }
        },
        StoreError::InvalidArgument { message } => ApiStatus::new(
            StatusCode::InvalidArgument,
            message.as_str(),
        ),
        StoreError::NotFound { resource } => ApiStatus::new(
            StatusCode::NotFound,
            (*resource).to_owned().concat(" not found").as_str(),
        ),
        StoreError::AlreadyExists { resource } => ApiStatus::new(
            StatusCode::AlreadyExists,
            (*resource).to_owned().concat(" already exists").as_str(),
        ),
        StoreError::GenerationConflict { expected, actual } => {
            let message = "generation conflict: expected generation ".to_owned().concat(
                expected.to_text().as_str(),
            ).concat(", found ").concat(actual.to_text().as_str());
            ApiStatus::new(StatusCode::FailedPrecondition, message.as_str())
        },
        StoreError::ExclusivityConflict {
            cluster_id,
            namespace,
            key_name,
            owner_instance_id,
            owner_generation,
        } => {
            let message = "exclusivity key ".to_owned().concat(
                quoted(key_name.as_str()).as_str(),
            ).concat(" is already held for target ").concat(cluster_id.as_str()).concat(
                "/",
            ).concat(namespace.as_str()).concat(
                holder(owner_instance_id, owner_generation).as_str(),
            );
            ApiStatus::new(StatusCode::FailedPrecondition, message.as_str())
        },
        StoreError::LeaseConflict { message } => ApiStatus::new(
            StatusCode::Aborted,
            message.as_str(),
        ),
        StoreError::IdempotencyResourceDeleted { resource } => ApiStatus::new(
            StatusCode::FailedPrecondition,
            "idempotent replay refers to a deleted ".to_owned().concat(resource).as_str(),
        ),
        StoreError::IdempotencyConflict => ApiStatus::new(
            StatusCode::AlreadyExists,
            "idempotency key was already used for a different request",
        ),
        StoreError::Unavailable { message } => ApiStatus::new(
            StatusCode::Unavailable,
            message.as_str(),
        ),
        StoreError::Internal { message } => ApiStatus::new(StatusCode::Internal, message.as_str()),
    }
}

} // verus!
