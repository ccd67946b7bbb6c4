//! Which of several routes answers a request, and when an answer must be asked for
//! anew.

use crate::api::proxy::{self, SubscriptionView};
use crate::ids::{InstanceId, RouteBindingId};
use crate::route::{
    self, ProtocolRoute, RouteBindingChange, RouteHostKind, RouteHostView,
    RouteIdentity, RouteIdentityView,
};
use vstd::prelude::*;
use vstd::utf8::{encode_scalar, encode_utf8};

verus! {

proof fn lemma_encoded_sum(left: Seq<char>, right: Seq<char>)
    ensures
        encode_utf8(left + right) == encode_utf8(left) + encode_utf8(right),
    decreases left.len(),
{
    if left.len() == 0 {
        assert(left + right =~= right);
        assert(encode_utf8(left) + encode_utf8(right) =~= encode_utf8(right));
    } else {
        assert((left + right).drop_first() =~= left.drop_first() + right);
        lemma_encoded_sum(left.drop_first(), right);
        assert(encode_scalar(left[0] as u32) + (encode_utf8(left.drop_first()) + encode_utf8(right))
            =~= (encode_scalar(left[0] as u32) + encode_utf8(left.drop_first())) + encode_utf8(
            right,
        ));
    }
}

proof fn lemma_encoded_grows(content: Seq<char>)
    ensures
        encode_utf8(content).len() >= content.len(),
    decreases content.len(),
{
    if content.len() > 0 {
        vstd::utf8::char_is_scalar(content[0]);
        lemma_encoded_grows(content.drop_first());
    }
}

/// A text that goes on behind another one is longer.
pub proof fn law_continuation_is_longer(front: Seq<char>, whole: Seq<char>)
    requires
        front.len() < whole.len(),
        whole.take(front.len() as int) == front,
    ensures
        encode_utf8(front).len() < encode_utf8(whole).len(),
{
    let rest = whole.skip(front.len() as int);
    assert(front + rest =~= whole);
    lemma_encoded_sum(front, rest);
    lemma_encoded_grows(rest);
}

/// A prefix fits a path exactly when the path begins with it and goes on, if it
/// goes on, with a new segment.
pub proof fn law_prefixes_end_at_segments(prefix: Seq<char>, path: Seq<char>)
    requires
        prefix.len() > 0,
        prefix[0] == '/',
        path.len() > 0,
        path[0] == '/',
    ensures
        route::path_fits(Some(prefix), Some(path)) <==> {
            &&& prefix.len() <= path.len()
            &&& forall|i: int| 0 <= i < prefix.len() ==> #[trigger] path[i] == prefix[i]
            &&& prefix.len() < path.len() ==> prefix[prefix.len() - 1] == '/'
                || path[prefix.len() as int] == '/'
        },
        route::path_fits(None, Some(path)),
        route::path_fits(None, None),
        !route::path_fits(Some(prefix), None),
{
    reveal_strlit("/");
    let slash = "/"@;
    assert(slash =~= seq!['/']);
    let longer = prefix + slash;
    let begins = prefix.len() <= path.len() && forall|i: int|
        0 <= i < prefix.len() ==> #[trigger] path[i] == prefix[i];
    if begins {
        assert(path.take(prefix.len() as int) =~= prefix);
        if prefix.len() == path.len() {
            assert(prefix =~= path);
        } else if path[prefix.len() as int] == '/' {
            assert(path.take(longer.len() as int) =~= longer);
        } else if prefix[prefix.len() - 1] == '/' {
            assert(prefix.skip(prefix.len() - 1) =~= slash);
        }
    }
    if route::path_fits(Some(prefix), Some(path)) {
        if crate::text::opens_with(path, longer) {
            assert forall|i: int| 0 <= i < prefix.len() implies #[trigger] path[i]
                == prefix[i] by {
                assert(path.take(longer.len() as int)[i] == longer[i]);
            }
            assert(path.take(longer.len() as int)[prefix.len() as int] == longer[prefix.len() as int]);
        } else if crate::text::opens_with(path, prefix) {
            assert forall|i: int| 0 <= i < prefix.len() implies #[trigger] path[i]
                == prefix[i] by {
                assert(path.take(prefix.len() as int)[i] == prefix[i]);
            }
            if crate::text::closes_with(prefix, slash) {
                assert(prefix.skip(prefix.len() - 1)[0] == slash[0]);
            }
        }
    }
}

/// A host that is written out fits itself alone. One that stands for all names
/// below it fits exactly the names that end with it behind a dot.
pub proof fn law_hosts_fit_their_names(host: Seq<char>, name: Seq<char>)
    ensures
        route::host_fits(RouteHostView { kind: RouteHostKind::Exact, host }, name) <==> host
            == name,
        route::host_fits(RouteHostView { kind: RouteHostKind::WildcardSuffix, host }, name) <==> {
            &&& host.len() < name.len()
            &&& name[name.len() - host.len() - 1] == '.'
            &&& forall|i: int|
                0 <= i < host.len() ==> #[trigger] host[i] == name[name.len() - host.len() + i]
        },
{
    let below = RouteHostView { kind: RouteHostKind::WildcardSuffix, host };
    let dot = name.len() - host.len() - 1;
    if 0 <= dot && name[dot] == '.' && (forall|i: int|
        0 <= i < host.len() ==> #[trigger] host[i] == name[name.len() - host.len() + i]) {
        assert(name.skip(dot + 1) =~= host);
    }
    if route::host_fits(below, name) {
        let found = choose|found: int|
            0 <= found < name.len() && name[found] == '.' && #[trigger] name.skip(found + 1)
                == host;
        assert(found == dot);
        assert forall|i: int| 0 <= i < host.len() implies #[trigger] host[i]
            == name[name.len() - host.len() + i] by {
            assert(name.skip(found + 1)[i] == host[i]);
        }
    }
}

/// A route matches a request exactly when both are of one protocol and the host
/// and, over HTTP, the path of the route fit those of the request.
pub proof fn law_a_route_matches_what_fits_it(
    pattern: RouteIdentityView,
    request: RouteIdentityView,
)
    ensures
        route::match_score(pattern, request) is Some <==> match pattern {
            RouteIdentityView::Http { host, path } => {
                &&& request is Http
                &&& route::host_fits(host, request->Http_host.host)
                &&& route::path_fits(path, request->Http_path)
            },
            RouteIdentityView::Sni { host } => request is Sni && route::host_fits(
                host,
                request->Sni_host.host,
            ),
        },
{
}

/// The host of a route.
pub open spec fn host_of(identity: RouteIdentityView) -> RouteHostView {
    match identity {
        RouteIdentityView::Http { host, .. } => host,
        RouteIdentityView::Sni { host } => host,
    }
}

/// How long the prefix of a route is, in bytes. A route without one is shortest.
pub open spec fn prefix_length(identity: RouteIdentityView) -> nat {
    match identity {
        RouteIdentityView::Http { path: Some(path), .. } => encode_utf8(path).len(),
        _ => 0,
    }
}

/// The texts of a route are no longer than memory.
pub open spec fn in_memory(identity: RouteIdentityView) -> bool {
    encode_utf8(host_of(identity).host).len() <= usize::MAX && prefix_length(identity)
        <= usize::MAX
}

/// Of two routes that match a request, one with a host that is written out is
/// closer than one that stands for the names below it; among hosts of one kind the
/// longer is closer; among hosts of one kind and length the longer path prefix is.
/// Nothing else makes a route closer.
pub proof fn law_the_more_specific_route_is_closer(
    left: RouteIdentityView,
    right: RouteIdentityView,
    request: RouteIdentityView,
)
    requires
        in_memory(left),
        in_memory(right),
        route::match_score(left, request) is Some,
        route::match_score(right, request) is Some,
    ensures
        ({
            let l = route::match_score(left, request)->Some_0;
            let r = route::match_score(right, request)->Some_0;
            let left_host = encode_utf8(host_of(left).host).len();
            let right_host = encode_utf8(host_of(right).host).len();
            &&& host_of(left).kind == RouteHostKind::Exact && host_of(right).kind
                == RouteHostKind::WildcardSuffix ==> route::closer(l, r) && !route::closer(r, l)
            &&& host_of(left).kind == host_of(right).kind && left_host > right_host
                ==> route::closer(l, r) && !route::closer(r, l)
            &&& host_of(left).kind == host_of(right).kind && left_host == right_host
                ==> route::closer(l, r) == (prefix_length(left) > prefix_length(right))
        }),
{
}

/// A route that a change brings.
pub open spec fn appears(
    event: RouteBindingChange,
    identity: RouteIdentityView,
    protocol: ProtocolRoute,
) -> bool {
    event matches RouteBindingChange::Route {
        route_binding_id,
        removed,
        identity: Some(appeared),
        protocol: Some(spoken),
    } && !removed && appeared@ == identity && spoken == protocol
}

/// A new HTTP route that fits a request and goes on behind the prefix of the route
/// that answered it, on a host of the same kind and name, makes the answer stale. So
/// does one with any prefix where the answering route has none.
pub proof fn law_a_longer_prefix_makes_the_answer_stale(
    subscription: SubscriptionView,
    event: RouteBindingChange,
    identity: RouteIdentityView,
)
    requires
        appears(event, identity, ProtocolRoute::Http),
        subscription.protocol == ProtocolRoute::Http,
        in_memory(identity),
        in_memory(subscription.matched_identity),
        route::match_score(identity, subscription.request_identity) is Some,
        identity is Http,
        subscription.matched_identity is Http,
        host_of(identity) == host_of(subscription.matched_identity),
        match (identity->Http_path, subscription.matched_identity->Http_path) {
            (Some(new), Some(old)) => old.len() < new.len() && new.take(old.len() as int) == old,
            (Some(new), None) => new.len() > 0,
            (None, _) => false,
        },
    ensures
        proxy::made_stale(subscription, event),
{
    if let Some(new) = identity->Http_path {
        lemma_encoded_grows(new);
        if let Some(old) = subscription.matched_identity->Http_path {
            law_continuation_is_longer(old, new);
        }
    }
}

/// An answer becomes stale by a new route, other than its own, exactly when that
/// route speaks its protocol, fits its request, and is closer than the route that
/// answered, if that one still fits at all.
pub proof fn law_only_a_closer_route_makes_the_answer_stale(
    subscription: SubscriptionView,
    event: RouteBindingChange,
    identity: RouteIdentityView,
    protocol: ProtocolRoute,
)
    requires
        appears(event, identity, protocol),
        in_memory(identity),
        in_memory(subscription.matched_identity),
        event->Route_route_binding_id@ != subscription.route_binding_id,
    ensures
        proxy::made_stale(subscription, event) ==> {
            &&& protocol == subscription.protocol
            &&& route::match_score(identity, subscription.request_identity) is Some
        },
        protocol == subscription.protocol && route::match_score(
            identity,
            subscription.request_identity,
        ) is Some ==> proxy::made_stale(subscription, event) == {
            let matched = subscription.matched_identity;
            ||| route::match_score(matched, subscription.request_identity) is None
            ||| host_of(identity).kind == RouteHostKind::Exact && host_of(matched).kind
                == RouteHostKind::WildcardSuffix
            ||| host_of(identity).kind == host_of(matched).kind && encode_utf8(
                host_of(identity).host,
            ).len() > encode_utf8(host_of(matched).host).len()
            ||| host_of(identity).kind == host_of(matched).kind && encode_utf8(
                host_of(identity).host,
            ).len() == encode_utf8(host_of(matched).host).len() && prefix_length(identity)
                > prefix_length(matched)
        },
{
}

/// A change of the answering route itself makes the answer stale, whatever changed;
/// the removal of another route does not; a change of an instance touches the
/// answers that lead to it and no others; and after a reset no answer holds.
pub proof fn law_an_answer_follows_its_own_route(
    subscription: SubscriptionView,
    binding: RouteBindingId,
    removed: bool,
    identity: Option<RouteIdentity>,
    protocol: Option<ProtocolRoute>,
    instance: InstanceId,
)
    ensures
        ({
            let event = RouteBindingChange::Route {
                route_binding_id: binding,
                removed,
                identity,
                protocol,
            };
            &&& binding@ == subscription.route_binding_id ==> proxy::made_stale(
                subscription,
                event,
            )
            &&& binding@ != subscription.route_binding_id && removed ==> !proxy::made_stale(
                subscription,
                event,
            )
        }),
        proxy::made_stale(subscription, RouteBindingChange::Instance(instance)) == (
        subscription.instance_id == instance@),
        proxy::made_stale(subscription, RouteBindingChange::Reset),
{
}

} // verus!
