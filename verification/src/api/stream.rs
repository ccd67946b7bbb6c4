//! The stream on which a proxy subscribes to routes, from its first request to its
//! end.

use super::proxy::{
    self, handle_broker_event, handle_subscribe_request, store_error_to_status, subscribe_route,
    ActiveRouteSubscription, BrokerEvent, BrokerStep, SubscribeInput, SubscribeResponse,
    SubscribeStep, SubscriptionView, SubscriptionsView,
};
use super::status::{self, ApiStatus, StatusCode};
use crate::duration::Duration;
use crate::route::{RouteBindingChange, RouteIdentity, RouteIdentityView, RouteResolution};
use crate::store::StoreError;
use crate::string_map::{self, StringMap};
use vstd::prelude::*;

verus! {

/// A stream of a proxy.
pub struct SubscriptionStream {
    subscriptions: StringMap<ActiveRouteSubscription>,
    next_subscription_number: u64,
    limit: usize,
    awaiting: Option<(String, RouteIdentity)>,
    ended: bool,
}

/// The mathematical model of a [`SubscriptionStream`].
#[verifier::ext_equal]
pub struct StreamView {
    /// The answers that the proxy relies on.
    pub subscriptions: SubscriptionsView,
    /// The number of the last answer.
    pub number: u64,
    /// How many answers the proxy may rely on at once.
    pub limit: usize,
    /// The request that is looked up, with the identity that it asks for.
    pub awaiting: Option<(Seq<char>, RouteIdentityView)>,
    pub ended: bool,
}

impl View for SubscriptionStream {
    type V = StreamView;

    closed spec fn view(&self) -> StreamView {
        StreamView {
            subscriptions: self.subscriptions@,
            number: self.next_subscription_number,
            limit: self.limit,
            awaiting: match self.awaiting {
                Some((request_id, identity)) => Some((request_id@, identity@)),
                None => None,
            },
            ended: self.ended,
        }
    }
}

/// The stream once it has ended.
pub open spec fn stream_ended(stream: StreamView) -> StreamView {
    StreamView { awaiting: None, ended: true, ..stream }
}

/// The stream once a proxy asked something: a request that makes no sense ends it,
/// a route is looked up, and a subscription is forgotten at once.
pub open spec fn asked(stream: StreamView, input: SubscribeInput) -> StreamView {
    if stream.ended {
        stream
    } else if proxy::subscribe_refusal(
        input,
        stream.subscriptions.len(),
        stream.limit as nat,
    ) is Some {
        stream_ended(stream)
    } else {
        match input {
            SubscribeInput::SubscribeRoute { request_id, identity: Some(identity) } => StreamView {
                awaiting: match proxy::sent_identity(identity) {
                    Ok(read) => Some((request_id@, read)),
                    Err(_) => None,
                },
                ..stream
            },
            SubscribeInput::Unsubscribe { subscription_id } => StreamView {
                subscriptions: string_map::without_entry(stream.subscriptions, subscription_id@),
                ..stream
            },
            _ => stream,
        }
    }
}

/// The stream once the route that it looked up was found, or was not.
pub open spec fn answered(stream: StreamView, resolution: RouteResolution) -> StreamView {
    match (stream.awaiting, resolution) {
        (Some((_, request)), RouteResolution::Resolved { matched_identity, entry }) => StreamView {
            subscriptions: string_map::with_entry(
                stream.subscriptions,
                proxy::subscription_name((stream.number + 1) as u64),
                proxy::subscription_for(request, matched_identity@, entry),
            ),
            number: (stream.number + 1) as u64,
            awaiting: None,
            ..stream
        },
        _ => StreamView { awaiting: None, ..stream },
    }
}

/// What a proxy is answered with.
pub open spec fn answers(
    response: SubscribeResponse,
    stream: StreamView,
    resolution: RouteResolution,
    positive_cache_ttl: nat,
) -> bool {
    match (response, resolution) {
        (
            SubscribeResponse::RouteResolved {
                request_id,
                subscription_id,
                matched_identity,
                route,
                ttl_millis,
            },
            RouteResolution::Resolved { matched_identity: matched, entry },
        ) => {
            &&& stream.awaiting matches Some((asked, _)) && request_id@ == asked
            &&& subscription_id@ == proxy::subscription_name((stream.number + 1) as u64)
            &&& proxy::sends(matched_identity, matched@)
            &&& proxy::sends_entry(route, entry)
            &&& ttl_millis == proxy::whole_millis(positive_cache_ttl)
        },
        (
            SubscribeResponse::RouteMiss { request_id, request_identity, ttl_millis },
            RouteResolution::Miss { negative_cache },
        ) => {
            &&& stream.awaiting matches Some((asked, request)) && request_id@ == asked
                && proxy::sends(request_identity, request)
            &&& ttl_millis == proxy::whole_millis(negative_cache@)
        },
        _ => false,
    }
}

/// Changes may have been lost.
pub open spec fn loses_changes(event: BrokerEvent) -> bool {
    match event {
        BrokerEvent::Change(RouteBindingChange::Reset) => true,
        BrokerEvent::Change(_) => false,
        BrokerEvent::Lagged => true,
        BrokerEvent::Closed => true,
    }
}

/// The stream once something reached it from the broker of changes: stale answers
/// are forgotten, and where changes may have been lost the stream ends.
pub open spec fn told(stream: StreamView, event: BrokerEvent) -> StreamView {
    if stream.ended {
        stream
    } else if loses_changes(event) {
        stream_ended(stream)
    } else {
        match event {
            BrokerEvent::Change(change) => StreamView {
                subscriptions: proxy::untouched(
                    stream.subscriptions,
                    stream.subscriptions.len(),
                    change,
                ),
                ..stream
            },
            _ => stream,
        }
    }
}

impl SubscriptionStream {
    /// A stream on which a proxy may rely on so many answers at once.
    pub fn begin(limit: usize) -> (stream: SubscriptionStream)
        ensures
            stream@ == (StreamView {
                subscriptions: SubscriptionsView::empty(),
                number: 0,
                limit,
                awaiting: None,
                ended: false,
            }),
    {
        SubscriptionStream {
            subscriptions: StringMap::new(),
            next_subscription_number: 0,
            limit,
            awaiting: None,
            ended: false,
        }
    }

    /// Whether the stream has ended.
    pub fn has_ended(&self) -> (ended: bool)
        ensures
            ended == self@.ended,
    {
        self.ended
    }

    /// The identity that is looked up, if one is.
    pub fn lookup(&self) -> (identity: Option<&RouteIdentity>)
        ensures
            match identity {
                Some(identity) => self@.awaiting matches Some((_, request)) && identity@
                    == request,
                None => self@.awaiting is None,
            },
    {
        match &self.awaiting {
            Some(waiting) => Some(&waiting.1),
            None => None,
        }
    }

    /// Whether the stream can number another answer.
    pub fn can_answer(&self) -> (can: bool)
        ensures
            can == (self@.number < u64::MAX),
    {
        self.next_subscription_number < 18_446_744_073_709_551_615
    }

    /// The stream ends: the proxy is gone or too slow, the stream has lived its
    /// time, or the control plane shuts down.
    pub fn end(&mut self)
        ensures
            final(self)@ == stream_ended(old(self)@),
    {
        self.awaiting = None;
        self.ended = true;
    }

    /// A proxy asks something. The answer is why it is refused, if it is.
    pub fn ask(&mut self, input: SubscribeInput) -> (refusal: Option<ApiStatus>)
        requires
            old(self)@.awaiting is None,
        ensures
            final(self)@ == asked(old(self)@, input),
            match refusal {
                Some(refusal) => !old(self)@.ended && proxy::subscribe_refusal(
                    input,
                    old(self)@.subscriptions.len(),
                    old(self)@.limit as nat,
                ) == Some(refusal@),
                None => old(self)@.ended || proxy::subscribe_refusal(
                    input,
                    old(self)@.subscriptions.len(),
                    old(self)@.limit as nat,
                ) is None,
            },
    {
        if self.ended {
            return None;
        }
        match handle_subscribe_request(input, self.subscriptions.len(), self.limit) {
            Err(refusal) => {
                self.end();
                Some(refusal)
            },
            Ok(SubscribeStep::Resolve { request_id, identity }) => {
                self.awaiting = Some((request_id, identity));
                None
            },
            Ok(SubscribeStep::Forget { subscription_id }) => {
                self.subscriptions.remove(subscription_id.as_str());
                None
            },
        }
    }

    /// The route was looked up. The answer goes to the proxy; where the store could
    /// not tell, the stream ends with the reason.
    pub fn looked_up(
        &mut self,
        found: Result<RouteResolution, StoreError>,
        positive_cache_ttl: Duration,
        activation_timeout: Duration,
    ) -> (answer: Result<SubscribeResponse, ApiStatus>)
        requires
            old(self)@.awaiting is Some,
            old(self)@.number < u64::MAX,
        ensures
            match found {
                Ok(resolution) => {
                    &&& final(self)@ == answered(old(self)@, resolution)
                    &&& answer matches Ok(response) && answers(
                        response,
                        old(self)@,
                        resolution,
                        positive_cache_ttl@,
                    )
                },
                Err(error) => {
                    &&& final(self)@ == stream_ended(old(self)@)
                    &&& answer matches Err(refusal) && refusal@ == proxy::store_refusal(
                        error@,
                        activation_timeout@,
                    )
                },
            },
    {
        let mut waiting: Option<(String, RouteIdentity)> = None;
        std::mem::swap(&mut waiting, &mut self.awaiting);
        match found {
            Err(error) => {
                self.end();
                Err(store_error_to_status(&error, activation_timeout))
            },
            Ok(resolution) => {
                let (request_id, identity) = waiting.unwrap();
                let response = subscribe_route(
                    &mut self.subscriptions,
                    &mut self.next_subscription_number,
                    request_id,
                    identity,
                    resolution,
                    positive_cache_ttl,
                );
                Ok(response)
            },
        }
    }

    /// The lookup took too long: the stream ends with the reason.
    pub fn lookup_timed_out(&mut self) -> (refusal: ApiStatus)
        ensures
            final(self)@ == stream_ended(old(self)@),
            refusal@ == status::refused(StatusCode::DeadlineExceeded, "route lookup timed out"@),
    {
        self.end();
        ApiStatus::new(StatusCode::DeadlineExceeded, "route lookup timed out")
    }

    /// Something reached the stream from the broker of changes. The answers go to
    /// the proxy. What comes while a route is looked up waits until it was answered.
    pub fn tell(&mut self, event: &BrokerEvent) -> (responses: Vec<SubscribeResponse>)
        requires
            old(self)@.awaiting is None,
        ensures
            final(self)@ == told(old(self)@, *event),
            match *event {
                BrokerEvent::Change(change) if !old(self)@.ended && !loses_changes(*event) => {
                    proxy::reports(
                        responses@,
                        proxy::stale_ids(
                            old(self)@.subscriptions,
                            old(self)@.subscriptions.len(),
                            change,
                        ),
                        proxy::reason_of(change),
                    )
                },
                _ => responses@.len() == 0,
            },
    {
        if self.ended {
            return Vec::new();
        }
        match handle_broker_event(&mut self.subscriptions, event) {
            BrokerStep::End => {
                self.end();
                Vec::new()
            },
            BrokerStep::Report(responses) => responses,
        }
    }
}

/// What holds of a stream at any time: the proxy relies on no more answers than it
/// may, and while a route is looked up there is room for one more.
pub open spec fn within_limit(stream: StreamView) -> bool {
    &&& stream.subscriptions.len() <= stream.limit
    &&& stream.awaiting is Some ==> stream.subscriptions.len() < stream.limit
    &&& stream.ended ==> stream.awaiting is None
}

proof fn lemma_with_entry_length(
    subscriptions: SubscriptionsView,
    id: Seq<char>,
    subscription: SubscriptionView,
)
    ensures
        string_map::with_entry(subscriptions, id, subscription).len() <= subscriptions.len() + 1,
    decreases subscriptions.len(),
{
    if subscriptions.len() > 0 {
        lemma_with_entry_length(subscriptions.drop_first(), id, subscription);
    }
}

proof fn lemma_without_entry_length(subscriptions: SubscriptionsView, id: Seq<char>)
    ensures
        string_map::without_entry(subscriptions, id).len() <= subscriptions.len(),
    decreases subscriptions.len(),
{
    if subscriptions.len() > 0 {
        lemma_without_entry_length(subscriptions.drop_first(), id);
    }
}

proof fn lemma_untouched_length(
    subscriptions: SubscriptionsView,
    count: nat,
    change: RouteBindingChange,
)
    requires
        count <= subscriptions.len(),
    ensures
        proxy::untouched(subscriptions, count, change).len() <= count,
    decreases count,
{
    if count > 0 {
        lemma_untouched_length(subscriptions, (count - 1) as nat, change);
    }
}

/// Whatever a proxy asks, whatever is found, and whatever changes, it never relies
/// on more answers than it may.
pub proof fn law_stream_keeps_its_limit(
    stream: StreamView,
    input: SubscribeInput,
    resolution: RouteResolution,
    event: BrokerEvent,
)
    requires
        within_limit(stream),
    ensures
        stream.awaiting is None ==> within_limit(asked(stream, input)),
        within_limit(answered(stream, resolution)),
        within_limit(told(stream, event)),
        within_limit(stream_ended(stream)),
{
    if let SubscribeInput::Unsubscribe { subscription_id } = input {
        lemma_without_entry_length(stream.subscriptions, subscription_id@);
    }
    if let (Some((_, request)), RouteResolution::Resolved { matched_identity, entry }) = (
        stream.awaiting,
        resolution,
    ) {
        lemma_with_entry_length(
            stream.subscriptions,
            proxy::subscription_name((stream.number + 1) as u64),
            proxy::subscription_for(request, matched_identity@, entry),
        );
    }
    if let BrokerEvent::Change(change) = event {
        lemma_untouched_length(stream.subscriptions, stream.subscriptions.len(), change);
    }
}

/// Once a stream has ended it stays so, and nothing changes what it held.
pub proof fn law_an_ended_stream_is_silent(
    stream: StreamView,
    input: SubscribeInput,
    event: BrokerEvent,
)
    requires
        stream.ended,
    ensures
        asked(stream, input) == stream,
        told(stream, event) == stream,
        stream_ended(stream).ended,
{
}

/// A change that is made while a route is looked up is not missed: it waits until
/// the answer is given, and where it makes that answer stale, it is reported.
pub proof fn law_changes_wait_for_the_answer(
    stream: StreamView,
    request: RouteIdentityView,
    resolution: RouteResolution,
    change: RouteBindingChange,
)
    requires
        !stream.ended,
        stream.awaiting matches Some((_, asked)) && asked == request,
        resolution matches RouteResolution::Resolved { matched_identity, entry }
            && proxy::made_stale(
            proxy::subscription_for(request, matched_identity@, entry),
            change,
        ),
    ensures
        proxy::stale_ids(
            answered(stream, resolution).subscriptions,
            answered(stream, resolution).subscriptions.len(),
            change,
        ).contains(proxy::subscription_name((stream.number + 1) as u64)),
{
    if let RouteResolution::Resolved { matched_identity, entry } = resolution {
        let id = proxy::subscription_name((stream.number + 1) as u64);
        let subscription = proxy::subscription_for(request, matched_identity@, entry);
        let after = answered(stream, resolution).subscriptions;
        string_map::lemma_entry_of_with_entry(stream.subscriptions, id, subscription, id);
        string_map::lemma_entry_of_index(after, id);
        let at = choose|i: int|
            0 <= i < after.len() && #[trigger] after[i].0 == id && after[i].1
                == string_map::entry_of(after, id)->0;
        proxy::law_every_answer_is_kept_or_reported(after, change, at);
    }
}

/// A proxy that may have missed a change is never left with answers it relies on:
/// its stream ends.
pub proof fn law_a_lost_change_ends_the_stream(stream: StreamView, event: BrokerEvent)
    requires
        loses_changes(event),
    ensures
        told(stream, event).ended,
{
}

} // verus!
