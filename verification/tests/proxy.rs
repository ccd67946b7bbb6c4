//! What proxies are answered.

use sleepypods_control_plane::api::admission::{
    capacity_exhausted, certificate_deadline_exceeded, certificate_method, delivery_limit,
    exhausted_content_type, plan_admission, pool_capacity, CapacityPool,
};
use sleepypods_control_plane::api::proxy::{
    cache_policy_to_proto, failed_wake_instance, handle_broker_event, handle_subscribe_request,
    non_empty_field, proxy_ready_response, proxy_wake_error_response,
    proxy_wake_request_from_proto, route_identity_from_proto, route_identity_to_proto,
    store_error_to_status, subscribe_route, subscription_invalidated_by_event, wake_instance,
    ActiveRouteSubscription, BrokerEvent, BrokerStep, InvalidationReason, SubscribeInput,
    SubscribeResponse, SubscribeStep, WakeInstanceError, WakeInstanceResult, WakeResponse,
    WakeUnavailableReason,
    WireHost, WireHostKind, WireIdentity, WireIdentityKind,
};
use sleepypods_control_plane::api::status::{ApiStatus, StatusCode};
use sleepypods_control_plane::api::stream::SubscriptionStream;
use sleepypods_control_plane::backend::BackendEndpoint;
use sleepypods_control_plane::duration::Duration;
use sleepypods_control_plane::ids::{
    BackendGeneration, Generation, InstanceId, MaterializationId, RouteBindingId, WorkloadClassId,
};
use sleepypods_control_plane::instance::{
    InstanceRecord, InstanceState, WorkloadClassVersionRef,
};
use sleepypods_control_plane::materialization::{MaterializationRecord, MaterializationState};
use sleepypods_control_plane::route::{
    is_closer, route_match_score, PathPrefix, ProtocolRoute, RouteBindingChange, RouteEntry,
    RouteHost, RouteHostKind, RouteIdentity, RouteResolution,
};
use sleepypods_control_plane::store::StoreError;
use sleepypods_control_plane::string_map::StringMap;
use sleepypods_control_plane::target::MaterializationTarget;

fn host(kind: RouteHostKind, name: &str) -> RouteHost {
    RouteHost::new(kind, name).unwrap()
}

fn http(kind: RouteHostKind, name: &str, path: Option<&str>) -> RouteIdentity {
    RouteIdentity::Http {
        host: host(kind, name),
        path: path.map(|path| PathPrefix::new(path).unwrap()),
    }
}

fn exact(name: &str, path: Option<&str>) -> RouteIdentity {
    http(RouteHostKind::Exact, name, path)
}

fn wildcard(name: &str, path: Option<&str>) -> RouteIdentity {
    http(RouteHostKind::WildcardSuffix, name, path)
}

fn wire(kind: WireHostKind, name: &str, path: Option<&str>) -> WireIdentity {
    WireIdentity {
        kind: Some(WireIdentityKind::Http {
            host: Some(WireHost {
                kind,
                host: name.to_owned(),
            }),
            path_prefix: path.map(str::to_owned),
        }),
    }
}

fn entry(route: &str, instance: &str) -> RouteEntry {
    RouteEntry {
        route_binding_id: RouteBindingId::new(route).unwrap(),
        instance_id: InstanceId::new(instance).unwrap(),
        instance_state: InstanceState::Running,
        instance_generation: Generation::new(4),
        backend: Some(BackendEndpoint::new("http://svc.apps.svc.cluster.local:80").unwrap()),
        backend_generation: Some(BackendGeneration::new(2)),
    }
}

fn changed(route: &str, removed: bool, identity: Option<RouteIdentity>) -> RouteBindingChange {
    RouteBindingChange::Route {
        route_binding_id: RouteBindingId::new(route).unwrap(),
        removed,
        protocol: identity.as_ref().map(|identity| match identity {
            RouteIdentity::Http { .. } => ProtocolRoute::Http,
            RouteIdentity::Sni { .. } => ProtocolRoute::TlsSni,
        }),
        identity,
    }
}

fn subscribed() -> (StringMap<ActiveRouteSubscription>, u64) {
    let mut subscriptions = StringMap::new();
    let mut number = 0;
    for (route, instance, matched) in [
        ("route-a", "instance-a", wildcard("example.com", None)),
        ("route-b", "instance-b", exact("app.example.com", None)),
    ] {
        let response = subscribe_route(
            &mut subscriptions,
            &mut number,
            format!("request for {route}"),
            exact("app.example.com", Some("/v1/users")),
            RouteResolution::Resolved {
                matched_identity: matched,
                entry: entry(route, instance),
            },
            Duration::from_secs(60),
        );
        assert!(matches!(
            response,
            SubscribeResponse::RouteResolved { ttl_millis: 60_000, .. }
        ));
    }
    (subscriptions, number)
}

fn refusal(code: StatusCode, message: &str) -> ApiStatus {
    ApiStatus::new(code, message)
}

#[test]
fn identities_come_back_as_they_were_sent() {
    for identity in [
        exact("app.example.com", Some("/v1")),
        wildcard("example.com", None),
        RouteIdentity::Sni {
            host: host(RouteHostKind::Exact, "db.example.com"),
        },
    ] {
        let wire = route_identity_to_proto(&identity);
        assert_eq!(route_identity_from_proto(&wire), Ok(identity));
    }
}

#[test]
fn identities_that_lack_a_part_are_refused() {
    let invalid = |message: &str| Err(refusal(StatusCode::InvalidArgument, message));

    assert_eq!(
        route_identity_from_proto(&WireIdentity { kind: None }),
        invalid("route identity kind is required")
    );
    assert_eq!(
        route_identity_from_proto(&WireIdentity {
            kind: Some(WireIdentityKind::Http {
                host: None,
                path_prefix: None
            })
        }),
        invalid("HTTP route host is required")
    );
    assert_eq!(
        route_identity_from_proto(&WireIdentity {
            kind: Some(WireIdentityKind::Sni { host: None })
        }),
        invalid("SNI route host is required")
    );
    assert_eq!(
        route_identity_from_proto(&wire(WireHostKind::Unspecified, "a", None)),
        invalid("route host kind is required")
    );
    assert_eq!(
        route_identity_from_proto(&wire(WireHostKind::Unknown, "a", None)),
        invalid("route host kind is invalid")
    );
    assert!(route_identity_from_proto(&wire(WireHostKind::Exact, " ", None)).is_err());
    assert!(route_identity_from_proto(&wire(WireHostKind::Exact, "a", Some("v1"))).is_err());
}

#[test]
fn a_wildcard_fits_every_name_below_it() {
    let request = exact("a.b.example.com", Some("/v1/users"));
    let score = |pattern: &RouteIdentity| route_match_score(pattern, &request);

    assert!(score(&wildcard("example.com", None)).is_some());
    assert!(score(&wildcard("b.example.com", Some("/v1"))).is_some());
    assert!(score(&wildcard("a.b.example.com", None)).is_none());
    assert!(score(&wildcard("ample.com", None)).is_none());
    assert!(score(&exact("a.b.example.com", Some("/v1x"))).is_none());

    let near = score(&wildcard("b.example.com", None)).unwrap();
    let far = score(&wildcard("example.com", Some("/v1/users"))).unwrap();
    let itself = score(&exact("a.b.example.com", None)).unwrap();
    assert!(is_closer(near, far) && is_closer(itself, near) && !is_closer(far, itself));
}

#[test]
fn requests_on_a_stream_are_checked_before_any_lookup() {
    let ask = |input: SubscribeInput, active: usize| handle_subscribe_request(input, active, 2);
    let route = |request: &str, identity: Option<WireIdentity>| SubscribeInput::SubscribeRoute {
        request_id: request.to_owned(),
        identity,
    };
    let sent = || Some(wire(WireHostKind::Exact, "app.example.com", None));

    assert_eq!(
        ask(route("r", sent()), 1),
        Ok(SubscribeStep::Resolve {
            request_id: "r".to_owned(),
            identity: exact("app.example.com", None)
        })
    );
    assert_eq!(
        ask(route("", None), 2),
        Err(refusal(
            StatusCode::ResourceExhausted,
            "subscription entry capacity exhausted"
        )),
        "capacity comes first"
    );
    assert_eq!(
        ask(route(" ", None), 0),
        Err(refusal(
            StatusCode::InvalidArgument,
            "request_id must not be empty"
        ))
    );
    assert_eq!(
        ask(route("r", None), 0),
        Err(refusal(StatusCode::InvalidArgument, "identity required"))
    );
    assert_eq!(
        ask(route("r", Some(WireIdentity { kind: None })), 0),
        Err(refusal(
            StatusCode::InvalidArgument,
            "route identity required"
        ))
    );
    assert_eq!(
        ask(
            route("r", Some(wire(WireHostKind::Unknown, &"a".repeat(254), None))),
            0
        ),
        Err(refusal(
            StatusCode::InvalidArgument,
            "route identity exceeds supported length"
        ))
    );
    assert_eq!(
        ask(SubscribeInput::Missing, 0),
        Err(refusal(
            StatusCode::InvalidArgument,
            "subscribe request input is required"
        ))
    );
    assert_eq!(
        ask(
            SubscribeInput::Unsubscribe {
                subscription_id: "sub:9".to_owned()
            },
            2
        ),
        Ok(SubscribeStep::Forget {
            subscription_id: "sub:9".to_owned()
        }),
        "forgetting needs no capacity"
    );
    assert_eq!(
        non_empty_field(&"é".repeat(2049), "request_id"),
        Err(refusal(
            StatusCode::InvalidArgument,
            "request_id exceeds 4096 bytes"
        ))
    );
}

#[test]
fn an_answer_is_remembered_under_a_fresh_identifier() {
    let (mut subscriptions, mut number) = subscribed();
    assert_eq!(number, 2);
    assert!(subscriptions.contains_key("sub:1") && subscriptions.contains_key("sub:2"));

    subscriptions.remove("sub:2");
    let response = subscribe_route(
        &mut subscriptions,
        &mut number,
        "again".to_owned(),
        exact("app.example.com", None),
        RouteResolution::Resolved {
            matched_identity: exact("app.example.com", None),
            entry: entry("route-b", "instance-b"),
        },
        Duration::from_secs(60),
    );
    match response {
        SubscribeResponse::RouteResolved {
            request_id,
            subscription_id,
            route,
            ..
        } => {
            assert_eq!(request_id, "again");
            assert_eq!(subscription_id, "sub:3");
            assert_eq!(route.instance_id, "instance-b");
            assert_eq!(route.backend_generation, Some(2));
            assert_eq!(
                route.backend_uri.as_deref(),
                Some("http://svc.apps.svc.cluster.local:80")
            );
        }
        other => panic!("expected an answer, got {other:?}"),
    }
    assert_eq!(subscriptions.len(), 2);

    let response = subscribe_route(
        &mut subscriptions,
        &mut number,
        "miss".to_owned(),
        exact("none.example.org", None),
        RouteResolution::Miss {
            negative_cache: Duration::from_millis(1_500),
        },
        Duration::from_secs(60),
    );
    assert!(matches!(
        response,
        SubscribeResponse::RouteMiss { ttl_millis: 1_500, .. }
    ));
    assert_eq!((subscriptions.len(), number), (2, 3));
    assert_eq!(
        cache_policy_to_proto(Duration::from_secs(u64::MAX)),
        u64::MAX
    );
}

#[test]
fn every_stale_answer_is_reported_and_no_other() {
    let report = |change: RouteBindingChange| {
        let (mut subscriptions, _) = subscribed();
        let step = handle_broker_event(&mut subscriptions, &BrokerEvent::Change(change));
        let BrokerStep::Report(responses) = step else {
            panic!("expected a report");
        };
        let told: Vec<(String, InvalidationReason)> = responses
            .into_iter()
            .map(|response| match response {
                SubscribeResponse::RouteInvalidated {
                    subscription_id,
                    reason,
                } => (subscription_id, reason),
                other => panic!("expected an invalidation, got {other:?}"),
            })
            .collect();
        assert_eq!(told.len() + subscriptions.len(), 2);
        told
    };

    assert_eq!(
        report(RouteBindingChange::Instance(
            InstanceId::new("instance-b").unwrap()
        )),
        vec![("sub:2".to_owned(), InvalidationReason::RouteChanged)]
    );
    assert_eq!(
        report(changed("route-a", true, None)),
        vec![("sub:1".to_owned(), InvalidationReason::RouteRemoved)]
    );
    assert_eq!(
        report(changed("route-c", false, Some(exact("app.example.com", None)))),
        vec![("sub:1".to_owned(), InvalidationReason::RouteChanged)],
        "a closer route takes over from the wildcard alone"
    );
    assert_eq!(
        report(changed(
            "route-c",
            false,
            Some(exact("app.example.com", Some("/v1")))
        ))
        .len(),
        2
    );
    assert!(report(changed("route-c", true, Some(exact("app.example.com", None)))).is_empty());
    assert!(report(changed(
        "route-c",
        false,
        Some(RouteIdentity::Sni {
            host: host(RouteHostKind::Exact, "app.example.com")
        })
    ))
    .is_empty());
}

#[test]
fn a_stream_that_may_have_missed_a_change_ends() {
    for event in [
        BrokerEvent::Lagged,
        BrokerEvent::Closed,
        BrokerEvent::Change(RouteBindingChange::Reset),
    ] {
        let (mut subscriptions, _) = subscribed();
        assert_eq!(
            handle_broker_event(&mut subscriptions, &event),
            BrokerStep::End
        );
    }
    let (subscriptions, _) = subscribed();
    assert!(subscription_invalidated_by_event(
        subscriptions.value_at(0),
        &RouteBindingChange::Reset
    ));
}

fn ask(name: &str) -> SubscribeInput {
    SubscribeInput::SubscribeRoute {
        request_id: format!("ask {name}"),
        identity: Some(wire(WireHostKind::Exact, name, None)),
    }
}

fn found(name: &str, route: &str, instance: &str) -> RouteResolution {
    RouteResolution::Resolved {
        matched_identity: exact(name, None),
        entry: entry(route, instance),
    }
}

#[test]
fn a_stream_answers_in_turn_until_it_ends() {
    let minute = Duration::from_secs(60);
    let mut stream = SubscriptionStream::begin(1);
    assert_eq!(stream.ask(ask("app.example.com")), None);
    assert_eq!(stream.lookup(), Some(&exact("app.example.com", None)));
    let answer = stream.looked_up(
        Ok(found("app.example.com", "route-a", "instance-a")),
        minute,
        minute,
    );
    assert!(matches!(
        answer,
        Ok(SubscribeResponse::RouteResolved { subscription_id, .. }) if subscription_id == "sub:1"
    ));

    let change = BrokerEvent::Change(RouteBindingChange::Instance(
        InstanceId::new("instance-a").unwrap(),
    ));
    assert_eq!(
        stream.tell(&change),
        vec![SubscribeResponse::RouteInvalidated {
            subscription_id: "sub:1".to_owned(),
            reason: InvalidationReason::RouteChanged
        }]
    );
    assert!(stream.tell(&change).is_empty(), "it is told only once");

    assert_eq!(stream.ask(ask("app.example.com")), None);
    assert!(stream.can_answer());
    let answer = stream.looked_up(
        Ok(found("app.example.com", "route-a", "instance-a")),
        minute,
        minute,
    );
    assert!(answer.is_ok());
    assert_eq!(
        stream.ask(ask("other.example.com")),
        Some(refusal(
            StatusCode::ResourceExhausted,
            "subscription entry capacity exhausted"
        ))
    );
    assert!(stream.has_ended() && stream.lookup().is_none());
    assert_eq!(stream.ask(ask("app.example.com")), None);
    assert!(stream.tell(&change).is_empty());
}

#[test]
fn a_stream_ends_with_the_reason_it_could_not_answer() {
    let minute = Duration::from_secs(60);
    let mut stream = SubscriptionStream::begin(4);
    stream.ask(ask("app.example.com"));
    assert_eq!(
        stream.looked_up(Err(StoreError::unavailable("down")), minute, minute),
        Err(refusal(StatusCode::Unavailable, "down"))
    );
    assert!(stream.has_ended());

    let mut stream = SubscriptionStream::begin(4);
    stream.ask(ask("app.example.com"));
    assert_eq!(
        stream.lookup_timed_out(),
        refusal(StatusCode::DeadlineExceeded, "route lookup timed out")
    );
    assert!(stream.has_ended());

    for event in [
        BrokerEvent::Lagged,
        BrokerEvent::Closed,
        BrokerEvent::Change(RouteBindingChange::Reset),
    ] {
        let mut stream = SubscriptionStream::begin(4);
        assert!(stream.tell(&event).is_empty());
        assert!(stream.has_ended());
    }
}

fn instance() -> InstanceRecord {
    InstanceRecord {
        id: InstanceId::new("instance-a").unwrap(),
        workload_class: WorkloadClassVersionRef::new(
            WorkloadClassId::new("web").unwrap(),
            Generation::new(1),
        ),
        values: StringMap::new(),
        state: InstanceState::Running,
        generation: Generation::new(4),
    }
}

fn materialization(backend: Option<BackendEndpoint>) -> MaterializationRecord {
    MaterializationRecord {
        id: MaterializationId::new("mat-a").unwrap(),
        instance_id: InstanceId::new("instance-a").unwrap(),
        instance_generation: Generation::new(4),
        projection_generation: Generation::new(4),
        target: MaterializationTarget::new("cluster-a", "apps").unwrap(),
        state: MaterializationState::Ready,
        backend,
        backend_generation: BackendGeneration::new(2),
        rendered_objects: vec![],
        exclusivity_keys: vec![],
        reconciliation_lease: None,
    }
}

#[test]
fn a_running_instance_is_answered_with_its_place() {
    let place = BackendEndpoint::new("http://svc.apps.svc.cluster.local:80").unwrap();
    assert_eq!(
        proxy_ready_response(&instance(), &materialization(Some(place))),
        Ok(WakeResponse::Ready {
            instance_id: "instance-a".to_owned(),
            instance_generation: 4,
            backend_uri: "http://svc.apps.svc.cluster.local:80".to_owned(),
            backend_generation: 2,
        })
    );
    assert_eq!(
        proxy_ready_response(&instance(), &materialization(None)),
        Err(refusal(
            StatusCode::FailedPrecondition,
            "ready materialization for instance instance-a has no backend endpoint"
        ))
    );
}

#[test]
fn a_wake_is_read_from_what_was_sent() {
    let target = || MaterializationTarget::new("cluster-a", "apps").unwrap();
    let request = proxy_wake_request_from_proto("instance-a", 4, Some(9), target()).unwrap();
    assert_eq!(request.expected_generation, Generation::new(4));
    assert_eq!(request.backend_generation, Some(BackendGeneration::new(9)));

    let error = proxy_wake_request_from_proto("Instance", 4, None, target()).unwrap_err();
    assert_eq!(error.code, StatusCode::InvalidArgument);
    assert_eq!(error.message, "InstanceId cannot be \"Instance\"");
}

#[test]
fn failed_wakes_are_told_apart() {
    let answer = |error: WakeInstanceError| {
        proxy_wake_error_response("asked".to_owned(), &error, Duration::from_secs(300))
    };
    let source = || "why".to_owned();

    assert_eq!(
        answer(WakeInstanceError::NotFound),
        Err(refusal(StatusCode::NotFound, "instance not found"))
    );
    assert_eq!(
        answer(WakeInstanceError::GenerationConflict {
            expected: Generation::new(3),
            actual: Generation::new(4)
        }),
        Ok(WakeResponse::GenerationConflict {
            instance_id: "asked".to_owned(),
            expected_generation: 3,
            actual_generation: 4
        })
    );
    assert_eq!(
        answer(WakeInstanceError::Unavailable {
            instance: instance(),
            reason: WakeUnavailableReason::Deleting
        }),
        Ok(WakeResponse::Unavailable {
            instance_id: "instance-a".to_owned(),
            instance_generation: 4,
            reason: WakeUnavailableReason::Deleting
        })
    );
    for (error, code, message) in [
        (
            WakeInstanceError::ReadyMaterializationNotFound {
                instance: instance(),
            },
            StatusCode::FailedPrecondition,
            "ready materialization was not found for instance instance-a and configured target",
        ),
        (
            WakeInstanceError::WorkloadClassNotFound {
                instance: instance(),
            },
            StatusCode::FailedPrecondition,
            "workload class version was not found for instance instance-a",
        ),
        (
            WakeInstanceError::Render {
                instance: instance(),
                source: source(),
            },
            StatusCode::Internal,
            "manifest render failed for instance instance-a: why",
        ),
        (
            WakeInstanceError::SleepPolicy {
                instance: instance(),
                source: source(),
            },
            StatusCode::Internal,
            "sleep policy resolution failed for instance instance-a: why",
        ),
        (
            WakeInstanceError::Materializer {
                instance: instance(),
                source: source(),
            },
            StatusCode::Unavailable,
            "materialization failed for instance instance-a: why",
        ),
    ] {
        let moved = failed_wake_instance(&error).is_some();
        assert_eq!(
            moved,
            !matches!(error, WakeInstanceError::ReadyMaterializationNotFound { .. })
        );
        assert_eq!(answer(error), Err(refusal(code, message)));
    }
    assert_eq!(
        answer(WakeInstanceError::Store(StoreError::unavailable("down"))),
        Err(refusal(StatusCode::Unavailable, "down"))
    );
}

#[test]
fn a_failed_wake_moves_the_routes_of_its_instance() {
    let wake = |result: WakeInstanceResult| {
        wake_instance("asked".to_owned(), &result, Duration::from_secs(300))
    };
    assert_eq!(
        wake(WakeInstanceResult::AlreadyWaking {
            instance: instance()
        }),
        (
            None,
            Ok(WakeResponse::StillWaking {
                instance_id: "instance-a".to_owned(),
                instance_generation: 4
            })
        )
    );
    let (moved, answer) = wake(WakeInstanceResult::Failed(WakeInstanceError::Render {
        instance: instance(),
        source: "why".to_owned(),
    }));
    assert_eq!(moved.unwrap().as_str(), "instance-a");
    assert!(answer.is_err());
    let (moved, answer) = wake(WakeInstanceResult::Failed(WakeInstanceError::NotFound));
    assert_eq!(moved, None);
    assert_eq!(
        answer,
        Err(refusal(StatusCode::NotFound, "instance not found"))
    );
    let (moved, answer) = wake(WakeInstanceResult::AlreadyRunning {
        instance: instance(),
        materialization: materialization(None),
    });
    assert!(moved.is_none() && answer.is_err());
}

#[test]
fn errors_of_the_store_become_refusals() {
    let told = |error: StoreError| store_error_to_status(&error, Duration::from_secs(300));

    let deferred = told(StoreError::SleepDeferred {
        retry_after: Duration::from_millis(400_000),
    });
    assert_eq!(deferred.code, StatusCode::FailedPrecondition);
    assert_eq!(
        deferred.message,
        "automatic sleep deferred for 400000 ms after activation"
    );
    assert_eq!(
        deferred.retry_after_millis,
        Some(300_000),
        "never longer than an activation takes"
    );

    for (error, code, message) in [
        (
            StoreError::invalid_argument("bad"),
            StatusCode::InvalidArgument,
            "bad",
        ),
        (
            StoreError::NotFound {
                resource: "instance",
            },
            StatusCode::NotFound,
            "instance not found",
        ),
        (
            StoreError::AlreadyExists {
                resource: "route binding",
            },
            StatusCode::AlreadyExists,
            "route binding already exists",
        ),
        (
            StoreError::GenerationConflict {
                expected: Generation::new(3),
                actual: Generation::new(4),
            },
            StatusCode::FailedPrecondition,
            "generation conflict: expected generation 3, found 4",
        ),
        (
            StoreError::ExclusivityConflict {
                cluster_id: "cluster-a".to_owned(),
                namespace: "apps".to_owned(),
                key_name: "disk \"x\"".to_owned(),
                owner_instance_id: Some("instance-b".to_owned()),
                owner_generation: Some(Generation::new(6)),
            },
            StatusCode::FailedPrecondition,
            "exclusivity key \"disk \\\"x\\\"\" is already held for target cluster-a/apps by \
             instance instance-b generation 6",
        ),
        (
            StoreError::ExclusivityConflict {
                cluster_id: "cluster-a".to_owned(),
                namespace: "apps".to_owned(),
                key_name: "disk".to_owned(),
                owner_instance_id: None,
                owner_generation: None,
            },
            StatusCode::FailedPrecondition,
            "exclusivity key \"disk\" is already held for target cluster-a/apps",
        ),
        (
            StoreError::LeaseConflict {
                message: "held".to_owned(),
            },
            StatusCode::Aborted,
            "held",
        ),
        (
            StoreError::IdempotencyResourceDeleted {
                resource: "route binding",
            },
            StatusCode::FailedPrecondition,
            "idempotent replay refers to a deleted route binding",
        ),
        (
            StoreError::IdempotencyConflict,
            StatusCode::AlreadyExists,
            "idempotency key was already used for a different request",
        ),
        (StoreError::internal("odd"), StatusCode::Internal, "odd"),
    ] {
        assert_eq!(told(error), refusal(code, message));
    }
}

#[test]
fn calls_about_certificates_have_their_own_capacity_and_deadline() {
    let resolve = "/sleepypods.controlplane.v1.ProxyControlPlane/ResolveTlsCertificate";
    let watch = "/sleepypods.controlplane.v1.ProxyControlPlane/WatchTlsCertificates";
    let subscribe = "/v1/ProxyControlPlane/Subscribe";

    let plan = plan_admission(resolve, Some("application/grpc")).unwrap();
    assert_eq!(plan.pool, CapacityPool::Certificate);
    assert_eq!(plan.deadline, Some(Duration::from_secs(10)));
    assert_eq!(pool_capacity(plan.pool, 1), 8);

    let plan = plan_admission(watch, None).unwrap();
    assert_eq!(plan.pool, CapacityPool::CertificateWatch);
    assert!(plan.subscription);

    let plan = plan_admission(subscribe, None).unwrap();
    assert_eq!(plan.pool, CapacityPool::Ordinary);
    assert!(plan.subscription && plan.deadline.is_none());
    assert!(!certificate_method(subscribe));
    let plan = plan_admission("/v1/OperatorControlPlane/ListInstances", None).unwrap();
    assert!(!plan.subscription && plan.deadline.is_none());

    assert_eq!(
        plan_admission(resolve, Some("application/grpc-web+proto")),
        Err(refusal(
            StatusCode::PermissionDenied,
            "certificate operations require native TLS"
        ))
    );
    assert_eq!(exhausted_content_type(Some("application/grpc"), None), None);
    assert_eq!(
        exhausted_content_type(
            Some("application/grpc-web-text"),
            Some("application/grpc-web-text")
        ),
        Some("application/grpc-web-text+proto")
    );
    assert_eq!(
        exhausted_content_type(Some("application/grpc-web"), Some("*/*")),
        Some("application/grpc-web+proto")
    );
    assert_eq!(delivery_limit(true, None, Duration::from_secs(5)), None);
    assert_eq!(
        delivery_limit(false, None, Duration::from_secs(5)),
        Some(Duration::from_secs(5))
    );
}

#[test]
fn refused_calls_are_told_why() {
    assert_eq!(
        capacity_exhausted(),
        ApiStatus::new(
            StatusCode::ResourceExhausted,
            "control-plane RPC capacity exhausted"
        )
    );
    assert_eq!(
        certificate_deadline_exceeded(),
        ApiStatus::new(
            StatusCode::DeadlineExceeded,
            "certificate RPC deadline exceeded"
        )
    );
}
