//! What the store asks of requests and rows.

use sleepypods_control_plane::backend::BackendEndpoint;
use sleepypods_control_plane::duration::Duration;
use sleepypods_control_plane::ids::{
    BackendGeneration, Generation, InstanceId, MaterializationId, RouteBindingId, WorkloadClassId,
};
use sleepypods_control_plane::instance::{
    InstanceRecord, InstanceState, WorkloadClassVersionRef,
};
use sleepypods_control_plane::json::Json;
use sleepypods_control_plane::materialization::{
    AcknowledgeMaterializationEffectRequest, BeginSleepRequest,
    ClaimMaterializationReconciliationRequest, CompleteWakeRequest,
    FinalizeSleepReconciliationRequest, FinalizeSleepRequest,
    ListMaterializationReconciliationCandidatesRequest, MaterializationEffectRequest,
    MaterializationRecord, MaterializationState, RecordMaterializationRequest,
    ReleaseMaterializationReconciliationLeaseRequest, RenderedObjectRef,
    RenewMaterializationReconciliationLeaseRequest,
};
use sleepypods_control_plane::postgres::effects::{
    acknowledge_materialization_effect, begin_materialization_effect, EffectLease, EffectRecord,
    EffectStep,
};
use sleepypods_control_plane::postgres::lease_parameters::{
    acknowledge_parameters, claim_parameters, effect_parameters, finalize_parameters,
    release_parameters, renew_parameters, EffectStamp, LeaseStamp,
};
use sleepypods_control_plane::postgres::materialization_ops::{
    backend_generation_rewind_error, begin_sleep, candidate_limit, complete_wake,
    ensure_instance_generation, ensure_reconciliation_lease, finalize_sleep, generation_to_i64,
    lease_attempt, lease_ttl_millis, materialization_state_from_db, normalize_exclusivity_keys,
    previous_generation, record_materialization, validate_active_generation, validate_force_release,
    validate_lease_owner, validate_operator_audit, InstanceStanding, LeaseRow, ReadyRow,
    SleepPlan,
};
use sleepypods_control_plane::postgres::migrations::{migration_step, MigrationStep};
use sleepypods_control_plane::postgres::operational_metrics::{
    operational_metrics, BacklogRow, HeldKeysRow,
};
use sleepypods_control_plane::postgres::route_ops::{
    host_suffixes, lookup_route_dependencies, replay_create_route_binding, resolve_route,
    ReplayRow, RouteRow,
};
use sleepypods_control_plane::postgres::runtime_work::{
    bounded_limit, failure_record, route_changes, route_cursor, work_status, EffectRow, FailedRow,
    FailureKind, RouteEvent, WorkRow,
};
use sleepypods_control_plane::route::{
    RouteHost, RouteHostKind, RouteIdentity, RouteResolution,
};
use sleepypods_control_plane::store::StoreError;
use sleepypods_control_plane::string_map::StringMap;
use sleepypods_control_plane::target::MaterializationTarget;
use sleepypods_control_plane::workload::RenderedExclusivityKey;

fn invalid<T>(message: &str) -> Result<T, StoreError> {
    Err(StoreError::invalid_argument(message))
}

fn keys(pairs: &[(&str, &str)]) -> Vec<RenderedExclusivityKey> {
    pairs
        .iter()
        .map(|(name, value)| RenderedExclusivityKey::new(name, value))
        .collect()
}

#[test]
fn exclusivity_keys_have_one_normal_form() {
    let mut some = keys(&[("disk", "b"), ("disk", "a"), ("addr", "z"), ("disk", "b")]);
    let mut other = keys(&[("addr", "z"), ("disk", "b"), ("disk", "a"), ("addr", "z")]);
    normalize_exclusivity_keys(&mut some);
    normalize_exclusivity_keys(&mut other);
    assert_eq!(some, keys(&[("addr", "z"), ("disk", "a"), ("disk", "b")]));
    assert_eq!(some, other);
}

#[test]
fn numbers_keep_within_the_database() {
    assert_eq!(generation_to_i64(Generation::new(7)), Ok(7));
    assert!(generation_to_i64(Generation::new(u64::MAX)).is_err());
    assert_eq!(lease_attempt(1), Ok(1));
    for attempt in [0, u64::MAX] {
        assert_eq!(
            lease_attempt(attempt),
            invalid("lease attempt must be a positive signed 64-bit integer")
        );
    }
    assert_eq!(
        previous_generation(Generation::new(8)),
        Ok(Generation::new(7))
    );
    assert_eq!(
        previous_generation(Generation::new(0)),
        invalid("generation has no predecessor")
    );
    assert_eq!(candidate_limit(32), Ok(32));
    assert_eq!(route_cursor(41), Ok(41));
    assert_eq!(route_cursor(u64::MAX), invalid("route cursor overflow"));
    assert_eq!(
        [0, 1, 1024, 9999].map(bounded_limit),
        [1, 1, 1024, 1024]
    );
    assert_eq!(lease_ttl_millis(Duration::from_secs(60)), Ok(60_000));
    assert_eq!(
        lease_ttl_millis(Duration::from_nanos(999_999)),
        invalid("materialization reconciliation lease TTL must be at least one millisecond")
    );
    assert_eq!(lease_ttl_millis(Duration::from_secs(86_400)), Ok(86_400_000));
    assert_eq!(
        lease_ttl_millis(Duration::from_millis(86_400_001)),
        invalid("materialization reconciliation lease TTL exceeds 24 hours")
    );
}

#[test]
fn operators_say_who_they_are_and_why() {
    assert_eq!(validate_operator_audit("kim", "stuck"), Ok(()));
    assert_eq!(
        validate_operator_audit("kim", " "),
        invalid("operator and reason are required for force materialization operations")
    );
    assert_eq!(
        validate_force_release("kim", "stuck", "disk", ""),
        invalid("force-release key name and value are required")
    );
    assert_eq!(
        validate_lease_owner("\t"),
        invalid("materialization reconciliation owner is required")
    );
}

#[test]
fn words_for_states_are_read_back() {
    for state in [
        MaterializationState::Pending,
        MaterializationState::Ready,
        MaterializationState::Failed,
        MaterializationState::Deleting,
        MaterializationState::Deleted,
    ] {
        assert_eq!(materialization_state_from_db(state.as_str()), Ok(state));
    }
    assert_eq!(
        materialization_state_from_db("Ready"),
        Err(StoreError::internal("stored materialization state is unknown"))
    );
}

fn backlog(state: &str, count: i64, oldest_age_millis: i64) -> BacklogRow {
    BacklogRow {
        state: state.to_owned(),
        count,
        oldest_age_millis,
    }
}

fn held(state: &str, exclusivity_keys_held: i64) -> HeldKeysRow {
    HeldKeysRow {
        state: state.to_owned(),
        exclusivity_keys_held,
    }
}

#[test]
fn rows_are_counted_and_the_first_bad_one_is_reported() {
    let metrics = operational_metrics(
        &vec![backlog("deleting", 1, 7_000), backlog("pending", 2, 11_000)],
        &vec![held("ready", 3)],
        4,
        5,
    )
    .unwrap();
    assert_eq!(metrics.backlog_states.len(), 2);
    assert_eq!(metrics.backlog_states[1].count, 2);
    assert_eq!(
        metrics.backlog_states[1].oldest_age,
        Some(Duration::from_secs(11))
    );
    assert_eq!(metrics.held_key_states[0].exclusivity_keys_held, 3);
    assert_eq!((metrics.uncertain_effects, metrics.blocked_failures), (4, 5));

    for (backlog_rows, held_rows, message) in [
        (
            vec![backlog("pending", -1, -1)],
            vec![],
            "materialization backlog count was negative",
        ),
        (
            vec![backlog("pending", 1, -1), backlog("asleep", 1, 1)],
            vec![held("ready", -1)],
            "materialization oldest age was negative",
        ),
        (
            vec![backlog("asleep", -1, 1)],
            vec![],
            "stored materialization state is unknown",
        ),
        (
            vec![],
            vec![held("ready", -1)],
            "exclusivity key count was negative",
        ),
    ] {
        assert_eq!(
            operational_metrics(&backlog_rows, &held_rows, 0, 0).map(|_| ()),
            Err(StoreError::internal(message))
        );
    }
}

#[test]
fn statements_get_the_stamp_of_the_lease() {
    let id = || MaterializationId::new("mat-a").unwrap();
    let claim = |owner: &str, ttl: Duration| {
        claim_parameters(&ClaimMaterializationReconciliationRequest::new(
            id(),
            owner,
            ttl,
        ))
    };
    assert_eq!(claim("owner-a", Duration::from_secs(47)), Ok(47_000));
    assert_eq!(
        claim(" ", Duration::zero()),
        invalid("materialization reconciliation owner is required"),
        "the owner comes first"
    );

    let renew = |attempt: u64, generation: u64, ttl: Duration| {
        renew_parameters(&RenewMaterializationReconciliationLeaseRequest {
            expected_state: MaterializationState::Pending,
            instance_generation: Generation::new(generation),
            materialization_id: id(),
            owner: "owner-a".to_owned(),
            lease_ttl: ttl,
            attempt,
        })
    };
    let stamp = LeaseStamp {
        attempt: 4,
        generation: 7,
    };
    assert_eq!(renew(4, 7, Duration::from_secs(60)), Ok((60_000, stamp)));
    assert_eq!(
        renew(0, u64::MAX, Duration::zero()),
        invalid("materialization reconciliation lease TTL must be at least one millisecond")
    );
    assert_eq!(
        renew(0, u64::MAX, Duration::from_secs(60)),
        invalid("lease attempt must be a positive signed 64-bit integer")
    );
    assert!(renew(4, u64::MAX, Duration::from_secs(60)).is_err());

    let release = |owner: &str| {
        release_parameters(&ReleaseMaterializationReconciliationLeaseRequest {
            instance_generation: Generation::new(7),
            materialization_id: id(),
            owner: owner.to_owned(),
            attempt: 4,
        })
    };
    assert_eq!(release("owner-a"), Ok(stamp));
    assert!(release("").is_err());

    let finalize = |generation: u64| {
        finalize_parameters(&FinalizeSleepReconciliationRequest {
            materialization_id: id(),
            lease_owner: "owner-a".to_owned(),
            finalize: FinalizeSleepRequest::new(
                InstanceId::new("instance-a").unwrap(),
                Generation::new(generation),
                MaterializationTarget::new("cluster-a", "apps").unwrap(),
            ),
            attempt: 4,
        })
    };
    assert_eq!(finalize(8), Ok(Generation::new(7)));
    assert_eq!(finalize(0), invalid("generation has no predecessor"));
}

#[test]
fn changes_are_numbered_before_they_are_sent() {
    let effect = |owner: &str, effect_id: u64| {
        effect_parameters(&MaterializationEffectRequest {
            effect_id,
            materialization_id: MaterializationId::new("mat-a").unwrap(),
            owner: owner.to_owned(),
            attempt: 4,
            instance_generation: Generation::new(7),
            expected_state: MaterializationState::Pending,
            operation: "apply",
            object: RenderedObjectRef {
                api_version: "v1".to_owned(),
                kind: "Service".to_owned(),
                namespace: "apps".to_owned(),
                name: "svc-a".to_owned(),
            },
            precondition: None,
        })
    };
    let stamp = EffectStamp {
        attempt: 4,
        effect_id: 6,
        generation: 7,
    };
    assert_eq!(effect("owner-a", 6), Ok(stamp));
    assert!(effect("owner-a", 0).is_err());
    assert!(effect("", 6).is_err());
    assert_eq!(
        acknowledge_parameters(&AcknowledgeMaterializationEffectRequest {
            instance_generation: Generation::new(7),
            effect_id: 6,
            materialization_id: MaterializationId::new("mat-a").unwrap(),
            owner: String::new(),
            attempt: 4,
        }),
        Ok(stamp)
    );
}

#[test]
fn a_route_leads_where_its_row_says() {
    let row = |generation: i64, backend_generation: Option<i64>| RouteRow {
        route_binding_id: RouteBindingId::new("route-a").unwrap(),
        instance_id: InstanceId::new("instance-a").unwrap(),
        identity: RouteIdentity::Sni {
            host: RouteHost::new(RouteHostKind::Exact, "db.example.com").unwrap(),
        },
        instance_state: InstanceState::Running,
        generation,
        backend: None,
        backend_generation,
    };
    let miss = Duration::from_secs(5);
    assert_eq!(
        resolve_route(None, miss),
        Ok(RouteResolution::Miss {
            negative_cache: miss
        })
    );
    match resolve_route(Some(row(7, Some(2))), miss) {
        Ok(RouteResolution::Resolved { entry, .. }) => {
            assert_eq!(entry.instance_generation, Generation::new(7));
            assert_eq!(entry.backend_generation, Some(BackendGeneration::new(2)));
        }
        other => panic!("expected a route, got {other:?}"),
    }
    assert!(resolve_route(Some(row(-1, None)), miss).is_err());
    assert!(resolve_route(Some(row(1, Some(-1))), miss).is_err());
}

#[test]
fn a_route_depends_on_an_instance_that_is_there() {
    let route = || Some(RouteBindingId::new("route-a").unwrap());
    let instance = InstanceRecord {
        id: InstanceId::new("instance-a").unwrap(),
        workload_class: WorkloadClassVersionRef::new(
            WorkloadClassId::new("web").unwrap(),
            Generation::new(1),
        ),
        values: StringMap::new(),
        state: InstanceState::Cold,
        generation: Generation::new(4),
    };
    assert_eq!(lookup_route_dependencies(None, None, None), Ok(None));
    assert_eq!(
        lookup_route_dependencies(route(), None, None),
        Err(StoreError::NotFound {
            resource: "instance"
        })
    );
    let set = lookup_route_dependencies(route(), Some(instance), None)
        .unwrap()
        .unwrap();
    assert_eq!(set.instance_id.as_str(), "instance-a");
    assert_eq!(set.materialization_generation, None);
}

fn running(generation: u64) -> Option<InstanceStanding> {
    Some(InstanceStanding {
        state: InstanceState::Running,
        generation: Generation::new(generation),
    })
}

fn sleep_request(minimum_ready_age: Option<Duration>) -> BeginSleepRequest {
    BeginSleepRequest {
        instance_id: InstanceId::new("instance-a").unwrap(),
        expected_running_generation: Generation::new(7),
        target: MaterializationTarget::new("cluster-a", "apps").unwrap(),
        drain_grace_timeout: Duration::from_secs(30),
        minimum_ready_age,
    }
}

fn ready_materialization(generation: u64) -> MaterializationRecord {
    MaterializationRecord {
        id: MaterializationId::new("mat-a").unwrap(),
        instance_id: InstanceId::new("instance-a").unwrap(),
        instance_generation: Generation::new(generation),
        projection_generation: Generation::new(5),
        target: MaterializationTarget::new("cluster-a", "apps").unwrap(),
        state: MaterializationState::Ready,
        backend: Some(BackendEndpoint::new("http://svc.apps.svc.cluster.local:80").unwrap()),
        backend_generation: BackendGeneration::new(2),
        rendered_objects: vec![effect_request().object],
        exclusivity_keys: keys(&[("disk", "a")]),
        reconciliation_lease: None,
    }
}

#[test]
fn an_instance_begins_to_sleep_in_the_revision_that_is_expected() {
    let begin = |current, refusal: Option<String>, active| {
        begin_sleep(&sleep_request(None), current, &refusal, None, active)
    };
    let plan = SleepPlan {
        instance_state: InstanceState::Draining,
        draining_generation: 8,
        running_generation: 7,
        drain_grace_millis: 30_000,
        materialization: None,
    };
    assert_eq!(begin(running(7), None, None), Ok(plan));
    assert_eq!(
        begin(None, None, None),
        Err(StoreError::NotFound {
            resource: "instance"
        })
    );
    let conflict = Err(StoreError::GenerationConflict {
        expected: Generation::new(7),
        actual: Generation::new(8),
    });
    assert_eq!(begin(running(8), None, None), conflict);
    assert_eq!(
        begin(running(7), None, Some(ready_materialization(8))),
        conflict
    );
    assert_eq!(
        begin(running(7), Some("not from here".to_owned()), None),
        invalid("not from here")
    );
}

#[test]
fn a_sleeping_instance_keeps_its_objects_until_they_are_removed() {
    let active = ready_materialization(7);
    let plan = begin_sleep(
        &sleep_request(None),
        running(7),
        &None,
        None,
        Some(active.clone()),
    )
    .unwrap();
    assert_eq!(
        plan.materialization,
        Some(MaterializationRecord {
            state: MaterializationState::Deleting,
            backend: None,
            ..active
        })
    );
}

#[test]
fn an_instance_sleeps_by_itself_only_after_it_was_ready_for_long_enough() {
    let request = sleep_request(Some(Duration::from_millis(200)));
    let at = |now: i64| {
        begin_sleep(
            &request,
            running(7),
            &None,
            Some(ReadyRow {
                state_entered_at: 1_000,
                now,
            }),
            None,
        )
    };
    assert_eq!(
        at(1_150),
        Err(StoreError::SleepDeferred {
            retry_after: Duration::from_millis(50)
        })
    );
    assert!(at(1_200).is_ok(), "it comes when it was told to");
    assert_eq!(
        begin_sleep(&request, running(7), &None, None, None),
        invalid("automatic sleep requires this generation's Ready materialization")
    );
    assert_eq!(
        begin_sleep(
            &request,
            running(7),
            &None,
            Some(ReadyRow {
                state_entered_at: i64::MAX,
                now: 0
            }),
            None
        ),
        invalid("activation deadline exceeds database range")
    );
}

#[test]
fn a_completed_wake_keeps_the_incarnation_of_its_objects() {
    let request = || {
        let mut request = CompleteWakeRequest::new(
            InstanceId::new("instance-a").unwrap(),
            Generation::new(7),
            MaterializationTarget::new("cluster-a", "apps").unwrap(),
            BackendEndpoint::new("http://svc.apps.svc.cluster.local:80").unwrap(),
            BackendGeneration::new(2),
        );
        request.exclusivity_keys = keys(&[("disk", "b"), ("disk", "a"), ("disk", "b")]);
        request
    };
    let waking = Some(InstanceStanding {
        state: InstanceState::Waking,
        generation: Generation::new(7),
    });
    let completion = complete_wake(request(), waking, &None, Some(Generation::new(5))).unwrap();
    assert_eq!(completion.instance_state, InstanceState::Running);
    assert_eq!(completion.running_generation, 8);
    assert_eq!(completion.record.instance_generation, Generation::new(8));
    assert_eq!(completion.record.projection_generation, Generation::new(5));
    assert_eq!(completion.record.state, MaterializationState::Ready);
    assert_eq!(
        completion.record.exclusivity_keys,
        keys(&[("disk", "a"), ("disk", "b")])
    );

    let completion = complete_wake(request(), waking, &None, None).unwrap();
    assert_eq!(completion.record.projection_generation, Generation::new(8));
    assert!(complete_wake(request(), running(9), &None, None).is_err());
}

#[test]
fn a_drained_instance_is_cold_in_the_next_revision() {
    let request = FinalizeSleepRequest::new(
        InstanceId::new("instance-a").unwrap(),
        Generation::new(8),
        MaterializationTarget::new("cluster-a", "apps").unwrap(),
    );
    let draining = Some(InstanceStanding {
        state: InstanceState::Draining,
        generation: Generation::new(8),
    });
    let active = MaterializationRecord {
        state: MaterializationState::Deleting,
        backend: None,
        ..ready_materialization(7)
    };
    let plan = finalize_sleep(&request, draining, &None, Some(active.clone())).unwrap();
    assert_eq!(plan.instance_state, InstanceState::Cold);
    assert_eq!(plan.cold_generation, 9);
    assert_eq!(
        plan.materialization,
        Some(MaterializationRecord {
            state: MaterializationState::Deleted,
            instance_generation: Generation::new(9),
            rendered_objects: vec![],
            exclusivity_keys: vec![],
            ..active
        })
    );
    assert_eq!(
        finalize_sleep(&request, draining, &None, None)
            .unwrap()
            .materialization,
        None
    );
    assert!(finalize_sleep(&request, running(9), &None, None).is_err());
}

fn lease_row() -> LeaseRow {
    LeaseRow {
        instance_generation: 7,
        owner: Some("owner-a".to_owned()),
        attempt: 4,
        expires_at: Some(1_000),
    }
}

#[test]
fn only_the_holder_of_a_live_lease_writes() {
    let check = |row: Option<LeaseRow>, owner: &str, attempt: u64, now: i64, open: bool| {
        ensure_reconciliation_lease(&row, 7, owner, attempt, now, open)
    };
    let conflict = |message: &str| {
        Err(StoreError::LeaseConflict {
            message: message.to_owned(),
        })
    };

    assert_eq!(check(Some(lease_row()), "owner-a", 4, 999, false), Ok(()));
    assert_eq!(
        check(None, "owner-a", 4, 999, false),
        Err(StoreError::NotFound {
            resource: "materialization"
        })
    );
    for (owner, attempt) in [("owner-b", 4), ("owner-a", 5)] {
        assert_eq!(
            check(Some(lease_row()), owner, attempt, 999, false),
            conflict("materialization reconciliation lease is not currently owned")
        );
    }
    assert_eq!(
        check(Some(lease_row()), "owner-a", 4, 1_000, false),
        conflict("materialization reconciliation lease is expired")
    );
    assert_eq!(
        check(Some(lease_row()), "owner-a", 4, 999, true),
        conflict("Kubernetes effect outcome remains unacknowledged")
    );
    let later = LeaseRow {
        instance_generation: 8,
        ..lease_row()
    };
    assert_eq!(
        check(Some(later), "owner-a", 4, 999, false),
        Err(StoreError::GenerationConflict {
            expected: Generation::new(7),
            actual: Generation::new(8)
        })
    );
}

#[test]
fn revisions_of_rows_are_compared() {
    assert_eq!(
        validate_active_generation(None, Generation::new(7)),
        Ok(())
    );
    assert!(validate_active_generation(Some(Generation::new(6)), Generation::new(7)).is_err());
    assert_eq!(
        ensure_instance_generation(Some(7), Generation::new(7)),
        Ok(())
    );
    assert_eq!(
        ensure_instance_generation(Some(-1), Generation::new(7)),
        Err(StoreError::internal(
            "stored instance generation was negative"
        ))
    );
    assert_eq!(
        backend_generation_rewind_error(Some(9), BackendGeneration::new(3)),
        StoreError::invalid_argument(
            "materialization backend generation rewind rejected: existing backend generation 9 \
             is newer than reported backend generation 3"
        )
    );
}

#[test]
fn a_reader_starts_over_where_changes_are_lost() {
    let event = |revision: u64| RouteEvent {
        revision: Some(revision),
        payload: Json::text_from("changed"),
    };

    let changes = route_changes(40, 42, Some(41), vec![event(41), event(42)]);
    assert!(!changes.reset);
    assert_eq!(changes.cursor, 42);
    assert_eq!(changes.events.len(), 2);

    let changes = route_changes(42, 42, None, vec![]);
    assert!(!changes.reset);
    assert_eq!(changes.cursor, 42);

    for (cursor, oldest) in [(38, Some(41)), (43, Some(41)), (40, None)] {
        let changes = route_changes(cursor, 42, oldest, vec![event(41)]);
        assert!(changes.reset);
        assert_eq!(changes.cursor, 42);
        assert!(changes.events.is_empty());
    }
}

#[test]
fn failures_are_kept_while_the_lease_lives() {
    let row = FailedRow {
        pending: true,
        failure_count: 2,
        lease_expires_at: Some(1_000),
        operation_deadline: 5_000,
        uncertain: false,
    };
    let record = failure_record(&row, 999, false, &"x".repeat(600)).unwrap();
    assert_eq!(record.kind, FailureKind::Transient);
    assert_eq!(record.count, 3);
    assert_eq!(record.delay_millis, 8_000);
    assert_eq!(record.message.len(), 512);
    assert!(!record.cleanup_required);

    assert_eq!(failure_record(&row, 1_000, false, "late"), None);

    let record = failure_record(&row, 999, true, "bad").unwrap();
    assert_eq!(record.kind, FailureKind::Permanent);
    assert!(record.cleanup_required);

    let late = FailedRow {
        operation_deadline: 900,
        ..row.clone()
    };
    assert_eq!(
        failure_record(&late, 999, true, "bad").unwrap().kind,
        FailureKind::Deadline
    );

    let open = FailedRow {
        uncertain: true,
        failure_count: i32::MAX,
        ..late
    };
    let record = failure_record(&open, 999, true, "bad").unwrap();
    assert_eq!(record.kind.as_str(), "uncertain");
    assert!(!record.cleanup_required);
    assert_eq!((record.count, record.delay_millis), (i32::MAX, 32_000));
}

#[test]
fn the_state_of_work_is_told_as_it_was_read() {
    let row = |generation: i64| WorkRow {
        ready_age_millis: None,
        next_attempt_at_unix_millis: 12,
        operation_deadline_unix_millis: 90,
        operation_remaining_millis: Some(78),
        failure_count: 1,
        failure_kind: Some("transient".to_owned()),
        failure_message: "no".to_owned(),
        wake_failure_message: String::new(),
        effect: Some(EffectRow {
            generation,
            owner: "owner-a".to_owned(),
            attempt: 4,
            effect_id: 6,
            operation: "apply".to_owned(),
            object: RenderedObjectRef {
                api_version: "v1".to_owned(),
                kind: "Service".to_owned(),
                namespace: "apps".to_owned(),
                name: "svc-a".to_owned(),
            },
            expected_uid: None,
            expected_resource_version: None,
            started_at_unix_millis: 10,
        }),
    };
    let status = work_status(row(7)).unwrap();
    assert_eq!(status.operation_remaining, Some(Duration::from_millis(78)));
    assert_eq!(status.ready_age, None);
    let effect = status.uncertain_effect.unwrap();
    assert_eq!(effect.generation, Generation::new(7));
    assert_eq!((effect.attempt, effect.effect_id), (4, 6));
    assert!(work_status(row(-1)).is_err());
}

#[test]
fn hosts_are_looked_up_under_every_suffix() {
    assert_eq!(
        host_suffixes("a.b.example.com"),
        vec!["b.example.com", "example.com", "com"]
    );
    assert!(host_suffixes("localhost").is_empty());
}

#[test]
fn a_repeated_request_gets_what_the_first_made() {
    let row = |operation: &str, same_fingerprint: bool, resource_deleted: bool| {
        Some(ReplayRow {
            operation: operation.to_owned(),
            same_fingerprint,
            resource_deleted,
        })
    };
    assert_eq!(
        replay_create_route_binding(&row("create_route_binding", true, false)),
        Ok(())
    );
    assert_eq!(
        replay_create_route_binding(&row("create_instance", true, false)),
        Err(StoreError::IdempotencyConflict)
    );
    assert_eq!(
        replay_create_route_binding(&row("create_route_binding", false, true)),
        Err(StoreError::IdempotencyConflict)
    );
    assert_eq!(
        replay_create_route_binding(&row("create_route_binding", true, true)),
        Err(StoreError::IdempotencyResourceDeleted {
            resource: "route binding"
        })
    );
    assert_eq!(
        replay_create_route_binding(&None),
        Err(StoreError::unavailable(
            "idempotency key expired during replay; retry request"
        ))
    );
}

#[test]
fn a_migration_is_applied_once() {
    assert_eq!(
        migration_step(3, "routes", &None),
        Ok(MigrationStep::Apply)
    );
    assert_eq!(
        migration_step(3, "routes", &Some("routes".to_owned())),
        Ok(MigrationStep::Skip)
    );
    assert_eq!(
        migration_step(-3, "routes", &Some("keys".to_owned())),
        Err(StoreError::internal(
            "migration version -3 was already applied as \"keys\", expected \"routes\""
        ))
    );
}

fn effect_request() -> MaterializationEffectRequest {
    MaterializationEffectRequest {
        effect_id: 9,
        materialization_id: MaterializationId::new("mat-a").unwrap(),
        owner: "owner-a".to_owned(),
        attempt: 4,
        instance_generation: Generation::new(7),
        expected_state: MaterializationState::Pending,
        operation: "apply",
        object: RenderedObjectRef {
            api_version: "v1".to_owned(),
            kind: "Service".to_owned(),
            namespace: "apps".to_owned(),
            name: "svc-a".to_owned(),
        },
        precondition: None,
    }
}

fn effect_lease() -> EffectLease {
    EffectLease {
        owner: Some("owner-a".to_owned()),
        attempt: 4,
        instance_generation: 7,
        state: MaterializationState::Pending,
        expires_at: Some(1_000),
        now: 999,
    }
}

fn written_effect() -> EffectRecord {
    match begin_materialization_effect(&effect_request(), &Some(effect_lease()), &None) {
        Ok(EffectStep::Write(record)) => record,
        other => panic!("expected the change to be written down, got {other:?}"),
    }
}

#[test]
fn an_effect_is_begun_once_or_again_for_the_same_operation() {
    let written = written_effect();
    assert_eq!(written.lease_attempt, 4);
    assert_eq!(written.effect_id, 9);
    assert_eq!(written.object, effect_request().object);
    assert_eq!(
        begin_materialization_effect(
            &effect_request(),
            &Some(effect_lease()),
            &Some(written.clone())
        ),
        Ok(EffectStep::Begun)
    );
    let mut other = effect_request();
    other.effect_id = 10;
    assert_eq!(
        begin_materialization_effect(&other, &Some(effect_lease()), &Some(written.clone())),
        Ok(EffectStep::Refused)
    );
    other.owner = " ".to_owned();
    assert_eq!(
        begin_materialization_effect(&other, &Some(effect_lease()), &None),
        invalid("materialization reconciliation owner is required")
    );
}

#[test]
fn an_effect_is_begun_only_under_its_own_live_lease() {
    let mut expired = effect_lease();
    expired.now = 1_000;
    let mut taken = effect_lease();
    taken.owner = Some("owner-b".to_owned());
    let mut later = effect_lease();
    later.attempt = 5;
    let mut moved = effect_lease();
    moved.state = MaterializationState::Deleting;
    let mut newer = effect_lease();
    newer.instance_generation = 8;
    for lease in [None, Some(expired), Some(taken), Some(later), Some(moved), Some(newer)] {
        assert_eq!(
            begin_materialization_effect(&effect_request(), &lease, &None),
            Ok(EffectStep::Refused),
            "{lease:?}"
        );
    }
}

#[test]
fn an_effect_is_settled_by_its_own_acknowledgement() {
    let request = |effect_id: u64| AcknowledgeMaterializationEffectRequest {
        instance_generation: Generation::new(7),
        effect_id,
        materialization_id: MaterializationId::new("mat-a").unwrap(),
        owner: "owner-a".to_owned(),
        attempt: 4,
    };
    let written = Some(written_effect());
    assert_eq!(
        acknowledge_materialization_effect(&request(9), &written),
        Ok(true)
    );
    assert_eq!(
        acknowledge_materialization_effect(&request(10), &written),
        Ok(false)
    );
    assert_eq!(
        acknowledge_materialization_effect(&request(9), &None),
        Ok(false)
    );
    assert_eq!(
        acknowledge_materialization_effect(&request(0), &written),
        invalid("lease attempt must be a positive signed 64-bit integer")
    );
}

#[test]
fn requests_take_on_what_they_are_given() {
    let target = MaterializationTarget::new("cluster-a", "apps").expect("target");
    let sleep = BeginSleepRequest::new(
        InstanceId::new("instance-a").expect("instance"),
        Generation::new(3),
        target.clone(),
    )
    .with_drain_grace_timeout(Duration::from_secs(5))
    .with_minimum_ready_age(Duration::from_secs(9));
    assert_eq!(sleep.drain_grace_timeout, Duration::from_secs(5));
    assert_eq!(sleep.minimum_ready_age, Some(Duration::from_secs(9)));
    assert_eq!(sleep.expected_running_generation, Generation::new(3));
    let scan =
        ListMaterializationReconciliationCandidatesRequest::new(8).for_target(target.clone());
    assert_eq!(scan.limit, 8);
    assert_eq!(scan.target, Some(target));
}

#[test]
fn a_materialization_is_kept_with_its_keys_in_order() {
    let mut request = RecordMaterializationRequest::new(
        InstanceId::new("instance-a").unwrap(),
        Generation::new(7),
        MaterializationTarget::new("cluster-a", "apps").unwrap(),
        MaterializationState::Pending,
        BackendGeneration::new(2),
    );
    request.exclusivity_keys = keys(&[("disk", "b"), ("disk", "a"), ("disk", "b")]);
    let record = record_materialization(request.clone(), Some(7)).unwrap();
    assert_eq!(
        record.exclusivity_keys,
        keys(&[("disk", "a"), ("disk", "b")])
    );
    assert_eq!(record.instance_generation, Generation::new(7));
    assert_eq!(
        record_materialization(request.clone(), Some(8)),
        Err(StoreError::GenerationConflict {
            expected: Generation::new(7),
            actual: Generation::new(8)
        })
    );
    assert_eq!(
        record_materialization(request, None),
        Err(StoreError::NotFound {
            resource: "instance"
        })
    );
}
