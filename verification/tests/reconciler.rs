//! What the reconciler does with a claimed materialization.

use sleepypods_control_plane::backend::BackendEndpoint;
use sleepypods_control_plane::certificate::work::{
    take_turn, CertificateWorkLimits, Turn, WorkStage,
};
use sleepypods_control_plane::duration::Duration;
use sleepypods_control_plane::ids::{
    BackendGeneration, Generation, InstanceId, MaterializationId, WorkloadClassId,
};
use sleepypods_control_plane::instance::{
    InstanceRecord, InstanceState, WorkloadClassVersionRef,
};
use sleepypods_control_plane::materialization::{
    MaterializationReconciliationLease, MaterializationRecord, MaterializationState,
    RenderedObjectRef,
};
use sleepypods_control_plane::materializer::KubernetesClientError;
use sleepypods_control_plane::projection::ProjectionObservationState;
use sleepypods_control_plane::reconciler::job::{
    Interruption, Job, JobAction, JobEvent, Phase,
};
use sleepypods_control_plane::reconciler::run::Run;
use sleepypods_control_plane::reconciler::{
    failure_request, heartbeat_period, interval_with_jitter, operation_budget, owner_name,
    scan_period, stable_owner_hash, ActiveJobs, MaterializationReconcileError, MaterializationReconcilerConfig, MaterializerError,
    ProjectionError,
};
use sleepypods_control_plane::runtime_work::MaterializationWorkStatus;
use sleepypods_control_plane::store::StoreError;
use sleepypods_control_plane::string_map::StringMap;
use sleepypods_control_plane::target::MaterializationTarget;

#[test]
fn operation_budget_uses_database_duration_and_deducts_request_time() {
    for absolute in [1, 1_000, i64::MAX] {
        let status = MaterializationWorkStatus {
            operation_deadline_unix_millis: absolute,
            operation_remaining: Some(Duration::from_millis(200)),
            ..Default::default()
        };
        assert_eq!(
            operation_budget(&Some(status.clone()), Duration::from_millis(50)).unwrap(),
            Duration::from_millis(150)
        );
        assert_eq!(
            operation_budget(&Some(status), Duration::from_millis(250)).unwrap(),
            Duration::zero()
        );
    }
    assert!(operation_budget(
        &Some(MaterializationWorkStatus {
            operation_deadline_unix_millis: 1,
            ..Default::default()
        }),
        Duration::zero()
    )
    .is_err());
    assert_eq!(
        operation_budget(&None, Duration::from_secs(1)).unwrap(),
        Duration::from_secs(599)
    );
}

#[test]
fn operation_capacity_always_reserves_ordinary_database_capacity() {
    for capacity in [1, 2, 4, 16, 1024] {
        let limits = CertificateWorkLimits::new(capacity);
        assert!(limits.operations < capacity);
        assert!(limits.operations <= 4);
    }
}

fn target() -> MaterializationTarget {
    MaterializationTarget::new("cluster-a", "apps").unwrap()
}

fn config() -> MaterializationReconcilerConfig {
    MaterializationReconcilerConfig::for_owner("owner-a".to_owned())
}

fn object(name: &str) -> RenderedObjectRef {
    RenderedObjectRef {
        api_version: "v1".to_owned(),
        kind: "Service".to_owned(),
        namespace: "apps".to_owned(),
        name: name.to_owned(),
    }
}

fn record(state: MaterializationState, leased: bool) -> MaterializationRecord {
    MaterializationRecord {
        id: MaterializationId::new("mat-a").unwrap(),
        instance_id: InstanceId::new("instance-a").unwrap(),
        instance_generation: Generation::new(7),
        projection_generation: Generation::new(5),
        target: target(),
        state,
        backend: None,
        backend_generation: BackendGeneration::new(3),
        rendered_objects: vec![object("svc-a")],
        exclusivity_keys: vec![],
        reconciliation_lease: if leased {
            Some(MaterializationReconciliationLease {
                owner: "owner-a".to_owned(),
                expires_at: std::time::SystemTime::UNIX_EPOCH,
                attempt: 4,
            })
        } else {
            None
        },
    }
}

fn instance(state: InstanceState, generation: u64) -> InstanceRecord {
    InstanceRecord {
        id: InstanceId::new("instance-a").unwrap(),
        workload_class: WorkloadClassVersionRef::new(
            WorkloadClassId::new("web").unwrap(),
            Generation::new(1),
        ),
        values: StringMap::new(),
        state,
        generation: Generation::new(generation),
    }
}

fn backend() -> BackendEndpoint {
    BackendEndpoint::new("http://svc-a.apps.svc.cluster.local:80").unwrap()
}

fn claimed(state: MaterializationState) -> Job {
    let job = Job::begin(record(state, false), &target()).expect("own target");
    assert!(!job.is_working());
    assert!(matches!(job.action(&config()), JobAction::Claim(_)));
    let (job, _) = job.step(JobEvent::Claim {
        claimed: Ok(Some(record(state, true))),
        cancelled: false,
    });
    let (job, _) = job.step(JobEvent::Renewal(Ok(true)));
    let (job, _) = job.step(JobEvent::Status {
        status: Ok(None),
        request_elapsed: Duration::from_secs(1),
    });
    assert_eq!(job.budget(), Some(Duration::from_secs(599)));
    job
}

fn applied() -> Job {
    let job = claimed(MaterializationState::Pending);
    let (job, _) = job.step(JobEvent::Instance(Ok(Some(instance(InstanceState::Waking, 7)))));
    match job.action(&config()) {
        JobAction::Render(projected) => {
            assert_eq!(projected.state, InstanceState::Running);
            assert_eq!(projected.generation, Generation::new(5));
        }
        other => panic!("expected a rendering, got {other:?}"),
    }
    let (job, _) = job.step(JobEvent::Rendered(Ok(vec![object("svc-a")])));
    let (job, _) = job.step(JobEvent::Applied(Ok(())));
    assert!(job.is_working());
    job
}

#[test]
fn a_wake_is_completed_after_every_step_under_its_lease() {
    let job = applied();
    let (job, _) = job.step(JobEvent::Ready(Ok(backend())));
    let (job, _) = job.step(JobEvent::Inspected(Ok(vec![
        ProjectionObservationState::PresentOwned,
    ])));
    let (job, _) = job.step(JobEvent::Renewal(Ok(true)));
    match job.action(&config()) {
        JobAction::Complete(request) => {
            assert_eq!(request.lease_owner, "owner-a");
            assert_eq!(request.attempt, 4);
            assert_eq!(request.complete.backend, backend());
            assert_eq!(request.complete.rendered_objects, vec![object("svc-a")]);
            assert_eq!(
                request.complete.expected_waking_generation,
                Generation::new(7)
            );
        }
        other => panic!("expected the completion, got {other:?}"),
    }
    let (job, notify) = job.step(JobEvent::Committed(Ok(())));
    assert!(notify);
    assert_eq!(*job.phase(), Phase::Ended);
}

#[test]
fn a_wake_with_a_foreign_or_missing_object_is_not_completed() {
    for (states, error) in [
        (
            vec![
                ProjectionObservationState::Missing,
                ProjectionObservationState::PresentUnowned,
            ],
            ProjectionError::OwnershipConflict,
        ),
        (
            vec![
                ProjectionObservationState::PresentOwned,
                ProjectionObservationState::Missing,
            ],
            ProjectionError::Incomplete,
        ),
    ] {
        let (job, _) = applied().step(JobEvent::Ready(Ok(backend())));
        let (job, _) = job.step(JobEvent::Inspected(Ok(states)));
        assert_eq!(
            *job.phase(),
            Phase::RecordingFailure {
                error: MaterializationReconcileError::Projection(error)
            }
        );
        assert_eq!(job.action(&config()), JobAction::RecordFailure);
    }
}

#[test]
fn a_wake_of_a_superseded_instance_removes_what_is_there() {
    for found in [
        None,
        Some(instance(InstanceState::Waking, 8)),
        Some(instance(InstanceState::Deleting, 7)),
    ] {
        let (job, _) = claimed(MaterializationState::Pending).step(JobEvent::Instance(Ok(found)));
        assert_eq!(job.action(&config()), JobAction::Remove);
        let (job, _) = job.step(JobEvent::Removed(Ok(())));
        assert!(matches!(job.action(&config()), JobAction::Renew(_)));
        let (job, _) = job.step(JobEvent::Renewal(Ok(true)));
        match job.action(&config()) {
            JobAction::MarkDeleted(request) => {
                assert_eq!(request.expected_state, MaterializationState::Pending);
                assert_eq!(request.attempt, 4);
            }
            other => panic!("expected the end of the materialization, got {other:?}"),
        }
        let (job, notify) = job.step(JobEvent::Committed(Ok(())));
        assert!(!notify);
        assert_eq!(*job.phase(), Phase::Ended);
    }
}

#[test]
fn a_wake_of_an_instance_that_does_not_wake_fails_for_good() {
    let (job, _) = claimed(MaterializationState::Pending)
        .step(JobEvent::Instance(Ok(Some(instance(InstanceState::Running, 7)))));
    let Phase::RecordingFailure { error } = job.phase() else {
        panic!("expected a failure, got {:?}", job.phase());
    };
    assert!(error.permanent());
    let request = failure_request(job.claimed().unwrap(), "owner-a", error, "no");
    assert!(request.permanent);
    assert_eq!(request.message, "store: no");
    assert_eq!(request.attempt, 4);
}

#[test]
fn other_objects_than_the_accepted_ones_are_never_applied() {
    let (job, _) = claimed(MaterializationState::Pending)
        .step(JobEvent::Instance(Ok(Some(instance(InstanceState::Waking, 7)))));
    let (job, _) = job.step(JobEvent::Rendered(Ok(vec![object("svc-b")])));
    assert_eq!(
        *job.phase(),
        Phase::RecordingFailure {
            error: MaterializationReconcileError::StaleDesiredRefs
        }
    );
}

fn removed() -> Job {
    let job = claimed(MaterializationState::Deleting);
    assert_eq!(job.action(&config()), JobAction::Remove);
    let (job, _) = job.step(JobEvent::Removed(Ok(())));
    let (job, _) = job.step(JobEvent::Renewal(Ok(true)));
    assert!(matches!(job.action(&config()), JobAction::LoadInstance(_)));
    job
}

#[test]
fn a_sleep_is_completed_for_the_drain_it_belongs_to() {
    let (job, _) = removed().step(JobEvent::Instance(Ok(Some(instance(
        InstanceState::Draining,
        8,
    )))));
    match job.action(&config()) {
        JobAction::FinalizeSleep(request) => {
            assert_eq!(
                request.finalize.expected_draining_generation,
                Generation::new(8)
            );
        }
        other => panic!("expected the end of the sleep, got {other:?}"),
    }
    let (job, notify) = job.step(JobEvent::Committed(Ok(())));
    assert!(notify);
    assert_eq!(*job.phase(), Phase::Ended);
}

#[test]
fn a_sleep_of_a_later_drain_ends_only_the_materialization() {
    for found in [
        None,
        Some(instance(InstanceState::Draining, 10)),
        Some(instance(InstanceState::Running, 8)),
    ] {
        let (job, _) = removed().step(JobEvent::Instance(Ok(found)));
        assert!(matches!(job.action(&config()), JobAction::MarkDeleted(_)));
    }
}

#[test]
fn a_lost_lease_is_given_back_and_nothing_is_completed() {
    let job = claimed(MaterializationState::Deleting);
    let (job, _) = job.step(JobEvent::Removed(Ok(())));
    let (job, _) = job.step(JobEvent::Renewal(Ok(false)));
    match job.action(&config()) {
        JobAction::Release(request) => {
            assert_eq!(request.attempt, 4);
            assert_eq!(request.instance_generation, Generation::new(7));
        }
        other => panic!("expected the lease to go back, got {other:?}"),
    }
    let (job, _) = job.step(JobEvent::Released);
    assert_eq!(*job.phase(), Phase::Ended);
}

#[test]
fn a_failed_removal_is_kept_and_the_lease_goes_back_unless_that_ended_it() {
    let failed = || {
        let source = MaterializerError::Delete {
            source: KubernetesClientError::transient("api unavailable"),
        };
        let (job, _) = claimed(MaterializationState::Deleting)
            .step(JobEvent::Removed(Err(ProjectionError::Delete { source })));
        job
    };
    let Phase::RecordingFailure { error } = failed().phase().clone() else {
        panic!("expected a failure");
    };
    assert!(!error.permanent());

    let (job, _) = failed().step(JobEvent::FailureRecorded(Ok(true)));
    assert_eq!(*job.phase(), Phase::Ended);
    for recorded in [Ok(false), Err(StoreError::unavailable("gone"))] {
        let (job, _) = failed().step(JobEvent::FailureRecorded(recorded));
        assert!(matches!(job.action(&config()), JobAction::Release(_)));
    }
}

#[test]
fn interrupted_work_never_counts_as_done() {
    let (job, _) = claimed(MaterializationState::Deleting)
        .step(JobEvent::Interrupt(Interruption::Cancelled));
    assert_eq!(*job.phase(), Phase::SleepRemoving, "it may still come to its end");
    let (job, _) = job.step(JobEvent::Interrupt(Interruption::Deadline));
    let (job, _) = job.step(JobEvent::Removed(Ok(())));
    let (job, _) = job.step(JobEvent::Renewal(Ok(true)));
    let (job, _) = job.step(JobEvent::Instance(Ok(None)));
    let (job, _) = job.step(JobEvent::Committed(Ok(())));
    assert_eq!(*job.phase(), Phase::Releasing, "the first interruption decides");

    let (job, _) = claimed(MaterializationState::Deleting)
        .step(JobEvent::Interrupt(Interruption::Deadline));
    let (job, _) = job.step(JobEvent::DrainTimedOut);
    assert_eq!(
        *job.phase(),
        Phase::RecordingFailure {
            error: MaterializationReconcileError::Deadline
        }
    );
}

#[test]
fn a_claim_that_is_refused_or_comes_too_late_does_no_work() {
    let begin = || Job::begin(record(MaterializationState::Pending, false), &target()).unwrap();

    for refused in [Ok(None), Err(StoreError::unavailable("gone"))] {
        let (job, _) = begin().step(JobEvent::Claim {
            claimed: refused,
            cancelled: false,
        });
        assert_eq!(*job.phase(), Phase::Ended);
        assert!(job.claimed().is_none());
    }
    let (job, _) = begin().step(JobEvent::Claim {
        claimed: Ok(Some(record(MaterializationState::Pending, true))),
        cancelled: true,
    });
    assert_eq!(*job.phase(), Phase::Releasing);
    assert!(!job.is_working());

    let elsewhere = MaterializationTarget::new("cluster-a", "other").unwrap();
    assert!(Job::begin(record(MaterializationState::Pending, false), &elsewhere).is_none());
}

#[test]
fn an_operation_without_time_is_not_begun() {
    let job = Job::begin(record(MaterializationState::Pending, false), &target()).unwrap();
    let (job, _) = job.step(JobEvent::Claim {
        claimed: Ok(Some(record(MaterializationState::Pending, true))),
        cancelled: false,
    });
    let (job, _) = job.step(JobEvent::Renewal(Ok(true)));
    let (job, _) = job.step(JobEvent::Status {
        status: Ok(None),
        request_elapsed: Duration::from_secs(600),
    });
    assert_eq!(
        *job.phase(),
        Phase::RecordingFailure {
            error: MaterializationReconcileError::Deadline
        }
    );
}

#[test]
fn wakes_leave_room_for_a_deletion() {
    let id = |name: &str| MaterializationId::new(name).unwrap();
    let mut jobs = ActiveJobs::new(1);
    assert!(jobs.start(&id("wake-a"), MaterializationState::Pending));
    assert!(!jobs.start(&id("wake-b"), MaterializationState::Pending));
    assert!(!jobs.start(&id("wake-a"), MaterializationState::Deleting));
    assert!(jobs.start(&id("delete-a"), MaterializationState::Deleting));
    assert!(!jobs.start(&id("delete-b"), MaterializationState::Deleting));
    jobs.finish(&id("wake-a"));
    assert!(jobs.start(&id("delete-b"), MaterializationState::Deleting));
    assert_eq!(jobs.len(), 2);
}

#[test]
fn jitter_is_stable_for_an_owner() {
    assert_eq!(stable_owner_hash(""), 0xcbf2_9ce4_8422_2325);
    assert_eq!(stable_owner_hash("a"), 0xaf63_dc4c_8601_ec8c);
    let config = config();
    let interval = interval_with_jitter(&config);
    assert_eq!(
        interval.as_millis(),
        1_000 + u128::from(stable_owner_hash("owner-a") % 200)
    );
}

#[test]
fn certificate_work_tells_why_it_waits_no_longer() {
    assert_eq!(take_turn(WorkStage::Operation, Turn::Granted), Ok(()));
    assert_eq!(
        take_turn(WorkStage::WatchTurn, Turn::TimedOut),
        Err(StoreError::unavailable(
            "certificate watch admission deadline elapsed"
        ))
    );
    assert_eq!(
        take_turn(WorkStage::Crypto, Turn::Exhausted),
        Err(StoreError::unavailable(
            "certificate crypto capacity exhausted"
        ))
    );
}

fn candidate(name: &str, state: MaterializationState) -> MaterializationRecord {
    let mut candidate = record(state, false);
    candidate.id = MaterializationId::new(name).unwrap();
    candidate
}

#[test]
fn a_scan_starts_what_fits_and_nothing_twice() {
    let mut run = Run::begin(0);
    let candidates = vec![
        candidate("wake-a", MaterializationState::Pending),
        candidate("wake-b", MaterializationState::Pending),
        candidate("drain-a", MaterializationState::Deleting),
        candidate("drain-b", MaterializationState::Deleting),
    ];
    assert_eq!(run.scanned(&candidates), vec![0, 2]);
    assert!(run.scanned(&candidates).is_empty());
    run.job_ended(&candidates[0].id);
    assert_eq!(run.scanned(&candidates), vec![0]);
}

#[test]
fn five_failed_scans_in_a_row_end_a_run() {
    let down = || StoreError::unavailable("down");
    let mut run = Run::begin(4);
    for _ in 0..4 {
        run.scan_failed(down());
    }
    run.scanned(&vec![]);
    for _ in 0..4 {
        run.scan_failed(down());
        assert!(run.is_running());
    }
    run.scan_failed(down());
    assert!(!run.is_running());
    assert!(run
        .scanned(&vec![candidate("wake-a", MaterializationState::Pending)])
        .is_empty());
    assert_eq!(run.verdict(), Some(Err(down())));
}

#[test]
fn a_run_tells_the_first_thing_that_went_wrong() {
    let unavailable = |message: &str| Some(Err(StoreError::unavailable(message)));
    let job = MaterializationId::new("wake-a").unwrap();
    let ended = || {
        let mut run = Run::begin(4);
        run.shut_down();
        run
    };
    assert_eq!(ended().verdict(), Some(Ok(())));
    let mut run = ended();
    run.job_lost(&job, "first");
    run.job_lost(&job, "second");
    assert_eq!(run.verdict(), unavailable("first"));
    let mut run = ended();
    run.job_lost(&job, "first");
    run.cut_off();
    assert_eq!(
        run.verdict(),
        unavailable("reconciliation shutdown deadline exceeded")
    );

    let mut run = Run::begin(4);
    run.job_lost(&job, "panicked");
    run.deletions_failed(StoreError::internal("odd"));
    run.job_lost(&job, "first");
    run.cut_off();
    assert_eq!(
        run.verdict(),
        unavailable("reconciliation task failed: panicked")
    );

    let mut run = Run::begin(4);
    run.deletions_failed(StoreError::internal("odd"));
    assert_eq!(run.verdict(), Some(Err(StoreError::internal("odd"))));
}

#[test]
fn a_run_comes_to_nothing_before_its_last_job_has_ended() {
    assert_eq!(Run::begin(4).verdict(), None);
    let candidates = vec![
        candidate("wake-a", MaterializationState::Pending),
        candidate("drain-a", MaterializationState::Deleting),
    ];
    let drained = |ends: usize| {
        let mut run = Run::begin(4);
        assert_eq!(run.scanned(&candidates), vec![0, 1]);
        run.shut_down();
        for candidate in candidates.iter().take(ends) {
            run.job_ended(&candidate.id);
        }
        assert_eq!(run.jobs(), candidates.len() - ends);
        run.verdict()
    };
    assert_eq!(drained(0), None);
    assert_eq!(drained(1), None);
    assert_eq!(drained(2), Some(Ok(())));
}

#[test]
fn an_owner_is_named_after_its_process() {
    assert_eq!(owner_name(42, 1_700_000_000_123), "pid-42-1700000000123");
}

#[test]
fn leases_are_renewed_three_times_over() {
    assert_eq!(
        heartbeat_period(Duration::from_secs(60)),
        Duration::from_secs(20)
    );
    assert_eq!(
        heartbeat_period(Duration::from_millis(2)),
        Duration::from_millis(1)
    );
}

#[test]
fn scans_are_never_closer_than_ten_milliseconds() {
    let mut config = config();
    assert_eq!(scan_period(&config), interval_with_jitter(&config));
    config.interval = Duration::zero();
    assert_eq!(scan_period(&config), Duration::from_millis(10));
}
