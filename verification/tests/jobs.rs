//! Whole jobs of the reconciler, against a store and a cluster in memory.

use sleepypods_control_plane::backend::BackendEndpoint;
use sleepypods_control_plane::duration::Duration;
use sleepypods_control_plane::ids::{
    BackendGeneration, Generation, InstanceId, MaterializationId, WorkloadClassId,
};
use sleepypods_control_plane::instance::{
    InstanceRecord, InstanceState, InstanceValues, ResolvedSleepPolicy, WorkloadClassVersionRef,
};
use sleepypods_control_plane::manifest::render::render_manifests;
use sleepypods_control_plane::manifest::template::{
    ContainerPortTemplate, ContainerTemplate, EnvVarTemplate, ManifestTemplate,
    ServicePortTemplate, ServiceTemplate, SidecarTemplate, TemplateText, WorkloadKind,
    WorkloadTemplate,
};
use sleepypods_control_plane::manifest::{RenderManifestOptions, RenderManifestRequest};
use sleepypods_control_plane::materialization::{
    MaterializationReconciliationLease, MaterializationRecord, MaterializationState,
    RenderedObjectRef,
};
use sleepypods_control_plane::materializer::{rendered_object_refs, KubernetesClientError};
use sleepypods_control_plane::projection::ProjectionObservationState;
use sleepypods_control_plane::reconciler::current::{render_current_manifest, CurrentClass};
use sleepypods_control_plane::reconciler::job::{Job, JobAction, JobEvent, Phase};
use sleepypods_control_plane::reconciler::{
    failure_request, MaterializationReconcileError, MaterializationReconcilerConfig,
    MaterializerError, ProjectionError,
};
use sleepypods_control_plane::store::StoreError;
use sleepypods_control_plane::target::MaterializationTarget;
use sleepypods_control_plane::workload::RenderedExclusivityKey;

fn target() -> MaterializationTarget {
    MaterializationTarget::new("cluster-a", "apps").expect("valid target")
}

fn config() -> MaterializationReconcilerConfig {
    MaterializationReconcilerConfig {
        owner: "test-owner".to_owned(),
        interval: Duration::from_secs(60),
        lease_ttl: Duration::from_secs(30),
        batch_size: 10,
        concurrency_limit: 1,
    }
}

fn instance(instance_id: &str, state: InstanceState, generation: u64) -> InstanceRecord {
    InstanceRecord {
        id: InstanceId::new(instance_id).expect("valid instance id"),
        workload_class: WorkloadClassVersionRef::new(
            WorkloadClassId::new("class-a").expect("valid class id"),
            Generation::new(1),
        ),
        values: InstanceValues::new(),
        state,
        generation: Generation::new(generation),
    }
}

fn waking_instance(instance_id: &str) -> InstanceRecord {
    instance(instance_id, InstanceState::Waking, 7)
}

fn running_instance(instance_id: &str, generation: u64) -> InstanceRecord {
    instance(instance_id, InstanceState::Running, generation)
}

fn draining_instance(instance_id: &str) -> InstanceRecord {
    instance(instance_id, InstanceState::Draining, 8)
}

fn template() -> ManifestTemplate {
    ManifestTemplate {
        workload: WorkloadTemplate {
            kind: WorkloadKind::Deployment,
            name: TemplateText::literal("app"),
            replicas: None,
            app_container: ContainerTemplate {
                name: "app".to_owned(),
                image: TemplateText::literal("example/app:1"),
                ports: vec![ContainerPortTemplate {
                    name: Some("http".to_owned()),
                    container_port: 8080,
                }],
                env: vec![EnvVarTemplate {
                    name: "TENANT".to_owned(),
                    value: TemplateText::literal("acme"),
                }],
            },
        },
        service: Some(ServiceTemplate {
            name: TemplateText::literal("svc"),
            ports: vec![ServicePortTemplate {
                name: Some("http".to_owned()),
                port: 80,
                target_port: 8080,
            }],
        }),
        sidecar: SidecarTemplate {
            name: "sleepypods-sidecar".to_owned(),
            image: TemplateText::literal("sleepypods/sidecar:test"),
            listen_port: 15000,
            mode: None,
        },
        volumes: Vec::new(),
        raw_objects: Vec::new(),
    }
}

fn sleep_policy() -> ResolvedSleepPolicy {
    ResolvedSleepPolicy {
        idle_timeout_ms: 120_000,
        idle_retry_backoff_ms: 5_000,
        drain_grace_timeout_ms: 30_000,
    }
}

fn class() -> CurrentClass {
    CurrentClass {
        template: template(),
        template_generation: Generation::new(3),
        sleep_policy: Ok(sleep_policy()),
    }
}

fn deleting_materialization(id: &str) -> MaterializationRecord {
    MaterializationRecord {
        id: MaterializationId::new(id).expect("valid materialization id"),
        instance_id: InstanceId::new("instance-reconcile").expect("valid instance id"),
        instance_generation: Generation::new(7),
        projection_generation: Generation::new(7),
        target: target(),
        state: MaterializationState::Deleting,
        backend: None,
        backend_generation: BackendGeneration::new(7),
        rendered_objects: vec![
            RenderedObjectRef {
                api_version: "apps/v1".to_owned(),
                kind: "Deployment".to_owned(),
                namespace: "apps".to_owned(),
                name: "instance-reconcile".to_owned(),
            },
            RenderedObjectRef {
                api_version: "v1".to_owned(),
                kind: "PersistentVolumeClaim".to_owned(),
                namespace: "apps".to_owned(),
                name: "instance-reconcile-data".to_owned(),
            },
        ],
        exclusivity_keys: vec![],
        reconciliation_lease: None,
    }
}

fn pending_materialization(id: &str, instance: &InstanceRecord) -> MaterializationRecord {
    let manifest = render_manifests(RenderManifestRequest {
        template: &template(),
        instance,
        sleep_policy: sleep_policy(),
        namespace: "apps",
        template_generation: Some(Generation::new(3)),
    })
    .expect("manifest renders");
    MaterializationRecord {
        id: MaterializationId::new(id).expect("valid materialization id"),
        instance_id: instance.id.clone(),
        instance_generation: instance.generation,
        projection_generation: Generation::new(instance.generation.get() + 1),
        target: target(),
        state: MaterializationState::Pending,
        backend: None,
        backend_generation: BackendGeneration::new(instance.generation.get()),
        rendered_objects: rendered_object_refs(&manifest),
        exclusivity_keys: vec![],
        reconciliation_lease: None,
    }
}

/// A store and a cluster that hold one materialization.
struct World {
    materialization: MaterializationRecord,
    instance: InstanceRecord,
    /// The objects that are there, and whether they belong to the instance.
    live: Vec<(RenderedObjectRef, bool)>,
    delete_error: Option<KubernetesClientError>,
    renews: bool,
    replacement: Option<MaterializationRecord>,
    requested_lease_ttls: Vec<Duration>,
    finalize_calls: usize,
    complete_calls: usize,
    guarded_delete_calls: usize,
    release_calls: usize,
    apply_calls: usize,
    wait_readiness_calls: usize,
    delete_calls: usize,
}

impl World {
    fn new(materialization: MaterializationRecord, instance: InstanceRecord) -> Self {
        World {
            materialization,
            instance,
            live: Vec::new(),
            delete_error: None,
            renews: true,
            replacement: None,
            requested_lease_ttls: Vec::new(),
            finalize_calls: 0,
            complete_calls: 0,
            guarded_delete_calls: 0,
            release_calls: 0,
            apply_calls: 0,
            wait_readiness_calls: 0,
            delete_calls: 0,
        }
    }

    fn with_live_owned_refs(mut self) -> Self {
        for object in &self.materialization.rendered_objects {
            self.live.push((object.clone(), true));
        }
        self
    }

    fn with_live_unowned_ref(mut self, object: RenderedObjectRef) -> Self {
        self.live.push((object, false));
        self
    }

    fn is_foreign(&self) -> bool {
        self.live.iter().any(|(_, owned)| !owned)
    }

    fn apply(&mut self) -> Result<(), ProjectionError> {
        if self.is_foreign() {
            return Err(ProjectionError::OwnershipConflict);
        }
        self.live.clear();
        for object in &self.materialization.rendered_objects {
            self.apply_calls += 1;
            self.live.push((object.clone(), true));
        }
        Ok(())
    }

    fn remove(&mut self) -> Result<(), ProjectionError> {
        if self.is_foreign() {
            return Err(ProjectionError::OwnershipConflict);
        }
        if let Some(source) = self.delete_error.clone() {
            return Err(ProjectionError::Delete {
                source: MaterializerError::Delete { source },
            });
        }
        self.delete_calls += self.live.len();
        self.live.clear();
        Ok(())
    }

    fn inspect(&self) -> Vec<ProjectionObservationState> {
        self.materialization
            .rendered_objects
            .iter()
            .map(|object| {
                match self.live.iter().find(|(live, _)| live == object) {
                    Some((_, true)) => ProjectionObservationState::PresentOwned,
                    Some((_, false)) => ProjectionObservationState::PresentUnowned,
                    None => ProjectionObservationState::Missing,
                }
            })
            .collect()
    }

    fn answer(&mut self, job: &Job, config: &MaterializationReconcilerConfig) -> JobEvent {
        match job.action(config) {
            JobAction::Claim(request) => {
                self.requested_lease_ttls.push(request.lease_ttl);
                self.materialization.reconciliation_lease =
                    Some(MaterializationReconciliationLease {
                        owner: request.owner,
                        expires_at: std::time::SystemTime::UNIX_EPOCH,
                        attempt: 1,
                    });
                JobEvent::Claim {
                    claimed: Ok(Some(self.materialization.clone())),
                    cancelled: false,
                }
            }
            JobAction::Renew(request) => {
                self.requested_lease_ttls.push(request.lease_ttl);
                JobEvent::Renewal(Ok(self.renews))
            }
            JobAction::LoadStatus(_) => JobEvent::Status {
                status: Ok(None),
                request_elapsed: Duration::zero(),
            },
            JobAction::LoadInstance(_) => JobEvent::Instance(Ok(Some(self.instance.clone()))),
            JobAction::Render(projected) => JobEvent::Rendered(
                render_current_manifest(
                    Ok(Some(class())),
                    &projected,
                    job.claimed().expect("claimed work"),
                    RenderManifestOptions::default(),
                )
                .map(|manifest| rendered_object_refs(&manifest)),
            ),
            JobAction::Apply => JobEvent::Applied(self.apply()),
            JobAction::AwaitReadiness => {
                self.wait_readiness_calls += 1;
                JobEvent::Ready(Ok(
                    BackendEndpoint::new("http://svc.apps.svc.cluster.local:80").unwrap()
                ))
            }
            JobAction::Inspect => JobEvent::Inspected(Ok(self.inspect())),
            JobAction::Complete(request) => {
                self.complete_calls += 1;
                self.materialization.state = MaterializationState::Ready;
                self.materialization.instance_generation =
                    Generation::new(request.complete.expected_waking_generation.get() + 1);
                JobEvent::Committed(Ok(()))
            }
            JobAction::Remove => JobEvent::Removed(self.remove()),
            JobAction::MarkDeleted(request) => {
                self.guarded_delete_calls += 1;
                if let Some(replacement) = self.replacement.take() {
                    self.materialization = replacement;
                }
                let kept = &mut self.materialization;
                if kept.id == request.materialization_id
                    && kept.state == request.expected_state
                    && kept.instance_generation == request.instance_generation
                    && kept
                        .reconciliation_lease
                        .as_ref()
                        .is_some_and(|lease| lease.owner == request.lease_owner)
                {
                    kept.state = MaterializationState::Deleted;
                    kept.exclusivity_keys.clear();
                }
                JobEvent::Committed(Ok(()))
            }
            JobAction::FinalizeSleep(_) => {
                self.finalize_calls += 1;
                self.materialization.state = MaterializationState::Deleted;
                JobEvent::Committed(Ok(()))
            }
            JobAction::RecordFailure => {
                let Phase::RecordingFailure { error } = job.phase() else {
                    panic!("a failure is kept while there is one");
                };
                let request =
                    failure_request(job.claimed().unwrap(), &config.owner, error, "source");
                assert_eq!(request.expected_state, self.materialization.state);
                // Keeping the failure gives the lease back as well.
                self.release_calls += 1;
                JobEvent::FailureRecorded(Ok(true))
            }
            JobAction::Release(_) => {
                self.release_calls += 1;
                JobEvent::Released
            }
            JobAction::Nothing => panic!("the job has ended"),
        }
    }

    fn run_with(&mut self, config: &MaterializationReconcilerConfig) {
        let Some(mut job) = Job::begin(self.materialization.clone(), &target()) else {
            return;
        };
        while *job.phase() != Phase::Ended {
            let event = self.answer(&job, config);
            job = job.step(event).0;
        }
    }

    fn run_once(&mut self) {
        self.run_with(&config());
    }
}

#[test]
fn deleting_reconciliation_deletes_refs_and_finalizes_with_current_lease() {
    let mut world = World::new(
        deleting_materialization("mat-delete-ok"),
        draining_instance("instance-reconcile"),
    )
    .with_live_owned_refs();

    world.run_once();

    assert_eq!(world.finalize_calls, 1);
    assert_eq!(world.release_calls, 0);
}

#[test]
fn deleting_reconciliation_keeps_keys_when_cleanup_fails() {
    let mut world = World::new(
        deleting_materialization("mat-delete-fail"),
        draining_instance("instance-reconcile"),
    )
    .with_live_owned_refs();
    world.delete_error = Some(KubernetesClientError::transient("api unavailable"));

    world.run_once();

    assert_eq!(world.finalize_calls, 0);
    assert_eq!(world.release_calls, 1);
}

#[test]
fn deleting_reconciliation_does_not_finalize_after_lease_loss() {
    let mut world = World::new(
        deleting_materialization("mat-delete-lease-lost"),
        draining_instance("instance-reconcile"),
    );
    world.renews = false;

    world.run_once();

    assert_eq!(world.finalize_calls, 0);
    assert_eq!(
        world.release_calls, 1,
        "attempt exact conditional release after work stops"
    );
}

#[test]
fn pending_reconciliation_applies_waits_and_completes_current_wake() {
    let instance = waking_instance("instance-reconcile");
    let materialization = pending_materialization("mat-pending-complete", &instance);
    let mut world = World::new(materialization, instance);

    world.run_once();

    assert_eq!(world.complete_calls, 1);
    assert_eq!(world.guarded_delete_calls, 0);
    assert_eq!(world.materialization.state, MaterializationState::Ready);
    assert_eq!(world.materialization.instance_generation, Generation::new(8));
    assert_eq!(world.apply_calls, 2);
    assert_eq!(world.wait_readiness_calls, 1);
    assert_eq!(world.release_calls, 0);
}

#[test]
fn pending_reconciliation_stops_on_unowned_live_ref() {
    let instance = waking_instance("instance-reconcile");
    let materialization = pending_materialization("mat-pending-unowned", &instance);
    let foreign = materialization.rendered_objects[0].clone();
    let mut world = World::new(materialization, instance).with_live_unowned_ref(foreign);

    world.run_once();

    assert_eq!(world.apply_calls, 0);
    assert_eq!(world.complete_calls, 0);
    assert_eq!(world.materialization.state, MaterializationState::Pending);
    assert_eq!(world.release_calls, 1);
}

#[test]
fn pending_stale_generation_deletes_refs_and_marks_deleted_after_cleanup() {
    let materialization =
        pending_materialization("mat-pending-stale", &waking_instance("instance-reconcile"));
    let mut world = World::new(materialization, running_instance("instance-reconcile", 8))
        .with_live_owned_refs();

    world.run_once();

    assert_eq!(world.complete_calls, 0);
    assert_eq!(world.guarded_delete_calls, 1);
    assert_eq!(world.materialization.state, MaterializationState::Deleted);
    assert_eq!(world.delete_calls, 2);
    assert_eq!(world.release_calls, 0);
}

#[test]
fn deleting_reconciliation_tolerates_missing_refs_and_finalizes() {
    let mut world = World::new(
        deleting_materialization("mat-delete-missing-refs"),
        draining_instance("instance-reconcile"),
    );

    world.run_once();

    assert_eq!(world.delete_calls, 0);
    assert_eq!(world.finalize_calls, 1);
    assert_eq!(world.materialization.state, MaterializationState::Deleted);
}

#[test]
fn deleting_reconciliation_blocks_on_unowned_live_ref() {
    let materialization = deleting_materialization("mat-delete-unowned");
    let foreign = materialization.rendered_objects[0].clone();
    let mut world = World::new(materialization, draining_instance("instance-reconcile"))
        .with_live_unowned_ref(foreign);

    world.run_once();

    assert_eq!(world.delete_calls, 0);
    assert_eq!(world.finalize_calls, 0);
    assert_eq!(world.materialization.state, MaterializationState::Deleting);
    assert_eq!(world.release_calls, 1);
}

#[test]
fn deleting_reconciliation_marks_deleted_after_generation_race_cleanup() {
    let mut world = World::new(
        deleting_materialization("mat-delete-race"),
        running_instance("instance-reconcile", 8),
    );

    world.run_once();

    assert_eq!(world.finalize_calls, 0);
    assert_eq!(world.guarded_delete_calls, 1);
    assert_eq!(world.materialization.state, MaterializationState::Deleted);
}

#[test]
fn deleting_reconciliation_skips_finalize_for_later_drain_cycle() {
    let mut later_drain = draining_instance("instance-reconcile");
    later_drain.generation = Generation::new(12);
    let mut world = World::new(
        deleting_materialization("mat-delete-later-drain"),
        later_drain,
    );

    world.run_once();

    assert_eq!(world.finalize_calls, 0);
    assert_eq!(world.guarded_delete_calls, 1);
    assert_eq!(world.materialization.state, MaterializationState::Deleted);
}

#[test]
fn stale_cleanup_does_not_delete_newer_same_id_materialization() {
    let stale = pending_materialization("mat-stable-id", &waking_instance("instance-reconcile"));
    let mut newer =
        pending_materialization("mat-stable-id", &waking_instance("instance-reconcile"));
    newer.instance_generation = Generation::new(stale.instance_generation.get() + 1);
    newer.backend_generation = BackendGeneration::new(newer.instance_generation.get());
    newer.exclusivity_keys = vec![RenderedExclusivityKey::new("singleton", "class-a")];
    let mut world = World::new(stale, running_instance("instance-reconcile", 8));
    world.replacement = Some(newer.clone());

    world.run_once();

    assert_eq!(world.guarded_delete_calls, 1);
    assert_eq!(world.materialization.state, MaterializationState::Pending);
    assert_eq!(
        world.materialization.instance_generation,
        newer.instance_generation
    );
    assert_eq!(world.materialization.exclusivity_keys, newer.exclusivity_keys);
}

#[test]
fn reconciler_requests_its_configured_lease_ttl_without_consulting_its_clock() {
    let instance = waking_instance("instance-reconcile");
    let pending = pending_materialization("lease-ttl", &instance);
    let mut world = World::new(pending, instance);
    let mut config = config();
    config.lease_ttl = Duration::from_secs(47);

    world.run_with(&config);

    let requested = &world.requested_lease_ttls;
    assert!(
        !requested.is_empty(),
        "the pass must claim, and therefore request a lease"
    );
    assert!(
        requested.iter().all(|ttl| *ttl == Duration::from_secs(47)),
        "every lease request carries the configured TTL verbatim: {requested:?}"
    );
}

#[test]
fn a_wake_is_rendered_from_the_class_that_the_store_holds() {
    let waking = waking_instance("instance-reconcile");
    let pending = pending_materialization("mat-current", &waking);
    let render = |class| {
        render_current_manifest(class, &waking, &pending, RenderManifestOptions::default())
    };

    let manifest = render(Ok(Some(class()))).expect("manifest renders");
    assert_eq!(manifest.instance_generation, Generation::new(7));
    assert_eq!(manifest.template_generation, Some(Generation::new(3)));
    assert_eq!(rendered_object_refs(&manifest), pending.rendered_objects);

    let down = || StoreError::unavailable("down");
    assert_eq!(
        render(Err(down())),
        Err(MaterializationReconcileError::Store(down()))
    );
    assert_eq!(
        render(Ok(None)),
        Err(MaterializationReconcileError::Store(StoreError::NotFound {
            resource: "workload class version"
        }))
    );
    let unsettled = CurrentClass {
        sleep_policy: Err("no policy".to_owned()),
        ..class()
    };
    assert_eq!(
        render(Ok(Some(unsettled))),
        Err(MaterializationReconcileError::Render("no policy".to_owned()))
    );
    let mut unnamed = class();
    unnamed.template.workload.name = TemplateText::instance_value("tenant");
    assert_eq!(
        render(Ok(Some(unnamed))),
        Err(MaterializationReconcileError::Render(
            "missing instance value \"tenant\"".to_owned()
        ))
    );
}
