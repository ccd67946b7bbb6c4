//! What becomes of a materialization: which failures end it, and how a wake or a
//! sleep that nothing disturbs goes through.

use super::current;
use super::job::{self, JobAction, JobEvent, JobView, PhaseView};
use super::run::{self, RunEvent, RunView};
use super::{
    DeletingStep, MaterializationReconcileError, MaterializationReconcilerConfig, MaterializerError,
    PendingStep, ProjectionError, ProjectionErrorView, ReconcileErrorView, Settlement, WorkKind,
};
use crate::backend::BackendEndpoint;
use crate::instance::{InstanceRecord, InstanceState, ResolvedSleepPolicy};
use crate::manifest::objects::RenderedManifestView;
use crate::manifest;
use crate::materialization::{
    MaterializationReconciliationLease, MaterializationRecord, MaterializationState,
    RenderedObjectRef,
};
use crate::materializer::{ClientErrorKind, ClientErrorView};
use crate::projection::ProjectionObservationState;
use crate::runtime_work::{MaterializationWorkStatus, RecordMaterializationFailure};
use crate::store::{StoreError, StoreErrorView};
use vstd::prelude::*;

verus! {

// ---------------------------------------------------------------------------
// Which failures are final
// ---------------------------------------------------------------------------
/// The answer of the cluster to a change that the materializer asked for, if it was
/// one that failed.
pub open spec fn refused_change(error: MaterializerError) -> Option<ClientErrorView> {
    match error {
        MaterializerError::Apply { source } => Some(source@),
        MaterializerError::Delete { source } => Some(source@),
        _ => None,
    }
}

/// What the materializer failed with, if an error comes from applying or deleting.
pub open spec fn materializer_in(error: MaterializationReconcileError) -> Option<
    MaterializerError,
> {
    match error {
        MaterializationReconcileError::Materializer(source) => Some(source),
        MaterializationReconcileError::Projection(ProjectionError::Apply { source }) => Some(
            source,
        ),
        MaterializationReconcileError::Projection(ProjectionError::Delete { source }) => Some(
            source,
        ),
        _ => None,
    }
}

/// Whether a failed change of the cluster is final follows from the answer alone: it
/// is exactly when trying again would not help and it is certain that nothing
/// happened. Waiting is never final.
pub proof fn law_an_answer_decides_about_another_attempt(error: MaterializationReconcileError)
    ensures
        materializer_in(error) matches Some(source) ==> match refused_change(source) {
            Some(answer) => super::reconcile_permanent(error) == (answer.kind
                != ClientErrorKind::Transient && answer.kind != ClientErrorKind::Uncertain),
            None => super::reconcile_permanent(error) == (source is InvalidManifest),
        },
        error matches MaterializationReconcileError::Projection(ProjectionError::Inspect { source })
            ==> super::reconcile_permanent(error) == (source@.kind != ClientErrorKind::Transient
            && source@.kind != ClientErrorKind::Uncertain),
{
}

/// The answer of the cluster that an error comes from, if it comes from one.
pub open spec fn answer_in(error: MaterializationReconcileError) -> Option<ClientErrorView> {
    match error {
        MaterializationReconcileError::Projection(ProjectionError::Inspect { source }) => Some(
            source@,
        ),
        _ => match materializer_in(error) {
            Some(MaterializerError::Apply { source }) => Some(source@),
            Some(MaterializerError::Delete { source }) => Some(source@),
            Some(MaterializerError::PvcBoundWait { source }) => Some(source@),
            Some(MaterializerError::ReadinessWait { source }) => Some(source@),
            _ => None,
        },
    }
}

/// A transient or uncertain answer never ends the attempts, wherever it came from.
pub proof fn law_a_passing_failure_is_tried_again(error: MaterializationReconcileError)
    requires
        answer_in(error) is Some,
        answer_in(error)->Some_0.kind == ClientErrorKind::Transient || answer_in(
            error,
        )->Some_0.kind == ClientErrorKind::Uncertain,
    ensures
        !super::reconcile_permanent(error),
{
}

/// Failures without an answer of the cluster are final exactly where the template,
/// the objects or the request cannot be right: what runs out, is lost, is called off
/// or is not yet in place may be tried again, and so may a store that was away.
pub proof fn law_only_what_cannot_be_right_is_final(error: MaterializationReconcileError)
    ensures
        match error {
            MaterializationReconcileError::Render(_) => super::reconcile_permanent(error),
            MaterializationReconcileError::StaleDesiredRefs => super::reconcile_permanent(error),
            MaterializationReconcileError::LeaseLost => !super::reconcile_permanent(error),
            MaterializationReconcileError::Cancelled => !super::reconcile_permanent(error),
            MaterializationReconcileError::Deadline => !super::reconcile_permanent(error),
            MaterializationReconcileError::Store(source) => super::reconcile_permanent(error) == (
            source is InvalidArgument || source is NotFound),
            MaterializationReconcileError::Projection(source) => {
                &&& source is MissingManifest || source is OwnershipConflict
                    ==> super::reconcile_permanent(error)
                &&& source is Incomplete || source is Readiness ==> !super::reconcile_permanent(
                    error,
                )
            },
            MaterializationReconcileError::Materializer(source) => {
                &&& source is InvalidManifest ==> super::reconcile_permanent(error)
                &&& source is PvcBoundWait || source is ReadinessWait
                    ==> !super::reconcile_permanent(error)
            },
        },
{
}

/// What follows the end of the work: a success ends it, a lease that is lost or work
/// that was called off goes back, and every other failure is kept.
pub proof fn law_every_failure_is_kept_but_two(result: Result<(), MaterializationReconcileError>)
    ensures
        super::settlement_of(result) == Settlement::Done <==> result is Ok,
        super::settlement_of(result) == Settlement::Release <==> result is Err && (
        result->Err_0 is LeaseLost || result->Err_0 is Cancelled),
{
}

// ---------------------------------------------------------------------------
// What an instance is wanted for
// ---------------------------------------------------------------------------
/// A wake goes on exactly for an instance that waits for it in the revision it was
/// accepted in. Objects are removed exactly where the instance is gone, has moved on
/// or is going; anything else is a mistake.
pub proof fn law_a_wake_serves_the_instance_that_waits(
    instance: Option<(InstanceState, u64)>,
    generation: u64,
)
    ensures
        super::pending_step_of(instance, generation) == PendingStep::Project <==> instance
            == Some((InstanceState::Waking, generation)),
        super::pending_step_of(instance, generation) == PendingStep::Remove <==> match instance {
            None => true,
            Some((state, current)) => current != generation || state is Deleting || state
                is Deleted,
        },
{
}

/// A sleep is completed exactly for an instance that drains in the revision right
/// after the one whose objects were removed.
pub proof fn law_a_sleep_belongs_to_its_drain(
    instance: Option<(InstanceState, u64)>,
    generation: u64,
)
    requires
        generation < u64::MAX,
    ensures
        super::deleting_step_of(instance, generation) == DeletingStep::FinalizeSleep <==> instance
            == Some((InstanceState::Draining, (generation + 1) as u64)),
{
}

/// The time of an operation is what the database granted, or ten minutes where it
/// granted nothing, less what the question took.
pub proof fn law_a_budget_is_what_is_left(
    status: Option<MaterializationWorkStatus>,
    elapsed: nat,
    granted: nat,
)
    requires
        match status {
            Some(status) if status.operation_deadline_unix_millis > 0 => {
                status.operation_remaining is Some && granted == status.operation_remaining->Some_0@
            },
            _ => granted == 10 * 60 * 1_000_000_000,
        },
    ensures
        super::budget_outcome(status, elapsed) is Ok,
        elapsed <= granted ==> super::budget_outcome(status, elapsed)->Ok_0 + elapsed == granted,
        elapsed >= granted ==> super::budget_outcome(status, elapsed)->Ok_0 == 0,
{
}

/// Work is held back only for want of a place: with one free it starts, unless it is
/// under way already; a wake needs a second free place, or a deletion among the jobs.
pub proof fn law_free_places_are_used(
    jobs: super::JobsView,
    capacity: nat,
    id: Seq<char>,
    state: MaterializationState,
)
    requires
        forall|i: int| 0 <= i < jobs.len() ==> (#[trigger] jobs[i]).0 != id,
        jobs.len() < capacity,
    ensures
        state != MaterializationState::Pending ==> super::may_start(jobs, capacity, id, state),
        jobs.len() + 1 < capacity ==> super::may_start(jobs, capacity, id, state),
        (exists|i: int| 0 <= i < jobs.len() && (#[trigger] jobs[i]).1 != MaterializationState::Pending)
            ==> super::may_start(jobs, capacity, id, state),
{
    lemma_waking_at_most(jobs);
}

proof fn lemma_waking_at_most(jobs: super::JobsView)
    ensures
        super::waking_jobs(jobs) <= jobs.len(),
        (exists|i: int| 0 <= i < jobs.len() && (#[trigger] jobs[i]).1 != MaterializationState::Pending)
            ==> super::waking_jobs(jobs) < jobs.len(),
    decreases jobs.len(),
{
    if jobs.len() > 0 {
        lemma_waking_at_most(jobs.drop_last());
        if jobs.last().1 == MaterializationState::Pending && exists|i: int|
            0 <= i < jobs.len() && (#[trigger] jobs[i]).1 != MaterializationState::Pending {
            let i = choose|i: int|
                0 <= i < jobs.len() && (#[trigger] jobs[i]).1 != MaterializationState::Pending;
            assert(jobs.drop_last()[i] == jobs[i]);
        }
    }
}

/// A job never starts beside another one on the same materialization, beyond the
/// last place, or as a wake in the last place that wakes may take.
pub proof fn law_no_job_takes_what_is_not_free(
    jobs: super::JobsView,
    capacity: nat,
    id: Seq<char>,
    state: MaterializationState,
)
    requires
        super::may_start(jobs, capacity, id, state),
    ensures
        jobs.len() < capacity,
        forall|i: int| 0 <= i < jobs.len() ==> (#[trigger] jobs[i]).0 != id,
        state == MaterializationState::Pending ==> super::waking_jobs(jobs) + 1 < capacity,
{
}

// ---------------------------------------------------------------------------
// How work goes through
// ---------------------------------------------------------------------------
/// A lease that is claimed, held on to and given time leads to the work that the
/// state of the materialization asks for.
pub proof fn law_claimed_work_begins(
    candidate: MaterializationRecord,
    claimed: MaterializationRecord,
    status: Option<MaterializationWorkStatus>,
    elapsed: crate::duration::Duration,
)
    requires
        super::budget_outcome(status, elapsed@) is Ok,
        super::budget_outcome(status, elapsed@)->Ok_0 > 0,
    ensures
        ({
            let asked = job::next(
                job::beginning(candidate),
                JobEvent::Claim { claimed: Ok(Some(claimed)), cancelled: false },
            );
            let held = job::next(asked, JobEvent::Renewal(Ok(true)));
            let timed = job::next(
                held,
                JobEvent::Status { status: Ok(status), request_elapsed: elapsed },
            );
            &&& asked.claimed == Some(claimed)
            &&& timed.claimed == Some(claimed)
            &&& timed.budget == Some(super::budget_outcome(status, elapsed@)->Ok_0)
            &&& timed.interrupted is None
            &&& claimed.state == MaterializationState::Pending ==> timed.phase
                == PhaseView::WakeLoading
            &&& claimed.state == MaterializationState::Deleting ==> timed.phase
                == PhaseView::SleepRemoving
            &&& claimed.state != MaterializationState::Pending && claimed.state
                != MaterializationState::Deleting ==> timed.phase == PhaseView::Ended
        }),
{
}

/// A wake that nothing disturbs is completed at the place where the instance came
/// up, and subscribers are told.
pub proof fn law_an_undisturbed_wake_completes(
    wake: JobView,
    instance: InstanceRecord,
    desired: Vec<crate::materialization::RenderedObjectRef>,
    backend: BackendEndpoint,
    states: Vec<ProjectionObservationState>,
)
    requires
        wake.phase == PhaseView::WakeLoading,
        wake.claimed is Some,
        instance.state == InstanceState::Waking,
        instance.generation@ == wake.claimed->Some_0.instance_generation@,
        super::same_objects(desired@, wake.claimed->Some_0.rendered_objects@),
        forall|i: int|
            0 <= i < states@.len() ==> #[trigger] states@[i]
                == ProjectionObservationState::PresentOwned,
    ensures
        ({
            let a = job::next(wake, JobEvent::Instance(Ok(Some(instance))));
            let b = job::next(a, JobEvent::Rendered(Ok(desired)));
            let c = job::next(b, JobEvent::Applied(Ok(())));
            let d = job::next(c, JobEvent::Ready(Ok(backend)));
            let e = job::next(d, JobEvent::Inspected(Ok(states)));
            let f = job::next(e, JobEvent::Renewal(Ok(true)));
            &&& a.phase == (PhaseView::Rendering { instance })
            &&& b.phase == PhaseView::Applying
            &&& c.phase == PhaseView::AwaitingReadiness
            &&& d.phase == (PhaseView::Inspecting { backend })
            &&& e.phase == (PhaseView::WakeRenewing { backend })
            &&& f.phase == (PhaseView::Completing { backend })
            &&& f.claimed == wake.claimed
            &&& f.interrupted == wake.interrupted
            &&& wake.interrupted is None ==> job::next(f, JobEvent::Committed(Ok(()))).phase
                == PhaseView::Ended
            &&& job::tells_subscribers(f.phase, JobEvent::Committed(Ok(())))
        }),
{
}

/// A sleep that nothing disturbs is completed for the instance that drains, or, where
/// the instance has moved on, ends the materialization alone.
pub proof fn law_an_undisturbed_sleep_completes(sleep: JobView, found: Option<InstanceRecord>)
    requires
        sleep.phase == PhaseView::SleepRemoving,
        sleep.claimed is Some,
        sleep.claimed->Some_0.instance_generation@ < u64::MAX,
    ensures
        ({
            let generation = sleep.claimed->Some_0.instance_generation@;
            let a = job::next(sleep, JobEvent::Removed(Ok(())));
            let b = job::next(a, JobEvent::Renewal(Ok(true)));
            let c = job::next(b, JobEvent::Instance(Ok(found)));
            &&& a.phase == PhaseView::SleepRenewing
            &&& b.phase == PhaseView::SleepLoading
            &&& c.claimed == sleep.claimed
            &&& match found {
                Some(instance) if instance.state == InstanceState::Draining
                    && instance.generation@ == generation + 1 => {
                    &&& c.phase == (PhaseView::FinalizingSleep { instance })
                    &&& job::tells_subscribers(c.phase, JobEvent::Committed(Ok(())))
                },
                _ => c.phase == PhaseView::MarkingDeleted,
            }
            &&& sleep.interrupted is None ==> job::next(c, JobEvent::Committed(Ok(()))).phase
                == PhaseView::Ended
        }),
{
}

/// A wake that nobody wants removes its objects and then ends the materialization.
pub proof fn law_an_unwanted_wake_is_undone(wake: JobView, found: Option<InstanceRecord>)
    requires
        wake.phase == PhaseView::WakeLoading,
        wake.claimed is Some,
        match found {
            None => true,
            Some(instance) => instance.generation@ != wake.claimed->Some_0.instance_generation@
                || instance.state == InstanceState::Deleting || instance.state
                == InstanceState::Deleted,
        },
    ensures
        ({
            let a = job::next(wake, JobEvent::Instance(Ok(found)));
            let b = job::next(a, JobEvent::Removed(Ok(())));
            let c = job::next(b, JobEvent::Renewal(Ok(true)));
            &&& a.phase == PhaseView::Removing
            &&& b.phase == PhaseView::RemoveRenewing
            &&& c.phase == PhaseView::MarkingDeleted
        }),
{
}

/// Work that failed on its own keeps its failure; once that is kept, or else once the
/// lease has gone back, the job ends.
pub proof fn law_a_failure_is_kept_as_it_was(work: JobView, error: ProjectionError, lost: StoreError)
    requires
        work.interrupted is None,
    ensures
        work.phase is Applying ==> job::next(work, JobEvent::Applied(Err(error))).phase == (
        PhaseView::RecordingFailure { error: ReconcileErrorView::Projection(error@) }),
        work.phase is AwaitingReadiness ==> job::next(work, JobEvent::Ready(Err(error))).phase == (
        PhaseView::RecordingFailure { error: ReconcileErrorView::Projection(error@) }),
        work.phase is Inspecting ==> job::next(work, JobEvent::Inspected(Err(error))).phase == (
        PhaseView::RecordingFailure { error: ReconcileErrorView::Projection(error@) }),
        work.phase is Removing || work.phase is SleepRemoving ==> job::next(
            work,
            JobEvent::Removed(Err(error)),
        ).phase == (PhaseView::RecordingFailure { error: ReconcileErrorView::Projection(error@) }),
        work.phase is Completing || work.phase is MarkingDeleted || work.phase is FinalizingSleep
            ==> job::next(work, JobEvent::Committed(Err(lost))).phase == (
        PhaseView::RecordingFailure { error: ReconcileErrorView::Store(lost@) }),
        work.phase is WakeLoading || work.phase is SleepLoading ==> job::next(
            work,
            JobEvent::Instance(Err(lost)),
        ).phase == (PhaseView::RecordingFailure { error: ReconcileErrorView::Store(lost@) }),
        work.phase is Renewing || work.phase is WakeRenewing || work.phase is RemoveRenewing
            || work.phase is SleepRenewing ==> {
            &&& job::next(work, JobEvent::Renewal(Err(lost))).phase == (
            PhaseView::RecordingFailure { error: ReconcileErrorView::Store(lost@) })
            &&& job::next(work, JobEvent::Renewal(Ok(false))).phase == PhaseView::Releasing
        },
        work.phase is RecordingFailure ==> {
            &&& job::next(work, JobEvent::FailureRecorded(Ok(true))).phase == PhaseView::Ended
            &&& job::next(work, JobEvent::FailureRecorded(Ok(false))).phase
                == PhaseView::Releasing
            &&& job::next(work, JobEvent::FailureRecorded(Err(lost))).phase
                == PhaseView::Releasing
        },
        work.phase is Releasing ==> job::next(work, JobEvent::Released).phase == PhaseView::Ended,
{
}

/// Objects pass an inspection exactly when each is in place and owned; one that
/// belongs to something else is a conflict, whatever else is missing.
pub proof fn law_an_inspection_finds_every_object(states: Seq<ProjectionObservationState>)
    ensures
        job::inspection_fault(states) is None <==> forall|i: int|
            0 <= i < states.len() ==> #[trigger] states[i]
                == ProjectionObservationState::PresentOwned,
        job::inspection_fault(states) == Some(ProjectionErrorView::OwnershipConflict) <==> exists|
            i: int,
        |
            0 <= i < states.len() && #[trigger] states[i]
                == ProjectionObservationState::PresentUnowned,
{
}

/// An interruption stops work that is going on, once, and never changes what it
/// counts as: time that ran out is kept as a failure, and a lost lease or a process
/// that ends gives the lease back.
pub proof fn law_an_interruption_is_what_the_work_comes_to(
    work: JobView,
    interruption: job::Interruption,
)
    requires
        job::working(work.phase),
        work.interrupted is None,
    ensures
        ({
            let stopped = job::next(work, JobEvent::Interrupt(interruption));
            let drained = job::next(stopped, JobEvent::DrainTimedOut);
            &&& stopped.phase == work.phase
            &&& stopped.interrupted == Some(interruption)
            &&& drained.phase == match interruption {
                job::Interruption::Deadline => PhaseView::RecordingFailure {
                    error: ReconcileErrorView::Deadline,
                },
                job::Interruption::Cancelled => PhaseView::Releasing,
                job::Interruption::LeaseLost => PhaseView::Releasing,
            }
        }),
{
}

// ---------------------------------------------------------------------------
// What is asked of the store
// ---------------------------------------------------------------------------
/// Whatever a job asks of the store about its work, it asks for the materialization it
/// claimed, in the name it claimed it under and in the attempt it was given.
pub proof fn law_a_job_asks_for_what_it_claimed(
    work: JobView,
    config: MaterializationReconcilerConfig,
    action: JobAction,
    lease: MaterializationReconciliationLease,
)
    requires
        job::asks(work, config, action),
        work.claimed is Some,
        work.claimed->Some_0.reconciliation_lease == Some(lease),
    ensures
        ({
            let claimed = work.claimed->Some_0;
            &&& action is Claim ==> action->Claim_0.materialization_id@ == work.candidate.id@
                && action->Claim_0.owner@ == config.owner@ && action->Claim_0.lease_ttl
                == config.lease_ttl
            &&& action is Renew ==> {
                let request = action->Renew_0;
                &&& request.materialization_id@ == claimed.id@
                &&& request.owner@ == config.owner@
                &&& request.attempt == lease.attempt
                &&& request.instance_generation@ == claimed.instance_generation@
                &&& request.expected_state == claimed.state
                &&& request.lease_ttl == config.lease_ttl
            }
            &&& action is Release ==> {
                let request = action->Release_0;
                &&& request.materialization_id@ == claimed.id@
                &&& request.owner@ == config.owner@
                &&& request.attempt == lease.attempt
                &&& request.instance_generation@ == claimed.instance_generation@
            }
            &&& action is LoadStatus ==> action->LoadStatus_0@ == claimed.id@
            &&& action is LoadInstance ==> action->LoadInstance_0@ == claimed.instance_id@
            &&& action is MarkDeleted ==> {
                let request = action->MarkDeleted_0;
                &&& request.materialization_id@ == claimed.id@
                &&& request.lease_owner@ == config.owner@
                &&& request.attempt == lease.attempt
                &&& request.expected_state == claimed.state
                &&& request.instance_id@ == claimed.instance_id@
                &&& request.instance_generation@ == claimed.instance_generation@
                &&& request.target@ == claimed.target@
            }
            &&& action is Complete ==> {
                let request = action->Complete_0;
                &&& work.phase is Completing
                &&& request.materialization_id@ == claimed.id@
                &&& request.lease_owner@ == config.owner@
                &&& request.attempt == lease.attempt
                &&& request.complete.instance_id@ == claimed.instance_id@
                &&& request.complete.expected_waking_generation@ == claimed.instance_generation@
                &&& request.complete.target@ == claimed.target@
                &&& request.complete.backend@ == work.phase->Completing_backend@
                &&& request.complete.backend_generation@ == claimed.backend_generation@
                &&& request.complete.rendered_objects@.len() == claimed.rendered_objects@.len()
                &&& forall|i: int|
                    0 <= i < claimed.rendered_objects@.len() ==> {
                        let kept = #[trigger] request.complete.rendered_objects@[i];
                        &&& kept.api_version@ == claimed.rendered_objects@[i].api_version@
                        &&& kept.kind@ == claimed.rendered_objects@[i].kind@
                        &&& kept.namespace@ == claimed.rendered_objects@[i].namespace@
                        &&& kept.name@ == claimed.rendered_objects@[i].name@
                    }
                &&& request.complete.exclusivity_keys@.len() == claimed.exclusivity_keys@.len()
                &&& forall|i: int|
                    0 <= i < claimed.exclusivity_keys@.len()
                        ==> #[trigger] request.complete.exclusivity_keys@[i]@
                        == claimed.exclusivity_keys@[i]@
            }
            &&& action is FinalizeSleep ==> {
                let request = action->FinalizeSleep_0;
                &&& work.phase is FinalizingSleep
                &&& request.materialization_id@ == claimed.id@
                &&& request.lease_owner@ == config.owner@
                &&& request.attempt == lease.attempt
                &&& request.finalize.instance_id@ == work.phase->FinalizingSleep_instance.id@
                &&& request.finalize.expected_draining_generation@
                    == work.phase->FinalizingSleep_instance.generation@
                &&& request.finalize.target@ == claimed.target@
            }
        }),
{
    if action is Complete {
        let request = action->Complete_0;
        let kept = manifest::views(request.complete.exclusivity_keys@);
        let held = manifest::views(work.claimed->Some_0.exclusivity_keys@);
        assert(kept.len() == held.len());
        assert forall|i: int| 0 <= i < held.len() implies #[trigger] request.complete.exclusivity_keys@[i]@
            == work.claimed->Some_0.exclusivity_keys@[i]@ by {
            assert(kept[i] == held[i]);
        }
        assert forall|i: int| 0 <= i < work.claimed->Some_0.rendered_objects@.len() implies {
            let one = #[trigger] request.complete.rendered_objects@[i];
            let other = work.claimed->Some_0.rendered_objects@[i];
            &&& one.api_version@ == other.api_version@
            &&& one.kind@ == other.kind@
            &&& one.namespace@ == other.namespace@
            &&& one.name@ == other.name@
        } by {
            assert(super::same_object(
                request.complete.rendered_objects@[i],
                work.claimed->Some_0.rendered_objects@[i],
            ));
        }
    }
}

/// What is rendered for a wake is the instance that was found, as it runs, under the
/// projection that the materialization was accepted with.
pub proof fn law_a_wake_renders_the_instance_found(
    work: JobView,
    config: MaterializationReconcilerConfig,
    projected: InstanceRecord,
    found: InstanceRecord,
)
    requires
        work.phase == (PhaseView::Rendering { instance: found }),
        job::asks(work, config, JobAction::Render(projected)),
    ensures
        projected.id@ == found.id@,
        projected.workload_class.class_id@ == found.workload_class.class_id@,
        projected.workload_class.version@ == found.workload_class.version@,
        projected.values@ == found.values@,
        projected.state == InstanceState::Running,
        projected.generation@ == work.claimed->Some_0.projection_generation@,
{
}

/// In every phase a job asks for the one thing that the phase is there for.
pub proof fn law_every_phase_asks_for_its_own(
    work: JobView,
    config: MaterializationReconcilerConfig,
    action: JobAction,
)
    requires
        job::asks(work, config, action),
    ensures
        work.phase is Applying <==> action is Apply,
        work.phase is AwaitingReadiness <==> action is AwaitReadiness,
        work.phase is Inspecting <==> action is Inspect,
        work.phase is Removing || work.phase is SleepRemoving <==> action is Remove,
        work.phase is Completing <==> action is Complete,
        work.phase is MarkingDeleted <==> action is MarkDeleted,
        work.phase is FinalizingSleep <==> action is FinalizeSleep,
        work.phase is RecordingFailure <==> action is RecordFailure,
        work.phase is Releasing <==> action is Release,
        work.phase is Ended <==> action is Nothing,
        work.phase is Claiming <==> action is Claim,
        work.phase is Rendering <==> action is Render,
{
}

/// A failure that is kept is kept for the materialization it happened to, by who holds its
/// lease, and says whether another attempt would help.
pub proof fn law_a_failure_is_kept_where_it_happened(
    request: RecordMaterializationFailure,
    materialization: MaterializationRecord,
    lease: MaterializationReconciliationLease,
    owner: Seq<char>,
    error: MaterializationReconcileError,
    source: Seq<char>,
)
    requires
        super::records_failure(request, materialization, owner, error, source),
        materialization.reconciliation_lease == Some(lease),
    ensures
        request.materialization_id@ == materialization.id@,
        request.owner@ == owner,
        request.attempt == lease.attempt,
        request.generation@ == materialization.instance_generation@,
        request.expected_state == materialization.state,
        request.permanent <==> super::reconcile_permanent(error),
        error is Render ==> request.message@ == "render: "@ + error->Render_0@,
        error is Store ==> request.message@ == "store: "@ + source,
        error is Materializer ==> request.message@ == "materializer: "@ + source,
        error is Projection ==> request.message@ == "projection: "@ + source,
{
}

/// Two lists of objects are the same exactly where they name the same objects in the same
/// order.
pub proof fn law_objects_are_the_same_by_name(
    left: Seq<RenderedObjectRef>,
    right: Seq<RenderedObjectRef>,
)
    ensures
        super::same_objects(left, right) <==> left.len() == right.len() && forall|i: int|
            #![trigger left[i]]
            0 <= i < left.len() ==> left[i].api_version@ == right[i].api_version@
                && left[i].kind@ == right[i].kind@ && left[i].namespace@ == right[i].namespace@
                && left[i].name@ == right[i].name@,
{
    if super::same_objects(left, right) {
        assert forall|i: int| #![trigger left[i]] 0 <= i < left.len() implies left[i].api_version@
            == right[i].api_version@ && left[i].kind@ == right[i].kind@ && left[i].namespace@
            == right[i].namespace@ && left[i].name@ == right[i].name@ by {
            assert(super::same_object(left[i], right[i]));
        }
    }
}

// ---------------------------------------------------------------------------
// Jobs and scans
// ---------------------------------------------------------------------------
/// There is always room for two jobs, and for as many as were asked for.
pub proof fn law_there_is_room_for_two_jobs(concurrency_limit: nat)
    ensures
        super::capacity_of(concurrency_limit) >= 2,
        concurrency_limit >= 2 ==> super::capacity_of(concurrency_limit) == concurrency_limit,
        concurrency_limit < 2 ==> super::capacity_of(concurrency_limit) == 2,
        run::begun(concurrency_limit).capacity == super::capacity_of(concurrency_limit),
        run::begun(concurrency_limit).jobs.len() == 0,
        run::begun(concurrency_limit).outcome is None,
{
}

/// While there is room for everything that a scan found, everything is started, in the
/// order in which it was found.
pub proof fn law_a_scan_starts_everything_that_fits(
    jobs: super::JobsView,
    capacity: nat,
    candidates: Seq<MaterializationRecord>,
    count: nat,
)
    requires
        count <= candidates.len(),
        candidates.len() <= usize::MAX,
        jobs.len() + count < capacity,
        forall|i: int, j: int|
            #![trigger candidates[i], candidates[j]]
            0 <= i < j < count ==> candidates[i].id@ != candidates[j].id@,
        forall|i: int, j: int|
            #![trigger jobs[i], candidates[j]]
            0 <= i < jobs.len() && 0 <= j < count ==> jobs[i].0 != candidates[j].id@,
    ensures
        run::places_started(jobs, capacity, candidates, count).len() == count,
        forall|i: int|
            0 <= i < count ==> #[trigger] run::places_started(jobs, capacity, candidates, count)[i]
                == i,
        run::jobs_after(jobs, capacity, candidates, count).len() == jobs.len() + count,
        forall|i: int|
            0 <= i < jobs.len() ==> #[trigger] run::jobs_after(jobs, capacity, candidates, count)[i]
                == jobs[i],
        forall|i: int|
            jobs.len() <= i < jobs.len() + count ==> #[trigger] run::jobs_after(
                jobs,
                capacity,
                candidates,
                count,
            )[i] == (candidates[i - jobs.len()].id@, candidates[i - jobs.len()].state),
    decreases count,
{
    if count > 0 {
        law_a_scan_starts_everything_that_fits(jobs, capacity, candidates, (count - 1) as nat);
        let before = run::jobs_after(jobs, capacity, candidates, (count - 1) as nat);
        let candidate = candidates[count - 1];
        assert forall|i: int| 0 <= i < before.len() implies (#[trigger] before[i]).0
            != candidate.id@ by {
            if i < jobs.len() {
                assert(before[i] == jobs[i]);
            } else {
                assert(before[i].0 == candidates[i - jobs.len()].id@);
            }
        }
        law_free_places_are_used(before, capacity, candidate.id@, candidate.state);
    }
}

/// A scan that was answered clears the failures before it; one that was not counts, and
/// the fifth in a row ends the run with what was wrong.
pub proof fn law_scans_are_counted(
    run: RunView,
    candidates: Seq<MaterializationRecord>,
    error: StoreErrorView,
)
    requires
        run.outcome is None,
        run.scan_failures < 5,
    ensures
        run::scan_found(run, candidates).scan_failures == 0,
        run::scan_found(run, candidates).outcome is None,
        run::scan_missed(run, error).scan_failures == run.scan_failures + 1,
        run::scan_missed(run, error).jobs == run.jobs,
        run.scan_failures + 1 < 5 ==> run::scan_missed(run, error).outcome is None,
        run.scan_failures + 1 == 5 ==> run::scan_missed(run, error).outcome == Some(
            Err::<(), StoreErrorView>(error),
        ),
{
}

/// What happens to a run ends it or not as it should: being told to shut down ends it well,
/// work that is lost or deletions that fail end it with what was wrong, and a job that
/// comes to its end ends nothing but itself.
pub proof fn law_a_run_ends_for_a_reason(
    run: RunView,
    id: Seq<char>,
    failure: Seq<char>,
    error: StoreErrorView,
)
    requires
        run.outcome is None,
    ensures
        run::run_after(run, RunEvent::ShutDown).outcome == Some(Ok::<(), StoreErrorView>(())),
        run::run_after(run, RunEvent::ShutDown).jobs == run.jobs,
        run::run_after(run, RunEvent::JobEnded { id }).outcome is None,
        run::run_after(run, RunEvent::JobLost { id, failure }).outcome == Some(
            Err::<(), StoreErrorView>(
                StoreErrorView::Unavailable { message: "reconciliation task failed: "@ + failure },
            ),
        ),
        run::run_after(run, RunEvent::DeletionsFailed { error }).outcome == Some(
            Err::<(), StoreErrorView>(error),
        ),
        run::run_after(run, RunEvent::CutOff) == run,
{
}

/// Once a run has ended and its last job with it, it says how it ended: with what ended it
/// if that was an error, and else well exactly where no job was lost or cut off.
pub proof fn law_a_run_says_how_it_ended(run: RunView)
    ensures
        run::run_verdict(run) is Some <==> run.jobs.len() == 0 && run.outcome is Some,
        run::run_verdict(run) is Some && run.outcome->Some_0 is Err ==> run::run_verdict(run)
            == run.outcome,
        run::run_verdict(run) is Some && run.outcome->Some_0 is Ok ==> (
        run::run_verdict(run)->Some_0 is Ok <==> !run.cut_off && run.lost is None),
        run::run_verdict(run) is Some && run.outcome->Some_0 is Ok && !run.cut_off && run.lost
            is Some ==> run::run_verdict(run)->Some_0->Err_0 == (StoreErrorView::Unavailable {
            message: run.lost->Some_0,
        }),
{
}

/// A manifest that cannot be rendered is told as that, with the sentence of what is wrong,
/// and one that can is handed on.
pub proof fn law_a_rendering_is_told(outcome: manifest::Outcome<RenderedManifestView>)
    ensures
        outcome is Ok ==> current::told(outcome) == Ok::<RenderedManifestView, ReconcileErrorView>(
            outcome->Ok_0,
        ),
        outcome is Err ==> current::told(outcome) == Err::<RenderedManifestView, ReconcileErrorView>(
            ReconcileErrorView::Render(manifest::render_error_text(outcome->Err_0)),
        ),
{
}

/// A materialization that was not given to a job ends it; one that was given to a process
/// that ends goes back.
pub proof fn law_an_ungranted_claim_ends_the_job(
    candidate: MaterializationRecord,
    claimed: MaterializationRecord,
    lost: StoreError,
    cancelled: bool,
)
    ensures
        ({
            let begun = job::beginning(candidate);
            let none = job::next(begun, JobEvent::Claim { claimed: Ok(None), cancelled });
            let failed = job::next(begun, JobEvent::Claim { claimed: Err(lost), cancelled });
            let late = job::next(
                begun,
                JobEvent::Claim { claimed: Ok(Some(claimed)), cancelled: true },
            );
            &&& none.phase == PhaseView::Ended && none.claimed is None
            &&& failed.phase == PhaseView::Ended && failed.claimed is None
            &&& late.phase == PhaseView::Releasing && late.claimed == Some(claimed)
        }),
{
}

/// Work for which no time is left has missed its deadline, and says so.
pub proof fn law_no_time_left_is_a_missed_deadline(
    work: JobView,
    status: Option<MaterializationWorkStatus>,
    elapsed: crate::duration::Duration,
    lost: StoreError,
)
    requires
        work.phase is Budgeting,
        work.interrupted is None,
        super::budget_outcome(status, elapsed@) is Ok,
        super::budget_outcome(status, elapsed@)->Ok_0 == 0,
    ensures
        job::next(work, JobEvent::Status { status: Ok(status), request_elapsed: elapsed }).phase
            == (PhaseView::RecordingFailure { error: ReconcileErrorView::Deadline }),
        job::next(work, JobEvent::Status { status: Err(lost), request_elapsed: elapsed }).phase
            == (PhaseView::RecordingFailure { error: ReconcileErrorView::Store(lost@) }),
{
}

/// An instance that is there in its revision but does not wait is not woken: that is kept as
/// a failure.
pub proof fn law_only_a_waiting_instance_is_woken(wake: JobView, instance: InstanceRecord)
    requires
        wake.phase is WakeLoading,
        wake.interrupted is None,
        instance.generation@ == wake.claimed->Some_0.instance_generation@,
        instance.state != InstanceState::Waking,
        instance.state != InstanceState::Deleting,
        instance.state != InstanceState::Deleted,
    ensures
        ({
            let next = job::next(wake, JobEvent::Instance(Ok(Some(instance)))).phase;
            &&& next is RecordingFailure
            &&& next->error is Store
            &&& next->error->Store_0 is InvalidArgument
        }),
{
}

/// Objects other than those that were accepted are not applied: that is kept as a failure,
/// and so is a manifest that does not render.
pub proof fn law_only_accepted_objects_are_applied(
    wake: JobView,
    desired: Vec<RenderedObjectRef>,
    error: MaterializationReconcileError,
)
    requires
        wake.phase is Rendering,
        wake.interrupted is None,
    ensures
        job::next(wake, JobEvent::Rendered(Ok(desired))).phase == PhaseView::Applying
            <==> super::same_objects(desired@, wake.claimed->Some_0.rendered_objects@),
        !super::same_objects(desired@, wake.claimed->Some_0.rendered_objects@) ==> job::next(
            wake,
            JobEvent::Rendered(Ok(desired)),
        ).phase == (PhaseView::RecordingFailure { error: ReconcileErrorView::StaleDesiredRefs }),
        error is Render ==> job::next(wake, JobEvent::Rendered(Err(error))).phase == (
        PhaseView::RecordingFailure { error: error@ }),
{
}

/// Work that was interrupted comes to nothing else, whatever its last step came to.
pub proof fn law_interrupted_work_comes_to_its_interruption(
    work: JobView,
    interruption: job::Interruption,
    committed: Result<(), StoreError>,
    error: ProjectionError,
)
    requires
        work.interrupted == Some(interruption),
    ensures
        ({
            let end = match interruption {
                job::Interruption::Deadline => PhaseView::RecordingFailure {
                    error: ReconcileErrorView::Deadline,
                },
                job::Interruption::Cancelled => PhaseView::Releasing,
                job::Interruption::LeaseLost => PhaseView::Releasing,
            };
            &&& work.phase is Completing || work.phase is MarkingDeleted || work.phase
                is FinalizingSleep ==> job::next(work, JobEvent::Committed(committed)).phase == end
            &&& work.phase is Applying ==> job::next(work, JobEvent::Applied(Err(error))).phase
                == end
            &&& work.phase is Removing || work.phase is SleepRemoving ==> job::next(
                work,
                JobEvent::Removed(Err(error)),
            ).phase == end
        }),
{
}

/// What does not concern a phase changes nothing about the job.
pub proof fn law_a_job_waits_for_what_it_asked(work: JobView, backend: BackendEndpoint)
    requires
        work.phase !is AwaitingReadiness,
    ensures
        job::next(work, JobEvent::Ready(Ok(backend))) == work,
        work.phase !is Releasing ==> job::next(work, JobEvent::Released) == work,
        work.interrupted is None ==> job::next(work, JobEvent::DrainTimedOut) == work,
{
}

/// Subscribers are told of a wake or a sleep that the store has taken, and of nothing else.
pub proof fn law_subscribers_are_told_of_what_was_taken(phase: PhaseView, event: JobEvent)
    ensures
        job::tells_subscribers(phase, event) <==> (phase is Completing || phase is FinalizingSleep)
            && event is Committed && event->Committed_0 is Ok,
{
}

/// Owners are told apart by a hash of their names that every process agrees on: it begins
/// with a number that is fixed, and each byte is mixed in and multiplied through.
pub proof fn law_owners_are_hashed_byte_by_byte(bytes: Seq<u8>, byte: u8)
    ensures
        super::hash_of(Seq::empty(), 0) == 0xcbf2_9ce4_8422_2325u64,
        super::hash_of(bytes.push(byte), bytes.len() + 1) == (((super::hash_of(bytes, bytes.len())
            ^ (byte as u64)) as nat * 0x100_0000_01b3) % 0x1_0000_0000_0000_0000) as u64,
{
    lemma_same_hash(bytes, bytes.push(byte), bytes.len());
}

proof fn lemma_same_hash(left: Seq<u8>, right: Seq<u8>, count: nat)
    requires
        count <= left.len(),
        count <= right.len(),
        forall|i: int| 0 <= i < count ==> left[i] == #[trigger] right[i],
    ensures
        super::hash_of(left, count) == super::hash_of(right, count),
    decreases count,
{
    if count > 0 {
        lemma_same_hash(left, right, (count - 1) as nat);
        assert(left[count - 1] == right[count - 1]);
    }
}

/// What is asked to be rendered for an instance is its class as it is now, for the instance
/// as it was found, in the namespace it is accepted for.
pub proof fn law_a_rendering_is_of_the_current_class(
    request: manifest::RenderManifestRequest<'_>,
    class: current::CurrentClass,
    sleep_policy: ResolvedSleepPolicy,
    instance: InstanceRecord,
    materialization: MaterializationRecord,
)
    requires
        current::rendered_request(request, class, sleep_policy, instance, materialization),
    ensures
        *request.template == class.template,
        *request.instance == instance,
        request.sleep_policy == sleep_policy,
        request.namespace@ == materialization.target@.namespace,
        request.template_generation == Some(class.template_generation),
{
}

/// A lease is renewed three times in its life, and never more often than every millisecond.
pub proof fn law_a_lease_is_renewed_in_time(lease_ttl: nat)
    ensures
        super::heartbeat_of(lease_ttl) >= 1_000_000,
        lease_ttl >= 3_000_000 ==> 3 * super::heartbeat_of(lease_ttl) <= lease_ttl < 3
            * super::heartbeat_of(lease_ttl) + 3,
        lease_ttl < 3_000_000 ==> super::heartbeat_of(lease_ttl) == 1_000_000,
{
}

/// Work is looked for no more often than the interval says and than every ten milliseconds,
/// and the jitter of an owner adds no more than a fifth.
pub proof fn law_work_is_looked_for_in_time(interval: nat, hash: u64)
    requires
        interval / 5 == 0 || super::jitter_millis(interval) > 0,
    ensures
        super::scan_interval(interval, hash) >= interval,
        super::scan_interval(interval, hash) >= 10_000_000,
        interval >= 10_000_000 ==> super::scan_interval(interval, hash) <= interval + interval / 5,
        interval < 5 ==> super::scan_interval(interval, hash) == 10_000_000,
{
    super::law_jitter_is_small(interval, hash);
}

/// Failed scans are counted until one succeeds, and the fifth in a row is one too many.
pub proof fn law_failed_scans_are_counted(failures: u32, succeeded: bool)
    ensures
        succeeded ==> super::scans_counted(failures, succeeded) == (0u32, false),
        !succeeded && failures < u32::MAX ==> super::scans_counted(failures, succeeded).0
            == failures + 1,
        !succeeded ==> (super::scans_counted(failures, succeeded).1 <==> failures + 1 >= 5),
{
}

/// What waits is woken, what goes is deleted, and nothing else is worked on; and a job
/// begins with just that.
pub proof fn law_every_state_asks_for_its_work(state: MaterializationState)
    ensures
        super::work_of(state) == WorkKind::Wake <==> state == MaterializationState::Pending,
        super::work_of(state) == WorkKind::Delete <==> state == MaterializationState::Deleting,
        job::first_phase(state) is WakeLoading <==> super::work_of(state) == WorkKind::Wake,
        job::first_phase(state) is SleepRemoving <==> super::work_of(state) == WorkKind::Delete,
        job::first_phase(state) is Ended <==> super::work_of(state) == WorkKind::Nothing,
{
}

} // verus!
