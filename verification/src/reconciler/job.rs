//! One job of the reconciler: the claim of a materialization, the work on it under
//! the lease, and what becomes of the lease.
//!
//! The job decides; whoever runs it performs what it asks for and tells it what
//! came of it.

use super::{
    after_renewal, complete_wake_request, delete_request, deleting_step, finalize_sleep_request,
    not_waking, operation_budget, pending_step, projected_instance, release_request,
    releases_after_failure, renew_request, validate_desired_refs, work_for, DeletingStep,
    MaterializationReconcileError, MaterializationReconcilerConfig, PendingStep, ProjectionError,
    ProjectionErrorView, ReconcileErrorView, WorkKind,
};
use crate::backend::BackendEndpoint;
use crate::duration::Duration;
use crate::ids::{InstanceId, MaterializationId};
use crate::instance::{InstanceRecord, InstanceState};
use crate::manifest;
use crate::materialization::{
    ClaimMaterializationReconciliationRequest, CompleteWakeReconciliationRequest,
    DeleteMaterializationReconciliationRequest, FinalizeSleepReconciliationRequest,
    MaterializationRecord, MaterializationState, ReleaseMaterializationReconciliationLeaseRequest,
    RenderedObjectRef, RenewMaterializationReconciliationLeaseRequest,
};
use crate::projection::ProjectionObservationState;
use crate::runtime_work::MaterializationWorkStatus;
use crate::store::{StoreError, StoreErrorView};
use crate::target::MaterializationTarget;
use vstd::prelude::*;

verus! {

/// Where a job stands.
#[derive(Clone, Debug, PartialEq, Eq)]
pub enum Phase {
    /// The lease is asked for.
    Claiming,
    /// The lease is held on to before the work begins.
    Renewing,
    /// It is asked how much time there is.
    Budgeting,
    /// A wake: the instance is looked at.
    WakeLoading,
    /// A wake: the objects are rendered.
    Rendering { instance: InstanceRecord },
    /// A wake: the objects are applied.
    Applying,
    /// A wake: the instance comes up.
    AwaitingReadiness,
    /// A wake: the objects are looked at once more.
    Inspecting { backend: BackendEndpoint },
    /// A wake: the lease is held on to before the wake is completed.
    WakeRenewing { backend: BackendEndpoint },
    /// A wake: it is completed.
    Completing { backend: BackendEndpoint },
    /// A wake that nobody wants: the objects are removed.
    Removing,
    /// A wake that nobody wants: the lease is held on to before the end.
    RemoveRenewing,
    /// The materialization is ended.
    MarkingDeleted,
    /// A sleep: the objects are removed.
    SleepRemoving,
    /// A sleep: the lease is held on to before the end.
    SleepRenewing,
    /// A sleep: the instance is looked at.
    SleepLoading,
    /// A sleep: it is completed.
    FinalizingSleep { instance: InstanceRecord },
    /// The work failed, and the failure is kept.
    RecordingFailure { error: MaterializationReconcileError },
    /// The lease goes back.
    Releasing,
    /// Nothing is left to do.
    Ended,
}

/// The mathematical model of a [`Phase`].
pub enum PhaseView {
    Claiming,
    Renewing,
    Budgeting,
    WakeLoading,
    Rendering { instance: InstanceRecord },
    Applying,
    AwaitingReadiness,
    Inspecting { backend: BackendEndpoint },
    WakeRenewing { backend: BackendEndpoint },
    Completing { backend: BackendEndpoint },
    Removing,
    RemoveRenewing,
    MarkingDeleted,
    SleepRemoving,
    SleepRenewing,
    SleepLoading,
    FinalizingSleep { instance: InstanceRecord },
    RecordingFailure { error: ReconcileErrorView },
    Releasing,
    Ended,
}

impl View for Phase {
    type V = PhaseView;

    open spec fn view(&self) -> PhaseView {
        match *self {
            Phase::Claiming => PhaseView::Claiming,
            Phase::Renewing => PhaseView::Renewing,
            Phase::Budgeting => PhaseView::Budgeting,
            Phase::WakeLoading => PhaseView::WakeLoading,
            Phase::Rendering { instance } => PhaseView::Rendering { instance },
            Phase::Applying => PhaseView::Applying,
            Phase::AwaitingReadiness => PhaseView::AwaitingReadiness,
            Phase::Inspecting { backend } => PhaseView::Inspecting { backend },
            Phase::WakeRenewing { backend } => PhaseView::WakeRenewing { backend },
            Phase::Completing { backend } => PhaseView::Completing { backend },
            Phase::Removing => PhaseView::Removing,
            Phase::RemoveRenewing => PhaseView::RemoveRenewing,
            Phase::MarkingDeleted => PhaseView::MarkingDeleted,
            Phase::SleepRemoving => PhaseView::SleepRemoving,
            Phase::SleepRenewing => PhaseView::SleepRenewing,
            Phase::SleepLoading => PhaseView::SleepLoading,
            Phase::FinalizingSleep { instance } => PhaseView::FinalizingSleep { instance },
            Phase::RecordingFailure { error } => PhaseView::RecordingFailure { error: error@ },
            Phase::Releasing => PhaseView::Releasing,
            Phase::Ended => PhaseView::Ended,
        }
    }
}

/// What stops work before its end.
#[derive(Clone, Copy, Debug, PartialEq, Eq, Structural)]
pub enum Interruption {
    /// The process ends.
    Cancelled,
    /// The time of the operation is over.
    Deadline,
    /// The lease could not be held on to.
    LeaseLost,
}

/// What came of what a job asked for.
#[derive(Debug, PartialEq, Eq)]
pub enum JobEvent {
    /// The lease and the materialization as it was claimed, if nobody else holds
    /// it; and whether the process ends already.
    Claim { claimed: Result<Option<MaterializationRecord>, StoreError>, cancelled: bool },
    Renewal(Result<bool, StoreError>),
    Status {
        status: Result<Option<MaterializationWorkStatus>, StoreError>,
        request_elapsed: Duration,
    },
    Instance(Result<Option<InstanceRecord>, StoreError>),
    /// The objects that were rendered.
    Rendered(Result<Vec<RenderedObjectRef>, MaterializationReconcileError>),
    Applied(Result<(), ProjectionError>),
    Ready(Result<BackendEndpoint, ProjectionError>),
    Inspected(Result<Vec<ProjectionObservationState>, ProjectionError>),
    Removed(Result<(), ProjectionError>),
    /// The store has taken the end of the work, and with it the lease.
    Committed(Result<(), StoreError>),
    /// The work must come to its end.
    Interrupt(Interruption),
    /// The work did not come to its end in time.
    DrainTimedOut,
    FailureRecorded(Result<bool, StoreError>),
    Released,
}

/// The mathematical model of a [`Job`].
pub struct JobView {
    pub candidate: MaterializationRecord,
    pub claimed: Option<MaterializationRecord>,
    pub phase: PhaseView,
    pub interrupted: Option<Interruption>,
    pub budget: Option<nat>,
}

/// The work itself is going on.
pub open spec fn working(phase: PhaseView) -> bool {
    match phase {
        PhaseView::Claiming => false,
        PhaseView::Renewing => false,
        PhaseView::Budgeting => false,
        PhaseView::RecordingFailure { .. } => false,
        PhaseView::Releasing => false,
        PhaseView::Ended => false,
        _ => true,
    }
}

/// The error that an interruption is.
pub open spec fn interruption_error(interruption: Interruption) -> ReconcileErrorView {
    match interruption {
        Interruption::Cancelled => ReconcileErrorView::Cancelled,
        Interruption::Deadline => ReconcileErrorView::Deadline,
        Interruption::LeaseLost => ReconcileErrorView::LeaseLost,
    }
}

/// What follows the end of the work. Work that was interrupted counts as
/// interrupted, whatever came of it. Work that is done has used the lease up; a
/// lease that is lost, or work that was called off, leaves nothing to keep.
pub open spec fn after_work(
    interrupted: Option<Interruption>,
    result: Result<(), ReconcileErrorView>,
) -> PhaseView {
    let outcome = match interrupted {
        Some(interruption) => Err(interruption_error(interruption)),
        None => result,
    };
    match outcome {
        Ok(_) => PhaseView::Ended,
        Err(ReconcileErrorView::LeaseLost) => PhaseView::Releasing,
        Err(ReconcileErrorView::Cancelled) => PhaseView::Releasing,
        Err(error) => PhaseView::RecordingFailure { error },
    }
}

/// An error of the store ends the work.
pub open spec fn store_failed(interrupted: Option<Interruption>, error: StoreErrorView) -> PhaseView {
    after_work(interrupted, Err(ReconcileErrorView::Store(error)))
}

/// An error of the cluster ends the work.
pub open spec fn projection_failed(
    interrupted: Option<Interruption>,
    error: ProjectionErrorView,
) -> PhaseView {
    after_work(interrupted, Err(ReconcileErrorView::Projection(error)))
}

/// What follows a renewal: the work goes on only under a lease that still holds.
pub open spec fn renewed_to(
    interrupted: Option<Interruption>,
    renewed: Result<bool, StoreError>,
    onward: PhaseView,
) -> PhaseView {
    match renewed {
        Ok(true) => onward,
        Ok(false) => after_work(interrupted, Err(ReconcileErrorView::LeaseLost)),
        Err(error) => store_failed(interrupted, error@),
    }
}

/// What follows the end that the store was told.
pub open spec fn committed_to(
    interrupted: Option<Interruption>,
    committed: Result<(), StoreError>,
) -> PhaseView {
    match committed {
        Ok(_) => after_work(interrupted, Ok(())),
        Err(error) => store_failed(interrupted, error@),
    }
}

/// What the objects show when they are looked at once more: all must be there and
/// belong to the materialization, and one that belongs to another is worse than
/// one that is missing.
pub open spec fn inspection_fault(states: Seq<ProjectionObservationState>) -> Option<
    ProjectionErrorView,
> {
    if exists|i: int|
        0 <= i < states.len() && #[trigger] states[i] == ProjectionObservationState::PresentUnowned {
        Some(ProjectionErrorView::OwnershipConflict)
    } else if exists|i: int|
        0 <= i < states.len() && #[trigger] states[i] != ProjectionObservationState::PresentOwned {
        Some(ProjectionErrorView::Incomplete)
    } else {
        None
    }
}

/// The first phase of the work on a claimed materialization.
pub open spec fn first_phase(state: MaterializationState) -> PhaseView {
    match state {
        MaterializationState::Pending => PhaseView::WakeLoading,
        MaterializationState::Deleting => PhaseView::SleepRemoving,
        _ => PhaseView::Ended,
    }
}

/// The phase that follows what came of the last one. What a phase does not wait
/// for changes nothing.
pub open spec fn next_phase(job: JobView, event: JobEvent) -> PhaseView {
    let interrupted = job.interrupted;
    match (job.phase, event) {
        (PhaseView::Claiming, JobEvent::Claim { claimed, cancelled }) => match claimed {
            Ok(Some(_)) => if cancelled {
                PhaseView::Releasing
            } else {
                PhaseView::Renewing
            },
            _ => PhaseView::Ended,
        },
        (PhaseView::Renewing, JobEvent::Renewal(renewed)) => renewed_to(
            interrupted,
            renewed,
            PhaseView::Budgeting,
        ),
        (PhaseView::Budgeting, JobEvent::Status { status, request_elapsed }) => match status {
            Err(error) => store_failed(interrupted, error@),
            Ok(status) => match super::budget_outcome(status, request_elapsed@) {
                Err(error) => store_failed(interrupted, error),
                Ok(budget) => if budget == 0 {
                    after_work(interrupted, Err(ReconcileErrorView::Deadline))
                } else {
                    first_phase(job.claimed->Some_0.state)
                },
            },
        },
        (PhaseView::WakeLoading, JobEvent::Instance(found)) => match found {
            Err(error) => store_failed(interrupted, error@),
            Ok(instance) => match super::pending_step_of(
                standing_of(instance),
                job.claimed->Some_0.instance_generation@,
            ) {
                PendingStep::Remove => PhaseView::Removing,
                PendingStep::Reject => store_failed(
                    interrupted,
                    StoreErrorView::InvalidArgument {
                        message: "pending materialization is not attached to waking instance"@,
                    },
                ),
                PendingStep::Project => PhaseView::Rendering { instance: instance->Some_0 },
            },
        },
        (PhaseView::Rendering { .. }, JobEvent::Rendered(rendered)) => match rendered {
            Err(error) => after_work(interrupted, Err(error@)),
            Ok(desired) => if super::same_objects(
                desired@,
                job.claimed->Some_0.rendered_objects@,
            ) {
                PhaseView::Applying
            } else {
                after_work(interrupted, Err(ReconcileErrorView::StaleDesiredRefs))
            },
        },
        (PhaseView::Applying, JobEvent::Applied(applied)) => match applied {
            Err(error) => projection_failed(interrupted, error@),
            Ok(_) => PhaseView::AwaitingReadiness,
        },
        (PhaseView::AwaitingReadiness, JobEvent::Ready(ready)) => match ready {
            Err(error) => projection_failed(interrupted, error@),
            Ok(backend) => PhaseView::Inspecting { backend },
        },
        (PhaseView::Inspecting { backend }, JobEvent::Inspected(inspected)) => match inspected {
            Err(error) => projection_failed(interrupted, error@),
            Ok(states) => match inspection_fault(states@) {
                Some(fault) => projection_failed(interrupted, fault),
                None => PhaseView::WakeRenewing { backend },
            },
        },
        (PhaseView::WakeRenewing { backend }, JobEvent::Renewal(renewed)) => renewed_to(
            interrupted,
            renewed,
            PhaseView::Completing { backend },
        ),
        (PhaseView::Completing { .. }, JobEvent::Committed(committed)) => committed_to(
            interrupted,
            committed,
        ),
        (PhaseView::Removing, JobEvent::Removed(removed)) => match removed {
            Err(error) => projection_failed(interrupted, error@),
            Ok(_) => PhaseView::RemoveRenewing,
        },
        (PhaseView::RemoveRenewing, JobEvent::Renewal(renewed)) => renewed_to(
            interrupted,
            renewed,
            PhaseView::MarkingDeleted,
        ),
        (PhaseView::MarkingDeleted, JobEvent::Committed(committed)) => committed_to(
            interrupted,
            committed,
        ),
        (PhaseView::SleepRemoving, JobEvent::Removed(removed)) => match removed {
            Err(error) => projection_failed(interrupted, error@),
            Ok(_) => PhaseView::SleepRenewing,
        },
        (PhaseView::SleepRenewing, JobEvent::Renewal(renewed)) => renewed_to(
            interrupted,
            renewed,
            PhaseView::SleepLoading,
        ),
        (PhaseView::SleepLoading, JobEvent::Instance(found)) => match found {
            Err(error) => store_failed(interrupted, error@),
            Ok(instance) => match super::deleting_step_of(
                standing_of(instance),
                job.claimed->Some_0.instance_generation@,
            ) {
                DeletingStep::MarkDeleted => PhaseView::MarkingDeleted,
                DeletingStep::FinalizeSleep => PhaseView::FinalizingSleep {
                    instance: instance->Some_0,
                },
            },
        },
        (PhaseView::FinalizingSleep { .. }, JobEvent::Committed(committed)) => committed_to(
            interrupted,
            committed,
        ),
        (PhaseView::RecordingFailure { .. }, JobEvent::FailureRecorded(recorded)) => {
            match recorded {
                Ok(true) => PhaseView::Ended,
                _ => PhaseView::Releasing,
            }
        },
        (PhaseView::Releasing, JobEvent::Released) => PhaseView::Ended,
        (phase, JobEvent::DrainTimedOut) => if working(phase) && interrupted is Some {
            after_work(interrupted, Ok(()))
        } else {
            phase
        },
        (phase, _) => phase,
    }
}

/// The state and the revision of an instance that may be gone.
pub open spec fn standing_of(instance: Option<InstanceRecord>) -> Option<(InstanceState, u64)> {
    match instance {
        Some(instance) => Some((instance.state, instance.generation@)),
        None => None,
    }
}

/// The job that follows what came of the last phase.
pub open spec fn next(job: JobView, event: JobEvent) -> JobView {
    JobView {
        candidate: job.candidate,
        claimed: match (job.phase, event) {
            (PhaseView::Claiming, JobEvent::Claim { claimed: Ok(Some(claimed)), .. }) => Some(
                claimed,
            ),
            _ => job.claimed,
        },
        phase: next_phase(job, event),
        interrupted: match event {
            JobEvent::Interrupt(interruption) => if working(job.phase) && job.interrupted is None {
                Some(interruption)
            } else {
                job.interrupted
            },
            _ => job.interrupted,
        },
        budget: match (job.phase, event) {
            (PhaseView::Budgeting, JobEvent::Status { status: Ok(status), request_elapsed }) => {
                match super::budget_outcome(status, request_elapsed@) {
                    Ok(budget) => Some(budget),
                    Err(_) => job.budget,
                }
            },
            _ => job.budget,
        },
    }
}

/// Whether subscribers are told that the routes of the instance have changed: a
/// wake or a sleep was completed.
pub open spec fn tells_subscribers(phase: PhaseView, event: JobEvent) -> bool {
    &&& phase is Completing || phase is FinalizingSleep
    &&& event matches JobEvent::Committed(Ok(_))
}

/// A materialization that was claimed holds its lease.
pub open spec fn holds_lease(claimed: Option<MaterializationRecord>) -> bool {
    claimed is Some && claimed->Some_0.reconciliation_lease is Some
}

/// What holds of every job: what is done to a materialization is done under a
/// lease, and the work itself within a time.
pub open spec fn sound(job: JobView) -> bool {
    &&& job.phase is Claiming ==> job.claimed is None
    &&& job.phase is Claiming || job.phase is Ended || holds_lease(job.claimed)
    &&& job.claimed is Some ==> job.claimed->Some_0.reconciliation_lease is Some
    &&& working(job.phase) || job.interrupted is Some ==> job.budget is Some
    &&& working(job.phase) ==> job.budget->Some_0 > 0
}

/// What came of a claim holds a lease, if it holds a materialization.
pub open spec fn claim_holds_lease(event: JobEvent) -> bool {
    event matches JobEvent::Claim { claimed: Ok(Some(claimed)), .. }
        ==> claimed.reconciliation_lease is Some
}

/// One materialization that the reconciler works on.
#[derive(Debug, PartialEq, Eq)]
pub struct Job {
    candidate: MaterializationRecord,
    claimed: Option<MaterializationRecord>,
    phase: Phase,
    interrupted: Option<Interruption>,
    budget: Option<Duration>,
}

impl View for Job {
    type V = JobView;

    closed spec fn view(&self) -> JobView {
        JobView {
            candidate: self.candidate,
            claimed: self.claimed,
            phase: self.phase@,
            interrupted: self.interrupted,
            budget: manifest::optional_view(self.budget),
        }
    }
}

/// What a job asks for.
#[derive(Clone, Debug, PartialEq, Eq)]
pub enum JobAction {
    Claim(ClaimMaterializationReconciliationRequest),
    Renew(RenewMaterializationReconciliationLeaseRequest),
    LoadStatus(MaterializationId),
    LoadInstance(InstanceId),
    /// Render the objects of the instance as it is to run.
    Render(InstanceRecord),
    /// Apply the objects that were rendered.
    Apply,
    AwaitReadiness,
    Inspect,
    Complete(CompleteWakeReconciliationRequest),
    /// Remove the objects that the materialization was accepted with.
    Remove,
    MarkDeleted(DeleteMaterializationReconciliationRequest),
    FinalizeSleep(FinalizeSleepReconciliationRequest),
    /// Keep the failure; the request needs the sentence of the error.
    RecordFailure,
    Release(ReleaseMaterializationReconciliationLeaseRequest),
    Nothing,
}

/// What a job asks for in its phase.
pub open spec fn asks(
    job: JobView,
    config: MaterializationReconcilerConfig,
    action: JobAction,
) -> bool {
    let claimed = job.claimed->Some_0;
    match (job.phase, action) {
        (PhaseView::Claiming, JobAction::Claim(request)) => {
            &&& request.materialization_id@ == job.candidate.id@
            &&& request.owner@ == config.owner@
            &&& request.lease_ttl == config.lease_ttl
        },
        (PhaseView::Renewing, JobAction::Renew(request)) => super::renews(request, claimed, config),
        (PhaseView::Budgeting, JobAction::LoadStatus(id)) => id@ == claimed.id@,
        (PhaseView::WakeLoading, JobAction::LoadInstance(id)) => id@ == claimed.instance_id@,
        (PhaseView::Rendering { instance }, JobAction::Render(projected)) => {
            &&& projected.id@ == instance.id@
            &&& projected.workload_class.class_id@ == instance.workload_class.class_id@
            &&& projected.workload_class.version@ == instance.workload_class.version@
            &&& projected.values@ == instance.values@
            &&& projected.state == InstanceState::Running
            &&& projected.generation@ == claimed.projection_generation@
        },
        (PhaseView::Applying, JobAction::Apply) => true,
        (PhaseView::AwaitingReadiness, JobAction::AwaitReadiness) => true,
        (PhaseView::Inspecting { .. }, JobAction::Inspect) => true,
        (PhaseView::WakeRenewing { .. }, JobAction::Renew(request)) => super::renews(
            request,
            claimed,
            config,
        ),
        (PhaseView::Completing { backend }, JobAction::Complete(request)) => {
            super::completes_wake(request, claimed, config.owner@, backend)
        },
        (PhaseView::Removing, JobAction::Remove) => true,
        (PhaseView::RemoveRenewing, JobAction::Renew(request)) => super::renews(
            request,
            claimed,
            config,
        ),
        (PhaseView::MarkingDeleted, JobAction::MarkDeleted(request)) => super::deletes(
            request,
            claimed,
            config.owner@,
        ),
        (PhaseView::SleepRemoving, JobAction::Remove) => true,
        (PhaseView::SleepRenewing, JobAction::Renew(request)) => super::renews(
            request,
            claimed,
            config,
        ),
        (PhaseView::SleepLoading, JobAction::LoadInstance(id)) => id@ == claimed.instance_id@,
        (PhaseView::FinalizingSleep { instance }, JobAction::FinalizeSleep(request)) => {
            super::finalizes_sleep(request, claimed, config.owner@, instance)
        },
        (PhaseView::RecordingFailure { .. }, JobAction::RecordFailure) => true,
        (PhaseView::Releasing, JobAction::Release(request)) => super::releases(
            request,
            claimed,
            config.owner@,
        ),
        (PhaseView::Ended, JobAction::Nothing) => true,
        _ => false,
    }
}

fn interrupted_error(interruption: Interruption) -> (error: MaterializationReconcileError)
    ensures
        error@ == interruption_error(interruption),
{
    match interruption {
        Interruption::Cancelled => MaterializationReconcileError::Cancelled,
        Interruption::Deadline => MaterializationReconcileError::Deadline,
        Interruption::LeaseLost => MaterializationReconcileError::LeaseLost,
    }
}

/// The model of a result of the work.
pub open spec fn result_view(result: Result<(), MaterializationReconcileError>) -> Result<
    (),
    ReconcileErrorView,
> {
    match result {
        Ok(_) => Ok(()),
        Err(error) => Err(error@),
    }
}

fn end_work(
    interrupted: Option<Interruption>,
    result: Result<(), MaterializationReconcileError>,
) -> (phase: Phase)
    ensures
        phase@ == after_work(interrupted, result_view(result)),
{
    let outcome = match interrupted {
        Some(interruption) => Err(interrupted_error(interruption)),
        None => result,
    };
    match super::settle(&outcome) {
        super::Settlement::Done => Phase::Ended,
        super::Settlement::Release => Phase::Releasing,
        super::Settlement::RecordFailure => match outcome {
            Err(error) => Phase::RecordingFailure { error },
            Ok(_) => Phase::Ended,
        },
    }
}

fn end_with_store(interrupted: Option<Interruption>, error: StoreError) -> (phase: Phase)
    ensures
        phase@ == store_failed(interrupted, error@),
{
    end_work(interrupted, Err(MaterializationReconcileError::Store(error)))
}

fn end_with_projection(interrupted: Option<Interruption>, error: ProjectionError) -> (phase: Phase)
    ensures
        phase@ == projection_failed(interrupted, error@),
{
    end_work(interrupted, Err(MaterializationReconcileError::Projection(error)))
}

fn go_on_renewed(
    interrupted: Option<Interruption>,
    renewed: Result<bool, StoreError>,
    onward: Phase,
) -> (phase: Phase)
    ensures
        phase@ == renewed_to(interrupted, renewed, onward@),
{
    match after_renewal(renewed) {
        Ok(_) => onward,
        Err(error) => end_work(interrupted, Err(error)),
    }
}

fn end_committed(interrupted: Option<Interruption>, committed: Result<(), StoreError>) -> (phase:
    Phase)
    ensures
        phase@ == committed_to(interrupted, committed),
{
    match committed {
        Ok(_) => end_work(interrupted, Ok(())),
        Err(error) => end_with_store(interrupted, error),
    }
}

fn inspect_states(states: &Vec<ProjectionObservationState>) -> (fault: Option<ProjectionError>)
    ensures
        manifest::optional_view(fault) == inspection_fault(states@),
{
    let mut incomplete = false;
    let mut at: usize = 0;
    while at < states.len()
        invariant
            at <= states@.len(),
            forall|i: int|
                0 <= i < at ==> #[trigger] states@[i] != ProjectionObservationState::PresentUnowned,
            incomplete == exists|i: int|
                0 <= i < at && #[trigger] states@[i] != ProjectionObservationState::PresentOwned,
        decreases states@.len() - at,
    {
        if states[at] == ProjectionObservationState::PresentUnowned {
            assert(states@[at as int] == ProjectionObservationState::PresentUnowned);
            return Some(ProjectionError::OwnershipConflict);
        }
        if states[at] != ProjectionObservationState::PresentOwned {
            assert(states@[at as int] != ProjectionObservationState::PresentOwned);
            incomplete = true;
        }
        at = at + 1;
    }
    if incomplete {
        Some(ProjectionError::Incomplete)
    } else {
        None
    }
}

impl Job {
    #[verifier::type_invariant]
    spec fn under_lease(self) -> bool {
        sound(self@)
    }

    /// A job on a candidate of the target that the reconciler works for.
    pub fn begin(candidate: MaterializationRecord, target: &MaterializationTarget) -> (job: Option<
        Job,
    >)
        ensures
            match job {
                Some(job) => candidate.target@ == target@ && job@ == (JobView {
                    candidate,
                    claimed: None,
                    phase: PhaseView::Claiming,
                    interrupted: None,
                    budget: None,
                }),
                None => candidate.target@ != target@,
            },
    {
        if !candidate.target.same(target) {
            return None;
        }
        Some(
            Job { candidate, claimed: None, phase: Phase::Claiming, interrupted: None, budget: None },
        )
    }

    /// Where the job stands.
    pub fn phase(&self) -> (phase: &Phase)
        ensures
            phase@ == self@.phase,
    {
        &self.phase
    }

    /// Whether the work itself is going on, so that it can be interrupted.
    pub fn is_working(&self) -> (result: bool)
        ensures
            result == working(self@.phase),
    {
        match &self.phase {
            Phase::Claiming => false,
            Phase::Renewing => false,
            Phase::Budgeting => false,
            Phase::RecordingFailure { .. } => false,
            Phase::Releasing => false,
            Phase::Ended => false,
            _ => true,
        }
    }

    /// How much time the work has, once that is known.
    pub fn budget(&self) -> (budget: Option<Duration>)
        ensures
            manifest::optional_view(budget) == self@.budget,
    {
        self.budget
    }

    /// The materialization as it was claimed.
    pub fn claimed(&self) -> (claimed: Option<&MaterializationRecord>)
        ensures
            match claimed {
                Some(claimed) => self@.claimed == Some(*claimed)
                    && claimed.reconciliation_lease is Some,
                None => self@.claimed is None,
            },
    {
        proof {
            use_type_invariant(self);
        }
        self.claimed.as_ref()
    }

    /// Takes in what came of the last phase. The answer tells whether subscribers
    /// are told that the routes of the instance have changed.
    pub fn step(self, event: JobEvent) -> (stepped: (Job, bool))
        requires
            claim_holds_lease(event),
        ensures
            stepped.0@ == next(self@, event),
            stepped.1 == tells_subscribers(self@.phase, event),
    {
        proof {
            use_type_invariant(&self);
        }
        let interrupted = self.interrupted;
        let mut notify = false;
        let mut claimed = self.claimed;
        let mut budget = self.budget;
        let mut interruption = interrupted;
        let phase = match (self.phase, event) {
            (Phase::Claiming, JobEvent::Claim { claimed: granted, cancelled }) => match granted {
                Ok(Some(record)) => {
                    claimed = Some(record);
                    if cancelled {
                        Phase::Releasing
                    } else {
                        Phase::Renewing
                    }
                },
                _ => Phase::Ended,
            },
            (Phase::Renewing, JobEvent::Renewal(renewed)) => go_on_renewed(
                interrupted,
                renewed,
                Phase::Budgeting,
            ),
            (Phase::Budgeting, JobEvent::Status { status, request_elapsed }) => match status {
                Err(error) => end_with_store(interrupted, error),
                Ok(status) => match operation_budget(&status, request_elapsed) {
                    Err(error) => end_work(interrupted, Err(error)),
                    Ok(granted) => {
                        budget = Some(granted);
                        if granted.is_zero() {
                            end_work(interrupted, Err(MaterializationReconcileError::Deadline))
                        } else {
                            match &claimed {
                                Some(record) => match work_for(record.state) {
                                    WorkKind::Wake => Phase::WakeLoading,
                                    WorkKind::Delete => Phase::SleepRemoving,
                                    WorkKind::Nothing => Phase::Ended,
                                },
                                None => Phase::Ended,
                            }
                        }
                    },
                },
            },
            (Phase::WakeLoading, JobEvent::Instance(found)) => match found {
                Err(error) => end_with_store(interrupted, error),
                Ok(instance) => match &claimed {
                    Some(record) => match pending_step(instance.as_ref(), record) {
                        PendingStep::Remove => Phase::Removing,
                        PendingStep::Reject => end_work(interrupted, Err(not_waking())),
                        PendingStep::Project => match instance {
                            Some(instance) => Phase::Rendering { instance },
                            None => Phase::Removing,
                        },
                    },
                    None => Phase::Ended,
                },
            },
            (Phase::Rendering { instance }, JobEvent::Rendered(rendered)) => match rendered {
                Err(error) => end_work(interrupted, Err(error)),
                Ok(desired) => match &claimed {
                    Some(record) => match validate_desired_refs(
                        &desired,
                        &record.rendered_objects,
                    ) {
                        Ok(_) => Phase::Applying,
                        Err(error) => end_work(interrupted, Err(error)),
                    },
                    None => Phase::Ended,
                },
            },
            (Phase::Applying, JobEvent::Applied(applied)) => match applied {
                Err(error) => end_with_projection(interrupted, error),
                Ok(_) => Phase::AwaitingReadiness,
            },
            (Phase::AwaitingReadiness, JobEvent::Ready(ready)) => match ready {
                Err(error) => end_with_projection(interrupted, error),
                Ok(backend) => Phase::Inspecting { backend },
            },
            (Phase::Inspecting { backend }, JobEvent::Inspected(inspected)) => match inspected {
                Err(error) => end_with_projection(interrupted, error),
                Ok(states) => match inspect_states(&states) {
                    Some(fault) => end_with_projection(interrupted, fault),
                    None => Phase::WakeRenewing { backend },
                },
            },
            (Phase::WakeRenewing { backend }, JobEvent::Renewal(renewed)) => go_on_renewed(
                interrupted,
                renewed,
                Phase::Completing { backend },
            ),
            (Phase::Completing { backend }, JobEvent::Committed(committed)) => {
                notify = committed.is_ok();
                end_committed(interrupted, committed)
            },
            (Phase::Removing, JobEvent::Removed(removed)) => match removed {
                Err(error) => end_with_projection(interrupted, error),
                Ok(_) => Phase::RemoveRenewing,
            },
            (Phase::RemoveRenewing, JobEvent::Renewal(renewed)) => go_on_renewed(
                interrupted,
                renewed,
                Phase::MarkingDeleted,
            ),
            (Phase::MarkingDeleted, JobEvent::Committed(committed)) => end_committed(
                interrupted,
                committed,
            ),
            (Phase::SleepRemoving, JobEvent::Removed(removed)) => match removed {
                Err(error) => end_with_projection(interrupted, error),
                Ok(_) => Phase::SleepRenewing,
            },
            (Phase::SleepRenewing, JobEvent::Renewal(renewed)) => go_on_renewed(
                interrupted,
                renewed,
                Phase::SleepLoading,
            ),
            (Phase::SleepLoading, JobEvent::Instance(found)) => match found {
                Err(error) => end_with_store(interrupted, error),
                Ok(instance) => match &claimed {
                    Some(record) => match deleting_step(instance.as_ref(), record) {
                        DeletingStep::MarkDeleted => Phase::MarkingDeleted,
                        DeletingStep::FinalizeSleep => match instance {
                            Some(instance) => Phase::FinalizingSleep { instance },
                            None => Phase::MarkingDeleted,
                        },
                    },
                    None => Phase::Ended,
                },
            },
            (Phase::FinalizingSleep { instance }, JobEvent::Committed(committed)) => {
                notify = committed.is_ok();
                end_committed(interrupted, committed)
            },
            (Phase::RecordingFailure { error }, JobEvent::FailureRecorded(recorded)) => {
                if releases_after_failure(&recorded) {
                    Phase::Releasing
                } else {
                    Phase::Ended
                }
            },
            (Phase::Releasing, JobEvent::Released) => Phase::Ended,
            (phase, JobEvent::DrainTimedOut) => {
                if is_working(&phase) && interrupted.is_some() {
                    end_work(interrupted, Ok(()))
                } else {
                    phase
                }
            },
            (phase, JobEvent::Interrupt(cause)) => {
                if is_working(&phase) && interrupted.is_none() {
                    interruption = Some(cause);
                }
                phase
            },
            (phase, _) => phase,
        };
        (
            Job {
                candidate: self.candidate,
                claimed,
                phase,
                interrupted: interruption,
                budget,
            },
            notify,
        )
    }

    /// What the job asks for.
    pub fn action(&self, config: &MaterializationReconcilerConfig) -> (action: JobAction)
        ensures
            asks(self@, *config, action),
    {
        proof {
            use_type_invariant(self);
        }
        let record = match &self.claimed {
            Some(record) => record,
            None => {
                return match &self.phase {
                    Phase::Claiming => JobAction::Claim(
                        ClaimMaterializationReconciliationRequest::new(
                            self.candidate.id.duplicate(),
                            config.owner.as_str(),
                            config.lease_ttl,
                        ),
                    ),
                    _ => JobAction::Nothing,
                };
            },
        };
        match &self.phase {
            Phase::Claiming => JobAction::Nothing,
            Phase::Renewing => JobAction::Renew(renew_request(record, config)),
            Phase::Budgeting => JobAction::LoadStatus(record.id.duplicate()),
            Phase::WakeLoading => JobAction::LoadInstance(record.instance_id.duplicate()),
            Phase::Rendering { instance } => JobAction::Render(
                projected_instance(instance, record),
            ),
            Phase::Applying => JobAction::Apply,
            Phase::AwaitingReadiness => JobAction::AwaitReadiness,
            Phase::Inspecting { .. } => JobAction::Inspect,
            Phase::WakeRenewing { .. } => JobAction::Renew(renew_request(record, config)),
            Phase::Completing { backend } => JobAction::Complete(
                complete_wake_request(record, config.owner.as_str(), backend.duplicate()),
            ),
            Phase::Removing => JobAction::Remove,
            Phase::RemoveRenewing => JobAction::Renew(renew_request(record, config)),
            Phase::MarkingDeleted => JobAction::MarkDeleted(
                delete_request(record, config.owner.as_str()),
            ),
            Phase::SleepRemoving => JobAction::Remove,
            Phase::SleepRenewing => JobAction::Renew(renew_request(record, config)),
            Phase::SleepLoading => JobAction::LoadInstance(record.instance_id.duplicate()),
            Phase::FinalizingSleep { instance } => JobAction::FinalizeSleep(
                finalize_sleep_request(record, config.owner.as_str(), instance),
            ),
            Phase::RecordingFailure { .. } => JobAction::RecordFailure,
            Phase::Releasing => JobAction::Release(release_request(record, config.owner.as_str())),
            Phase::Ended => JobAction::Nothing,
        }
    }
}

fn is_working(phase: &Phase) -> (result: bool)
    ensures
        result == working(phase@),
{
    match phase {
        Phase::Claiming => false,
        Phase::Renewing => false,
        Phase::Budgeting => false,
        Phase::RecordingFailure { .. } => false,
        Phase::Releasing => false,
        Phase::Ended => false,
        _ => true,
    }
}

// ---------------------------------------------------------------------------
// Laws
// ---------------------------------------------------------------------------
/// Whatever comes, a job that is sound stays sound: nothing is done to a
/// materialization but under a lease, and no work is done without a limit on its
/// time.
pub proof fn law_job_stays_sound(job: JobView, event: JobEvent)
    requires
        sound(job),
        claim_holds_lease(event),
    ensures
        sound(next(job, event)),
{
}

/// An event accounts for the lease of a job: the store took the end of the work or
/// kept the failure, the lease went back, or there was no work to do.
pub open spec fn consumes_lease(job: JobView, event: JobEvent) -> bool {
    ||| (event matches JobEvent::Committed(Ok(_)))
    ||| (event matches JobEvent::FailureRecorded(Ok(true)))
    ||| event is Released
    ||| job.phase is Budgeting && first_phase(job.claimed->Some_0.state) is Ended
}

/// A lease that was granted is never forgotten. A job that holds one ends only by
/// the store taking the end of the work, by the store keeping the failure, by the
/// lease going back, or because there was no work to do.
pub proof fn law_lease_is_accounted_for(job: JobView, event: JobEvent)
    requires
        sound(job),
        job.claimed is Some,
        !(job.phase is Ended),
        next(job, event).phase is Ended,
    ensures
        consumes_lease(job, event),
{
}

/// Work that was interrupted never counts as done: what follows its end is the
/// return of the lease or the record of a failure.
pub proof fn law_interrupted_work_is_never_done(job: JobView, event: JobEvent)
    requires
        sound(job),
        working(job.phase),
        job.interrupted is Some,
    ensures
        !(next(job, event).phase is Ended),
        !working(next(job, event).phase) ==> (next(job, event).phase is Releasing || next(
            job,
            event,
        ).phase is RecordingFailure),
        next(job, event).interrupted == job.interrupted,
{
}

/// The job after all events.
pub open spec fn after_all(job: JobView, events: Seq<JobEvent>) -> JobView
    decreases events.len(),
{
    if events.len() == 0 {
        job
    } else {
        next(after_all(job, events.drop_last()), events.last())
    }
}

/// The job as it begins on a candidate.
pub open spec fn beginning(candidate: MaterializationRecord) -> JobView {
    JobView {
        candidate,
        claimed: None,
        phase: PhaseView::Claiming,
        interrupted: None,
        budget: None,
    }
}

/// Some event is a grant of the lease on a materialization.
pub open spec fn granted(events: Seq<JobEvent>, claimed: MaterializationRecord) -> bool {
    exists|i: int|
        0 <= i < events.len() && (#[trigger] events[i] matches JobEvent::Claim {
            claimed: Ok(Some(record)),
            ..
        } && record == claimed)
}

/// Some event shows the instance waking in the revision of the materialization.
pub open spec fn seen_waking(events: Seq<JobEvent>, claimed: MaterializationRecord) -> bool {
    exists|i: int|
        0 <= i < events.len() && (#[trigger] events[i] matches JobEvent::Instance(
            Ok(Some(instance)),
        ) && instance.state == InstanceState::Waking && instance.generation@
            == claimed.instance_generation@)
}

/// Some event is a rendering of the objects that the wake was accepted with.
pub open spec fn seen_rendered(events: Seq<JobEvent>, claimed: MaterializationRecord) -> bool {
    exists|i: int|
        0 <= i < events.len() && (#[trigger] events[i] matches JobEvent::Rendered(Ok(desired))
            && super::same_objects(desired@, claimed.rendered_objects@))
}

/// Some event is that the objects were applied.
pub open spec fn seen_applied(events: Seq<JobEvent>) -> bool {
    exists|i: int|
        0 <= i < events.len() && (#[trigger] events[i] matches JobEvent::Applied(Ok(_)))
}

/// Some event is that the instance is ready at a place.
pub open spec fn seen_ready(events: Seq<JobEvent>, at: BackendEndpoint) -> bool {
    exists|i: int|
        0 <= i < events.len() && (#[trigger] events[i] matches JobEvent::Ready(Ok(backend))
            && backend == at)
}

/// Some event shows every object in its place.
pub open spec fn seen_in_place(events: Seq<JobEvent>) -> bool {
    exists|i: int|
        0 <= i < events.len() && (#[trigger] events[i] matches JobEvent::Inspected(Ok(states))
            && inspection_fault(states@) is None)
}

/// Some event is that the objects were removed.
pub open spec fn seen_removed(events: Seq<JobEvent>) -> bool {
    exists|i: int|
        0 <= i < events.len() && (#[trigger] events[i] matches JobEvent::Removed(Ok(_)))
}

/// Some event shows the instance draining one revision past the materialization.
pub open spec fn seen_draining(
    events: Seq<JobEvent>,
    claimed: MaterializationRecord,
    instance: InstanceRecord,
) -> bool {
    exists|i: int|
        0 <= i < events.len() && (#[trigger] events[i] matches JobEvent::Instance(Ok(Some(found)))
            && found == instance && instance.state == InstanceState::Draining
            && instance.generation@ == crate::ids::next_generation(
            claimed.instance_generation@,
        ))
}

/// How far a wake has come.
spec fn wake_rank(phase: PhaseView) -> int {
    match phase {
        PhaseView::Rendering { .. } => 1,
        PhaseView::Applying => 2,
        PhaseView::AwaitingReadiness => 3,
        PhaseView::Inspecting { .. } => 4,
        PhaseView::WakeRenewing { .. } => 5,
        PhaseView::Completing { .. } => 6,
        _ => 0,
    }
}

spec fn backend_of(phase: PhaseView) -> Option<BackendEndpoint> {
    match phase {
        PhaseView::Inspecting { backend } => Some(backend),
        PhaseView::WakeRenewing { backend } => Some(backend),
        PhaseView::Completing { backend } => Some(backend),
        _ => None,
    }
}

/// What has been seen by the time a job has come to a phase.
spec fn earned(job: JobView, events: Seq<JobEvent>) -> bool {
    let claimed = job.claimed->Some_0;
    let rank = wake_rank(job.phase);
    &&& job.phase is Claiming ==> job.claimed is None
    &&& job.claimed is Some ==> granted(events, claimed)
    &&& (working(job.phase) || job.phase is Renewing || job.phase is Budgeting) ==> job.claimed
        is Some
    &&& rank >= 1 ==> claimed.state == MaterializationState::Pending && seen_waking(events, claimed)
    &&& job.phase is WakeLoading ==> claimed.state == MaterializationState::Pending
    &&& rank >= 2 ==> seen_rendered(events, claimed)
    &&& rank >= 3 ==> seen_applied(events)
    &&& rank >= 4 ==> seen_ready(events, backend_of(job.phase)->Some_0)
    &&& rank >= 5 ==> seen_in_place(events)
    &&& (job.phase is RemoveRenewing || job.phase is MarkingDeleted || job.phase is SleepRenewing
        || job.phase is SleepLoading || job.phase is FinalizingSleep) ==> seen_removed(events)
    &&& job.phase matches PhaseView::FinalizingSleep { instance } ==> seen_draining(
        events,
        claimed,
        instance,
    )
}

proof fn lemma_earned_step(job: JobView, events: Seq<JobEvent>, event: JobEvent)
    requires
        earned(job, events),
    ensures
        earned(next(job, event), events.push(event)),
{
    let all = events.push(event);
    assert(all[events.len() as int] == event);
    assert forall|i: int| 0 <= i < events.len() implies #[trigger] all[i] == events[i] by {}
    let claimed = job.claimed->Some_0;
    if job.claimed is Some {
        let i = choose|i: int|
            0 <= i < events.len() && (#[trigger] events[i] matches JobEvent::Claim {
                claimed: Ok(Some(record)),
                ..
            } && record == claimed);
        assert(all[i] == events[i]);
        assert(granted(all, claimed));
    }
    if wake_rank(job.phase) >= 1 {
        let i = choose|i: int|
            0 <= i < events.len() && (#[trigger] events[i] matches JobEvent::Instance(
                Ok(Some(instance)),
            ) && instance.state == InstanceState::Waking && instance.generation@
                == claimed.instance_generation@);
        assert(all[i] == events[i]);
        assert(seen_waking(all, claimed));
    }
    if wake_rank(job.phase) >= 2 {
        let i = choose|i: int|
            0 <= i < events.len() && (#[trigger] events[i] matches JobEvent::Rendered(Ok(desired))
                && super::same_objects(desired@, claimed.rendered_objects@));
        assert(all[i] == events[i]);
        assert(seen_rendered(all, claimed));
    }
    if wake_rank(job.phase) >= 3 {
        let i = choose|i: int|
            0 <= i < events.len() && (#[trigger] events[i] matches JobEvent::Applied(Ok(_)));
        assert(all[i] == events[i]);
        assert(seen_applied(all));
    }
    if wake_rank(job.phase) >= 4 {
        let backend = backend_of(job.phase)->Some_0;
        let i = choose|i: int|
            0 <= i < events.len() && (#[trigger] events[i] matches JobEvent::Ready(Ok(found))
                && found == backend);
        assert(all[i] == events[i]);
        assert(seen_ready(all, backend));
    }
    if wake_rank(job.phase) >= 5 {
        let i = choose|i: int|
            0 <= i < events.len() && (#[trigger] events[i] matches JobEvent::Inspected(Ok(states))
                && inspection_fault(states@) is None);
        assert(all[i] == events[i]);
        assert(seen_in_place(all));
    }
    if seen_removed(events) {
        let i = choose|i: int|
            0 <= i < events.len() && (#[trigger] events[i] matches JobEvent::Removed(Ok(_)));
        assert(all[i] == events[i]);
        assert(seen_removed(all));
    }
    if let PhaseView::FinalizingSleep { instance } = job.phase {
        let i = choose|i: int|
            0 <= i < events.len() && (#[trigger] events[i] matches JobEvent::Instance(
                Ok(Some(found)),
            ) && found == instance && instance.state == InstanceState::Draining
                && instance.generation@ == crate::ids::next_generation(
                claimed.instance_generation@,
            ));
        assert(all[i] == events[i]);
        assert(seen_draining(all, claimed, instance));
    }
    match event {
        JobEvent::Claim { .. } => {
            assert(next(job, event).claimed is Some ==> granted(
                all,
                next(job, event).claimed->Some_0,
            ));
        },
        JobEvent::Instance(Ok(Some(instance))) => {
            if job.phase is WakeLoading && next(job, event).phase is Rendering {
                assert(seen_waking(all, claimed));
            }
            if job.phase is SleepLoading && next(job, event).phase is FinalizingSleep {
                assert(seen_draining(all, claimed, instance));
            }
        },
        _ => {},
    }
}

proof fn lemma_earned(candidate: MaterializationRecord, events: Seq<JobEvent>)
    ensures
        earned(after_all(beginning(candidate), events), events),
    decreases events.len(),
{
    if events.len() > 0 {
        let before = events.drop_last();
        lemma_earned(candidate, before);
        lemma_earned_step(after_all(beginning(candidate), before), before, events.last());
        assert(before.push(events.last()) =~= events);
    }
}

/// A wake is completed only when it is earned: the lease was granted, the instance
/// was seen waking in the revision that was claimed, the very objects that the wake
/// was accepted with were rendered and applied, the instance came up at the place
/// that is reported, and every object was then seen in its place.
pub proof fn law_completion_is_earned(
    candidate: MaterializationRecord,
    events: Seq<JobEvent>,
    backend: BackendEndpoint,
)
    requires
        after_all(beginning(candidate), events).phase == (PhaseView::Completing { backend }),
    ensures
        ({
            let claimed = after_all(beginning(candidate), events).claimed;
            &&& claimed is Some
            &&& claimed->Some_0.state == MaterializationState::Pending
            &&& granted(events, claimed->Some_0)
            &&& seen_waking(events, claimed->Some_0)
            &&& seen_rendered(events, claimed->Some_0)
            &&& seen_applied(events)
            &&& seen_ready(events, backend)
            &&& seen_in_place(events)
        }),
{
    lemma_earned(candidate, events);
}

/// A materialization is ended, and a sleep completed, only when its objects are
/// gone; and a sleep only for an instance that was seen draining one revision past
/// the one that was claimed.
pub proof fn law_nothing_ends_before_its_objects(
    candidate: MaterializationRecord,
    events: Seq<JobEvent>,
)
    ensures
        ({
            let job = after_all(beginning(candidate), events);
            &&& job.phase is MarkingDeleted ==> seen_removed(events)
            &&& job.phase matches PhaseView::FinalizingSleep { instance } ==> seen_removed(events)
                && seen_draining(events, job.claimed->Some_0, instance)
        }),
{
    lemma_earned(candidate, events);
}

} // verus!
