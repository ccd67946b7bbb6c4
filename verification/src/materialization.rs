//! Materializations: what the control plane has put into a cluster for an
//! instance, and the requests that change it.

use crate::backend::BackendEndpoint;
use crate::duration::Duration;
use crate::ids::{BackendGeneration, Generation, InstanceId, MaterializationId};
use crate::instance::InstanceRecord;
use crate::projection::LiveObjectIdentity;
use crate::target::MaterializationTarget;
use crate::workload::RenderedExclusivityKey;
use vstd::prelude::*;

verus! {

/// [`std::time::SystemTime`], carried through and never looked into.
#[verifier::external_type_specification]
#[verifier::external_body]
pub struct ExSystemTime(std::time::SystemTime);

/// Where a materialization is in its life.
#[derive(Clone, Copy, Debug, PartialEq, Eq, Hash, Structural)]
pub enum MaterializationState {
    Pending,
    Ready,
    Failed,
    Deleting,
    Deleted,
}

/// The word for a state.
pub open spec fn state_word(state: MaterializationState) -> Seq<char> {
    match state {
        MaterializationState::Pending => "pending"@,
        MaterializationState::Ready => "ready"@,
        MaterializationState::Failed => "failed"@,
        MaterializationState::Deleting => "deleting"@,
        MaterializationState::Deleted => "deleted"@,
    }
}

impl MaterializationState {
    /// The states in which work on a materialization is still to be done.
    pub fn backlog_states() -> (states: Vec<MaterializationState>)
        ensures
            states@ == seq![MaterializationState::Pending, MaterializationState::Deleting],
    {
        vec![MaterializationState::Pending, MaterializationState::Deleting]
    }

    /// The states in which a materialization holds its exclusivity keys.
    pub fn held_key_states() -> (states: Vec<MaterializationState>)
        ensures
            states@ == seq![
                MaterializationState::Pending,
                MaterializationState::Ready,
                MaterializationState::Failed,
                MaterializationState::Deleting,
            ],
    {
        vec![
            MaterializationState::Pending,
            MaterializationState::Ready,
            MaterializationState::Failed,
            MaterializationState::Deleting,
        ]
    }

    /// The word for the state.
    pub fn as_str(self) -> (word: &'static str)
        ensures
            word@ == state_word(self),
    {
        match self {
            MaterializationState::Pending => "pending",
            MaterializationState::Ready => "ready",
            MaterializationState::Failed => "failed",
            MaterializationState::Deleting => "deleting",
            MaterializationState::Deleted => "deleted",
        }
    }
}

/// No two states share a word.
pub proof fn law_state_words_differ(left: MaterializationState, right: MaterializationState)
    ensures
        state_word(left) == state_word(right) ==> left == right,
{
    reveal_strlit("pending");
    reveal_strlit("ready");
    reveal_strlit("failed");
    reveal_strlit("deleting");
    reveal_strlit("deleted");
    assert("pending"@.len() == 7);
    assert("ready"@.len() == 5);
    assert("failed"@.len() == 6);
    assert("deleting"@.len() == 8);
    assert("deleted"@.len() == 7);
    assert("pending"@[0] == 'p');
    assert("deleted"@[0] == 'd');
}

/// What tells an object in a cluster from every other.
#[derive(Clone, Debug, PartialEq, Eq)]
pub struct RenderedObjectRef {
    pub api_version: String,
    pub kind: String,
    pub namespace: String,
    pub name: String,
}

/// The exclusive right to work on a materialization for a while.
#[derive(Debug, PartialEq, Eq)]
pub struct MaterializationReconciliationLease {
    pub owner: String,
    pub expires_at: std::time::SystemTime,
    pub attempt: u64,
}

impl Clone for MaterializationReconciliationLease {
    fn clone(&self) -> (lease: MaterializationReconciliationLease)
        ensures
            lease == *self,
    {
        MaterializationReconciliationLease {
            owner: self.owner.clone(),
            expires_at: self.expires_at,
            attempt: self.attempt,
        }
    }
}

/// What the control plane keeps of a materialization.
#[derive(Clone, Debug, PartialEq, Eq)]
pub struct MaterializationRecord {
    pub id: MaterializationId,
    pub instance_id: InstanceId,
    pub instance_generation: Generation,
    /// The incarnation that owns the objects; it does not follow the revision of
    /// the instance.
    pub projection_generation: Generation,
    pub target: MaterializationTarget,
    pub state: MaterializationState,
    pub backend: Option<BackendEndpoint>,
    pub backend_generation: BackendGeneration,
    pub rendered_objects: Vec<RenderedObjectRef>,
    pub exclusivity_keys: Vec<RenderedExclusivityKey>,
    pub reconciliation_lease: Option<MaterializationReconciliationLease>,
}

/// A materialization to keep.
#[derive(Clone, Debug, PartialEq, Eq)]
pub struct RecordMaterializationRequest {
    pub instance_id: InstanceId,
    pub instance_generation: Generation,
    /// The incarnation that owns the objects; it does not follow the revision of
    /// the instance.
    pub projection_generation: Generation,
    pub target: MaterializationTarget,
    pub state: MaterializationState,
    pub backend: Option<BackendEndpoint>,
    pub backend_generation: BackendGeneration,
    pub rendered_objects: Vec<RenderedObjectRef>,
    pub exclusivity_keys: Vec<RenderedExclusivityKey>,
}

/// The immutable projection prepared before accepting a wake. The store commits
/// both the state transition and discoverable work in one transaction.
#[derive(Clone, Debug, PartialEq, Eq)]
pub struct AcceptWakeRequest {
    pub expected_generation: Generation,
    pub pending: RecordMaterializationRequest,
}

/// An instance that is ready to be used.
#[derive(Clone, Debug, PartialEq, Eq)]
pub struct CompleteWakeRequest {
    pub instance_id: InstanceId,
    pub expected_waking_generation: Generation,
    pub target: MaterializationTarget,
    pub backend: BackendEndpoint,
    pub backend_generation: BackendGeneration,
    pub rendered_objects: Vec<RenderedObjectRef>,
    pub exclusivity_keys: Vec<RenderedExclusivityKey>,
}

/// Which ready materialization to load.
#[derive(Clone, Debug, PartialEq, Eq)]
pub struct LoadReadyMaterializationRequest {
    pub instance_id: InstanceId,
    pub instance_generation: Generation,
    pub target: MaterializationTarget,
}

/// Which active materialization to load.
#[derive(Clone, Debug, PartialEq, Eq)]
pub struct LoadActiveMaterializationRequest {
    pub instance_id: InstanceId,
    pub target: MaterializationTarget,
}

/// Which materialization to load.
#[derive(Clone, Debug, PartialEq, Eq)]
pub struct LoadMaterializationRequest {
    pub materialization_id: MaterializationId,
}

/// An instance to put to sleep.
#[derive(Clone, Debug, PartialEq, Eq)]
pub struct BeginSleepRequest {
    pub instance_id: InstanceId,
    pub expected_running_generation: Generation,
    pub target: MaterializationTarget,
    pub drain_grace_timeout: Duration,
    /// Automatic idle sleep only: how long this generation must have been ready.
    /// An operator's sleep leaves this unset.
    pub minimum_ready_age: Option<Duration>,
}

/// An instance whose objects are gone.
#[derive(Clone, Debug, PartialEq, Eq)]
pub struct FinalizeSleepRequest {
    pub instance_id: InstanceId,
    pub expected_draining_generation: Generation,
    pub target: MaterializationTarget,
}

/// How many materializations to look for, and where.
#[derive(Clone, Debug, PartialEq, Eq)]
pub struct ListMaterializationReconciliationCandidatesRequest {
    pub target: Option<MaterializationTarget>,
    pub limit: usize,
}

/// How much work waits in a state.
#[derive(Clone, Debug, PartialEq, Eq)]
pub struct MaterializationBacklogOperationalMetrics {
    pub state: MaterializationState,
    pub count: u64,
    pub oldest_age: Option<Duration>,
}

/// How many keys are held in a state.
#[derive(Clone, Debug, PartialEq, Eq)]
pub struct MaterializationHeldKeysOperationalMetrics {
    pub state: MaterializationState,
    pub exclusivity_keys_held: u64,
}

/// What an operator watches.
#[derive(Clone, Debug, PartialEq, Eq)]
pub struct MaterializationOperationalMetrics {
    pub uncertain_effects: u64,
    pub blocked_failures: u64,
    pub backlog_states: Vec<MaterializationBacklogOperationalMetrics>,
    pub held_key_states: Vec<MaterializationHeldKeysOperationalMetrics>,
}

/// The longest lease a store must accept, in seconds, matching the store's other
/// timeout bounds. Anything longer outlives the process that would renew it.
pub const MAX_RECONCILIATION_LEASE_TTL: u64 = 86_400;

/// Reconciliation leases are requested as a lifetime, never as an instant. The
/// store starts every lease from its own clock so one process's offset cannot
/// lengthen or shorten the window other processes wait before reclaiming work.
#[derive(Clone, Debug, PartialEq, Eq)]
pub struct ClaimMaterializationReconciliationRequest {
    pub materialization_id: MaterializationId,
    pub owner: String,
    pub lease_ttl: Duration,
}

/// A lease to hold on to.
#[derive(Clone, Debug, PartialEq, Eq)]
pub struct RenewMaterializationReconciliationLeaseRequest {
    pub expected_state: MaterializationState,
    pub instance_generation: Generation,
    pub materialization_id: MaterializationId,
    pub owner: String,
    pub lease_ttl: Duration,
    pub attempt: u64,
}

/// A lease to give back.
#[derive(Clone, Debug, PartialEq, Eq)]
pub struct ReleaseMaterializationReconciliationLeaseRequest {
    pub instance_generation: Generation,
    pub materialization_id: MaterializationId,
    pub owner: String,
    pub attempt: u64,
}

/// A wake completed under a lease.
#[derive(Clone, Debug, PartialEq, Eq)]
pub struct CompleteWakeReconciliationRequest {
    pub materialization_id: MaterializationId,
    pub lease_owner: String,
    pub complete: CompleteWakeRequest,
    pub attempt: u64,
}

/// A sleep finished under a lease.
#[derive(Clone, Debug, PartialEq, Eq)]
pub struct FinalizeSleepReconciliationRequest {
    pub materialization_id: MaterializationId,
    pub lease_owner: String,
    pub finalize: FinalizeSleepRequest,
    pub attempt: u64,
}

/// A materialization deleted under a lease.
#[derive(Clone, Debug, PartialEq, Eq)]
pub struct DeleteMaterializationReconciliationRequest {
    pub materialization_id: MaterializationId,
    pub lease_owner: String,
    pub expected_state: MaterializationState,
    pub instance_id: InstanceId,
    pub instance_generation: Generation,
    pub target: MaterializationTarget,
    pub attempt: u64,
}

/// A materialization that an operator deletes.
#[derive(Clone, Debug, PartialEq, Eq)]
pub struct ForceDeleteMaterializationRequest {
    pub materialization_id: MaterializationId,
    pub operator: String,
    pub reason: String,
}

/// A key that an operator releases.
#[derive(Clone, Debug, PartialEq, Eq)]
pub struct ForceReleaseExclusivityKeyRequest {
    pub target: MaterializationTarget,
    pub key_name: String,
    pub key_value: String,
    pub operator: String,
    pub reason: String,
}

/// What releasing a key changed.
#[derive(Clone, Debug, PartialEq, Eq)]
pub struct ForceReleaseExclusivityKeyResult {
    pub updated_materializations: usize,
    pub affected_materializations: Vec<MaterializationRecord>,
}

/// The instance and its materialization afterwards.
#[derive(Clone, Debug, PartialEq, Eq)]
pub struct CompleteWakeResult {
    pub instance: InstanceRecord,
    pub materialization: MaterializationRecord,
}

/// The instance and its materialization afterwards.
#[derive(Clone, Debug, PartialEq, Eq)]
pub struct BeginSleepResult {
    pub instance: InstanceRecord,
    pub materialization: Option<MaterializationRecord>,
}

/// The instance and its materialization afterwards.
#[derive(Clone, Debug, PartialEq, Eq)]
pub struct FinalizeSleepResult {
    pub instance: InstanceRecord,
    pub materialization: Option<MaterializationRecord>,
}

/// One potentially dispatched mutation. This durable barrier survives lease expiry.
#[derive(Clone, Debug, PartialEq, Eq)]
pub struct MaterializationEffectRequest {
    pub effect_id: u64,
    pub materialization_id: MaterializationId,
    pub owner: String,
    pub attempt: u64,
    pub instance_generation: Generation,
    pub expected_state: MaterializationState,
    pub operation: &'static str,
    pub object: RenderedObjectRef,
    pub precondition: Option<LiveObjectIdentity>,
}

/// A mutation whose outcome is known.
#[derive(Clone, Debug, PartialEq, Eq)]
pub struct AcknowledgeMaterializationEffectRequest {
    pub instance_generation: Generation,
    pub effect_id: u64,
    pub materialization_id: MaterializationId,
    pub owner: String,
    pub attempt: u64,
}

/// The incarnation that a new materialization starts: a pending one belongs to
/// the revision that its acceptance makes.
pub open spec fn first_projection(generation: u64, state: MaterializationState) -> u64 {
    if state == MaterializationState::Pending {
        crate::ids::next_generation(generation)
    } else {
        generation
    }
}

impl RecordMaterializationRequest {
    /// A materialization without objects or keys yet.
    pub fn new(
        instance_id: InstanceId,
        instance_generation: Generation,
        target: MaterializationTarget,
        state: MaterializationState,
        backend_generation: BackendGeneration,
    ) -> (request: RecordMaterializationRequest)
        ensures
            request.instance_id == instance_id,
            request.instance_generation == instance_generation,
            request.projection_generation@ == first_projection(instance_generation@, state),
            request.target == target,
            request.state == state,
            request.backend is None,
            request.backend_generation == backend_generation,
            request.rendered_objects@.len() == 0,
            request.exclusivity_keys@.len() == 0,
    {
        RecordMaterializationRequest {
            instance_id,
            instance_generation,
            projection_generation: if state == MaterializationState::Pending {
                instance_generation.next()
            } else {
                instance_generation
            },
            target,
            state,
            backend: None,
            backend_generation,
            rendered_objects: Vec::new(),
            exclusivity_keys: Vec::new(),
        }
    }
}

impl CompleteWakeRequest {
    /// An instance that is ready at a backend.
    pub fn new(
        instance_id: InstanceId,
        expected_waking_generation: Generation,
        target: MaterializationTarget,
        backend: BackendEndpoint,
        backend_generation: BackendGeneration,
    ) -> (request: CompleteWakeRequest)
        ensures
            request.instance_id == instance_id,
            request.expected_waking_generation == expected_waking_generation,
            request.target == target,
            request.backend == backend,
            request.backend_generation == backend_generation,
            request.rendered_objects@.len() == 0,
            request.exclusivity_keys@.len() == 0,
    {
        CompleteWakeRequest {
            instance_id,
            expected_waking_generation,
            target,
            backend,
            backend_generation,
            rendered_objects: Vec::new(),
            exclusivity_keys: Vec::new(),
        }
    }
}

impl LoadReadyMaterializationRequest {
    /// The ready materialization of a revision of an instance.
    pub fn new(
        instance_id: InstanceId,
        instance_generation: Generation,
        target: MaterializationTarget,
    ) -> (request: LoadReadyMaterializationRequest)
        ensures
            request.instance_id == instance_id,
            request.instance_generation == instance_generation,
            request.target == target,
    {
        LoadReadyMaterializationRequest {
            instance_id,
            instance_generation,
            target,
        }
    }
}

impl LoadActiveMaterializationRequest {
    /// The active materialization of an instance.
    pub fn new(
        instance_id: InstanceId,
        target: MaterializationTarget,
    ) -> (request: LoadActiveMaterializationRequest)
        ensures
            request.instance_id == instance_id,
            request.target == target,
    {
        LoadActiveMaterializationRequest {
            instance_id,
            target,
        }
    }
}

impl LoadMaterializationRequest {
    /// A materialization by its identifier.
    pub fn new(
        materialization_id: MaterializationId,
    ) -> (request: LoadMaterializationRequest)
        ensures
            request.materialization_id == materialization_id,
    {
        LoadMaterializationRequest {
            materialization_id,
        }
    }
}

impl FinalizeSleepRequest {
    /// A sleep to finish.
    pub fn new(
        instance_id: InstanceId,
        expected_draining_generation: Generation,
        target: MaterializationTarget,
    ) -> (request: FinalizeSleepRequest)
        ensures
            request.instance_id == instance_id,
            request.expected_draining_generation == expected_draining_generation,
            request.target == target,
    {
        FinalizeSleepRequest {
            instance_id,
            expected_draining_generation,
            target,
        }
    }
}

impl BeginSleepRequest {
    /// A sleep that waits for nothing.
    pub fn new(
        instance_id: InstanceId,
        expected_running_generation: Generation,
        target: MaterializationTarget,
    ) -> (request: BeginSleepRequest)
        ensures
            request.instance_id == instance_id,
            request.expected_running_generation == expected_running_generation,
            request.target == target,
            request.drain_grace_timeout@ == 0,
            request.minimum_ready_age is None,
    {
        BeginSleepRequest {
            instance_id,
            expected_running_generation,
            target,
            drain_grace_timeout: Duration::zero(),
            minimum_ready_age: None,
        }
    }

    /// The same sleep with time for connections to drain.
    pub fn with_drain_grace_timeout(self, drain_grace_timeout: Duration) -> (request:
        BeginSleepRequest)
        ensures
            request == (BeginSleepRequest { drain_grace_timeout, ..self }),
    {
        let mut request = self;
        request.drain_grace_timeout = drain_grace_timeout;
        request
    }

    /// The same sleep, only if this generation has been ready for so long.
    pub fn with_minimum_ready_age(self, minimum_ready_age: Duration) -> (request:
        BeginSleepRequest)
        ensures
            request == (BeginSleepRequest {
                minimum_ready_age: Some(minimum_ready_age),
                ..self
            }),
    {
        let mut request = self;
        request.minimum_ready_age = Some(minimum_ready_age);
        request
    }
}

impl ListMaterializationReconciliationCandidatesRequest {
    /// At most so many candidates, anywhere.
    pub fn new(
        limit: usize,
    ) -> (request: ListMaterializationReconciliationCandidatesRequest)
        ensures
            request.target is None,
            request.limit == limit,
    {
        ListMaterializationReconciliationCandidatesRequest {
            target: None,
            limit,
        }
    }

    /// The same, in one target.
    pub fn for_target(self, target: MaterializationTarget) -> (request:
        ListMaterializationReconciliationCandidatesRequest)
        ensures
            request.target == Some(target),
            request.limit == self.limit,
    {
        let mut request = self;
        request.target = Some(target);
        request
    }
}

impl MaterializationOperationalMetrics {
    /// Metrics without uncertain effects or blocked failures.
    pub fn new(
        backlog_states: Vec<MaterializationBacklogOperationalMetrics>,
        held_key_states: Vec<MaterializationHeldKeysOperationalMetrics>,
    ) -> (metrics: MaterializationOperationalMetrics)
        ensures
            metrics.backlog_states == backlog_states,
            metrics.held_key_states == held_key_states,
            metrics.uncertain_effects == 0,
            metrics.blocked_failures == 0,
    {
        MaterializationOperationalMetrics {
            backlog_states,
            held_key_states,
            uncertain_effects: 0,
            blocked_failures: 0,
        }
    }
}

impl MaterializationBacklogOperationalMetrics {
    /// The backlog of a state.
    pub fn new(
        state: MaterializationState,
        count: u64,
        oldest_age: Option<Duration>,
    ) -> (metrics: MaterializationBacklogOperationalMetrics)
        ensures
            metrics.state == state,
            metrics.count == count,
            metrics.oldest_age == oldest_age,
    {
        MaterializationBacklogOperationalMetrics {
            state,
            count,
            oldest_age,
        }
    }
}

impl MaterializationHeldKeysOperationalMetrics {
    /// The keys of a state.
    pub fn new(
        state: MaterializationState,
        exclusivity_keys_held: u64,
    ) -> (metrics: MaterializationHeldKeysOperationalMetrics)
        ensures
            metrics.state == state,
            metrics.exclusivity_keys_held == exclusivity_keys_held,
    {
        MaterializationHeldKeysOperationalMetrics {
            state,
            exclusivity_keys_held,
        }
    }
}

impl ClaimMaterializationReconciliationRequest {
    /// A lease to ask for.
    pub fn new(
        materialization_id: MaterializationId,
        owner: &str,
        lease_ttl: Duration,
    ) -> (request: ClaimMaterializationReconciliationRequest)
        ensures
            request.materialization_id == materialization_id,
            request.owner@ == owner@,
            request.lease_ttl == lease_ttl,
    {
        ClaimMaterializationReconciliationRequest {
            materialization_id,
            owner: owner.to_owned(),
            lease_ttl,
        }
    }
}

impl RenewMaterializationReconciliationLeaseRequest {
    /// A lease to hold on to.
    pub fn new(
        materialization_id: MaterializationId,
        owner: &str,
        attempt: u64,
        instance_generation: Generation,
        lease_ttl: Duration,
        expected_state: MaterializationState,
    ) -> (request: RenewMaterializationReconciliationLeaseRequest)
        ensures
            request.expected_state == expected_state,
            request.instance_generation == instance_generation,
            request.attempt == attempt,
            request.materialization_id == materialization_id,
            request.owner@ == owner@,
            request.lease_ttl == lease_ttl,
    {
        RenewMaterializationReconciliationLeaseRequest {
            expected_state,
            instance_generation,
            attempt,
            materialization_id,
            owner: owner.to_owned(),
            lease_ttl,
        }
    }
}

impl ReleaseMaterializationReconciliationLeaseRequest {
    /// A lease to give back.
    pub fn new(
        materialization_id: MaterializationId,
        owner: &str,
        attempt: u64,
        instance_generation: Generation,
    ) -> (request: ReleaseMaterializationReconciliationLeaseRequest)
        ensures
            request.instance_generation == instance_generation,
            request.attempt == attempt,
            request.materialization_id == materialization_id,
            request.owner@ == owner@,
    {
        ReleaseMaterializationReconciliationLeaseRequest {
            instance_generation,
            attempt,
            materialization_id,
            owner: owner.to_owned(),
        }
    }
}

impl CompleteWakeReconciliationRequest {
    /// A wake completed under a lease.
    pub fn new(
        materialization_id: MaterializationId,
        lease_owner: &str,
        attempt: u64,
        complete: CompleteWakeRequest,
    ) -> (request: CompleteWakeReconciliationRequest)
        ensures
            request.attempt == attempt,
            request.materialization_id == materialization_id,
            request.lease_owner@ == lease_owner@,
            request.complete == complete,
    {
        CompleteWakeReconciliationRequest {
            attempt,
            materialization_id,
            lease_owner: lease_owner.to_owned(),
            complete,
        }
    }
}

impl FinalizeSleepReconciliationRequest {
    /// A sleep finished under a lease.
    pub fn new(
        materialization_id: MaterializationId,
        lease_owner: &str,
        attempt: u64,
        finalize: FinalizeSleepRequest,
    ) -> (request: FinalizeSleepReconciliationRequest)
        ensures
            request.attempt == attempt,
            request.materialization_id == materialization_id,
            request.lease_owner@ == lease_owner@,
            request.finalize == finalize,
    {
        FinalizeSleepReconciliationRequest {
            attempt,
            materialization_id,
            lease_owner: lease_owner.to_owned(),
            finalize,
        }
    }
}

impl DeleteMaterializationReconciliationRequest {
    /// A materialization deleted under a lease.
    pub fn new(
        materialization_id: MaterializationId,
        lease_owner: &str,
        attempt: u64,
        expected_state: MaterializationState,
        instance_id: InstanceId,
        instance_generation: Generation,
        target: MaterializationTarget,
    ) -> (request: DeleteMaterializationReconciliationRequest)
        ensures
            request.attempt == attempt,
            request.materialization_id == materialization_id,
            request.lease_owner@ == lease_owner@,
            request.expected_state == expected_state,
            request.instance_id == instance_id,
            request.instance_generation == instance_generation,
            request.target == target,
    {
        DeleteMaterializationReconciliationRequest {
            attempt,
            materialization_id,
            lease_owner: lease_owner.to_owned(),
            expected_state,
            instance_id,
            instance_generation,
            target,
        }
    }
}

impl ForceDeleteMaterializationRequest {
    /// A materialization that an operator deletes.
    pub fn new(
        materialization_id: MaterializationId,
        operator: &str,
        reason: &str,
    ) -> (request: ForceDeleteMaterializationRequest)
        ensures
            request.materialization_id == materialization_id,
            request.operator@ == operator@,
            request.reason@ == reason@,
    {
        ForceDeleteMaterializationRequest {
            materialization_id,
            operator: operator.to_owned(),
            reason: reason.to_owned(),
        }
    }
}

impl ForceReleaseExclusivityKeyRequest {
    /// A key that an operator releases.
    pub fn new(
        target: MaterializationTarget,
        key_name: &str,
        key_value: &str,
        operator: &str,
        reason: &str,
    ) -> (request: ForceReleaseExclusivityKeyRequest)
        ensures
            request.target == target,
            request.key_name@ == key_name@,
            request.key_value@ == key_value@,
            request.operator@ == operator@,
            request.reason@ == reason@,
    {
        ForceReleaseExclusivityKeyRequest {
            target,
            key_name: key_name.to_owned(),
            key_value: key_value.to_owned(),
            operator: operator.to_owned(),
            reason: reason.to_owned(),
        }
    }
}

} // verus!
