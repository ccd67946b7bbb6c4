//! Instances: one workload each, asleep or awake.

use crate::ids::{Generation, InstanceId, WorkloadClassId};
use crate::string_map::StringMap;
use vstd::prelude::*;

verus! {

/// What a tenant supplied for an instance, by field.
pub type InstanceValues = StringMap<String>;

/// The version of a workload class that an instance runs.
#[derive(Clone, Debug, PartialEq, Eq)]
pub struct WorkloadClassVersionRef {
    pub class_id: WorkloadClassId,
    pub version: Generation,
}

impl WorkloadClassVersionRef {
    /// A version of a class.
    pub fn new(class_id: WorkloadClassId, version: Generation) -> (reference: WorkloadClassVersionRef)
        ensures
            reference.class_id == class_id,
            reference.version == version,
    {
        WorkloadClassVersionRef { class_id, version }
    }
}

/// Where an instance is in its life.
#[derive(Clone, Copy, Debug, PartialEq, Eq, Structural)]
pub enum InstanceState {
    Cold,
    Waking,
    Running,
    Draining,
    Failed,
    Deleting,
    Deleted,
}

/// What the control plane keeps of an instance.
#[derive(Clone, Debug, PartialEq, Eq)]
pub struct InstanceRecord {
    pub id: InstanceId,
    pub workload_class: WorkloadClassVersionRef,
    pub values: InstanceValues,
    pub state: InstanceState,
    pub generation: Generation,
}

/// When an idle instance goes to sleep, once its class and its values have
/// decided.
#[derive(Clone, Copy, Debug, PartialEq, Eq, Structural)]
pub struct ResolvedSleepPolicy {
    pub idle_timeout_ms: u64,
    pub idle_retry_backoff_ms: u64,
    pub drain_grace_timeout_ms: u64,
}

} // verus!
