//! Work on a materialization that outlives the process doing it.

use crate::duration::Duration;
use crate::ids::{Generation, MaterializationId};
use crate::materialization::{MaterializationState, RenderedObjectRef};
use vstd::prelude::*;

verus! {

/// A change of the cluster whose outcome is not known.
#[derive(Clone, Debug, PartialEq, Eq)]
pub struct UncertainMaterializationEffect {
    pub generation: Generation,
    pub owner: String,
    pub attempt: u64,
    pub effect_id: u64,
    pub operation: String,
    pub object: RenderedObjectRef,
    pub expected_uid: Option<String>,
    pub expected_resource_version: Option<String>,
    pub started_at_unix_millis: i64,
}

/// How the work on a materialization stands.
#[derive(Clone, Debug, PartialEq, Eq)]
pub struct MaterializationWorkStatus {
    pub ready_age: Option<Duration>,
    pub next_attempt_at_unix_millis: i64,
    pub operation_deadline_unix_millis: i64,
    pub operation_remaining: Option<Duration>,
    pub failure_count: u32,
    pub failure_kind: Option<String>,
    pub failure_message: String,
    pub wake_failure_message: String,
    pub uncertain_effect: Option<UncertainMaterializationEffect>,
}

impl Default for MaterializationWorkStatus {
    fn default() -> (status: MaterializationWorkStatus)
        ensures
            status.ready_age is None,
            status.next_attempt_at_unix_millis == 0,
            status.operation_deadline_unix_millis == 0,
            status.operation_remaining is None,
            status.failure_count == 0,
            status.failure_kind is None,
            status.failure_message@.len() == 0,
            status.wake_failure_message@.len() == 0,
            status.uncertain_effect is None,
    {
        MaterializationWorkStatus {
            ready_age: None,
            next_attempt_at_unix_millis: 0,
            operation_deadline_unix_millis: 0,
            operation_remaining: None,
            failure_count: 0,
            failure_kind: None,
            failure_message: String::new(),
            wake_failure_message: String::new(),
            uncertain_effect: None,
        }
    }
}

/// A failure to keep.
#[derive(Clone, Debug, PartialEq, Eq)]
pub struct RecordMaterializationFailure {
    pub expected_state: MaterializationState,
    pub materialization_id: MaterializationId,
    pub owner: String,
    pub attempt: u64,
    pub generation: Generation,
    pub permanent: bool,
    pub message: String,
}

} // verus!
