//! What is found in a cluster of the objects that belong there.

use crate::backend::BackendEndpoint;
use crate::string_map::StringMap;
use vstd::prelude::*;

verus! {

/// Which version of which object a mutation is about.
#[derive(Clone, Debug, PartialEq, Eq)]
pub struct LiveObjectIdentity {
    pub uid: String,
    pub resource_version: String,
}

/// What is found of an object.
#[derive(Clone, Debug, PartialEq, Eq)]
pub struct LiveObjectMetadata {
    pub identity: LiveObjectIdentity,
    pub labels: StringMap<String>,
    pub annotations: StringMap<String>,
    pub deleting: bool,
    pub finalizers: Vec<String>,
    pub persistent_volume_reclaim_policy: Option<String>,
}

/// An object, if it is there.
#[derive(Clone, Debug, PartialEq, Eq)]
pub enum ProjectionObjectInspection {
    Present(LiveObjectMetadata),
    Missing,
}

/// How an object stands to the materialization that it is rendered for.
#[derive(Clone, Copy, Debug, PartialEq, Eq, Structural)]
pub enum ProjectionObservationState {
    /// It is there and belongs to the materialization.
    PresentOwned,
    /// It is there and belongs to something else.
    PresentUnowned,
    /// It is not there, or on its way out.
    Missing,
}

/// Whether an instance can be used.
#[derive(Clone, Debug, PartialEq, Eq)]
pub enum ProjectionReadinessInspection {
    Ready(BackendEndpoint),
    Unready { reason: String },
    NotObserved,
}

} // verus!
