//! What the store answers when it cannot do what it is asked.

use crate::duration::Duration;
use crate::ids::Generation;
use crate::manifest;
use vstd::prelude::*;

verus! {

/// Why the store did not do what it was asked.
#[allow(inconsistent_fields)]
#[derive(Clone, Debug, PartialEq, Eq)]
pub enum StoreError {
    SleepDeferred { retry_after: Duration },
    InvalidArgument { message: String },
    NotFound { resource: &'static str },
    AlreadyExists { resource: &'static str },
    GenerationConflict { expected: Generation, actual: Generation },
    ExclusivityConflict {
        cluster_id: String,
        namespace: String,
        key_name: String,
        owner_instance_id: Option<String>,
        owner_generation: Option<Generation>,
    },
    LeaseConflict { message: String },
    IdempotencyResourceDeleted { resource: &'static str },
    IdempotencyConflict,
    Unavailable { message: String },
    Internal { message: String },
}

/// The mathematical model of a [`StoreError`].
#[verifier::ext_equal]
pub enum StoreErrorView {
    SleepDeferred { retry_after: nat },
    InvalidArgument { message: Seq<char> },
    NotFound { resource: Seq<char> },
    AlreadyExists { resource: Seq<char> },
    GenerationConflict { expected: u64, actual: u64 },
    ExclusivityConflict {
        cluster_id: Seq<char>,
        namespace: Seq<char>,
        key_name: Seq<char>,
        owner_instance_id: Option<Seq<char>>,
        owner_generation: Option<u64>,
    },
    LeaseConflict { message: Seq<char> },
    IdempotencyResourceDeleted { resource: Seq<char> },
    IdempotencyConflict,
    Unavailable { message: Seq<char> },
    Internal { message: Seq<char> },
}

impl View for StoreError {
    type V = StoreErrorView;

    open spec fn view(&self) -> StoreErrorView {
        match self {
            StoreError::SleepDeferred { retry_after } => StoreErrorView::SleepDeferred {
                retry_after: retry_after@,
            },
            StoreError::InvalidArgument { message } => StoreErrorView::InvalidArgument {
                message: message@,
            },
            StoreError::NotFound { resource } => StoreErrorView::NotFound {
                resource: resource@,
            },
            StoreError::AlreadyExists { resource } => StoreErrorView::AlreadyExists {
                resource: resource@,
            },
            StoreError::GenerationConflict { expected, actual } => {
                StoreErrorView::GenerationConflict { expected: expected@, actual: actual@ }
            },
            StoreError::ExclusivityConflict {
                cluster_id,
                namespace,
                key_name,
                owner_instance_id,
                owner_generation,
            } => StoreErrorView::ExclusivityConflict {
                cluster_id: cluster_id@,
                namespace: namespace@,
                key_name: key_name@,
                owner_instance_id: manifest::optional_view(*owner_instance_id),
                owner_generation: manifest::optional_view(*owner_generation),
            },
            StoreError::LeaseConflict { message } => StoreErrorView::LeaseConflict {
                message: message@,
            },
            StoreError::IdempotencyResourceDeleted { resource } => {
                StoreErrorView::IdempotencyResourceDeleted { resource: resource@ }
            },
            StoreError::IdempotencyConflict => StoreErrorView::IdempotencyConflict,
            StoreError::Unavailable { message } => StoreErrorView::Unavailable {
                message: message@,
            },
            StoreError::Internal { message } => StoreErrorView::Internal { message: message@ },
        }
    }
}

impl StoreError {
    /// The request makes no sense.
    pub fn invalid_argument(message: &str) -> (error: StoreError)
        ensures
            error@ == (StoreErrorView::InvalidArgument { message: message@ }),
    {
        StoreError::InvalidArgument { message: message.to_owned() }
    }

    /// The store cannot be reached, or cannot take more.
    pub fn unavailable(message: &str) -> (error: StoreError)
        ensures
            error@ == (StoreErrorView::Unavailable { message: message@ }),
    {
        StoreError::Unavailable { message: message.to_owned() }
    }

    /// The store holds what it should not.
    pub fn internal(message: &str) -> (error: StoreError)
        ensures
            error@ == (StoreErrorView::Internal { message: message@ }),
    {
        StoreError::Internal { message: message.to_owned() }
    }
}

/// The model of an answer whose value has none of its own.
pub open spec fn plain_answer<T>(result: Result<T, StoreError>) -> Result<T, StoreErrorView> {
    match result {
        Ok(value) => Ok(value),
        Err(error) => Err(error@),
    }
}

/// The model of an answer.
pub open spec fn answer<T: View>(result: Result<T, StoreError>) -> Result<T::V, StoreErrorView> {
    match result {
        Ok(value) => Ok(value@),
        Err(error) => Err(error@),
    }
}

} // verus!
