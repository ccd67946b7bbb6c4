//! What the statements about leases and changes of the cluster are given, and what
//! the counts that they answer with mean.

use super::materialization_ops::{
    self, generation_to_i64, lease_attempt, lease_ttl_millis, previous_generation,
    validate_lease_owner,
};
use crate::ids::Generation;
use crate::materialization::{
    AcknowledgeMaterializationEffectRequest, ClaimMaterializationReconciliationRequest,
    FinalizeSleepReconciliationRequest, MaterializationEffectRequest,
    ReleaseMaterializationReconciliationLeaseRequest,
    RenewMaterializationReconciliationLeaseRequest,
};
use crate::store::{self, StoreError, StoreErrorView};
use vstd::prelude::*;

verus! {

/// The stamp of a lease, as the database keeps it.
#[derive(Clone, Copy, Debug, PartialEq, Eq, Structural)]
pub struct LeaseStamp {
    pub attempt: i64,
    pub generation: i64,
}

/// The stamp of a lease, the attempt before the revision.
pub open spec fn stamp_outcome(attempt: u64, generation: u64) -> Result<LeaseStamp, StoreErrorView> {
    match materialization_ops::attempt_outcome(attempt) {
        Err(error) => Err(error),
        Ok(attempt) => match materialization_ops::signed_outcome(generation) {
            Err(error) => Err(error),
            Ok(generation) => Ok(LeaseStamp { attempt, generation }),
        },
    }
}

fn stamp(attempt: u64, generation: Generation) -> (result: Result<LeaseStamp, StoreError>)
    ensures
        store::plain_answer(result) == stamp_outcome(attempt, generation@),
{
    let attempt: i64 = lease_attempt(attempt)?;
    let generation: i64 = generation_to_i64(generation)?;
    Ok(LeaseStamp { attempt, generation })
}

/// The lifetime of a lease to claim, once its owner is known.
pub open spec fn claim_outcome(owner: Seq<char>, lease_ttl: nat) -> Result<i64, StoreErrorView> {
    match materialization_ops::owner_verdict(owner) {
        Err(error) => Err(error),
        Ok(_) => materialization_ops::lease_ttl_outcome(lease_ttl),
    }
}

/// Settles the lifetime of a lease to claim, in milliseconds of the database's
/// clock.
pub fn claim_parameters(request: &ClaimMaterializationReconciliationRequest) -> (result: Result<
    i64,
    StoreError,
>)
    ensures
        store::plain_answer(result) == claim_outcome(request.owner@, request.lease_ttl@),
{
    validate_lease_owner(request.owner.as_str())?;
    lease_ttl_millis(request.lease_ttl)
}

/// Settles the lifetime and the stamp of a lease to renew.
pub fn renew_parameters(request: &RenewMaterializationReconciliationLeaseRequest) -> (result: Result<
    (i64, LeaseStamp),
    StoreError,
>)
    ensures
        store::plain_answer(result) == (match claim_outcome(request.owner@, request.lease_ttl@) {
            Err(error) => Err::<(i64, LeaseStamp), StoreErrorView>(error),
            Ok(millis) => match stamp_outcome(request.attempt, request.instance_generation@) {
                Err(error) => Err(error),
                Ok(stamp) => Ok((millis, stamp)),
            },
        }),
{
    validate_lease_owner(request.owner.as_str())?;
    let millis: i64 = lease_ttl_millis(request.lease_ttl)?;
    let stamp = stamp(request.attempt, request.instance_generation)?;
    Ok((millis, stamp))
}

/// Settles the stamp of a lease to give back.
pub fn release_parameters(request: &ReleaseMaterializationReconciliationLeaseRequest) -> (result:
    Result<LeaseStamp, StoreError>)
    ensures
        store::plain_answer(result) == (match materialization_ops::owner_verdict(request.owner@) {
            Err(error) => Err::<LeaseStamp, StoreErrorView>(error),
            Ok(_) => stamp_outcome(request.attempt, request.instance_generation@),
        }),
{
    validate_lease_owner(request.owner.as_str())?;
    stamp(request.attempt, request.instance_generation)
}

/// Settles the revision that a materialization must carry for its sleep to end: the
/// one before the instance began to drain.
pub fn finalize_parameters(request: &FinalizeSleepReconciliationRequest) -> (result: Result<
    Generation,
    StoreError,
>)
    ensures
        store::answer(result) == (match materialization_ops::owner_verdict(request.lease_owner@) {
            Err(error) => Err::<u64, StoreErrorView>(error),
            Ok(_) => materialization_ops::previous_outcome(
                request.finalize.expected_draining_generation@,
            ),
        }),
{
    validate_lease_owner(request.lease_owner.as_str())?;
    previous_generation(request.finalize.expected_draining_generation)
}

/// The number of a change of the cluster, with the stamp it is made under.
#[derive(Clone, Copy, Debug, PartialEq, Eq, Structural)]
pub struct EffectStamp {
    pub attempt: i64,
    pub effect_id: i64,
    pub generation: i64,
}

/// The number of a change with its stamp: the attempt, then the number, then the
/// revision.
pub open spec fn effect_outcome(attempt: u64, effect_id: u64, generation: u64) -> Result<
    EffectStamp,
    StoreErrorView,
> {
    match materialization_ops::attempt_outcome(attempt) {
        Err(error) => Err(error),
        Ok(attempt) => match materialization_ops::attempt_outcome(effect_id) {
            Err(error) => Err(error),
            Ok(effect_id) => match materialization_ops::signed_outcome(generation) {
                Err(error) => Err(error),
                Ok(generation) => Ok(EffectStamp { attempt, effect_id, generation }),
            },
        },
    }
}

/// Settles the number and the stamp of a change that is known.
pub fn acknowledge_parameters(request: &AcknowledgeMaterializationEffectRequest) -> (result: Result<
    EffectStamp,
    StoreError,
>)
    ensures
        store::plain_answer(result) == effect_outcome(
            request.attempt,
            request.effect_id,
            request.instance_generation@,
        ),
{
    let attempt: i64 = lease_attempt(request.attempt)?;
    let effect_id: i64 = lease_attempt(request.effect_id)?;
    let generation: i64 = generation_to_i64(request.instance_generation)?;
    Ok(EffectStamp { attempt, effect_id, generation })
}

/// Settles the number and the stamp of a change to write down before it is sent.
pub fn effect_parameters(request: &MaterializationEffectRequest) -> (result: Result<
    EffectStamp,
    StoreError,
>)
    ensures
        store::plain_answer(result) == (match materialization_ops::owner_verdict(request.owner@) {
            Err(error) => Err::<EffectStamp, StoreErrorView>(error),
            Ok(_) => effect_outcome(
                request.attempt,
                request.effect_id,
                request.instance_generation@,
            ),
        }),
{
    validate_lease_owner(request.owner.as_str())?;
    let attempt: i64 = lease_attempt(request.attempt)?;
    let effect_id: i64 = lease_attempt(request.effect_id)?;
    let generation: i64 = generation_to_i64(request.instance_generation)?;
    Ok(EffectStamp { attempt, effect_id, generation })
}

/// Two leases that are told apart are told apart in the database too.
pub proof fn law_stamps_stay_apart(
    attempt: u64,
    generation: u64,
    other_attempt: u64,
    other_generation: u64,
)
    requires
        stamp_outcome(attempt, generation) is Ok,
        stamp_outcome(attempt, generation) == stamp_outcome(other_attempt, other_generation),
    ensures
        attempt == other_attempt,
        generation == other_generation,
{
}

} // verus!
