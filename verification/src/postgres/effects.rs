//! Changes of the cluster that are written down before they are sent: a barrier that
//! stays until it is known what came of the change.

use super::lease_parameters::{
    self, acknowledge_parameters, effect_parameters, EffectStamp,
};
use super::materialization_ops;
use crate::manifest;
use crate::materialization::{
    AcknowledgeMaterializationEffectRequest, MaterializationEffectRequest, MaterializationState,
    RenderedObjectRef,
};
use crate::store::{self, StoreError, StoreErrorView};
use crate::text::same_text;
use vstd::prelude::*;
use vstd::string::*;

verus! {

/// What is read of a materialization under whose lease a change is to be sent.
#[derive(Clone, Debug, PartialEq, Eq)]
pub struct EffectLease {
    pub owner: Option<String>,
    pub attempt: i64,
    pub instance_generation: i64,
    pub state: MaterializationState,
    pub expires_at: Option<i64>,
    /// The clock of the database.
    pub now: i64,
}

/// A change that was written down for a materialization. There is at most one.
#[derive(Clone, Debug, PartialEq, Eq)]
pub struct EffectRecord {
    pub lease_owner: String,
    pub lease_attempt: i64,
    pub instance_generation: i64,
    pub operation: String,
    pub object: RenderedObjectRef,
    pub expected_uid: Option<String>,
    pub expected_resource_version: Option<String>,
    pub effect_id: i64,
}

/// The mathematical model of an [`EffectRecord`].
#[verifier::ext_equal]
pub struct EffectView {
    pub lease_owner: Seq<char>,
    pub lease_attempt: i64,
    pub instance_generation: i64,
    pub operation: Seq<char>,
    pub api_version: Seq<char>,
    pub kind: Seq<char>,
    pub namespace: Seq<char>,
    pub name: Seq<char>,
    pub expected_uid: Option<Seq<char>>,
    pub expected_resource_version: Option<Seq<char>>,
    pub effect_id: i64,
}

impl View for EffectRecord {
    type V = EffectView;

    open spec fn view(&self) -> EffectView {
        EffectView {
            lease_owner: self.lease_owner@,
            lease_attempt: self.lease_attempt,
            instance_generation: self.instance_generation,
            operation: self.operation@,
            api_version: self.object.api_version@,
            kind: self.object.kind@,
            namespace: self.object.namespace@,
            name: self.object.name@,
            expected_uid: manifest::optional_view(self.expected_uid),
            expected_resource_version: manifest::optional_view(self.expected_resource_version),
            effect_id: self.effect_id,
        }
    }
}

/// The change that a request is about, as it is written down.
pub open spec fn effect_of(request: MaterializationEffectRequest, stamp: EffectStamp) -> EffectView {
    EffectView {
        lease_owner: request.owner@,
        lease_attempt: stamp.attempt,
        instance_generation: stamp.generation,
        operation: request.operation@,
        api_version: request.object.api_version@,
        kind: request.object.kind@,
        namespace: request.object.namespace@,
        name: request.object.name@,
        expected_uid: match request.precondition {
            Some(identity) => Some(identity.uid@),
            None => None,
        },
        expected_resource_version: match request.precondition {
            Some(identity) => Some(identity.resource_version@),
            None => None,
        },
        effect_id: stamp.effect_id,
    }
}

/// The lease of a request is held: the materialization is there in the state and
/// the revision that the request names, under the lease of its owner and its very
/// attempt, which has not run out.
pub open spec fn lease_held(
    lease: Option<EffectLease>,
    request: MaterializationEffectRequest,
    stamp: EffectStamp,
) -> bool {
    match lease {
        None => false,
        Some(lease) => {
            &&& manifest::optional_view(lease.owner) == Some(request.owner@)
            &&& lease.attempt == stamp.attempt
            &&& lease.instance_generation == stamp.generation
            &&& lease.state == request.expected_state
            &&& lease.expires_at matches Some(expires_at) && expires_at > lease.now
        },
    }
}

/// The number and the stamp of a change, once its owner is known.
pub open spec fn effect_stamp(request: MaterializationEffectRequest) -> Result<
    EffectStamp,
    StoreErrorView,
> {
    match materialization_ops::owner_verdict(request.owner@) {
        Err(error) => Err(error),
        Ok(_) => lease_parameters::effect_outcome(
            request.attempt,
            request.effect_id,
            request.instance_generation@,
        ),
    }
}

/// Whether a change may be sent, and the change that is written down afterwards. It
/// may be sent under a lease that is held, where no other change is written down.
pub open spec fn begin_outcome(
    request: MaterializationEffectRequest,
    lease: Option<EffectLease>,
    recorded: Option<EffectView>,
) -> Result<(bool, Option<EffectView>), StoreErrorView> {
    match effect_stamp(request) {
        Err(error) => Err(error),
        Ok(stamp) => if !lease_held(lease, request, stamp) {
            Ok((false, recorded))
        } else {
            match recorded {
                None => Ok((true, Some(effect_of(request, stamp)))),
                Some(other) => Ok((other == effect_of(request, stamp), recorded)),
            }
        },
    }
}

/// What is done with a change that is to be sent.
#[derive(Clone, Debug, PartialEq, Eq)]
pub enum EffectStep {
    /// It may not be sent.
    Refused,
    /// It may be sent; it is written down already.
    Begun,
    /// It may be sent once this is written down.
    Write(EffectRecord),
}

/// A change may be sent, and what is written down afterwards.
pub open spec fn step_view(step: EffectStep, recorded: Option<EffectView>) -> (
    bool,
    Option<EffectView>,
) {
    match step {
        EffectStep::Refused => (false, recorded),
        EffectStep::Begun => (true, recorded),
        EffectStep::Write(record) => (true, Some(record@)),
    }
}

fn same_optional(left: &Option<String>, right: &Option<String>) -> (same: bool)
    ensures
        same == (manifest::optional_view(*left) == manifest::optional_view(*right)),
{
    match (left, right) {
        (Some(left), Some(right)) => same_text(left.as_str(), right.as_str()),
        (None, None) => true,
        _ => false,
    }
}

fn same_effect(left: &EffectRecord, right: &EffectRecord) -> (same: bool)
    ensures
        same == (left@ == right@),
{
    same_text(left.lease_owner.as_str(), right.lease_owner.as_str()) && left.lease_attempt
        == right.lease_attempt && left.instance_generation == right.instance_generation
        && same_text(left.operation.as_str(), right.operation.as_str()) && same_text(
        left.object.api_version.as_str(),
        right.object.api_version.as_str(),
    ) && same_text(left.object.kind.as_str(), right.object.kind.as_str()) && same_text(
        left.object.namespace.as_str(),
        right.object.namespace.as_str(),
    ) && same_text(left.object.name.as_str(), right.object.name.as_str()) && same_optional(
        &left.expected_uid,
        &right.expected_uid,
    ) && same_optional(&left.expected_resource_version, &right.expected_resource_version)
        && left.effect_id == right.effect_id
}

fn holds_lease(
    lease: &Option<EffectLease>,
    request: &MaterializationEffectRequest,
    stamp: EffectStamp,
) -> (held: bool)
    ensures
        held == lease_held(*lease, *request, stamp),
{
    match lease {
        None => false,
        Some(lease) => {
            let owned = match &lease.owner {
                Some(owner) => same_text(owner.as_str(), request.owner.as_str()),
                None => false,
            };
            let live = match lease.expires_at {
                Some(expires_at) => expires_at > lease.now,
                None => false,
            };
            owned && lease.attempt == stamp.attempt && lease.instance_generation
                == stamp.generation && lease.state == request.expected_state && live
        },
    }
}

fn record_of(request: &MaterializationEffectRequest, stamp: EffectStamp) -> (record: EffectRecord)
    ensures
        record@ == effect_of(*request, stamp),
{
    let (expected_uid, expected_resource_version) = match &request.precondition {
        Some(identity) => (
            Some(identity.uid.as_str().to_owned()),
            Some(identity.resource_version.as_str().to_owned()),
        ),
        None => (None, None),
    };
    EffectRecord {
        lease_owner: request.owner.as_str().to_owned(),
        lease_attempt: stamp.attempt,
        instance_generation: stamp.generation,
        operation: request.operation.to_owned(),
        object: RenderedObjectRef {
            api_version: request.object.api_version.as_str().to_owned(),
            kind: request.object.kind.as_str().to_owned(),
            namespace: request.object.namespace.as_str().to_owned(),
            name: request.object.name.as_str().to_owned(),
        },
        expected_uid,
        expected_resource_version,
        effect_id: stamp.effect_id,
    }
}

/// Decides whether a change may be sent, from what one transaction reads of the
/// lease and of the change that is written down.
pub fn begin_materialization_effect(
    request: &MaterializationEffectRequest,
    lease: &Option<EffectLease>,
    recorded: &Option<EffectRecord>,
) -> (result: Result<EffectStep, StoreError>)
    ensures
        match result {
            Ok(step) => begin_outcome(*request, *lease, manifest::optional_view(*recorded)) == Ok::<
                (bool, Option<EffectView>),
                StoreErrorView,
            >(step_view(step, manifest::optional_view(*recorded))),
            Err(error) => begin_outcome(*request, *lease, manifest::optional_view(*recorded))
                == Err::<(bool, Option<EffectView>), StoreErrorView>(error@),
        },
{
    let stamp = effect_parameters(request)?;
    if !holds_lease(lease, request, stamp) {
        return Ok(EffectStep::Refused);
    }
    let record = record_of(request, stamp);
    match recorded {
        None => Ok(EffectStep::Write(record)),
        Some(other) => {
            if same_effect(other, &record) {
                Ok(EffectStep::Begun)
            } else {
                Ok(EffectStep::Refused)
            }
        },
    }
}

/// A request tells what came of a change that is written down.
pub open spec fn acknowledges(
    request: AcknowledgeMaterializationEffectRequest,
    effect: EffectView,
) -> bool {
    &&& request.owner@ == effect.lease_owner
    &&& request.attempt == effect.lease_attempt
    &&& request.effect_id == effect.effect_id
    &&& request.instance_generation@ == effect.instance_generation
}

/// Whether what came of a change is known now. The change is then no longer
/// written down, whether or not its lease has run out.
pub open spec fn acknowledge_outcome(
    request: AcknowledgeMaterializationEffectRequest,
    recorded: Option<EffectView>,
) -> Result<bool, StoreErrorView> {
    match lease_parameters::effect_outcome(
        request.attempt,
        request.effect_id,
        request.instance_generation@,
    ) {
        Err(error) => Err(error),
        Ok(_) => Ok(recorded matches Some(effect) && acknowledges(request, effect)),
    }
}

/// Decides whether the change that is written down is the one that a request tells
/// the end of.
pub fn acknowledge_materialization_effect(
    request: &AcknowledgeMaterializationEffectRequest,
    recorded: &Option<EffectRecord>,
) -> (result: Result<bool, StoreError>)
    ensures
        store::plain_answer(result) == acknowledge_outcome(
            *request,
            manifest::optional_view(*recorded),
        ),
{
    let stamp = acknowledge_parameters(request)?;
    match recorded {
        None => Ok(false),
        Some(effect) => Ok(
            same_text(effect.lease_owner.as_str(), request.owner.as_str()) && effect.lease_attempt
                == stamp.attempt && effect.effect_id == stamp.effect_id
                && effect.instance_generation == stamp.generation,
        ),
    }
}

/// What may happen to the change that is written down for a materialization.
pub enum EffectEvent {
    Begin { request: MaterializationEffectRequest, lease: Option<EffectLease> },
    Acknowledge { request: AcknowledgeMaterializationEffectRequest },
    /// An operator deleted the materialization by force.
    ForceDeleted,
}

/// The change that is written down after something happened.
pub open spec fn recorded_after(recorded: Option<EffectView>, event: EffectEvent) -> Option<
    EffectView,
> {
    match event {
        EffectEvent::Begin { request, lease } => match begin_outcome(request, lease, recorded) {
            Ok((_, kept)) => kept,
            Err(_) => recorded,
        },
        EffectEvent::Acknowledge { request } => {
            if acknowledge_outcome(request, recorded) == Ok::<bool, StoreErrorView>(true) {
                None
            } else {
                recorded
            }
        },
        EffectEvent::ForceDeleted => None,
    }
}

/// The change that is written down after all that happened, in order.
pub open spec fn recorded_after_all(
    recorded: Option<EffectView>,
    events: Seq<EffectEvent>,
) -> Option<EffectView>
    decreases events.len(),
{
    if events.len() == 0 {
        recorded
    } else {
        recorded_after(recorded_after_all(recorded, events.drop_last()), events.last())
    }
}

/// What ends the wait for a change.
pub open spec fn settles(event: EffectEvent, effect: EffectView) -> bool {
    match event {
        EffectEvent::Begin { .. } => false,
        EffectEvent::Acknowledge { request } => acknowledges(request, effect),
        EffectEvent::ForceDeleted => true,
    }
}

/// A change that is written down stays, through every other request and past the
/// end of its lease, until it is acknowledged or an operator deletes the
/// materialization by force.
pub proof fn law_a_written_effect_stays(effect: EffectView, events: Seq<EffectEvent>)
    requires
        forall|i: int| 0 <= i < events.len() ==> !settles(#[trigger] events[i], effect),
    ensures
        recorded_after_all(Some(effect), events) == Some(effect),
    decreases events.len(),
{
    if events.len() > 0 {
        let earlier = events.drop_last();
        assert forall|i: int| 0 <= i < earlier.len() implies !settles(
            #[trigger] earlier[i],
            effect,
        ) by {
            assert(earlier[i] == events[i]);
        }
        law_a_written_effect_stays(effect, earlier);
        assert(!settles(events[events.len() - 1], effect));
    }
}

/// A change may be sent if and only if its lease is held and no other change is
/// written down. It is then written down; where it may not be sent, nothing changes.
pub proof fn law_an_effect_is_sent_only_once_written(
    request: MaterializationEffectRequest,
    lease: Option<EffectLease>,
    recorded: Option<EffectView>,
)
    ensures
        begin_outcome(request, lease, recorded) matches Ok((granted, kept)) ==> {
            let stamp = effect_stamp(request)->Ok_0;
            &&& granted <==> lease_held(lease, request, stamp) && (recorded matches Some(other)
                ==> other == effect_of(request, stamp))
            &&& granted ==> kept == Some(effect_of(request, stamp))
            &&& !granted ==> kept == recorded
        },
{
}

/// Asking once more for a change that may be sent, under a lease that is still held,
/// is granted again and changes nothing.
pub proof fn law_a_begun_effect_may_begin_again(
    request: MaterializationEffectRequest,
    lease: Option<EffectLease>,
    recorded: Option<EffectView>,
    later: Option<EffectLease>,
)
    requires
        begin_outcome(request, lease, recorded) matches Ok((granted, _)) && granted,
        lease_held(later, request, effect_stamp(request)->Ok_0),
    ensures
        begin_outcome(request, later, begin_outcome(request, lease, recorded)->Ok_0.1)
            == begin_outcome(request, lease, recorded),
{
}

/// Once it is acknowledged, a change is no longer written down, and the next may be
/// sent.
pub proof fn law_an_acknowledged_effect_is_settled(
    request: MaterializationEffectRequest,
    acknowledged: AcknowledgeMaterializationEffectRequest,
)
    requires
        effect_stamp(request) is Ok,
        acknowledged.owner@ == request.owner@,
        acknowledged.attempt == request.attempt,
        acknowledged.effect_id == request.effect_id,
        acknowledged.instance_generation@ == request.instance_generation@,
    ensures
        acknowledge_outcome(
            acknowledged,
            Some(effect_of(request, effect_stamp(request)->Ok_0)),
        ) == Ok::<bool, StoreErrorView>(true),
{
}

} // verus!
