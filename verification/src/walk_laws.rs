//! What a walk through the cluster asks for next, and how it ends.

use crate::backend::BackendEndpoint;
use crate::cluster_walk::{
    self, ApplyView, ClusterAnswer, DeleteView, DescendantView, LiveRead, RetentionView, VolumeRead,
    WaitStep,
};
use crate::duration::Duration;
use crate::json::JsonView;
use crate::kube_materializer::{
    self, KubeMaterializerClientConfig, LiveEndpointSlice, LiveService,
};
use crate::materialization::RenderedObjectRef;
use crate::materializer::{ClientErrorKind, KubernetesClientError};
use crate::projection::{LiveObjectIdentity, LiveObjectMetadata, ProjectionObjectInspection};
use vstd::prelude::*;

verus! {

// ---------------------------------------------------------------------------
// Retention
// ---------------------------------------------------------------------------
/// A walk comes to the next claim among the objects, passing over none, and ends well
/// exactly where there is no other.
pub proof fn law_a_walk_comes_to_the_next_claim(objects: Seq<RenderedObjectRef>, at: nat)
    ensures
        ({
            let walk = cluster_walk::claim_from(objects, at);
            &&& walk is Claim || walk == RetentionView::Ended(Ok(()))
            &&& walk is Claim ==> ({
                let found = walk->Claim_at;
                &&& at <= found < objects.len()
                &&& objects[found as int].kind@ == "PersistentVolumeClaim"@
                &&& forall|i: int|
                    at <= i < found ==> (#[trigger] objects[i]).kind@ != "PersistentVolumeClaim"@
            })
            &&& walk is Ended ==> forall|i: int|
                at <= i < objects.len() ==> (#[trigger] objects[i]).kind@
                    != "PersistentVolumeClaim"@
        }),
    decreases objects.len() - at,
{
    if at < objects.len() && !cluster_walk::is_claim(objects[at as int]) {
        law_a_walk_comes_to_the_next_claim(objects, at + 1);
    }
}

/// A claim that is gone is passed over; one that is bound to a recorded volume leads to
/// that volume; one that cannot be read, or is bound to anything else, ends the walk.
pub proof fn law_a_claim_leads_to_its_volume(
    objects: Seq<RenderedObjectRef>,
    at: nat,
    answer: ClusterAnswer<Option<Seq<char>>>,
)
    ensures
        ({
            let walk = cluster_walk::retention_after(objects, RetentionView::Claim { at }, answer);
            &&& answer is Failed && kube_materializer::tells_missing(answer->Failed_0) ==> walk
                == cluster_walk::claim_from(objects, at + 1)
            &&& answer is Failed && !kube_materializer::tells_missing(answer->Failed_0) ==> walk
                == RetentionView::Ended(Err(kube_materializer::read_failure(answer->Failed_0)))
            &&& answer is Given ==> (walk is Volume <==> exists|i: int|
                0 <= i < objects.len() && answer->Given_0 is Some && answer->Given_0->Some_0.len()
                    > 0 && (#[trigger] objects[i]).kind@ == "PersistentVolume"@
                    && objects[i].name@ == answer->Given_0->Some_0 && objects[i].namespace@.len()
                    == 0)
            &&& walk is Volume ==> walk->Volume_at == at && Some(walk->name) == answer->Given_0
            &&& answer is Given && walk !is Volume ==> walk is Ended && walk->Ended_0 is Err
                && walk->Ended_0->Err_0.kind == ClientErrorKind::Permanent
            &&& answer is TimedOut ==> walk is Ended && walk->Ended_0 is Err
                && walk->Ended_0->Err_0.kind == ClientErrorKind::Transient
        }),
{
    law_a_walk_comes_to_the_next_claim(objects, at + 1);
    if let ClusterAnswer::Given(Some(name)) = answer {
        if kube_materializer::records_volume(objects, name) {
            let i = choose|i: int|
                0 <= i < objects.len() && (#[trigger] objects[i]).kind@ == "PersistentVolume"@
                    && objects[i].name@ == name && objects[i].namespace@.len() == 0;
            assert(objects[i].name@ == name);
        }
    }
}

/// A volume whose bytes are retained leads on to the next claim; any other, and any that
/// cannot be read, ends the walk.
pub proof fn law_a_retained_volume_leads_on(
    objects: Seq<RenderedObjectRef>,
    at: nat,
    name: Seq<char>,
    answer: ClusterAnswer<Option<Seq<char>>>,
)
    ensures
        ({
            let walk = cluster_walk::retention_after(
                objects,
                RetentionView::Volume { at, name },
                answer,
            );
            &&& answer == ClusterAnswer::Given(Some("Retain"@)) ==> walk
                == cluster_walk::claim_from(objects, at + 1)
            &&& answer is Given && answer->Given_0 != Some("Retain"@) ==> walk is Ended
                && walk->Ended_0 is Err && walk->Ended_0->Err_0.kind == ClientErrorKind::Permanent
            &&& answer is Failed ==> walk == RetentionView::Ended(
                Err(kube_materializer::read_failure(answer->Failed_0)),
            )
            &&& answer is TimedOut ==> walk is Ended && walk->Ended_0 is Err
                && walk->Ended_0->Err_0.kind == ClientErrorKind::Transient
        }),
{
}

// ---------------------------------------------------------------------------
// Descendants
// ---------------------------------------------------------------------------
/// Of each namespace first the pods and then the replica sets are counted. None leads on;
/// any that is left may be gone later, and an answer that failed is told as it failed.
pub proof fn law_a_search_goes_through_every_namespace(
    namespaces: nat,
    at: nat,
    answer: ClusterAnswer<usize>,
)
    ensures
        ({
            let pods = cluster_walk::descendants_after(
                namespaces,
                DescendantView::Pods { at },
                answer,
            );
            let sets = cluster_walk::descendants_after(
                namespaces,
                DescendantView::ReplicaSets { at },
                answer,
            );
            let none = answer is Given && answer->Given_0 == 0;
            &&& none ==> pods == DescendantView::ReplicaSets { at }
            &&& none && at + 1 < namespaces ==> sets == DescendantView::Pods { at: at + 1 }
            &&& none && at + 1 >= namespaces ==> sets == DescendantView::Ended(Ok(()))
            &&& !none ==> pods is Ended && pods->Ended_0 is Err && sets is Ended && sets->Ended_0
                is Err
            &&& !none && answer !is Failed ==> pods->Ended_0->Err_0.kind
                == ClientErrorKind::Transient && sets->Ended_0->Err_0.kind
                == ClientErrorKind::Transient
            &&& answer is Failed ==> pods->Ended_0->Err_0 == kube_materializer::read_failure(
                answer->Failed_0,
            ) && sets->Ended_0->Err_0 == kube_materializer::read_failure(answer->Failed_0)
        }),
{
}

/// A search begins with the first namespace, and where there is none nothing is left.
pub proof fn law_a_search_begins_with_the_first_namespace(namespaces: nat)
    ensures
        namespaces > 0 ==> cluster_walk::namespace_from(namespaces, 0) == (DescendantView::Pods {
            at: 0,
        }),
        namespaces == 0 ==> cluster_walk::namespace_from(namespaces, 0) == DescendantView::Ended(
            Ok(()),
        ),
{
}

// ---------------------------------------------------------------------------
// Removal
// ---------------------------------------------------------------------------
/// A removal begins only for an object of a known kind whose identity was inspected; a
/// volume is read once more before it, and nothing else is.
pub proof fn law_a_removal_begins_with_an_identity(
    object: RenderedObjectRef,
    precondition: LiveObjectIdentity,
)
    ensures
        ({
            let walk = cluster_walk::delete_begun(object, precondition);
            let may_begin = precondition.uid@.len() > 0 && precondition.resource_version@.len() > 0
                && kube_materializer::resource_outcome(object) is Ok;
            &&& walk is Ended <==> !may_begin
            &&& walk is Ended ==> walk->Ended_0 is Err
            &&& walk is InspectVolume <==> may_begin && object.kind@ == "PersistentVolume"@
            &&& walk is Send <==> may_begin && object.kind@ != "PersistentVolume"@
        }),
{
}

/// A volume that is gone needs no removal; one that cannot be read is not removed.
pub proof fn law_a_volume_is_read_before_its_removal(
    precondition: LiveObjectIdentity,
    answer: ClusterAnswer<VolumeRead>,
)
    ensures
        ({
            let walk = cluster_walk::volume_inspected(precondition, answer);
            &&& walk == DeleteView::Ended(Ok(())) <==> answer is Failed
                && kube_materializer::tells_missing(answer->Failed_0)
            &&& walk is Send ==> answer is Given
            &&& answer is TimedOut ==> walk is Ended && walk->Ended_0 is Err
                && walk->Ended_0->Err_0.kind == ClientErrorKind::Transient
            &&& answer is Failed && !kube_materializer::tells_missing(answer->Failed_0) ==> walk
                == DeleteView::Ended(Err(kube_materializer::read_failure(answer->Failed_0)))
        }),
{
}

/// A removal has happened where it was answered, and where the answer is that nothing was
/// there; without an answer it is open whether it has.
pub proof fn law_a_removal_has_happened_or_is_open(answer: ClusterAnswer<()>)
    ensures
        cluster_walk::delete_sent(answer) is Ok <==> answer is Given || answer is Failed
            && kube_materializer::tells_missing(answer->Failed_0),
        answer is TimedOut ==> cluster_walk::delete_sent(answer)->Err_0.kind
            == ClientErrorKind::Uncertain,
        answer is Failed && !kube_materializer::tells_missing(answer->Failed_0)
            ==> cluster_walk::delete_sent(answer)->Err_0 == kube_materializer::change_failure(
            answer->Failed_0,
        ),
{
}

// ---------------------------------------------------------------------------
// Application
// ---------------------------------------------------------------------------
/// An object that was not there is created as it is; one that was there is changed in the
/// version that was inspected, and not without one.
pub proof fn law_an_object_is_created_or_changed(
    reference: RenderedObjectRef,
    document: JsonView,
    precondition: Option<LiveObjectIdentity>,
)
    ensures
        ({
            let plan = cluster_walk::apply_outcome(reference, document, precondition);
            &&& plan is Ok <==> kube_materializer::resource_outcome(reference) is Ok && (
            precondition is Some ==> precondition->Some_0.uid@.len() > 0
                && precondition->Some_0.resource_version@.len() > 0)
            &&& plan is Ok && precondition is None ==> plan->Ok_0 == ApplyView::Create(document)
            &&& plan is Ok && precondition is Some ==> plan->Ok_0 == ApplyView::Patch(
                kube_materializer::conditioned(document, precondition->Some_0),
            )
        }),
{
}

/// A change has happened exactly where it was answered; without an answer it is open
/// whether it has, and a failure is told as it failed.
pub proof fn law_a_change_has_happened_or_is_open(answer: ClusterAnswer<()>)
    ensures
        cluster_walk::apply_sent(answer) is Ok <==> answer is Given,
        answer is TimedOut ==> cluster_walk::apply_sent(answer)->Err_0.kind
            == ClientErrorKind::Uncertain,
        answer is Failed ==> cluster_walk::apply_sent(answer)->Err_0
            == kube_materializer::change_failure(answer->Failed_0),
{
}

// ---------------------------------------------------------------------------
// Waiting and reading
// ---------------------------------------------------------------------------
/// A wait takes no longer than there is time, no longer than it should until the next look,
/// and one of the two.
pub proof fn law_a_wait_ends_in_time(remaining: Duration, poll_interval: Duration, wait: Duration)
    requires
        cluster_walk::poll_wait(remaining, poll_interval, wait),
    ensures
        remaining@ > 0,
        wait@ <= remaining@,
        wait@ <= poll_interval@,
        wait@ == remaining@ || wait@ == poll_interval@,
{
}

/// Time that runs out while reading may not run out the next time; a claim that stays
/// unbound and a service that stays unready are told for good, by their names.
pub proof fn law_time_runs_out(namespace: Seq<char>, name: Seq<char>)
    ensures
        cluster_walk::read_timeout().kind == ClientErrorKind::Transient,
        cluster_walk::retention_timeout().kind == ClientErrorKind::Transient,
        cluster_walk::unbound_claim(namespace, name).kind == ClientErrorKind::Permanent,
        cluster_walk::unbound_claim(namespace, name).message
            == "timed out waiting for PersistentVolumeClaim "@ + (namespace + "/"@ + name)
            + " to become Bound"@,
        cluster_walk::unready_service(namespace, name).kind == ClientErrorKind::Permanent,
        cluster_walk::unready_service(namespace, name).message
            == "timed out waiting for ready EndpointSlice endpoints for Service "@ + (namespace
            + "/"@ + name),
{
}

/// What is read of an object is what is there.
pub proof fn law_an_object_is_read_as_it_is(live: LiveObjectMetadata, read: LiveRead)
    requires
        cluster_walk::keeps_read(live, read),
    ensures
        read.uid == Some(live.identity.uid),
        read.resource_version == Some(live.identity.resource_version),
        live.labels == read.labels,
        live.annotations == read.annotations,
        live.deleting == read.deleting,
        live.finalizers == read.finalizers,
        live.persistent_volume_reclaim_policy == read.reclaim_policy,
{
}

/// A claim is waited for until it is bound or time is up, and no longer; an answer that
/// failed ends the wait as it failed.
pub proof fn law_a_claim_is_waited_for(
    step: WaitStep<()>,
    namespace: Seq<char>,
    name: Seq<char>,
    answer: ClusterAnswer<Option<Seq<char>>>,
    remaining: Duration,
    poll_interval: Duration,
)
    requires
        cluster_walk::claim_looked_at(step, namespace, name, answer, remaining, poll_interval),
    ensures
        step is Done && step->Done_0 is Ok <==> answer == ClusterAnswer::Given(Some("Bound"@)),
        step is Sleep <==> answer is Given && answer->Given_0 != Some("Bound"@) && remaining@ > 0,
        step is Sleep ==> step->Sleep_0@ <= remaining@ && step->Sleep_0@ <= poll_interval@,
        answer is Given && answer->Given_0 != Some("Bound"@) && remaining@ == 0
            ==> step->Done_0->Err_0@.kind == ClientErrorKind::Permanent,
        answer is TimedOut ==> step->Done_0->Err_0@.kind == ClientErrorKind::Transient,
        answer is Failed ==> step->Done_0->Err_0@ == kube_materializer::read_failure(
            answer->Failed_0,
        ),
{
}

/// A service is waited for until one of its endpoints is ready or time is up; one that leads
/// nowhere is not waited for at all.
pub proof fn law_a_service_is_waited_for(
    step: WaitStep<BackendEndpoint>,
    service_ref: RenderedObjectRef,
    service: LiveService,
    slices: Vec<LiveEndpointSlice>,
    config: KubeMaterializerClientConfig,
    remaining: Duration,
)
    requires
        cluster_walk::service_looked_at(
            step,
            service_ref,
            ClusterAnswer::Given((service, slices)),
            config,
            remaining,
        ),
    ensures
        ({
            let known = kube_materializer::backend_outcome(service, config, None) is Ok;
            let ready = kube_materializer::any_ready(service, slices@);
            &&& step is Done && step->Done_0 is Ok <==> known && ready
            &&& step is Sleep <==> known && !ready && remaining@ > 0
            &&& step is Sleep ==> step->Sleep_0@ <= remaining@ && step->Sleep_0@
                <= config.poll_interval@
            &&& known && !ready && remaining@ == 0 ==> step->Done_0->Err_0@
                == cluster_walk::unready_service(service_ref.namespace@, service_ref.name@)
            &&& step is Done && step->Done_0 is Ok ==> kube_materializer::observed_backend(
                service,
                slices@,
                config,
                step->Done_0->Ok_0@,
            )
        }),
{
}

/// A failed look at a service ends the wait as it failed.
pub proof fn law_a_failed_look_ends_the_wait(
    step: WaitStep<BackendEndpoint>,
    service_ref: RenderedObjectRef,
    answer: ClusterAnswer<(LiveService, Vec<LiveEndpointSlice>)>,
    config: KubeMaterializerClientConfig,
    remaining: Duration,
)
    requires
        cluster_walk::service_looked_at(step, service_ref, answer, config, remaining),
        answer !is Given,
    ensures
        step is Done && step->Done_0 is Err,
        answer is TimedOut ==> step->Done_0->Err_0@.kind == ClientErrorKind::Transient,
        answer is Failed ==> step->Done_0->Err_0@ == kube_materializer::read_failure(
            answer->Failed_0,
        ),
{
}

/// An object is missing exactly where the cluster says so, and there exactly where it shows
/// an identity; anything else is an error.
pub proof fn law_an_object_is_there_or_missing(
    result: Result<ProjectionObjectInspection, KubernetesClientError>,
    answer: ClusterAnswer<LiveRead>,
)
    requires
        cluster_walk::object_looked_at(result, answer),
    ensures
        result is Ok && result->Ok_0 is Missing <==> answer is Failed
            && kube_materializer::tells_missing(answer->Failed_0),
        result is Ok && result->Ok_0 is Present <==> answer is Given && answer->Given_0.uid is Some
            && answer->Given_0.resource_version is Some,
        result is Ok && result->Ok_0 is Present ==> {
            let live = result->Ok_0->Present_0;
            &&& answer->Given_0.uid == Some(live.identity.uid)
            &&& answer->Given_0.resource_version == Some(live.identity.resource_version)
            &&& live.labels == answer->Given_0.labels
            &&& live.deleting == answer->Given_0.deleting
        },
        answer is TimedOut ==> result->Err_0@.kind == ClientErrorKind::Transient,
        answer is Given && result is Err ==> result->Err_0@.kind == ClientErrorKind::Permanent,
{
}

} // verus!
