//! Walks through a cluster: what is asked of it next, and what its answers come
//! to.

use crate::backend::BackendEndpoint;
use crate::duration::Duration;
use crate::json::{Json, JsonView};
use crate::kube_materializer::{
    self, api_resource_for_ref, bound_volume, conditional_body, delete_outcome, is_not_found,
    kube_error, live_metadata, mutation_error, next_poll, pvc_phase_is_bound,
    readiness_inspection_for_service, readiness_step, validate_backing_volume, validate_identity,
    validate_volume_cleanup, KubeFailure, KubeMaterializerClientConfig, LiveEndpointSlice,
    LiveService,
};
use crate::manifest;
use crate::manifest::objects::KubernetesObject;
use crate::manifest::serialize;
use crate::materialization::RenderedObjectRef;
use crate::materializer::{self, rendered_object_ref, ClientErrorView, KubernetesClientError};
use crate::projection::{
    LiveObjectIdentity, LiveObjectMetadata, ProjectionObjectInspection,
    ProjectionReadinessInspection,
};
use crate::string_map::StringMap;
use crate::text::same_text;
use vstd::prelude::*;
use vstd::string::*;

verus! {

/// What came of a request to the cluster.
#[derive(Debug, PartialEq, Eq)]
pub enum ClusterAnswer<T> {
    Given(T),
    Failed(KubeFailure),
    /// No answer came in time.
    TimedOut,
}

/// The model of an answer that may hold a text.
pub open spec fn text_answer(answer: ClusterAnswer<Option<String>>) -> ClusterAnswer<
    Option<Seq<char>>,
> {
    match answer {
        ClusterAnswer::Given(text) => ClusterAnswer::Given(manifest::optional_view(text)),
        ClusterAnswer::Failed(error) => ClusterAnswer::Failed(error),
        ClusterAnswer::TimedOut => ClusterAnswer::TimedOut,
    }
}

// ---------------------------------------------------------------------------
// The volumes behind the claims
// ---------------------------------------------------------------------------
/// Where the inspection of the recorded claims stands, before anything is removed.
#[derive(Debug, PartialEq, Eq)]
pub enum RetentionWalk {
    /// The claim among the recorded objects to read.
    Claim { at: usize },
    /// The volume behind that claim to read.
    Volume { at: usize, name: String },
    Ended(Result<(), KubernetesClientError>),
}

/// The mathematical model of a [`RetentionWalk`].
#[verifier::ext_equal]
pub enum RetentionView {
    Claim { at: nat },
    Volume { at: nat, name: Seq<char> },
    Ended(Result<(), ClientErrorView>),
}

impl View for RetentionWalk {
    type V = RetentionView;

    open spec fn view(&self) -> RetentionView {
        match self {
            RetentionWalk::Claim { at } => RetentionView::Claim { at: *at as nat },
            RetentionWalk::Volume { at, name } => RetentionView::Volume {
                at: *at as nat,
                name: name@,
            },
            RetentionWalk::Ended(result) => RetentionView::Ended(
                materializer::plain_answer(*result),
            ),
        }
    }
}

/// An object is a claim.
pub open spec fn is_claim(object: RenderedObjectRef) -> bool {
    object.kind@ == "PersistentVolumeClaim"@
}

/// The walk at the first claim from a place on. It ends well where there is none.
pub open spec fn claim_from(objects: Seq<RenderedObjectRef>, at: nat) -> RetentionView
    decreases objects.len() - at,
{
    if at >= objects.len() {
        RetentionView::Ended(Ok(()))
    } else if is_claim(objects[at as int]) {
        RetentionView::Claim { at }
    } else {
        claim_from(objects, at + 1)
    }
}

/// The error of an inspection that took too long.
pub open spec fn retention_timeout() -> ClientErrorView {
    materializer::transient("retained static binding inspection timed out"@)
}

/// The walk after an answer. A claim that is gone is passed over; one that is
/// there must be bound to a recorded volume, and that volume must keep its bytes.
pub open spec fn retention_after(
    objects: Seq<RenderedObjectRef>,
    walk: RetentionView,
    answer: ClusterAnswer<Option<Seq<char>>>,
) -> RetentionView {
    match walk {
        RetentionView::Claim { at } => match answer {
            ClusterAnswer::TimedOut => RetentionView::Ended(Err(retention_timeout())),
            ClusterAnswer::Failed(error) => if kube_materializer::tells_missing(error) {
                claim_from(objects, at + 1)
            } else {
                RetentionView::Ended(Err(kube_materializer::read_failure(error)))
            },
            ClusterAnswer::Given(volume_name) => match kube_materializer::binding_outcome(
                volume_name,
                objects,
            ) {
                Ok(name) => RetentionView::Volume { at, name },
                Err(error) => RetentionView::Ended(Err(error)),
            },
        },
        RetentionView::Volume { at, name } => match answer {
            ClusterAnswer::TimedOut => RetentionView::Ended(Err(retention_timeout())),
            ClusterAnswer::Failed(error) => RetentionView::Ended(
                Err(kube_materializer::read_failure(error)),
            ),
            ClusterAnswer::Given(reclaim_policy) => match kube_materializer::backing_verdict(
                reclaim_policy,
            ) {
                Ok(_) => claim_from(objects, at + 1),
                Err(error) => RetentionView::Ended(Err(error)),
            },
        },
        RetentionView::Ended(_) => walk,
    }
}

impl RetentionWalk {
    fn from(objects: &Vec<RenderedObjectRef>, from: usize) -> (walk: RetentionWalk)
        ensures
            walk@ == claim_from(objects@, from as nat),
    {
        let mut at: usize = from;
        while at < objects.len()
            invariant
                claim_from(objects@, from as nat) == claim_from(objects@, at as nat),
            decreases objects.len() - at,
        {
            if same_text(objects[at].kind.as_str(), "PersistentVolumeClaim") {
                return RetentionWalk::Claim { at };
            }
            at = at + 1;
        }
        RetentionWalk::Ended(Ok(()))
    }

    fn behind(objects: &Vec<RenderedObjectRef>, at: usize) -> (walk: RetentionWalk)
        ensures
            walk@ == claim_from(objects@, at as nat + 1),
    {
        if at < objects.len() {
            RetentionWalk::from(objects, at + 1)
        } else {
            RetentionWalk::Ended(Ok(()))
        }
    }

    /// Begins at the first recorded claim.
    pub fn begin(objects: &Vec<RenderedObjectRef>) -> (walk: RetentionWalk)
        ensures
            walk@ == claim_from(objects@, 0),
    {
        RetentionWalk::from(objects, 0)
    }

    /// Goes on with what came of the last request: the name of the volume that the
    /// claim is bound to, or the reclaim policy of the volume.
    pub fn step(
        self,
        objects: &Vec<RenderedObjectRef>,
        answer: ClusterAnswer<Option<String>>,
    ) -> (walk: RetentionWalk)
        ensures
            walk@ == retention_after(objects@, self@, text_answer(answer)),
    {
        match self {
            RetentionWalk::Claim { at } => match answer {
                ClusterAnswer::TimedOut => RetentionWalk::Ended(
                    Err(
                        KubernetesClientError::transient(
                            "retained static binding inspection timed out",
                        ),
                    ),
                ),
                ClusterAnswer::Failed(error) => if is_not_found(&error) {
                    RetentionWalk::behind(objects, at)
                } else {
                    RetentionWalk::Ended(Err(kube_error(&error)))
                },
                ClusterAnswer::Given(volume_name) => match bound_volume(&volume_name, objects) {
                    Ok(name) => RetentionWalk::Volume { at, name },
                    Err(error) => RetentionWalk::Ended(Err(error)),
                },
            },
            RetentionWalk::Volume { at, name } => match answer {
                ClusterAnswer::TimedOut => RetentionWalk::Ended(
                    Err(
                        KubernetesClientError::transient(
                            "retained static binding inspection timed out",
                        ),
                    ),
                ),
                ClusterAnswer::Failed(error) => RetentionWalk::Ended(Err(kube_error(&error))),
                ClusterAnswer::Given(reclaim_policy) => match validate_backing_volume(
                    &reclaim_policy,
                ) {
                    Ok(_) => RetentionWalk::behind(objects, at),
                    Err(error) => RetentionWalk::Ended(Err(error)),
                },
            },
            RetentionWalk::Ended(result) => RetentionWalk::Ended(result),
        }
    }
}

/// Where the walk stands after the first of some answers.
pub open spec fn retention_run(
    objects: Seq<RenderedObjectRef>,
    answers: Seq<ClusterAnswer<Option<Seq<char>>>>,
    count: nat,
) -> RetentionView
    decreases count,
{
    if count == 0 {
        claim_from(objects, 0)
    } else {
        retention_after(
            objects,
            retention_run(objects, answers, (count - 1) as nat),
            answers[count - 1],
        )
    }
}

/// An answer cleared a claim: the claim is gone, or it is bound to a recorded
/// volume which the next answer showed to keep its bytes.
pub open spec fn clears_claim(
    objects: Seq<RenderedObjectRef>,
    answers: Seq<ClusterAnswer<Option<Seq<char>>>>,
    count: nat,
    claim: int,
    j: int,
) -> bool {
    &&& 0 <= j < count
    &&& retention_run(objects, answers, j as nat) == RetentionView::Claim { at: claim as nat }
    &&& match answers[j] {
        ClusterAnswer::TimedOut => false,
        ClusterAnswer::Failed(error) => kube_materializer::tells_missing(error),
        ClusterAnswer::Given(volume_name) => {
            &&& j + 1 < count
            &&& volume_name matches Some(name) && kube_materializer::records_volume(objects, name)
            &&& answers[j + 1] == ClusterAnswer::Given(Some("Retain"@))
        },
    }
}

/// Every claim before a place was cleared.
pub open spec fn claims_cleared(
    objects: Seq<RenderedObjectRef>,
    answers: Seq<ClusterAnswer<Option<Seq<char>>>>,
    count: nat,
    to: int,
) -> bool {
    forall|claim: int|
        0 <= claim < to && claim < objects.len() && is_claim(#[trigger] objects[claim])
            ==> exists|j: int| clears_claim(objects, answers, count, claim, j)
}

proof fn lemma_claim_from(objects: Seq<RenderedObjectRef>, at: nat)
    ensures
        match claim_from(objects, at) {
            RetentionView::Claim { at: found } => {
                &&& at <= found < objects.len()
                &&& is_claim(objects[found as int])
                &&& forall|i: int| at <= i < found ==> !is_claim(#[trigger] objects[i])
            },
            RetentionView::Ended(result) => {
                &&& result is Ok
                &&& forall|i: int| at <= i < objects.len() ==> !is_claim(#[trigger] objects[i])
            },
            RetentionView::Volume { .. } => false,
        },
    decreases objects.len() - at,
{
    if at < objects.len() && !is_claim(objects[at as int]) {
        lemma_claim_from(objects, at + 1);
    }
}

proof fn lemma_retention_run(
    objects: Seq<RenderedObjectRef>,
    answers: Seq<ClusterAnswer<Option<Seq<char>>>>,
    count: nat,
)
    requires
        count <= answers.len(),
    ensures
        match retention_run(objects, answers, count) {
            RetentionView::Claim { at } => {
                &&& at < objects.len()
                &&& claims_cleared(objects, answers, count, at as int)
            },
            RetentionView::Volume { at, name } => {
                &&& at < objects.len()
                &&& count > 0
                &&& retention_run(objects, answers, (count - 1) as nat) == RetentionView::Claim {
                    at,
                }
                &&& answers[count - 1] == ClusterAnswer::Given(Some(name))
                &&& kube_materializer::records_volume(objects, name)
                &&& claims_cleared(objects, answers, count, at as int)
            },
            RetentionView::Ended(result) => result is Ok ==> claims_cleared(
                objects,
                answers,
                count,
                objects.len() as int,
            ),
        },
    decreases count,
{
    if count == 0 {
        lemma_claim_from(objects, 0);
    } else {
        let before = (count - 1) as nat;
        lemma_retention_run(objects, answers, before);
        let walk = retention_run(objects, answers, before);
        let to: int = match walk {
            RetentionView::Claim { at } => at as int,
            RetentionView::Volume { at, name } => at as int,
            RetentionView::Ended(_) => objects.len() as int,
        };
        if !(walk matches RetentionView::Ended(Err(_))) {
            assert(claims_cleared(objects, answers, count, to)) by {
                assert forall|claim: int|
                    0 <= claim < to && claim < objects.len() && is_claim(
                        #[trigger] objects[claim],
                    ) implies exists|j: int|
                    clears_claim(objects, answers, count, claim, j) by {
                    let j = choose|j: int| clears_claim(objects, answers, before, claim, j);
                    assert(clears_claim(objects, answers, count, claim, j));
                }
            }
        }
        match walk {
            RetentionView::Claim { at } => {
                lemma_claim_from(objects, at + 1);
                if answers[count - 1] matches ClusterAnswer::Failed(error)
                    && kube_materializer::tells_missing(error) {
                    assert(clears_claim(objects, answers, count, at as int, count - 1));
                }
            },
            RetentionView::Volume { at, name } => {
                lemma_claim_from(objects, at + 1);
                if answers[count - 1] == ClusterAnswer::Given(Some("Retain"@)) {
                    assert(clears_claim(objects, answers, count, at as int, count - 2));
                }
            },
            RetentionView::Ended(_) => {},
        }
    }
}

/// Objects are removed only once every recorded claim is gone or bound to a
/// recorded volume that keeps its bytes.
pub proof fn law_bytes_outlive_the_objects(
    objects: Seq<RenderedObjectRef>,
    answers: Seq<ClusterAnswer<Option<Seq<char>>>>,
    claim: int,
)
    requires
        retention_run(objects, answers, answers.len()) == RetentionView::Ended(Ok(())),
        0 <= claim < objects.len(),
        is_claim(objects[claim]),
    ensures
        exists|j: int| clears_claim(objects, answers, answers.len(), claim, j),
{
    lemma_retention_run(objects, answers, answers.len());
    assert(is_claim(objects[claim]));
}

// ---------------------------------------------------------------------------
// What is left of an instance
// ---------------------------------------------------------------------------
/// Where the search for what is left of an instance stands.
#[derive(Debug, PartialEq, Eq)]
pub enum DescendantWalk {
    /// The namespace whose pods to count.
    Pods { at: usize },
    /// The namespace whose replica sets to count.
    ReplicaSets { at: usize },
    Ended(Result<(), KubernetesClientError>),
}

/// The mathematical model of a [`DescendantWalk`].
#[verifier::ext_equal]
pub enum DescendantView {
    Pods { at: nat },
    ReplicaSets { at: nat },
    Ended(Result<(), ClientErrorView>),
}

impl View for DescendantWalk {
    type V = DescendantView;

    open spec fn view(&self) -> DescendantView {
        match self {
            DescendantWalk::Pods { at } => DescendantView::Pods { at: *at as nat },
            DescendantWalk::ReplicaSets { at } => DescendantView::ReplicaSets { at: *at as nat },
            DescendantWalk::Ended(result) => DescendantView::Ended(
                materializer::plain_answer(*result),
            ),
        }
    }
}

/// The walk at a namespace. It ends well behind the last one.
pub open spec fn namespace_from(namespaces: nat, at: nat) -> DescendantView {
    if at < namespaces {
        DescendantView::Pods { at }
    } else {
        DescendantView::Ended(Ok(()))
    }
}

/// Why a search did not find that nothing is left.
pub open spec fn search_error(answer: ClusterAnswer<usize>, left: Seq<char>) -> ClientErrorView {
    match answer {
        ClusterAnswer::TimedOut => materializer::transient(
            "descendant absence inspection timed out"@,
        ),
        ClusterAnswer::Failed(error) => kube_materializer::read_failure(error),
        ClusterAnswer::Given(_) => materializer::transient(left),
    }
}

/// The walk after an answer: it goes on only where nothing was counted.
pub open spec fn descendants_after(
    namespaces: nat,
    walk: DescendantView,
    answer: ClusterAnswer<usize>,
) -> DescendantView {
    match walk {
        DescendantView::Pods { at } => if answer == ClusterAnswer::Given(0usize) {
            DescendantView::ReplicaSets { at }
        } else {
            DescendantView::Ended(
                Err(
                    search_error(
                        answer,
                        "projection Pods still exist, including terminating members"@,
                    ),
                ),
            )
        },
        DescendantView::ReplicaSets { at } => if answer == ClusterAnswer::Given(0usize) {
            namespace_from(namespaces, at + 1)
        } else {
            DescendantView::Ended(
                Err(search_error(answer, "projection ReplicaSets still exist"@)),
            )
        },
        DescendantView::Ended(_) => walk,
    }
}

/// Nothing was counted.
fn nothing_left(answer: ClusterAnswer<usize>, left: &str) -> (result: Result<
    (),
    KubernetesClientError,
>)
    ensures
        materializer::plain_answer(result) == (if answer == ClusterAnswer::Given(0usize) {
            Ok::<(), ClientErrorView>(())
        } else {
            Err::<(), ClientErrorView>(search_error(answer, left@))
        }),
{
    match answer {
        ClusterAnswer::TimedOut => Err(
            KubernetesClientError::transient("descendant absence inspection timed out"),
        ),
        ClusterAnswer::Failed(error) => Err(kube_error(&error)),
        ClusterAnswer::Given(count) => if count == 0 {
            Ok(())
        } else {
            Err(KubernetesClientError::transient(left))
        },
    }
}

impl DescendantWalk {
    /// Begins at the first of the namespaces.
    pub fn begin(namespaces: &StringMap<bool>) -> (walk: DescendantWalk)
        ensures
            walk@ == namespace_from(namespaces@.len(), 0),
    {
        if namespaces.len() > 0 {
            DescendantWalk::Pods { at: 0 }
        } else {
            DescendantWalk::Ended(Ok(()))
        }
    }

    /// Goes on with how many were counted.
    pub fn step(self, namespaces: &StringMap<bool>, answer: ClusterAnswer<usize>) -> (walk:
        DescendantWalk)
        ensures
            walk@ == descendants_after(namespaces@.len(), self@, answer),
    {
        match self {
            DescendantWalk::Pods { at } => match nothing_left(
                answer,
                "projection Pods still exist, including terminating members",
            ) {
                Ok(_) => DescendantWalk::ReplicaSets { at },
                Err(error) => DescendantWalk::Ended(Err(error)),
            },
            DescendantWalk::ReplicaSets { at } => match nothing_left(
                answer,
                "projection ReplicaSets still exist",
            ) {
                Ok(_) => if at < namespaces.len() && at + 1 < namespaces.len() {
                    DescendantWalk::Pods { at: at + 1 }
                } else {
                    DescendantWalk::Ended(Ok(()))
                },
                Err(error) => DescendantWalk::Ended(Err(error)),
            },
            DescendantWalk::Ended(result) => DescendantWalk::Ended(result),
        }
    }
}

/// Where the walk stands after the first of some answers.
pub open spec fn descendants_run(
    namespaces: nat,
    answers: Seq<ClusterAnswer<usize>>,
    count: nat,
) -> DescendantView
    decreases count,
{
    if count == 0 {
        namespace_from(namespaces, 0)
    } else {
        descendants_after(
            namespaces,
            descendants_run(namespaces, answers, (count - 1) as nat),
            answers[count - 1],
        )
    }
}

proof fn lemma_descendants_run(namespaces: nat, answers: Seq<ClusterAnswer<usize>>, count: nat)
    requires
        count <= answers.len(),
    ensures
        match descendants_run(namespaces, answers, count) {
            DescendantView::Pods { at } => {
                &&& at < namespaces
                &&& count == 2 * at
                &&& forall|i: int| 0 <= i < count ==> #[trigger] answers[i] == ClusterAnswer::Given(
                    0usize,
                )
            },
            DescendantView::ReplicaSets { at } => {
                &&& at < namespaces
                &&& count == 2 * at + 1
                &&& forall|i: int| 0 <= i < count ==> #[trigger] answers[i] == ClusterAnswer::Given(
                    0usize,
                )
            },
            DescendantView::Ended(result) => result is Ok ==> {
                &&& count >= 2 * namespaces
                &&& forall|i: int|
                    0 <= i < 2 * namespaces ==> #[trigger] answers[i] == ClusterAnswer::Given(
                        0usize,
                    )
            },
        },
    decreases count,
{
    if count > 0 {
        lemma_descendants_run(namespaces, answers, (count - 1) as nat);
    }
}

/// An instance counts as gone only once neither a pod nor a replica set was
/// counted in any of its namespaces: the search asks for both in each, in order,
/// and every answer was that there is none.
pub proof fn law_gone_means_nothing_left(namespaces: nat, answers: Seq<ClusterAnswer<usize>>)
    requires
        descendants_run(namespaces, answers, answers.len()) == DescendantView::Ended(Ok(())),
    ensures
        answers.len() >= 2 * namespaces,
        forall|at: int|
            #![trigger answers[2 * at]]
            0 <= at < namespaces ==> {
                &&& descendants_run(namespaces, answers, (2 * at) as nat) == DescendantView::Pods {
                    at: at as nat,
                }
                &&& answers[2 * at] == ClusterAnswer::Given(0usize)
                &&& answers[2 * at + 1] == ClusterAnswer::Given(0usize)
            },
{
    lemma_descendants_run(namespaces, answers, answers.len());
    assert forall|at: int| #![trigger answers[2 * at]] 0 <= at < namespaces implies {
        &&& descendants_run(namespaces, answers, (2 * at) as nat) == DescendantView::Pods {
            at: at as nat,
        }
        &&& answers[2 * at] == ClusterAnswer::Given(0usize)
        &&& answers[2 * at + 1] == ClusterAnswer::Given(0usize)
    } by {
        lemma_walks_on(namespaces, answers, at as nat);
    }
}

proof fn lemma_walks_on(namespaces: nat, answers: Seq<ClusterAnswer<usize>>, at: nat)
    requires
        at < namespaces,
        answers.len() >= 2 * namespaces,
        forall|i: int| 0 <= i < 2 * namespaces ==> #[trigger] answers[i] == ClusterAnswer::Given(
            0usize,
        ),
    ensures
        descendants_run(namespaces, answers, 2 * at) == (DescendantView::Pods { at }),
    decreases at,
{
    if at > 0 {
        lemma_walks_on(namespaces, answers, (at - 1) as nat);
        reveal_with_fuel(descendants_run, 3);
        assert(answers[2 * at - 2] == ClusterAnswer::Given(0usize));
        assert(answers[2 * at - 1] == ClusterAnswer::Given(0usize));
    }
}

// ---------------------------------------------------------------------------
// Removing an object
// ---------------------------------------------------------------------------
/// Where the removal of an object stands.
#[derive(Debug, PartialEq, Eq)]
pub enum DeleteWalk {
    /// The volume is read once more before it is removed.
    InspectVolume,
    /// The removal is sent, tied to the identity that was inspected.
    Send,
    Ended(Result<(), KubernetesClientError>),
}

/// The mathematical model of a [`DeleteWalk`].
#[verifier::ext_equal]
pub enum DeleteView {
    InspectVolume,
    Send,
    Ended(Result<(), ClientErrorView>),
}

impl View for DeleteWalk {
    type V = DeleteView;

    open spec fn view(&self) -> DeleteView {
        match self {
            DeleteWalk::InspectVolume => DeleteView::InspectVolume,
            DeleteWalk::Send => DeleteView::Send,
            DeleteWalk::Ended(result) => DeleteView::Ended(materializer::plain_answer(*result)),
        }
    }
}

/// What is read of a volume before it is removed.
#[derive(Clone, Debug, PartialEq, Eq)]
pub struct VolumeRead {
    pub uid: Option<String>,
    pub resource_version: Option<String>,
    pub reclaim_policy: Option<String>,
}

/// How the removal of an object begins: a volume is read once more.
pub open spec fn delete_begun(
    object: RenderedObjectRef,
    precondition: LiveObjectIdentity,
) -> DeleteView {
    match kube_materializer::identity_verdict(precondition) {
        Err(error) => DeleteView::Ended(Err(error)),
        Ok(_) => match kube_materializer::resource_outcome(object) {
            Err(error) => DeleteView::Ended(Err(error)),
            Ok(_) => if object.kind@ == "PersistentVolume"@ {
                DeleteView::InspectVolume
            } else {
                DeleteView::Send
            },
        },
    }
}

/// The removal of a volume after it was read once more: one that is gone needs no
/// removal, and one that is there must be the one that was inspected and keep its
/// bytes.
pub open spec fn volume_inspected(
    precondition: LiveObjectIdentity,
    answer: ClusterAnswer<VolumeRead>,
) -> DeleteView {
    match answer {
        ClusterAnswer::TimedOut => DeleteView::Ended(
            Err(materializer::transient("PV retention inspection timed out"@)),
        ),
        ClusterAnswer::Failed(error) => if kube_materializer::tells_missing(error) {
            DeleteView::Ended(Ok(()))
        } else {
            DeleteView::Ended(Err(kube_materializer::read_failure(error)))
        },
        ClusterAnswer::Given(volume) => match kube_materializer::volume_cleanup_verdict(
            manifest::optional_view(volume.uid),
            manifest::optional_view(volume.resource_version),
            manifest::optional_view(volume.reclaim_policy),
            precondition,
        ) {
            Ok(_) => DeleteView::Send,
            Err(error) => DeleteView::Ended(Err(error)),
        },
    }
}

/// What a removal that was sent came to.
pub open spec fn delete_sent(answer: ClusterAnswer<()>) -> Result<(), ClientErrorView> {
    match answer {
        ClusterAnswer::Given(_) => Ok(()),
        ClusterAnswer::Failed(error) => kube_materializer::delete_failure(error),
        ClusterAnswer::TimedOut => Err(
            materializer::uncertain("Kubernetes delete timed out; effect outcome is unknown"@),
        ),
    }
}

impl DeleteWalk {
    /// Begins the removal of an object that was inspected.
    pub fn begin(object: &RenderedObjectRef, precondition: &LiveObjectIdentity) -> (walk:
        DeleteWalk)
        ensures
            walk@ == delete_begun(*object, *precondition),
    {
        match validate_identity(precondition) {
            Err(error) => DeleteWalk::Ended(Err(error)),
            Ok(_) => match api_resource_for_ref(object) {
                Err(error) => DeleteWalk::Ended(Err(error)),
                Ok(_) => if same_text(object.kind.as_str(), "PersistentVolume") {
                    DeleteWalk::InspectVolume
                } else {
                    DeleteWalk::Send
                },
            },
        }
    }

    /// Goes on with what was read of the volume.
    pub fn inspected(
        precondition: &LiveObjectIdentity,
        answer: ClusterAnswer<VolumeRead>,
    ) -> (walk: DeleteWalk)
        ensures
            walk@ == volume_inspected(*precondition, answer),
    {
        match answer {
            ClusterAnswer::TimedOut => DeleteWalk::Ended(
                Err(KubernetesClientError::transient("PV retention inspection timed out")),
            ),
            ClusterAnswer::Failed(error) => if is_not_found(&error) {
                DeleteWalk::Ended(Ok(()))
            } else {
                DeleteWalk::Ended(Err(kube_error(&error)))
            },
            ClusterAnswer::Given(volume) => match validate_volume_cleanup(
                &volume.uid,
                &volume.resource_version,
                &volume.reclaim_policy,
                precondition,
            ) {
                Ok(_) => DeleteWalk::Send,
                Err(error) => DeleteWalk::Ended(Err(error)),
            },
        }
    }

    /// What the removal came to once it was sent.
    pub fn sent(answer: ClusterAnswer<()>) -> (result: Result<(), KubernetesClientError>)
        ensures
            materializer::plain_answer(result) == delete_sent(answer),
    {
        match answer {
            ClusterAnswer::Given(_) => Ok(()),
            ClusterAnswer::Failed(error) => delete_outcome(&error),
            ClusterAnswer::TimedOut => Err(
                KubernetesClientError::uncertain(
                    "Kubernetes delete timed out; effect outcome is unknown",
                ),
            ),
        }
    }
}

/// The removal of a volume is sent only after the very volume that was inspected
/// was seen to keep its bytes.
pub proof fn law_volume_is_removed_only_when_retained(
    object: RenderedObjectRef,
    precondition: LiveObjectIdentity,
    answer: ClusterAnswer<VolumeRead>,
)
    requires
        object.kind@ == "PersistentVolume"@,
    ensures
        delete_begun(object, precondition) != DeleteView::Send,
        volume_inspected(precondition, answer) == DeleteView::Send <==> (answer matches ClusterAnswer::Given(
            volume,
        ) && manifest::optional_view(volume.uid) == Some(precondition.uid@)
            && manifest::optional_view(volume.resource_version) == Some(
            precondition.resource_version@,
        ) && manifest::optional_view(volume.reclaim_policy) == Some("Retain"@)),
{
}

// ---------------------------------------------------------------------------
// Applying an object
// ---------------------------------------------------------------------------
/// What is sent to apply an object.
#[derive(Debug, PartialEq, Eq)]
pub enum ApplyPlan {
    /// The object is not there yet.
    Create(Json),
    /// The object is there, in a version that was inspected.
    Patch(Json),
}

/// The mathematical model of an [`ApplyPlan`].
#[verifier::ext_equal]
pub enum ApplyView {
    Create(JsonView),
    Patch(JsonView),
}

impl View for ApplyPlan {
    type V = ApplyView;

    open spec fn view(&self) -> ApplyView {
        match self {
            ApplyPlan::Create(body) => ApplyView::Create(body@),
            ApplyPlan::Patch(body) => ApplyView::Patch(body@),
        }
    }
}

/// What is sent to apply an object: nothing that is there already is created, and
/// nothing is changed but the very version that was inspected.
pub open spec fn apply_outcome(
    reference: RenderedObjectRef,
    document: JsonView,
    precondition: Option<LiveObjectIdentity>,
) -> Result<ApplyView, ClientErrorView> {
    match kube_materializer::resource_outcome(reference) {
        Err(error) => Err(error),
        Ok(_) => match precondition {
            None => Ok(ApplyView::Create(document)),
            Some(identity) => match kube_materializer::identity_verdict(identity) {
                Err(error) => Err(error),
                Ok(_) => Ok(ApplyView::Patch(kube_materializer::conditioned(document, identity))),
            },
        },
    }
}

/// Settles what is sent to apply an object.
pub fn apply_plan(object: &KubernetesObject, precondition: Option<&LiveObjectIdentity>) -> (result:
    Result<ApplyPlan, KubernetesClientError>)
    requires
        serialize::serializable(object@),
    ensures
        exists|reference: RenderedObjectRef| #[trigger]
            materializer::refers_to(reference, object@) && materializer::answer(result)
                == apply_outcome(
                reference,
                serialize::document_of(object@),
                match precondition {
                    Some(identity) => Some(*identity),
                    None => None,
                },
            ),
{
    let reference = rendered_object_ref(object);
    assert(materializer::refers_to(reference, object@));
    api_resource_for_ref(&reference)?;
    match precondition {
        None => Ok(ApplyPlan::Create(object.to_kubernetes_json())),
        Some(identity) => {
            let body = conditional_body(object, identity)?;
            Ok(ApplyPlan::Patch(body))
        },
    }
}

/// What an object that was sent came to.
pub open spec fn apply_sent(answer: ClusterAnswer<()>) -> Result<(), ClientErrorView> {
    match answer {
        ClusterAnswer::Given(_) => Ok(()),
        ClusterAnswer::Failed(error) => Err(kube_materializer::change_failure(error)),
        ClusterAnswer::TimedOut => Err(
            materializer::uncertain("Kubernetes mutation timed out; effect outcome is unknown"@),
        ),
    }
}

/// What an object that was sent came to.
pub fn applied(answer: ClusterAnswer<()>) -> (result: Result<(), KubernetesClientError>)
    ensures
        materializer::plain_answer(result) == apply_sent(answer),
{
    match answer {
        ClusterAnswer::Given(_) => Ok(()),
        ClusterAnswer::Failed(error) => Err(mutation_error(&error)),
        ClusterAnswer::TimedOut => Err(
            KubernetesClientError::uncertain(
                "Kubernetes mutation timed out; effect outcome is unknown",
            ),
        ),
    }
}

/// A change that no answer came to in time is never taken for refused or done.
pub proof fn law_silence_leaves_the_outcome_open(answer: ClusterAnswer<()>)
    requires
        answer == ClusterAnswer::<()>::TimedOut,
    ensures
        apply_sent(answer) matches Err(error) && error.kind
            == materializer::ClientErrorKind::Uncertain,
        delete_sent(answer) matches Err(error) && error.kind
            == materializer::ClientErrorKind::Uncertain,
{
}

// ---------------------------------------------------------------------------
// Waiting
// ---------------------------------------------------------------------------
/// What is done with one look at something that is waited for.
#[derive(Debug, PartialEq, Eq)]
pub enum WaitStep<T> {
    Done(Result<T, KubernetesClientError>),
    /// Wait so long, then look again.
    Sleep(Duration),
}

/// The error of a read that took too long.
pub open spec fn read_timeout() -> ClientErrorView {
    materializer::transient("Kubernetes read/wait timed out"@)
}

/// How long a look that found nothing is followed by waiting.
pub open spec fn poll_wait(remaining: Duration, poll_interval: Duration, wait: Duration) -> bool {
    &&& remaining@ > 0
    &&& wait@ == if poll_interval@ <= remaining@ {
        poll_interval@
    } else {
        remaining@
    }
}

/// The name of an object in messages.
pub open spec fn place_of(namespace: Seq<char>, name: Seq<char>) -> Seq<char> {
    namespace + "/"@ + name
}

/// The error of a claim that was not bound in time.
pub open spec fn unbound_claim(namespace: Seq<char>, name: Seq<char>) -> ClientErrorView {
    materializer::permanent(
        "timed out waiting for PersistentVolumeClaim "@ + place_of(namespace, name)
            + " to become Bound"@,
    )
}

/// What follows one look at a claim that must be bound.
pub open spec fn claim_looked_at(
    step: WaitStep<()>,
    namespace: Seq<char>,
    name: Seq<char>,
    answer: ClusterAnswer<Option<Seq<char>>>,
    remaining: Duration,
    poll_interval: Duration,
) -> bool {
    match answer {
        ClusterAnswer::TimedOut => step matches WaitStep::Done(Err(error)) && error@
            == read_timeout(),
        ClusterAnswer::Failed(error) => step matches WaitStep::Done(Err(told)) && told@
            == kube_materializer::read_failure(error),
        ClusterAnswer::Given(phase) => if phase == Some("Bound"@) {
            step matches WaitStep::Done(Ok(_))
        } else if remaining@ == 0 {
            step matches WaitStep::Done(Err(error)) && error@ == unbound_claim(namespace, name)
        } else {
            step matches WaitStep::Sleep(wait) && poll_wait(remaining, poll_interval, wait)
        },
    }
}

/// Decides what to do with one look at a claim that must be bound, from the phase
/// that was read and the time that is left.
pub fn claim_wait(
    namespace: &str,
    name: &str,
    answer: ClusterAnswer<Option<String>>,
    remaining: Duration,
    poll_interval: Duration,
) -> (step: WaitStep<()>)
    ensures
        claim_looked_at(step, namespace@, name@, text_answer(answer), remaining, poll_interval),
{
    match answer {
        ClusterAnswer::TimedOut => WaitStep::Done(
            Err(KubernetesClientError::transient("Kubernetes read/wait timed out")),
        ),
        ClusterAnswer::Failed(error) => WaitStep::Done(Err(kube_error(&error))),
        ClusterAnswer::Given(phase) => {
            let bound = match &phase {
                Some(phase) => pvc_phase_is_bound(Some(phase.as_str())),
                None => false,
            };
            if bound {
                return WaitStep::Done(Ok(()));
            }
            match next_poll(remaining, poll_interval) {
                Some(wait) => WaitStep::Sleep(wait),
                None => {
                    let message = "timed out waiting for PersistentVolumeClaim ".to_owned().concat(
                        namespace,
                    ).concat("/").concat(name).concat(" to become Bound");
                    assert(message@ =~= "timed out waiting for PersistentVolumeClaim "@ + place_of(
                        namespace@,
                        name@,
                    ) + " to become Bound"@);
                    WaitStep::Done(Err(KubernetesClientError::new(message.as_str())))
                },
            }
        },
    }
}

/// The error of a Service that had no ready endpoint in time.
pub open spec fn unready_service(namespace: Seq<char>, name: Seq<char>) -> ClientErrorView {
    materializer::permanent(
        "timed out waiting for ready EndpointSlice endpoints for Service "@ + place_of(
            namespace,
            name,
        ),
    )
}

/// What follows one look at a Service that must be ready.
pub open spec fn service_looked_at(
    step: WaitStep<BackendEndpoint>,
    service_ref: RenderedObjectRef,
    answer: ClusterAnswer<(LiveService, Vec<LiveEndpointSlice>)>,
    config: KubeMaterializerClientConfig,
    remaining: Duration,
) -> bool {
    match answer {
        ClusterAnswer::TimedOut => step matches WaitStep::Done(Err(error)) && error@
            == read_timeout(),
        ClusterAnswer::Failed(error) => step matches WaitStep::Done(Err(told)) && told@
            == kube_materializer::read_failure(error),
        ClusterAnswer::Given(read) => match kube_materializer::backend_outcome(
            read.0,
            config,
            None,
        ) {
            Err(error) => step matches WaitStep::Done(Err(told)) && told@ == error,
            Ok(_) => if kube_materializer::any_ready(read.0, read.1@) {
                step matches WaitStep::Done(Ok(backend)) && kube_materializer::observed_backend(
                    read.0,
                    read.1@,
                    config,
                    backend@,
                )
            } else if remaining@ == 0 {
                step matches WaitStep::Done(Err(error)) && error@ == unready_service(
                    service_ref.namespace@,
                    service_ref.name@,
                )
            } else {
                step matches WaitStep::Sleep(wait) && poll_wait(
                    remaining,
                    config.poll_interval,
                    wait,
                )
            },
        },
    }
}

/// Decides what to do with one look at a Service that must lead somewhere, from
/// what was read of it and of its slices and the time that is left.
pub fn readiness_wait(
    service_ref: &RenderedObjectRef,
    answer: ClusterAnswer<(LiveService, Vec<LiveEndpointSlice>)>,
    config: &KubeMaterializerClientConfig,
    remaining: Duration,
) -> (step: WaitStep<BackendEndpoint>)
    ensures
        service_looked_at(step, *service_ref, answer, *config, remaining),
{
    match answer {
        ClusterAnswer::TimedOut => WaitStep::Done(
            Err(KubernetesClientError::transient("Kubernetes read/wait timed out")),
        ),
        ClusterAnswer::Failed(error) => WaitStep::Done(Err(kube_error(&error))),
        ClusterAnswer::Given(read) => match readiness_step(&read.0, &read.1, config) {
            Err(error) => WaitStep::Done(Err(error)),
            Ok(Some(backend)) => WaitStep::Done(Ok(backend)),
            Ok(None) => match next_poll(remaining, config.poll_interval) {
                Some(wait) => WaitStep::Sleep(wait),
                None => {
                    let message =
                        "timed out waiting for ready EndpointSlice endpoints for Service ".to_owned().concat(
                    service_ref.namespace.as_str()).concat("/").concat(service_ref.name.as_str());
                    assert(message@
                        =~= "timed out waiting for ready EndpointSlice endpoints for Service "@
                        + place_of(service_ref.namespace@, service_ref.name@));
                    WaitStep::Done(Err(KubernetesClientError::new(message.as_str())))
                },
            },
        },
    }
}

// ---------------------------------------------------------------------------
// Inspecting
// ---------------------------------------------------------------------------
/// What is read of an object.
#[derive(Debug, PartialEq, Eq)]
pub struct LiveRead {
    pub uid: Option<String>,
    pub resource_version: Option<String>,
    pub labels: StringMap<String>,
    pub annotations: StringMap<String>,
    pub deleting: bool,
    pub finalizers: Vec<String>,
    pub reclaim_policy: Option<String>,
}

/// What is kept of an object that was read.
pub open spec fn keeps_read(live: LiveObjectMetadata, read: LiveRead) -> bool {
    &&& read.uid == Some(live.identity.uid)
    &&& read.resource_version == Some(live.identity.resource_version)
    &&& live.labels == read.labels
    &&& live.annotations == read.annotations
    &&& live.deleting == read.deleting
    &&& live.finalizers == read.finalizers
    &&& live.persistent_volume_reclaim_policy == read.reclaim_policy
}

/// What a look at an object shows.
pub open spec fn object_looked_at(
    result: Result<ProjectionObjectInspection, KubernetesClientError>,
    answer: ClusterAnswer<LiveRead>,
) -> bool {
    match answer {
        ClusterAnswer::TimedOut => result matches Err(error) && error@
            == materializer::transient("Kubernetes inspection timed out"@),
        ClusterAnswer::Failed(error) => if kube_materializer::tells_missing(error) {
            result == Ok::<ProjectionObjectInspection, KubernetesClientError>(
                ProjectionObjectInspection::Missing,
            )
        } else {
            result matches Err(told) && told@ == kube_materializer::read_failure(error)
        },
        ClusterAnswer::Given(read) => if read.uid is None {
            result matches Err(error) && error@ == materializer::permanent(
                "live Kubernetes object has no UID"@,
            )
        } else if read.resource_version is None {
            result matches Err(error) && error@ == materializer::permanent(
                "live Kubernetes object has no resourceVersion"@,
            )
        } else {
            result matches Ok(ProjectionObjectInspection::Present(live)) && keeps_read(
                live,
                read,
            )
        },
    }
}

/// Tells what an object was found to be.
pub fn inspection_of(answer: ClusterAnswer<LiveRead>) -> (result: Result<
    ProjectionObjectInspection,
    KubernetesClientError,
>)
    ensures
        object_looked_at(result, answer),
{
    match answer {
        ClusterAnswer::TimedOut => Err(
            KubernetesClientError::transient("Kubernetes inspection timed out"),
        ),
        ClusterAnswer::Failed(error) => if is_not_found(&error) {
            Ok(ProjectionObjectInspection::Missing)
        } else {
            Err(kube_error(&error))
        },
        ClusterAnswer::Given(read) => {
            let live = live_metadata(
                read.uid,
                read.resource_version,
                read.labels,
                read.annotations,
                read.deleting,
                read.finalizers,
                read.reclaim_policy,
            )?;
            Ok(ProjectionObjectInspection::Present(live))
        },
    }
}

/// Where the inspection of a Service stands once the Service was asked for.
#[derive(Debug, PartialEq, Eq)]
pub enum ServiceRead {
    /// The slices of this Service are asked for next.
    Found(LiveService),
    Ended(Result<ProjectionReadinessInspection, KubernetesClientError>),
}

/// Tells what becomes of the inspection of a Service once it was asked for.
pub fn service_read(answer: ClusterAnswer<LiveService>) -> (read: ServiceRead)
    ensures
        match answer {
            ClusterAnswer::TimedOut => read matches ServiceRead::Ended(Err(error)) && error@
                == read_timeout(),
            ClusterAnswer::Failed(error) => if kube_materializer::tells_missing(error) {
                read matches ServiceRead::Ended(
                    Ok(ProjectionReadinessInspection::Unready { reason }),
                ) && reason@ == "service_missing"@
            } else {
                read matches ServiceRead::Ended(Err(told)) && told@
                    == kube_materializer::read_failure(error)
            },
            ClusterAnswer::Given(service) => read == ServiceRead::Found(service),
        },
{
    match answer {
        ClusterAnswer::TimedOut => ServiceRead::Ended(
            Err(KubernetesClientError::transient("Kubernetes read/wait timed out")),
        ),
        ClusterAnswer::Failed(error) => if is_not_found(&error) {
            ServiceRead::Ended(
                Ok(
                    ProjectionReadinessInspection::Unready {
                        reason: "service_missing".to_owned(),
                    },
                ),
            )
        } else {
            ServiceRead::Ended(Err(kube_error(&error)))
        },
        ClusterAnswer::Given(service) => ServiceRead::Found(service),
    }
}

/// Tells whether an instance can be used, once the slices of its Service were
/// asked for.
pub fn slices_read(
    service: &LiveService,
    answer: ClusterAnswer<Vec<LiveEndpointSlice>>,
    config: &KubeMaterializerClientConfig,
) -> (result: Result<ProjectionReadinessInspection, KubernetesClientError>)
    ensures
        match answer {
            ClusterAnswer::TimedOut => result matches Err(error) && error@ == read_timeout(),
            ClusterAnswer::Failed(error) => result matches Err(told) && told@
                == kube_materializer::read_failure(error),
            ClusterAnswer::Given(slices) => result matches Ok(inspection)
                && kube_materializer::inspected(*service, slices@, *config, inspection),
        },
{
    match answer {
        ClusterAnswer::TimedOut => Err(
            KubernetesClientError::transient("Kubernetes read/wait timed out"),
        ),
        ClusterAnswer::Failed(error) => Err(kube_error(&error)),
        ClusterAnswer::Given(slices) => Ok(
            readiness_inspection_for_service(service, &slices, config),
        ),
    }
}

} // verus!
