//! The objects of an instance as a whole: their order, their references and the
//! storage among them.

use super::objects::{
    self, ApplyOrder, KubernetesObject, KubernetesObjectView, RenderedManifestObject,
    RenderedManifestObjectView,
};
use super::raw::{self, holds_text, read_below};
use super::{field_error, ManifestRenderError, Outcome};
use crate::json::{self, Json, JsonView};
use crate::text::same_text;
use vstd::prelude::*;
use vstd::string::*;

verus! {

// ---------------------------------------------------------------------------
// Order of application
// ---------------------------------------------------------------------------
/// The turn in which an object is applied: volumes before the claims on them,
/// and everything a pod needs before the workload.
pub open spec fn turn(order: ApplyOrder) -> int {
    match order {
        ApplyOrder::PersistentVolume => 0,
        ApplyOrder::PersistentVolumeClaim => 1,
        ApplyOrder::Secret => 2,
        ApplyOrder::Service => 3,
        ApplyOrder::Workload => 4,
    }
}

/// The objects of one turn, in their order.
pub open spec fn in_turn(objects: Seq<RenderedManifestObjectView>, order: ApplyOrder) -> Seq<
    RenderedManifestObjectView,
>
    decreases objects.len(),
{
    if objects.len() == 0 {
        Seq::empty()
    } else {
        let before = in_turn(objects.drop_last(), order);
        if objects.last().apply_order == order {
            before.push(objects.last())
        } else {
            before
        }
    }
}

/// The objects turn by turn; within a turn their order stays.
pub open spec fn in_application_order(objects: Seq<RenderedManifestObjectView>) -> Seq<
    RenderedManifestObjectView,
> {
    in_turn(objects, ApplyOrder::PersistentVolume) + in_turn(
        objects,
        ApplyOrder::PersistentVolumeClaim,
    ) + in_turn(objects, ApplyOrder::Secret) + in_turn(objects, ApplyOrder::Service) + in_turn(
        objects,
        ApplyOrder::Workload,
    )
}

proof fn lemma_in_turn(objects: Seq<RenderedManifestObjectView>, order: ApplyOrder)
    ensures
        forall|i: int|
            0 <= i < in_turn(objects, order).len() ==> {
                &&& (#[trigger] in_turn(objects, order)[i]).apply_order == order
                &&& objects.contains(in_turn(objects, order)[i])
            },
    decreases objects.len(),
{
    if objects.len() > 0 {
        lemma_in_turn(objects.drop_last(), order);
        assert forall|i: int| 0 <= i < in_turn(objects, order).len() implies {
            &&& (#[trigger] in_turn(objects, order)[i]).apply_order == order
            &&& objects.contains(in_turn(objects, order)[i])
        } by {
            let earlier = in_turn(objects.drop_last(), order);
            if i < earlier.len() {
                assert(in_turn(objects, order)[i] == earlier[i]);
                let at = choose|at: int|
                    0 <= at < objects.drop_last().len() && objects.drop_last()[at] == earlier[i];
                assert(objects[at] == earlier[i]);
            } else {
                assert(objects[objects.len() - 1] == in_turn(objects, order)[i]);
            }
        }
    }
}

proof fn lemma_multiset_of_turns(objects: Seq<RenderedManifestObjectView>)
    ensures
        in_application_order(objects).to_multiset() == objects.to_multiset(),
    decreases objects.len(),
{
    broadcast use vstd::seq_lib::group_to_multiset_ensures;
    broadcast use vstd::multiset::group_multiset_axioms;

    if objects.len() == 0 {
        assert(in_application_order(objects) =~= objects);
    } else {
        lemma_multiset_of_turns(objects.drop_last());
        let last = objects.last();
        let shorter = objects.drop_last();
        let a = in_turn(shorter, ApplyOrder::PersistentVolume);
        let b = in_turn(shorter, ApplyOrder::PersistentVolumeClaim);
        let c = in_turn(shorter, ApplyOrder::Secret);
        let d = in_turn(shorter, ApplyOrder::Service);
        let e = in_turn(shorter, ApplyOrder::Workload);
        vstd::seq_lib::lemma_multiset_commutative(a, b);
        vstd::seq_lib::lemma_multiset_commutative(a + b, c);
        vstd::seq_lib::lemma_multiset_commutative(a + b + c, d);
        vstd::seq_lib::lemma_multiset_commutative(a + b + c + d, e);
        let a2 = in_turn(objects, ApplyOrder::PersistentVolume);
        let b2 = in_turn(objects, ApplyOrder::PersistentVolumeClaim);
        let c2 = in_turn(objects, ApplyOrder::Secret);
        let d2 = in_turn(objects, ApplyOrder::Service);
        let e2 = in_turn(objects, ApplyOrder::Workload);
        vstd::seq_lib::lemma_multiset_commutative(a2, b2);
        vstd::seq_lib::lemma_multiset_commutative(a2 + b2, c2);
        vstd::seq_lib::lemma_multiset_commutative(a2 + b2 + c2, d2);
        vstd::seq_lib::lemma_multiset_commutative(a2 + b2 + c2 + d2, e2);
        assert(objects =~= shorter.push(last));
        assert(objects.to_multiset() =~= shorter.to_multiset().insert(last));
        assert(in_application_order(objects).to_multiset() =~= in_application_order(
            shorter,
        ).to_multiset().insert(last));
    }
}

proof fn lemma_turn_of_sum(
    left: Seq<RenderedManifestObjectView>,
    right: Seq<RenderedManifestObjectView>,
    order: ApplyOrder,
)
    ensures
        in_turn(left + right, order) == in_turn(left, order) + in_turn(right, order),
    decreases right.len(),
{
    if right.len() == 0 {
        assert(left + right =~= left);
        assert(in_turn(left, order) + in_turn(right, order) =~= in_turn(left, order));
    } else {
        lemma_turn_of_sum(left, right.drop_last(), order);
        assert((left + right).drop_last() =~= left + right.drop_last());
        assert(in_turn(left + right, order) =~= in_turn(left, order) + in_turn(right, order));
    }
}

proof fn lemma_turn_of_uniform(
    objects: Seq<RenderedManifestObjectView>,
    held: ApplyOrder,
    order: ApplyOrder,
)
    requires
        forall|i: int| 0 <= i < objects.len() ==> (#[trigger] objects[i]).apply_order == held,
    ensures
        in_turn(objects, order) == (if held == order {
            objects
        } else {
            Seq::empty()
        }),
    decreases objects.len(),
{
    if objects.len() > 0 {
        lemma_turn_of_uniform(objects.drop_last(), held, order);
        assert(objects[objects.len() - 1].apply_order == held);
        assert(objects.drop_last().push(objects.last()) =~= objects);
    }
    assert(in_turn(objects, order) =~= (if held == order {
        objects
    } else {
        Seq::empty()
    }));
}

/// Ordering the objects for application keeps each of them, as often as it
/// occurs, puts no object before one of an earlier turn, and keeps the order
/// within a turn.
pub proof fn law_application_order(objects: Seq<RenderedManifestObjectView>)
    ensures
        in_application_order(objects).to_multiset() == objects.to_multiset(),
        in_application_order(objects).len() == objects.len(),
        forall|i: int, j: int|
            #![trigger in_application_order(objects)[i], in_application_order(objects)[j]]
            0 <= i <= j < objects.len() ==> turn(in_application_order(objects)[i].apply_order)
                <= turn(in_application_order(objects)[j].apply_order),
        forall|order: ApplyOrder|
            #[trigger] in_turn(in_application_order(objects), order) == in_turn(objects, order),
        forall|i: int|
            0 <= i < objects.len() ==> objects.contains(
                #[trigger] in_application_order(objects)[i],
            ),
{
    broadcast use vstd::seq_lib::group_to_multiset_ensures;

    lemma_multiset_of_turns(objects);
    assert(in_application_order(objects).len() == in_application_order(
        objects,
    ).to_multiset().len());
    assert(objects.len() == objects.to_multiset().len());
    let a = in_turn(objects, ApplyOrder::PersistentVolume);
    let b = in_turn(objects, ApplyOrder::PersistentVolumeClaim);
    let c = in_turn(objects, ApplyOrder::Secret);
    let d = in_turn(objects, ApplyOrder::Service);
    let e = in_turn(objects, ApplyOrder::Workload);
    lemma_in_turn(objects, ApplyOrder::PersistentVolume);
    lemma_in_turn(objects, ApplyOrder::PersistentVolumeClaim);
    lemma_in_turn(objects, ApplyOrder::Secret);
    lemma_in_turn(objects, ApplyOrder::Service);
    lemma_in_turn(objects, ApplyOrder::Workload);
    assert forall|order: ApplyOrder|
        #[trigger] in_turn(in_application_order(objects), order) == in_turn(objects, order) by {
        lemma_turn_of_sum(a, b, order);
        lemma_turn_of_sum(a + b, c, order);
        lemma_turn_of_sum(a + b + c, d, order);
        lemma_turn_of_sum(a + b + c + d, e, order);
        lemma_turn_of_uniform(a, ApplyOrder::PersistentVolume, order);
        lemma_turn_of_uniform(b, ApplyOrder::PersistentVolumeClaim, order);
        lemma_turn_of_uniform(c, ApplyOrder::Secret, order);
        lemma_turn_of_uniform(d, ApplyOrder::Service, order);
        lemma_turn_of_uniform(e, ApplyOrder::Workload, order);
        assert(in_turn(in_application_order(objects), order) =~= in_turn(objects, order));
    }
}

fn place(turns: &mut Vec<RenderedManifestObject>, object: RenderedManifestObject)
    ensures
        super::views(final(turns)@) == super::views(old(turns)@).push(object@),
{
    turns.push(object);
    assert(super::views(turns@) =~= super::views(old(turns)@).push(object@));
}

fn follow(first: Vec<RenderedManifestObject>, then: Vec<RenderedManifestObject>) -> (joined: Vec<
    RenderedManifestObject,
>)
    ensures
        super::views(joined@) == super::views(first@) + super::views(then@),
{
    let mut joined = first;
    let mut rest = then;
    joined.append(&mut rest);
    assert(super::views(joined@) =~= super::views(first@) + super::views(then@));
    joined
}

/// Puts the objects into the order of application.
pub fn order_for_application(objects: Vec<RenderedManifestObject>) -> (ordered: Vec<
    RenderedManifestObject,
>)
    ensures
        super::views(ordered@) == in_application_order(super::views(objects@)),
{
    let ghost whole = super::views(objects@);
    let mut waiting = objects;
    let mut volumes: Vec<RenderedManifestObject> = Vec::new();
    let mut claims: Vec<RenderedManifestObject> = Vec::new();
    let mut secrets: Vec<RenderedManifestObject> = Vec::new();
    let mut services: Vec<RenderedManifestObject> = Vec::new();
    let mut workloads: Vec<RenderedManifestObject> = Vec::new();
    let ghost mut done: int = 0;
    proof {
        assert(super::views(volumes@) =~= Seq::<RenderedManifestObjectView>::empty());
        assert(whole.take(0) =~= Seq::<RenderedManifestObjectView>::empty());
        assert(super::views(waiting@) =~= whole.skip(0));
    }
    while waiting.len() > 0
        invariant
            0 <= done,
            done + waiting@.len() == whole.len(),
            super::views(waiting@) == whole.skip(done),
            super::views(volumes@) == in_turn(whole.take(done), ApplyOrder::PersistentVolume),
            super::views(claims@) == in_turn(
                whole.take(done),
                ApplyOrder::PersistentVolumeClaim,
            ),
            super::views(secrets@) == in_turn(whole.take(done), ApplyOrder::Secret),
            super::views(services@) == in_turn(whole.take(done), ApplyOrder::Service),
            super::views(workloads@) == in_turn(whole.take(done), ApplyOrder::Workload),
        decreases waiting.len(),
    {
        let ghost before = waiting@;
        let object = waiting.remove(0);
        proof {
            assert(object@ == super::views(before)[0]);
            assert(object@ == whole[done]);
            assert(super::views(waiting@) =~= whole.skip(done + 1)) by {
                assert forall|i: int| 0 <= i < waiting@.len() implies super::views(waiting@)[i]
                    == #[trigger] whole.skip(done + 1)[i] by {
                    assert(waiting@[i] == before[i + 1]);
                    assert(super::views(before)[i + 1] == whole.skip(done)[i + 1]);
                }
            }
            assert(whole.take(done + 1).drop_last() =~= whole.take(done));
            assert(whole.take(done + 1).last() == object@);
            done = done + 1;
        }
        match object.apply_order {
            ApplyOrder::PersistentVolume => place(&mut volumes, object),
            ApplyOrder::PersistentVolumeClaim => place(&mut claims, object),
            ApplyOrder::Secret => place(&mut secrets, object),
            ApplyOrder::Service => place(&mut services, object),
            ApplyOrder::Workload => place(&mut workloads, object),
        }
    }
    assert(whole.take(done) =~= whole);
    follow(follow(follow(follow(volumes, claims), secrets), services), workloads)
}

// ---------------------------------------------------------------------------
// References
// ---------------------------------------------------------------------------
/// What tells an object from every other in the cluster.
#[verifier::ext_equal]
pub struct ReferenceView {
    pub api_version: Seq<char>,
    pub kind: Seq<char>,
    pub namespace: Seq<char>,
    pub name: Seq<char>,
}

/// The reference of an object.
pub open spec fn reference_of(object: KubernetesObjectView) -> ReferenceView {
    ReferenceView {
        api_version: objects::api_version_of(object),
        kind: objects::kind_of(object),
        namespace: objects::namespace_of(object),
        name: objects::metadata_of(object).name,
    }
}

/// One of the first `count` objects has a reference.
pub open spec fn referenced(
    objects: Seq<RenderedManifestObjectView>,
    count: int,
    reference: ReferenceView,
) -> bool {
    exists|i: int|
        0 <= i < count && i < objects.len() && reference_of((#[trigger] objects[i]).object)
            == reference
}

/// Among the first `count` objects no two have one reference; the first that
/// repeats one is refused.
pub open spec fn unique_verdict(objects: Seq<RenderedManifestObjectView>, count: nat) -> Outcome<()>
    decreases count,
{
    if count == 0 || count > objects.len() {
        Ok(())
    } else {
        match unique_verdict(objects, (count - 1) as nat) {
            Err(error) => Err(error),
            Ok(_) => {
                let reference = reference_of(objects[count - 1].object);
                if referenced(objects, count - 1, reference) {
                    super::invalid_field(
                        "template"@,
                        "duplicate rendered Kubernetes object ref "@ + reference.api_version
                            + " "@ + reference.kind + " "@ + reference.namespace + "/"@
                            + reference.name,
                    )
                } else {
                    Ok(())
                }
            },
        }
    }
}

proof fn lemma_unique_error_stays(
    objects: Seq<RenderedManifestObjectView>,
    from: nat,
    to: nat,
)
    requires
        from <= to <= objects.len(),
        unique_verdict(objects, from) is Err,
    ensures
        unique_verdict(objects, to) == unique_verdict(objects, from),
    decreases to,
{
    if from < to {
        lemma_unique_error_stays(objects, from, (to - 1) as nat);
    }
}

proof fn lemma_unique(objects: Seq<RenderedManifestObjectView>, count: nat)
    requires
        count <= objects.len(),
        unique_verdict(objects, count) is Ok,
    ensures
        forall|i: int, j: int|
            #![trigger objects[i], objects[j]]
            0 <= i < j < count ==> reference_of(objects[i].object) != reference_of(
                objects[j].object,
            ),
    decreases count,
{
    if count > 0 {
        lemma_unique(objects, (count - 1) as nat);
        assert forall|i: int, j: int|
            #![trigger objects[i], objects[j]]
            0 <= i < j < count implies reference_of(objects[i].object) != reference_of(
            objects[j].object,
        ) by {
            if j == count - 1 {
                assert(!referenced(objects, count - 1, reference_of(objects[count - 1].object)));
            }
        }
    }
}

/// Objects that pass the check have as many references as there are objects.
pub proof fn law_references_are_unique(objects: Seq<RenderedManifestObjectView>)
    ensures
        unique_verdict(objects, objects.len()) is Ok <==> (forall|i: int, j: int|
            #![trigger objects[i], objects[j]]
            0 <= i < j < objects.len() ==> reference_of(objects[i].object) != reference_of(
                objects[j].object,
            )),
{
    if unique_verdict(objects, objects.len()) is Ok {
        lemma_unique(objects, objects.len());
    } else if (forall|i: int, j: int|
        #![trigger objects[i], objects[j]]
        0 <= i < j < objects.len() ==> reference_of(objects[i].object) != reference_of(
            objects[j].object,
        )) {
        lemma_distinct_pass(objects, objects.len());
    }
}

proof fn lemma_distinct_pass(objects: Seq<RenderedManifestObjectView>, count: nat)
    requires
        count <= objects.len(),
        forall|i: int, j: int|
            #![trigger objects[i], objects[j]]
            0 <= i < j < objects.len() ==> reference_of(objects[i].object) != reference_of(
                objects[j].object,
            ),
    ensures
        unique_verdict(objects, count) is Ok,
    decreases count,
{
    if count > 0 {
        lemma_distinct_pass(objects, (count - 1) as nat);
        assert(!referenced(objects, count - 1, reference_of(objects[count - 1].object)));
    }
}

fn same_reference(left: &KubernetesObject, right: &KubernetesObject) -> (same: bool)
    ensures
        same == (reference_of(left@) == reference_of(right@)),
{
    let same = same_text(left.api_version(), right.api_version()) && same_text(
        left.kind(),
        right.kind(),
    ) && same_text(left.namespace(), right.namespace()) && same_text(left.name(), right.name());
    same
}

/// Checks that no two objects have one reference.
pub fn validate_unique_rendered_refs(objects: &Vec<RenderedManifestObject>) -> (result: Result<
    (),
    ManifestRenderError,
>)
    ensures
        super::verdict(result) == unique_verdict(super::views(objects@), objects@.len()),
{
    let ghost seen = super::views(objects@);
    let mut at: usize = 0;
    while at < objects.len()
        invariant
            at <= objects.len(),
            seen == super::views(objects@),
            unique_verdict(seen, at as nat) is Ok,
        decreases objects.len() - at,
    {
        let object = &objects[at].object;
        assert(object@ == seen[at as int].object);
        let mut other: usize = 0;
        while other < at
            invariant
                other <= at < objects.len(),
                seen == super::views(objects@),
                object@ == seen[at as int].object,
                unique_verdict(seen, at as nat) is Ok,
                forall|i: int|
                    0 <= i < other ==> reference_of((#[trigger] seen[i]).object) != reference_of(
                        object@,
                    ),
            decreases at - other,
        {
            if same_reference(&objects[other].object, object) {
                let message = "duplicate rendered Kubernetes object ref ".to_owned().concat(
                    object.api_version(),
                ).concat(" ").concat(object.kind()).concat(" ").concat(object.namespace()).concat(
                    "/",
                ).concat(object.name());
                proof {
                    assert(reference_of(seen[other as int].object) == reference_of(object@));
                    assert(referenced(seen, at as int, reference_of(object@)));
                    lemma_unique_error_stays(seen, (at + 1) as nat, seen.len());
                }
                return Err(field_error("template", message.as_str()));
            }
            other = other + 1;
        }
        assert(!referenced(seen, at as int, reference_of(object@)));
        at = at + 1;
    }
    Ok(())
}

// ---------------------------------------------------------------------------
// Storage
// ---------------------------------------------------------------------------
/// A document is a PersistentVolume.
pub open spec fn is_volume(document: JsonView) -> bool {
    raw::is_text(json::member(document, "kind"@), "PersistentVolume"@)
}

/// A document is a PersistentVolumeClaim.
pub open spec fn is_claim(document: JsonView) -> bool {
    raw::is_text(json::member(document, "kind"@), "PersistentVolumeClaim"@)
}

/// A volume keeps its bytes when it is released.
pub open spec fn retained(document: JsonView) -> bool {
    raw::text_below(document, "spec"@, "persistentVolumeReclaimPolicy"@) == Some("Retain"@)
}

/// Some document is a PersistentVolume of a name.
pub open spec fn holds_volume(documents: Seq<JsonView>, name: Seq<char>) -> bool {
    exists|i: int|
        0 <= i < documents.len() && is_volume(#[trigger] documents[i]) && raw::text_below(
            documents[i],
            "metadata"@,
            "name"@,
        ) == Some(name)
}

/// A claim names a volume among the documents.
pub open spec fn bound(documents: Seq<JsonView>, claim: JsonView) -> bool {
    match raw::text_below(claim, "spec"@, "volumeName"@) {
        Some(name) => name.len() > 0 && holds_volume(documents, name),
        None => false,
    }
}

/// What a document among others must fulfil as to storage.
pub open spec fn storage_verdict(documents: Seq<JsonView>, document: JsonView) -> Outcome<()> {
    if is_volume(document) && !retained(document) {
        super::invalid_field(
            "volumes.reclaim_policy"@,
            "all managed static PVs, including raw PVs, require explicit Retain"@,
        )
    } else if is_claim(document) && !bound(documents, document) {
        super::invalid_field(
            "volumes.static_binding"@,
            "PVC must explicitly bind a retained PV in the same managed inventory; dynamic/external bindings are unsupported"@,
        )
    } else {
        Ok(())
    }
}

/// The first `count` documents fulfil what storage asks of them.
pub open spec fn inventory_verdict(documents: Seq<JsonView>, count: nat) -> Outcome<()>
    decreases count,
{
    if count == 0 || count > documents.len() {
        Ok(())
    } else {
        match inventory_verdict(documents, (count - 1) as nat) {
            Err(error) => Err(error),
            Ok(_) => storage_verdict(documents, documents[count - 1]),
        }
    }
}

proof fn lemma_inventory_error_stays(documents: Seq<JsonView>, from: nat, to: nat)
    requires
        from <= to <= documents.len(),
        inventory_verdict(documents, from) is Err,
    ensures
        inventory_verdict(documents, to) == inventory_verdict(documents, from),
    decreases to,
{
    if from < to {
        lemma_inventory_error_stays(documents, from, (to - 1) as nat);
    }
}

proof fn lemma_inventory(documents: Seq<JsonView>, count: nat)
    requires
        count <= documents.len(),
        inventory_verdict(documents, count) is Ok,
    ensures
        forall|i: int|
            0 <= i < count ==> {
                &&& is_volume(#[trigger] documents[i]) ==> retained(documents[i])
                &&& is_claim(documents[i]) ==> bound(documents, documents[i])
            },
    decreases count,
{
    if count > 0 {
        lemma_inventory(documents, (count - 1) as nat);
    }
}

/// In an inventory that passes, every volume keeps its bytes and every claim
/// names one of the volumes beside it.
pub proof fn law_storage_is_retained(documents: Seq<JsonView>)
    ensures
        inventory_verdict(documents, documents.len()) is Ok ==> forall|i: int|
            0 <= i < documents.len() ==> {
                &&& is_volume(#[trigger] documents[i]) ==> retained(documents[i])
                &&& is_claim(documents[i]) ==> bound(documents, documents[i])
            },
{
    if inventory_verdict(documents, documents.len()) is Ok {
        lemma_inventory(documents, documents.len());
    }
}

fn has_volume(documents: &Vec<Json>, name: &str) -> (found: bool)
    ensures
        found == holds_volume(json::json_views(documents@), name@),
{
    let ghost seen = json::json_views(documents@);
    let mut at: usize = 0;
    while at < documents.len()
        invariant
            at <= documents.len(),
            seen == json::json_views(documents@),
            forall|i: int|
                0 <= i < at ==> !(is_volume(#[trigger] seen[i]) && raw::text_below(
                    seen[i],
                    "metadata"@,
                    "name"@,
                ) == Some(name@)),
        decreases documents.len() - at,
    {
        let document = &documents[at];
        assert(document@ == seen[at as int]);
        if holds_text(document.get("kind"), "PersistentVolume") {
            if let Some(found) = read_below(document, "metadata", "name") {
                if same_text(found.as_str(), name) {
                    return true;
                }
            }
        }
        at = at + 1;
    }
    false
}

fn check_storage(documents: &Vec<Json>, document: &Json) -> (result: Result<
    (),
    ManifestRenderError,
>)
    ensures
        super::verdict(result) == storage_verdict(json::json_views(documents@), document@),
{
    if holds_text(document.get("kind"), "PersistentVolume") {
        let kept = match read_below(document, "spec", "persistentVolumeReclaimPolicy") {
            Some(policy) => same_text(policy.as_str(), "Retain"),
            None => false,
        };
        if !kept {
            return Err(
                field_error(
                    "volumes.reclaim_policy",
                    "all managed static PVs, including raw PVs, require explicit Retain",
                ),
            );
        }
    }
    if holds_text(document.get("kind"), "PersistentVolumeClaim") {
        let named = match read_below(document, "spec", "volumeName") {
            Some(name) => !name.as_str().is_empty() && has_volume(documents, name.as_str()),
            None => false,
        };
        if !named {
            return Err(
                field_error(
                    "volumes.static_binding",
                    "PVC must explicitly bind a retained PV in the same managed inventory; dynamic/external bindings are unsupported",
                ),
            );
        }
    }
    Ok(())
}

/// Checks that the volumes of an inventory keep their bytes and that its claims
/// name them.
pub fn validate_retained_static_inventory(documents: &Vec<Json>) -> (result: Result<
    (),
    ManifestRenderError,
>)
    ensures
        super::verdict(result) == inventory_verdict(
            json::json_views(documents@),
            documents@.len(),
        ),
{
    let ghost seen = json::json_views(documents@);
    let mut at: usize = 0;
    while at < documents.len()
        invariant
            at <= documents.len(),
            seen == json::json_views(documents@),
            inventory_verdict(seen, at as nat) is Ok,
        decreases documents.len() - at,
    {
        assert(documents@[at as int]@ == seen[at as int]);
        if let Err(error) = check_storage(documents, &documents[at]) {
            proof {
                lemma_inventory_error_stays(seen, (at + 1) as nat, seen.len());
            }
            return Err(error);
        }
        at = at + 1;
    }
    Ok(())
}

} // verus!
