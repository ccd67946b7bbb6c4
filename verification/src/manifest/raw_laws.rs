//! What becomes of a manifest that an author wrote themselves, and of the storage of an
//! inventory.

use super::checks;
use super::inventory;
use super::objects::{self, ApplyOrder, KubernetesObjectView, TextMap};
use super::raw;
use super::serialize::Members;
use super::serialize_laws::below;
use super::template::{
    self, ManifestTemplate, PersistentVolumeReclaimPolicy, RawKubernetesManifestTemplate,
    TemplatePartView, WorkloadTemplate,
};
use crate::json::{self, JsonView};
use crate::string_map;
use crate::text;
use crate::yaml;
use vstd::prelude::*;

verus! {

// ---------------------------------------------------------------------------
// Kinds and turns
// ---------------------------------------------------------------------------
/// A raw object is of one of six kinds, each with the turn in which it is applied; only a
/// volume belongs to no namespace, and only workloads have pods.
pub proof fn law_a_raw_object_is_of_a_known_kind(api_version: Seq<char>, kind: Seq<char>)
    ensures
        ({
            let order = raw::raw_order(api_version, kind);
            let core = api_version == "v1"@;
            let workload = kind == "Deployment"@ || kind == "StatefulSet"@;
            &&& order == Ok::<ApplyOrder, super::RenderErrorView>(ApplyOrder::PersistentVolume)
                <==> core && kind == "PersistentVolume"@
            &&& order == Ok::<ApplyOrder, super::RenderErrorView>(ApplyOrder::PersistentVolumeClaim)
                <==> core && kind == "PersistentVolumeClaim"@
            &&& order == Ok::<ApplyOrder, super::RenderErrorView>(ApplyOrder::Secret) <==> core
                && kind == "Secret"@
            &&& order == Ok::<ApplyOrder, super::RenderErrorView>(ApplyOrder::Service) <==> core
                && kind == "Service"@
            &&& order == Ok::<ApplyOrder, super::RenderErrorView>(ApplyOrder::Workload)
                <==> api_version == "apps/v1"@ && workload
            &&& raw::namespaced_kind(kind) <==> kind != "PersistentVolume"@
            &&& raw::has_pods(kind) <==> workload
        }),
{
    reveal_strlit("v1");
    reveal_strlit("apps/v1");
    reveal_strlit("PersistentVolume");
    reveal_strlit("PersistentVolumeClaim");
    reveal_strlit("Secret");
    reveal_strlit("Service");
    assert("v1"@.len() != "apps/v1"@.len());
    assert("PersistentVolume"@.len() == 16);
    assert("PersistentVolumeClaim"@.len() == 21);
    assert("Secret"@.len() == 6);
    assert("Service"@.len() == 7);
}

/// What others need comes before them: volumes before claims, claims before secrets,
/// secrets before services, and services before workloads.
pub proof fn law_what_is_needed_comes_first()
    ensures
        inventory::turn(ApplyOrder::PersistentVolume) < inventory::turn(
            ApplyOrder::PersistentVolumeClaim,
        ),
        inventory::turn(ApplyOrder::PersistentVolumeClaim) < inventory::turn(ApplyOrder::Secret),
        inventory::turn(ApplyOrder::Secret) < inventory::turn(ApplyOrder::Service),
        inventory::turn(ApplyOrder::Service) < inventory::turn(ApplyOrder::Workload),
{
}

/// An object is known by its version, kind, namespace and name, and by nothing else.
pub proof fn law_an_object_is_known_by_its_name(
    left: KubernetesObjectView,
    right: KubernetesObjectView,
)
    ensures
        inventory::reference_of(left) == inventory::reference_of(right) <==> {
            &&& objects::api_version_of(left) == objects::api_version_of(right)
            &&& objects::kind_of(left) == objects::kind_of(right)
            &&& objects::namespace_of(left) == objects::namespace_of(right)
            &&& objects::metadata_of(left).name == objects::metadata_of(right).name
        },
{
}

// ---------------------------------------------------------------------------
// Labels
// ---------------------------------------------------------------------------
/// Whatever is required is there once a map is merged, whatever was there still is, and
/// nothing else is.
pub proof fn law_merging_keeps_both_sides(
    map: Members,
    required: TextMap,
    count: nat,
    field: Seq<char>,
    key: Seq<char>,
)
    requires
        count <= required.len(),
        raw::merged(map, required, count, field) is Ok,
    ensures
        ({
            let full = raw::merged(map, required, count, field)->Ok_0;
            &&& forall|i: int|
                0 <= i < count ==> string_map::entry_of(full, (#[trigger] required[i]).0) == Some(
                    JsonView::Text(required[i].1),
                )
            &&& string_map::entry_of(map, key) is Some ==> string_map::entry_of(full, key)
                == string_map::entry_of(map, key)
            &&& string_map::entry_of(map, key) is None && (forall|i: int|
                0 <= i < count ==> (#[trigger] required[i]).0 != key) ==> string_map::entry_of(
                full,
                key,
            ) is None
        }),
    decreases count,
{
    broadcast use string_map::lemma_entry_of_with_entry;

    if count > 0 {
        law_merging_keeps_both_sides(map, required, (count - 1) as nat, field, key);
        let before = raw::merged(map, required, (count - 1) as nat, field)->Ok_0;
        let full = raw::merged(map, required, count, field)->Ok_0;
        assert forall|i: int| 0 <= i < count implies string_map::entry_of(
            full,
            (#[trigger] required[i]).0,
        ) == Some(JsonView::Text(required[i].1)) by {
            if i < count - 1 {
                assert(string_map::entry_of(before, required[i].0) == Some(
                    JsonView::Text(required[i].1),
                ));
            }
        }
    }
}

/// A map is refused exactly where it says something else under a required key.
pub proof fn law_merging_refuses_only_a_conflict(
    map: Members,
    required: TextMap,
    count: nat,
    field: Seq<char>,
)
    requires
        count <= required.len(),
        forall|i: int, j: int|
            #![trigger required[i], required[j]]
            0 <= i < j < required.len() ==> required[i].0 != required[j].0,
    ensures
        raw::merged(map, required, count, field) is Ok <==> forall|i: int|
            0 <= i < count && string_map::entry_of(map, (#[trigger] required[i]).0) is Some
                ==> string_map::entry_of(map, required[i].0) == Some(
                JsonView::Text(required[i].1),
            ),
    decreases count,
{
    if count > 0 {
        law_merging_refuses_only_a_conflict(map, required, (count - 1) as nat, field);
        let last = required[count - 1];
        if raw::merged(map, required, (count - 1) as nat, field) is Ok {
            law_merging_keeps_both_sides(map, required, (count - 1) as nat, field, last.0);
            let before = raw::merged(map, required, (count - 1) as nat, field)->Ok_0;
            assert(string_map::entry_of(before, last.0) == string_map::entry_of(map, last.0));
        }
    }
}

proof fn lemma_texts(members: Members, key: Seq<char>)
    requires
        raw::all_texts(members),
    ensures
        string_map::entry_of(raw::texts_of(members), key) is Some <==> string_map::entry_of(
            members,
            key,
        ) is Some,
        string_map::entry_of(members, key) is Some ==> string_map::entry_of(members, key) == Some(
            JsonView::Text(string_map::entry_of(raw::texts_of(members), key)->Some_0),
        ),
    decreases members.len(),
{
    if members.len() > 0 {
        assert(members[0].1 is Text);
        if members[0].0 != key {
            let rest = members.drop_first();
            assert forall|i: int| 0 <= i < rest.len() implies (#[trigger] rest[i]).1 is Text by {
                assert(rest[i] == members[i + 1]);
            }
            lemma_texts(rest, key);
            assert(raw::texts_of(members).drop_first() =~= raw::texts_of(rest));
        }
    }
}

/// A map of texts holds everything that is required and everything that was written under
/// a key of a document.
pub open spec fn joins(
    full: TextMap,
    written: Option<JsonView>,
    required: TextMap,
    key: Seq<char>,
) -> bool {
    &&& forall|i: int|
        0 <= i < required.len() ==> string_map::entry_of(full, (#[trigger] required[i]).0) == Some(
            required[i].1,
        )
    &&& written is Some && json::member(written->Some_0, key) is Some ==> ({
        &&& string_map::entry_of(full, key) is Some
        &&& json::member(written->Some_0, key) == Some(
            JsonView::Text(string_map::entry_of(full, key)->Some_0),
        )
    })
}

proof fn lemma_joined(
    map: Members,
    written: Option<JsonView>,
    required: TextMap,
    field: Seq<char>,
    key: Seq<char>,
)
    requires
        raw::merged(map, required, required.len(), field) is Ok,
        raw::all_texts(raw::merged(map, required, required.len(), field)->Ok_0),
        written == Some(JsonView::Object(map)) || written is None && map.len() == 0,
    ensures
        joins(
            raw::texts_of(raw::merged(map, required, required.len(), field)->Ok_0),
            written,
            required,
            key,
        ),
{
    let full = raw::merged(map, required, required.len(), field)->Ok_0;
    law_merging_keeps_both_sides(map, required, required.len(), field, key);
    lemma_texts(full, key);
    assert forall|i: int| 0 <= i < required.len() implies string_map::entry_of(
        raw::texts_of(full),
        (#[trigger] required[i]).0,
    ) == Some(required[i].1) by {
        lemma_texts(full, required[i].0);
    }
}

proof fn lemma_labelled(
    metadata: Members,
    labels: TextMap,
    annotations: TextMap,
    labels_field: Seq<char>,
    annotations_field: Seq<char>,
    key: Seq<char>,
)
    requires
        raw::labelled_outcome(metadata, labels, annotations, labels_field, annotations_field)
            is Ok,
    ensures
        ({
            let done = raw::labelled_outcome(
                metadata,
                labels,
                annotations,
                labels_field,
                annotations_field,
            )->Ok_0;
            &&& joins(done.1, string_map::entry_of(metadata, "labels"@), labels, key)
            &&& joins(done.2, string_map::entry_of(metadata, "annotations"@), annotations, key)
            &&& key != "labels"@ && key != "annotations"@ ==> string_map::entry_of(done.0, key)
                == string_map::entry_of(metadata, key)
        }),
{
    broadcast use string_map::lemma_entry_of_with_entry;

    reveal_strlit("labels");
    reveal_strlit("annotations");
    assert("labels"@.len() != "annotations"@.len());
    let written_labels = string_map::entry_of(metadata, "labels"@);
    let written_annotations = string_map::entry_of(metadata, "annotations"@);
    let label_map = json::members_of(written_labels);
    let annotation_map = json::members_of(written_annotations);
    let full_labels = raw::merged(label_map, labels, labels.len(), labels_field);
    let full_annotations = raw::merged(
        annotation_map,
        annotations,
        annotations.len(),
        annotations_field,
    );
    assert(full_labels is Ok);
    let labelled = string_map::with_entry(
        metadata,
        "labels"@,
        JsonView::Object(full_labels->Ok_0),
    );
    assert(string_map::entry_of(labelled, "annotations"@) == written_annotations);
    assert(full_annotations is Ok);
    lemma_joined(label_map, written_labels, labels, labels_field, key);
    lemma_joined(annotation_map, written_annotations, annotations, annotations_field, key);
}

// ---------------------------------------------------------------------------
// Raw objects
// ---------------------------------------------------------------------------
/// A raw object that renders is what its author wrote: of the version, the kind and the
/// name that stand in it, in the target's namespace or in none, with its own labels and
/// annotations and with those of the instance, and everything else as it was written.
pub proof fn law_a_raw_object_is_what_was_written(
    document: JsonView,
    namespace: Seq<char>,
    labels: TextMap,
    annotations: TextMap,
    key: Seq<char>,
)
    requires
        raw::raw_document_outcome(document, namespace, labels, annotations) is Ok,
    ensures
        ({
            let rendered = raw::raw_document_outcome(
                document,
                namespace,
                labels,
                annotations,
            )->Ok_0;
            let object = rendered.object->Raw_0;
            &&& !raw::claims_primary(document)
            &&& rendered.object is Raw
            &&& json::member(document, "apiVersion"@) == Some(JsonView::Text(object.api_version))
            &&& json::member(document, "kind"@) == Some(JsonView::Text(object.kind))
            &&& raw::raw_order(object.api_version, object.kind) == Ok::<
                ApplyOrder,
                super::RenderErrorView,
            >(rendered.apply_order)
            &&& below(document, "metadata"@, "name"@) == Some(JsonView::Text(object.metadata.name))
            &&& object.kind == "PersistentVolume"@ ==> object.metadata.namespace is None
            &&& object.kind != "PersistentVolume"@ ==> object.metadata.namespace == Some(namespace)
            &&& joins(
                object.metadata.labels,
                below(document, "metadata"@, "labels"@),
                labels,
                key,
            )
            &&& joins(
                object.metadata.annotations,
                below(document, "metadata"@, "annotations"@),
                annotations,
                key,
            )
            &&& object.pod_template_metadata is Some <==> object.kind == "Deployment"@
                || object.kind == "StatefulSet"@
            &&& key != "metadata"@ && (key != "spec"@ || object.pod_template_metadata is None)
                ==> json::member(object.value, key) == json::member(document, key)
        }),
{
    broadcast use string_map::lemma_entry_of_with_entry;

    reveal_strlit("namespace");
    reveal_strlit("labels");
    reveal_strlit("annotations");
    reveal_strlit("spec");
    reveal_strlit("metadata");
    assert("namespace"@.len() == 9);
    assert("labels"@.len() == 6);
    assert("annotations"@.len() == 11);
    assert("spec"@.len() == 4);
    assert("metadata"@.len() == 8);
    let rendered = raw::raw_document_outcome(document, namespace, labels, annotations)->Ok_0;
    let object = rendered.object->Raw_0;
    let members = document->Object_0;
    let namespaced = raw::namespaced_kind(object.kind);
    let metadata = json::members_of(string_map::entry_of(members, "metadata"@));
    assert(raw::metadata_outcome(members, namespaced, namespace, labels, annotations) is Ok);
    let placed = if namespaced {
        string_map::with_entry(metadata, "namespace"@, JsonView::Text(namespace))
    } else {
        string_map::without_entry(metadata, "namespace"@)
    };
    if !namespaced {
        assert(string_map::entry_of(metadata, "namespace"@) is None);
        if "labels"@ != "namespace"@ {
            string_map::lemma_without_entry_keeps(metadata, "namespace"@, "labels"@);
        }
        string_map::lemma_without_entry_keeps(metadata, "namespace"@, "annotations"@);
    }
    assert(raw::raw_namespace(metadata, namespace, namespaced) is Ok);
    lemma_labelled(
        placed,
        labels,
        annotations,
        "raw_objects.manifest.metadata.labels"@,
        "raw_objects.manifest.metadata.annotations"@,
        key,
    );
}

/// The pods of a raw workload carry their own labels and those of the instance.
pub proof fn law_raw_pods_are_labelled(
    document: JsonView,
    namespace: Seq<char>,
    labels: TextMap,
    annotations: TextMap,
    key: Seq<char>,
)
    requires
        raw::raw_document_outcome(document, namespace, labels, annotations) is Ok,
        json::member(document, "kind"@) == Some(JsonView::Text("Deployment"@)) || json::member(
            document,
            "kind"@,
        ) == Some(JsonView::Text("StatefulSet"@)),
    ensures
        ({
            let object = raw::raw_document_outcome(
                document,
                namespace,
                labels,
                annotations,
            )->Ok_0.object->Raw_0;
            let written = raw::down(
                raw::down(raw::down(Some(document), "spec"@), "template"@),
                "metadata"@,
            );
            let pods = object.pod_template_metadata;
            &&& pods is Some
            &&& joins(pods->Some_0.labels, raw::down(written, "labels"@), labels, key)
            &&& joins(pods->Some_0.annotations, raw::down(written, "annotations"@), annotations, key)
        }),
{
    broadcast use string_map::lemma_entry_of_with_entry;

    reveal_strlit("spec");
    reveal_strlit("metadata");
    assert("spec"@.len() == 4);
    assert("metadata"@.len() == 8);
    let members = document->Object_0;
    let specification = json::members_of(string_map::entry_of(members, "spec"@));
    let template = json::members_of(string_map::entry_of(specification, "template"@));
    let metadata = json::members_of(string_map::entry_of(template, "metadata"@));
    lemma_labelled(
        metadata,
        labels,
        annotations,
        "raw_objects.manifest.spec.template.metadata.labels"@,
        "raw_objects.manifest.spec.template.metadata.annotations"@,
        key,
    );
}

/// A document says a namespace of its own only where that is the target's.
pub proof fn law_a_namespace_is_the_targets(
    metadata: Members,
    namespace: Seq<char>,
    namespaced: bool,
)
    ensures
        ({
            let written = string_map::entry_of(metadata, "namespace"@);
            let effective = raw::raw_namespace(metadata, namespace, namespaced);
            &&& effective is Ok && namespaced ==> effective->Ok_0 == namespace
            &&& effective is Ok && !namespaced ==> effective->Ok_0.len() == 0
            &&& !namespaced ==> (effective is Ok <==> written is None)
            &&& namespaced && written is None ==> effective is Ok
            &&& namespaced && written is Some && super::checks::dns_verdict(
                "raw_objects.manifest.metadata.namespace"@,
                namespace,
            ) is Ok ==> (effective is Ok <==> written == Some(JsonView::Text(namespace)))
        }),
{
}

/// The label that selects the primary workload may stand nowhere in a raw object: not on
/// it, not on its pods and not in what it selects.
pub proof fn law_the_primary_label_is_reserved(document: JsonView, expressions: Seq<JsonView>, at: int)
    ensures
        ({
            let label = "sleepypods.io/workload-name"@;
            let whole = Some(document);
            let selector = raw::down(raw::down(whole, "spec"@), "selector"@);
            let pods = raw::down(
                raw::down(raw::down(raw::down(whole, "spec"@), "template"@), "metadata"@),
                "labels"@,
            );
            let claimed = raw::primary_verdict(document) is Err;
            &&& raw::down(raw::down(raw::down(whole, "metadata"@), "labels"@), label) is Some
                ==> claimed
            &&& raw::down(pods, label) is Some ==> claimed
            &&& raw::down(selector, label) is Some ==> claimed
            &&& raw::down(raw::down(selector, "matchLabels"@), label) is Some ==> claimed
            &&& raw::down(selector, "matchExpressions"@) == Some(JsonView::Array(expressions)) && 0
                <= at < expressions.len() && json::member(expressions[at], "key"@) == Some(
                JsonView::Text(label),
            ) ==> claimed
        }),
{
    if 0 <= at < expressions.len() && json::member(expressions[at], "key"@) == Some(
        JsonView::Text("sleepypods.io/workload-name"@),
    ) {
        assert(raw::is_text(
            json::member(expressions[at], "key"@),
            super::LABEL_WORKLOAD_NAME@,
        ));
        assert(raw::expression_claims(expressions));
    }
}

// ---------------------------------------------------------------------------
// Storage
// ---------------------------------------------------------------------------
/// A raw volume must say that its bytes are retained, and a raw claim which volume it is
/// bound to; of anything else nothing is asked.
pub proof fn law_raw_storage_says_what_it_is(document: JsonView)
    ensures
        ({
            let kind = json::member(document, "kind"@);
            let policy = below(document, "spec"@, "persistentVolumeReclaimPolicy"@);
            let volume = below(document, "spec"@, "volumeName"@);
            raw::raw_retention_verdict(document) is Ok <==> {
                &&& kind == Some(JsonView::Text("PersistentVolume"@)) ==> policy == Some(
                    JsonView::Text("Retain"@),
                )
                &&& kind == Some(JsonView::Text("PersistentVolumeClaim"@)) ==> volume is Some
                    && volume->Some_0 is Text && volume->Some_0->Text_0.len() > 0
            }
        }),
{
    reveal_strlit("PersistentVolume");
    reveal_strlit("PersistentVolumeClaim");
    assert("PersistentVolume"@.len() != "PersistentVolumeClaim"@.len());
}

/// A template keeps the bytes of its volumes exactly where each of them is retained and
/// each raw manifest that can be read says so of its own.
pub proof fn law_a_template_retains_its_storage(template: ManifestTemplate)
    ensures
        raw::retention_verdict(template) is Ok <==> {
            &&& forall|i: int|
                0 <= i < template.volumes@.len() ==> (#[trigger] template.volumes@[i]).reclaim_policy
                    == PersistentVolumeReclaimPolicy::Retain
            &&& forall|i: int|
                0 <= i < template.raw_objects@.len() ==> retains(#[trigger] template.raw_objects@[i])
        },
{
    lemma_raw_manifests(template.raw_objects@, template.raw_objects@.len());
}

/// A raw manifest that can be read retains its storage.
pub open spec fn retains(manifest: RawKubernetesManifestTemplate) -> bool {
    let read = yaml::yaml_document(super::bind::unbound(manifest.manifest@).text);
    read is Ok ==> raw::raw_retention_verdict(read->Ok_0) is Ok
}

proof fn lemma_raw_manifests(manifests: Seq<RawKubernetesManifestTemplate>, count: nat)
    requires
        count <= manifests.len(),
    ensures
        raw::raw_manifests_verdict(manifests, count) is Ok <==> forall|i: int|
            0 <= i < count ==> retains(#[trigger] manifests[i]),
    decreases count,
{
    if count > 0 {
        lemma_raw_manifests(manifests, (count - 1) as nat);
        if raw::raw_manifests_verdict(manifests, count) is Ok {
            assert forall|i: int| 0 <= i < count implies retains(#[trigger] manifests[i]) by {}
        } else if forall|i: int| 0 <= i < count ==> retains(#[trigger] manifests[i]) {
            assert(retains(manifests[count - 1]));
        }
    }
}

/// An inventory passes exactly where every volume in it is retained and every claim in it
/// names a volume that is in it too.
pub proof fn law_an_inventory_keeps_its_storage(documents: Seq<JsonView>)
    ensures
        inventory::inventory_verdict(documents, documents.len()) is Ok <==> forall|i: int|
            0 <= i < documents.len() ==> keeps_storage(documents, #[trigger] documents[i]),
{
    lemma_inventory(documents, documents.len());
}

/// A volume is retained, and a claim is bound to a volume among the documents.
pub open spec fn keeps_storage(documents: Seq<JsonView>, document: JsonView) -> bool {
    let kind = json::member(document, "kind"@);
    &&& kind == Some(JsonView::Text("PersistentVolume"@)) ==> below(
        document,
        "spec"@,
        "persistentVolumeReclaimPolicy"@,
    ) == Some(JsonView::Text("Retain"@))
    &&& kind == Some(JsonView::Text("PersistentVolumeClaim"@)) ==> exists|i: int|
        0 <= i < documents.len() && json::member(#[trigger] documents[i], "kind"@) == Some(
            JsonView::Text("PersistentVolume"@),
        ) && names_volume(document, documents[i])
}

/// A claim is bound to a volume: by its name, which is not empty.
pub open spec fn names_volume(claim: JsonView, volume: JsonView) -> bool {
    let name = below(claim, "spec"@, "volumeName"@);
    &&& name is Some && name->Some_0 is Text && name->Some_0->Text_0.len() > 0
    &&& below(volume, "metadata"@, "name"@) == name
}

proof fn lemma_storage(documents: Seq<JsonView>, document: JsonView)
    ensures
        inventory::storage_verdict(documents, document) is Ok <==> keeps_storage(
            documents,
            document,
        ),
{
    reveal_strlit("PersistentVolume");
    reveal_strlit("PersistentVolumeClaim");
    assert("PersistentVolume"@.len() != "PersistentVolumeClaim"@.len());
    let name = raw::text_below(document, "spec"@, "volumeName"@);
    if inventory::is_claim(document) {
        if inventory::bound(documents, document) {
            let i = choose|i: int|
                0 <= i < documents.len() && inventory::is_volume(#[trigger] documents[i])
                    && raw::text_below(documents[i], "metadata"@, "name"@) == name;
            assert(names_volume(document, documents[i]));
        }
        if keeps_storage(documents, document) {
            let i = choose|i: int|
                0 <= i < documents.len() && json::member(#[trigger] documents[i], "kind"@) == Some(
                    JsonView::Text("PersistentVolume"@),
                ) && names_volume(document, documents[i]);
            assert(inventory::is_volume(documents[i]));
            assert(raw::text_below(documents[i], "metadata"@, "name"@) == name);
        }
    }
}

proof fn lemma_inventory(documents: Seq<JsonView>, count: nat)
    requires
        count <= documents.len(),
    ensures
        inventory::inventory_verdict(documents, count) is Ok <==> forall|i: int|
            0 <= i < count ==> keeps_storage(documents, #[trigger] documents[i]),
    decreases count,
{
    if count > 0 {
        lemma_inventory(documents, (count - 1) as nat);
        lemma_storage(documents, documents[count - 1]);
    }
}

// ---------------------------------------------------------------------------
// Texts of a template
// ---------------------------------------------------------------------------
/// A text renders part by part: a fixed part as it is, and a value of the instance as its
/// value; it fails exactly where a value is missing, and with the first that is.
pub proof fn law_a_text_renders_part_by_part(
    left: Seq<TemplatePartView>,
    right: Seq<TemplatePartView>,
    values: checks::ValuesView,
)
    ensures
        ({
            let whole = template::rendered_text(left + right, values);
            let front = template::rendered_text(left, values);
            let back = template::rendered_text(right, values);
            &&& whole is Ok <==> front is Ok && back is Ok
            &&& whole is Ok ==> whole->Ok_0 == front->Ok_0 + back->Ok_0
            &&& front is Err ==> whole->Err_0 == front->Err_0
            &&& front is Ok && back is Err ==> whole->Err_0 == back->Err_0
        }),
    decreases right.len(),
{
    if right.len() == 0 {
        assert(left + right =~= left);
        if let Ok(front) = template::rendered_text(left, values) {
            assert(front + Seq::<char>::empty() =~= front);
        }
    } else {
        law_a_text_renders_part_by_part(left, right.drop_last(), values);
        assert((left + right).drop_last() =~= left + right.drop_last());
        assert((left + right).last() == right.last());
        if let Ok(front) = template::rendered_text(left, values) {
            if let Ok(middle) = template::rendered_text(right.drop_last(), values) {
                match right.last() {
                    TemplatePartView::Literal(value) => {
                        assert((front + middle) + value =~= front + (middle + value));
                    },
                    TemplatePartView::InstanceValue(field) => {
                        if let Some(value) = string_map::entry_of(values, field) {
                            assert((front + middle) + value =~= front + (middle + value));
                        }
                    },
                }
            }
        }
    }
}

/// One part renders as what it is.
pub proof fn law_a_part_renders_as_what_it_is(
    content: Seq<char>,
    field: Seq<char>,
    values: checks::ValuesView,
)
    ensures
        template::rendered_text(seq![TemplatePartView::Literal(content)], values) == Ok::<
            Seq<char>,
            super::RenderErrorView,
        >(content),
        string_map::entry_of(values, field) is Some ==> template::rendered_text(
            seq![TemplatePartView::InstanceValue(field)],
            values,
        ) == Ok::<Seq<char>, super::RenderErrorView>(string_map::entry_of(values, field)->Some_0),
        string_map::entry_of(values, field) is None ==> template::rendered_text(
            seq![TemplatePartView::InstanceValue(field)],
            values,
        ) == Err::<Seq<char>, super::RenderErrorView>(
            super::RenderErrorView::MissingInstanceValue { field },
        ),
{
    reveal_with_fuel(template::rendered_text, 2);
    let fixed = seq![TemplatePartView::Literal(content)];
    let value = seq![TemplatePartView::InstanceValue(field)];
    assert(fixed.drop_last() =~= Seq::empty());
    assert(value.drop_last() =~= Seq::empty());
    assert(Seq::<char>::empty() + content =~= content);
    if let Some(found) = string_map::entry_of(values, field) {
        assert(Seq::<char>::empty() + found =~= found);
    }
}

/// A workload that sleeps runs as one: one replica is right, said or not, and any other
/// number is refused.
pub proof fn law_a_sleeper_runs_alone(workload: WorkloadTemplate)
    ensures
        template::replicas_verdict(workload) is Ok <==> workload.replicas is None
            || workload.replicas == Some(1u32),
{
}

/// A text that must not be empty is taken exactly where it renders to one that is not.
pub proof fn law_a_needed_text_is_not_empty(
    field: Seq<char>,
    parts: Seq<TemplatePartView>,
    values: checks::ValuesView,
)
    ensures
        ({
            let rendered = template::rendered_text(parts, values);
            let needed = checks::nonempty_text(field, parts, values);
            let wished = checks::optional_text(field, Some(parts), values);
            &&& needed is Ok <==> rendered is Ok && !text::blank(rendered->Ok_0)
            &&& needed is Ok ==> needed == rendered
            &&& wished is Ok <==> needed is Ok
            &&& wished is Ok ==> wished->Ok_0 == Some(rendered->Ok_0)
            &&& checks::optional_text(field, None, values) == Ok::<
                Option<Seq<char>>,
                super::RenderErrorView,
            >(None)
        }),
{
}

/// A port is any but zero.
pub proof fn law_zero_is_no_port(field: Seq<char>, port: u16)
    ensures
        checks::port_verdict(field, port) is Ok <==> port != 0,
{
}

} // verus!
