//! What holds of every manifest that renders.

use super::bind;
use super::checks::ValuesView;
use super::inventory;
use super::labels;
use super::objects::{KubernetesObjectView, TextMap};
use super::pod::OptionsView;
use super::raw;
use super::render;
use super::serialize::{self, Members};
use super::template::{self, RawKubernetesManifestTemplate};
use super::{
    RenderManifestRequest, LABEL_INSTANCE_GENERATION, LABEL_INSTANCE_ID,
    LABEL_WORKLOAD_CLASS_ID, LABEL_WORKLOAD_CLASS_VERSION, LABEL_WORKLOAD_NAME,
};
use crate::instance::InstanceRecord;
use crate::json::JsonView;
use crate::string_map;
use crate::text;
use crate::yaml;
use vstd::prelude::*;

verus! {

// ---------------------------------------------------------------------------
// The whole manifest
// ---------------------------------------------------------------------------
/// A manifest that renders is applied in turns, names no object twice, keeps the
/// bytes of every volume and binds every claim to one of them.
pub proof fn law_manifest_is_applicable(request: RenderManifestRequest<'_>, options: OptionsView)
    ensures
        match render::manifest_outcome(request, options) {
            Err(_) => true,
            Ok(manifest) => {
                let objects = manifest.objects;
                let documents = serialize::documents_of(objects);
                &&& forall|i: int, j: int|
                    #![trigger objects[i], objects[j]]
                    0 <= i < j < objects.len() ==> inventory::turn(objects[i].apply_order)
                        <= inventory::turn(objects[j].apply_order)
                &&& forall|i: int, j: int|
                    #![trigger objects[i], objects[j]]
                    0 <= i < j < objects.len() ==> inventory::reference_of(objects[i].object)
                        != inventory::reference_of(objects[j].object)
                &&& forall|i: int|
                    0 <= i < documents.len() ==> {
                        &&& inventory::is_volume(#[trigger] documents[i]) ==> inventory::retained(
                            documents[i],
                        )
                        &&& inventory::is_claim(documents[i]) ==> inventory::bound(
                            documents,
                            documents[i],
                        )
                    }
            },
        },
{
    if let Ok(manifest) = render::manifest_outcome(request, options) {
        let listed = render::objects_outcome(request, options)->Ok_0;
        assert(manifest.objects == inventory::in_application_order(listed));
        inventory::law_application_order(listed);
        inventory::law_references_are_unique(manifest.objects);
        inventory::law_storage_is_retained(serialize::documents_of(manifest.objects));
    }
}

/// A workload that renders runs as exactly one replica, so that what its sidecar
/// sees is all there is to see.
pub proof fn law_one_replica(request: RenderManifestRequest<'_>, options: OptionsView)
    ensures
        render::manifest_outcome(request, options) is Ok ==> template::replicas_of(
            request.template.workload,
        ) == 1,
{
}

// ---------------------------------------------------------------------------
// The selector of the primary workload
// ---------------------------------------------------------------------------
proof fn lemma_label_keys_differ()
    ensures
        LABEL_INSTANCE_ID@ != LABEL_WORKLOAD_NAME@,
        LABEL_INSTANCE_GENERATION@ != LABEL_INSTANCE_ID@,
        LABEL_WORKLOAD_CLASS_ID@ != LABEL_INSTANCE_ID@,
        LABEL_WORKLOAD_CLASS_VERSION@ != LABEL_INSTANCE_ID@,
{
    reveal_strlit("sleepypods.io/instance-id");
    reveal_strlit("sleepypods.io/instance-generation");
    reveal_strlit("sleepypods.io/workload-class-id");
    reveal_strlit("sleepypods.io/workload-class-version");
    reveal_strlit("sleepypods.io/workload-name");
    assert(LABEL_INSTANCE_ID@.len() == 25);
    assert(LABEL_INSTANCE_GENERATION@.len() == 33);
    assert(LABEL_WORKLOAD_CLASS_ID@.len() == 31);
    assert(LABEL_WORKLOAD_CLASS_VERSION@.len() == 36);
    assert(LABEL_WORKLOAD_NAME@.len() == 27);
}

/// The selector of the primary workload and of its Service selects every pod and
/// object with the labels of the instance. Auxiliary objects get labels that it
/// does not select.
pub proof fn law_selector_selects_primary(instance: InstanceRecord, workload_name: Seq<char>)
    ensures
        match (
            labels::selector_labels_outcome(instance.id@, workload_name),
            labels::metadata_labels_outcome(instance, workload_name),
        ) {
            (Ok(selector), Ok(all)) => {
                &&& forall|key: Seq<char>|
                    #[trigger] string_map::entry_of(selector, key) is Some
                        ==> string_map::entry_of(all, key) == string_map::entry_of(selector, key)
                &&& string_map::entry_of(selector, LABEL_WORKLOAD_NAME@) == Some(workload_name)
                &&& string_map::entry_of(selector, LABEL_INSTANCE_ID@) == Some(instance.id@)
                &&& string_map::entry_of(
                    render::auxiliary_labels(all),
                    LABEL_WORKLOAD_NAME@,
                ) is None
                &&& string_map::entry_of(
                    render::auxiliary_labels(all),
                    LABEL_INSTANCE_ID@,
                ) == Some(instance.id@)
            },
            _ => true,
        },
{
    lemma_label_keys_differ();
    let none = Seq::<(Seq<char>, Seq<char>)>::empty();
    let id = LABEL_INSTANCE_ID@;
    let name = LABEL_WORKLOAD_NAME@;
    if let (Ok(selector), Ok(all)) = (
        labels::selector_labels_outcome(instance.id@, workload_name),
        labels::metadata_labels_outcome(instance, workload_name),
    ) {
        let generation = text::decimal(instance.generation@ as nat);
        let version = text::decimal(instance.workload_class.version@ as nat);
        let class = instance.workload_class.class_id@;
        let a = string_map::with_entry(none, id, instance.id@);
        let b = string_map::with_entry(a, LABEL_INSTANCE_GENERATION@, generation);
        let c = string_map::with_entry(b, LABEL_WORKLOAD_CLASS_ID@, class);
        let d = string_map::with_entry(c, LABEL_WORKLOAD_CLASS_VERSION@, version);
        assert(selector == string_map::with_entry(a, name, workload_name));
        assert(all == string_map::with_entry(d, name, workload_name));
        string_map::lemma_with_entry_sorted(none, id, instance.id@);
        string_map::lemma_with_entry_sorted(a, LABEL_INSTANCE_GENERATION@, generation);
        string_map::lemma_with_entry_sorted(b, LABEL_WORKLOAD_CLASS_ID@, class);
        string_map::lemma_with_entry_sorted(c, LABEL_WORKLOAD_CLASS_VERSION@, version);
        string_map::lemma_with_entry_sorted(d, name, workload_name);
        assert forall|key: Seq<char>|
            #[trigger] string_map::entry_of(selector, key) is Some implies string_map::entry_of(
            all,
            key,
        ) == string_map::entry_of(selector, key) by {
            string_map::lemma_entry_of_with_entry(a, name, workload_name, key);
            string_map::lemma_entry_of_with_entry(d, name, workload_name, key);
            string_map::lemma_entry_of_with_entry(none, id, instance.id@, key);
            string_map::lemma_entry_of_with_entry(a, LABEL_INSTANCE_GENERATION@, generation, key);
            string_map::lemma_entry_of_with_entry(b, LABEL_WORKLOAD_CLASS_ID@, class, key);
            string_map::lemma_entry_of_with_entry(c, LABEL_WORKLOAD_CLASS_VERSION@, version, key);
        }
        string_map::lemma_entry_of_with_entry(a, name, workload_name, name);
        string_map::lemma_entry_of_with_entry(a, name, workload_name, id);
        string_map::lemma_entry_of_with_entry(none, id, instance.id@, id);
        string_map::lemma_entry_of_without_entry(all, name, name);
        string_map::lemma_entry_of_without_entry(all, name, id);
        assert(string_map::entry_of(selector, id) is Some);
    }
}

// ---------------------------------------------------------------------------
// Raw auxiliaries
// ---------------------------------------------------------------------------
proof fn lemma_merged_lacks(
    map: Members,
    required: TextMap,
    count: nat,
    field: Seq<char>,
    key: Seq<char>,
)
    requires
        string_map::entry_of(map, key) is None,
        string_map::entry_of(required, key) is None,
        count <= required.len(),
    ensures
        raw::merged(map, required, count, field) matches Ok(full) ==> string_map::entry_of(
            full,
            key,
        ) is None,
    decreases count,
{
    if count > 0 {
        lemma_merged_lacks(map, required, (count - 1) as nat, field, key);
        string_map::lemma_entry_of_index(required, key);
        let (label, value) = required[count - 1];
        assert(required[count - 1].0 != key);
        if let Ok(before) = raw::merged(map, required, (count - 1) as nat, field) {
            string_map::lemma_entry_of_with_entry(before, label, JsonView::Text(value), key);
        }
    }
}

proof fn lemma_texts_lack(members: Members, key: Seq<char>)
    requires
        string_map::entry_of(members, key) is None,
    ensures
        string_map::entry_of(raw::texts_of(members), key) is None,
{
    string_map::lemma_entry_of_index(members, key);
    string_map::lemma_entry_of_index(raw::texts_of(members), key);
    if string_map::entry_of(raw::texts_of(members), key) is Some {
        let texts = raw::texts_of(members);
        let i = choose|i: int| 0 <= i < texts.len() && #[trigger] texts[i].0 == key;
        assert(members[i].0 == key);
    }
}

/// What stands under `labels` in metadata does not hold a key.
spec fn labels_lack(metadata: Members, key: Seq<char>) -> bool {
    raw::down(string_map::entry_of(metadata, "labels"@), key) is None
}

proof fn lemma_labelled_lacks(
    metadata: Members,
    required: TextMap,
    annotations: TextMap,
    labels_field: Seq<char>,
    annotations_field: Seq<char>,
    key: Seq<char>,
)
    requires
        labels_lack(metadata, key),
        string_map::entry_of(required, key) is None,
    ensures
        raw::labelled_outcome(
            metadata,
            required,
            annotations,
            labels_field,
            annotations_field,
        ) matches Ok((full, all, notes)) ==> string_map::entry_of(all, key) is None,
{
    reveal_strlit("labels");
    reveal_strlit("annotations");
    assert("labels"@.len() != "annotations"@.len());
    if let Ok((full, all, notes)) = raw::labelled_outcome(
        metadata,
        required,
        annotations,
        labels_field,
        annotations_field,
    ) {
        let map = raw::child_object(
            metadata,
            "labels"@,
            labels_field,
            "labels"@ + " must be an object"@,
        )->Ok_0;
        assert(string_map::entry_of(map, key) is None);
        lemma_merged_lacks(map, required, required.len(), labels_field, key);
        let merged = raw::merged(map, required, required.len(), labels_field)->Ok_0;
        let labelled = string_map::with_entry(metadata, "labels"@, JsonView::Object(merged));
        string_map::lemma_entry_of_with_entry(
            metadata,
            "labels"@,
            JsonView::Object(merged),
            "labels"@,
        );
        let noted = raw::child_object(
            labelled,
            "annotations"@,
            annotations_field,
            "annotations"@ + " must be an object"@,
        )->Ok_0;
        let notes_merged = raw::merged(
            noted,
            annotations,
            annotations.len(),
            annotations_field,
        )->Ok_0;
        string_map::lemma_entry_of_with_entry(
            labelled,
            "annotations"@,
            JsonView::Object(notes_merged),
            "labels"@,
        );
        assert(string_map::entry_of(full, "labels"@) == Some(JsonView::Object(merged)));
        lemma_texts_lack(merged, key);
    }
}

/// Neither an object written out by the class author nor its pods carry a label.
pub open spec fn raw_lacks(object: KubernetesObjectView, key: Seq<char>) -> bool {
    match object {
        KubernetesObjectView::Raw(raw) => {
            &&& string_map::entry_of(raw.metadata.labels, key) is None
            &&& match raw.pod_template_metadata {
                Some(pods) => string_map::entry_of(pods.labels, key) is None,
                None => true,
            }
        },
        _ => false,
    }
}

proof fn lemma_raw_metadata_lacks(
    members: Members,
    namespaced: bool,
    namespace: Seq<char>,
    required: TextMap,
    annotations: TextMap,
    key: Seq<char>,
)
    requires
        raw::down(
            raw::down(raw::down(Some(JsonView::Object(members)), "metadata"@), "labels"@),
            key,
        ) is None,
        string_map::entry_of(required, key) is None,
    ensures
        raw::metadata_outcome(members, namespaced, namespace, required, annotations) matches Ok(
            (described, metadata),
        ) ==> string_map::entry_of(metadata.labels, key) is None && string_map::entry_of(
            described,
            "spec"@,
        ) == string_map::entry_of(members, "spec"@),
{
    reveal_strlit("labels");
    reveal_strlit("namespace");
    reveal_strlit("metadata");
    reveal_strlit("spec");
    assert("labels"@.len() != "namespace"@.len());
    assert("spec"@.len() != "metadata"@.len());
    if let Ok((described, metadata)) = raw::metadata_outcome(
        members,
        namespaced,
        namespace,
        required,
        annotations,
    ) {
        let inner = raw::child_object(
            members,
            "metadata"@,
            "raw_objects.manifest.metadata"@,
            "metadata must be an object"@,
        )->Ok_0;
        assert(labels_lack(inner, key));
        let effective = raw::raw_namespace(inner, namespace, namespaced)->Ok_0;
        let placed = if namespaced {
            string_map::with_entry(inner, "namespace"@, JsonView::Text(effective))
        } else {
            string_map::without_entry(inner, "namespace"@)
        };
        string_map::lemma_entry_of_with_entry(
            inner,
            "namespace"@,
            JsonView::Text(effective),
            "labels"@,
        );
        string_map::lemma_without_entry_keeps(inner, "namespace"@, "labels"@);
        assert(labels_lack(placed, key));
        lemma_labelled_lacks(
            placed,
            required,
            annotations,
            "raw_objects.manifest.metadata.labels"@,
            "raw_objects.manifest.metadata.annotations"@,
            key,
        );
        let full = raw::labelled_outcome(
            placed,
            required,
            annotations,
            "raw_objects.manifest.metadata.labels"@,
            "raw_objects.manifest.metadata.annotations"@,
        )->Ok_0.0;
        string_map::lemma_entry_of_with_entry(
            members,
            "metadata"@,
            JsonView::Object(full),
            "spec"@,
        );
    }
}

/// An object that a class author wrote out never carries the label by which the
/// primary Service finds its pods, nor do its pods.
pub proof fn law_raw_never_selected(
    document: JsonView,
    namespace: Seq<char>,
    required: TextMap,
    annotations: TextMap,
)
    requires
        string_map::entry_of(required, LABEL_WORKLOAD_NAME@) is None,
    ensures
        raw::raw_document_outcome(document, namespace, required, annotations) matches Ok(rendered)
            ==> raw_lacks(rendered.object, LABEL_WORKLOAD_NAME@),
{
    let key = LABEL_WORKLOAD_NAME@;
    if let Ok(rendered) = raw::raw_document_outcome(document, namespace, required, annotations) {
        assert(!raw::claims_primary(document));
        let members = document->Object_0;
        let kind = raw::required_text(members, "kind"@, "raw_objects.manifest"@)->Ok_0;
        let namespaced = raw::namespaced_kind(kind);
        lemma_raw_metadata_lacks(members, namespaced, namespace, required, annotations, key);
        let described = raw::metadata_outcome(
            members,
            namespaced,
            namespace,
            required,
            annotations,
        )->Ok_0.0;
        if raw::has_pods(kind) {
            let specification = raw::child_object(
                described,
                "spec"@,
                "raw_objects.manifest.spec"@,
                "spec must be an object"@,
            )->Ok_0;
            let template = raw::child_object(
                specification,
                "template"@,
                "raw_objects.manifest.spec.template"@,
                "workload template must be an object"@,
            )->Ok_0;
            let metadata = raw::child_object(
                template,
                "metadata"@,
                "raw_objects.manifest.spec.template.metadata"@,
                "workload template metadata must be an object"@,
            )->Ok_0;
            assert(labels_lack(metadata, key)) by {
                let whole = Some(document);
                let below = raw::down(raw::down(whole, "spec"@), "template"@);
                assert(raw::down(raw::down(raw::down(below, "metadata"@), "labels"@), key) is None);
            }
            lemma_labelled_lacks(
                metadata,
                required,
                annotations,
                "raw_objects.manifest.spec.template.metadata.labels"@,
                "raw_objects.manifest.spec.template.metadata.annotations"@,
                key,
            );
        }
    }
}

proof fn lemma_raws_never_selected(
    raws: Seq<RawKubernetesManifestTemplate>,
    count: nat,
    values: ValuesView,
    namespace: Seq<char>,
    required: TextMap,
    annotations: TextMap,
)
    requires
        count <= raws.len(),
        string_map::entry_of(required, LABEL_WORKLOAD_NAME@) is None,
    ensures
        render::raws_outcome(raws, count, values, namespace, required, annotations) matches Ok(
            objects,
        ) ==> forall|i: int|
            0 <= i < objects.len() ==> raw_lacks(
                (#[trigger] objects[i]).object,
                LABEL_WORKLOAD_NAME@,
            ),
    decreases count,
{
    if count > 0 {
        lemma_raws_never_selected(
            raws,
            (count - 1) as nat,
            values,
            namespace,
            required,
            annotations,
        );
        let parts = raws[count - 1].manifest@;
        if let Ok(placeholder) = bind::with_values_of(
            bind::unbound(parts),
            values,
        ) {
            if let Ok(document) = yaml::yaml_document(placeholder.text) {
                if let Ok(bound) = bind::bound_by(document, placeholder) {
                    law_raw_never_selected(bound, namespace, required, annotations);
                }
            }
        }
    }
}

/// In a manifest that renders, no object that a class author wrote out carries
/// the label by which the primary Service finds its pods, nor do its pods.
pub proof fn law_auxiliaries_stay_out(request: RenderManifestRequest<'_>, options: OptionsView)
    ensures
        render::manifest_outcome(request, options) matches Ok(manifest) ==> forall|i: int|
            0 <= i < manifest.objects.len() && (#[trigger] manifest.objects[i]).object is Raw
                ==> raw_lacks(manifest.objects[i].object, LABEL_WORKLOAD_NAME@),
{
    if let Ok(manifest) = render::manifest_outcome(request, options) {
        let listed = render::objects_outcome(request, options)->Ok_0;
        let names = render::names_outcome(
            request.template.workload,
            request.template.service,
            *request.instance,
            request.template_generation,
        )->Ok_0;
        law_selector_selects_primary(*request.instance, names.workload);
        let required = render::auxiliary_labels(names.labels);
        let raws = request.template.raw_objects@;
        lemma_raws_never_selected(
            raws,
            raws.len(),
            request.instance.values@,
            request.namespace@,
            required,
            names.annotations,
        );
        let structured = render::named_objects_outcome(request, options, names)->Ok_0;
        let written = render::raws_outcome(
            raws,
            raws.len(),
            request.instance.values@,
            request.namespace@,
            required,
            names.annotations,
        )->Ok_0;
        assert(listed == structured + written);
        assert(render::all_structured(structured));
        inventory::law_application_order(listed);
        assert forall|i: int|
            0 <= i < manifest.objects.len() && (#[trigger] manifest.objects[i]).object
                is Raw implies raw_lacks(manifest.objects[i].object, LABEL_WORKLOAD_NAME@) by {
            let at = choose|at: int|
                0 <= at < listed.len() && listed[at] == manifest.objects[i];
            if at < structured.len() {
                assert(structured[at] == listed[at]);
            } else {
                assert(written[at - structured.len()] == listed[at]);
            }
        }
    }
}

} // verus!
