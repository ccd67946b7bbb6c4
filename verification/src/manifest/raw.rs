//! Objects that a class author wrote out in full.

use super::bind::{self, PlaceholderDocument};
use super::checks::{self, validate_dns_label, ValuesView};
use super::objects::{
    ApplyOrder, KubernetesObject, KubernetesObjectView, ObjectMeta, ObjectMetaView,
    PodTemplateMetadata, PodTemplateMetadataView, RawKubernetesObject, RawKubernetesObjectView,
    RenderedManifestObject, RenderedManifestObjectView, TextMap,
};
use super::serialize::{self, Members};
use super::template::{
    ManifestTemplate, PersistentVolumeReclaimPolicy, RawKubernetesManifestTemplate,
    TemplatePartView, VolumeTemplate,
};
use super::{field_error, ManifestRenderError, Outcome, RenderErrorView, LABEL_WORKLOAD_NAME};
use crate::instance::InstanceValues;
use crate::json::{self, copied_members, Json, JsonView};
use crate::string_map::{self, StringMap};
use crate::text::{self, is_blank, quoted, same_text};
use crate::yaml::{self, read_yaml};
use vstd::prelude::*;
use vstd::string::*;

verus! {

// ---------------------------------------------------------------------------
// Ways into a document
// ---------------------------------------------------------------------------
/// The member under a key of a document that may be absent.
pub open spec fn down(document: Option<JsonView>, key: Seq<char>) -> Option<JsonView> {
    match document {
        Some(document) => json::member(document, key),
        None => None,
    }
}

/// The model of a reference to a document that may be absent.
pub open spec fn seen(value: Option<&Json>) -> Option<JsonView> {
    match value {
        Some(value) => Some(value@),
        None => None,
    }
}

fn step<'a>(value: Option<&'a Json>, key: &str) -> (inner: Option<&'a Json>)
    ensures
        seen(inner) == down(seen(value), key@),
{
    match value {
        Some(value) => value.get(key),
        None => None,
    }
}

/// A document is the text `content`.
pub open spec fn is_text(document: Option<JsonView>, content: Seq<char>) -> bool {
    match document {
        Some(JsonView::Text(found)) => found == content,
        _ => false,
    }
}

/// Tests whether a document that may be absent is a text.
pub fn holds_text(value: Option<&Json>, content: &str) -> (result: bool)
    ensures
        result == is_text(seen(value), content@),
{
    match value {
        Some(value) => match value.as_text() {
            Some(found) => same_text(found.as_str(), content),
            None => false,
        },
        None => false,
    }
}

// ---------------------------------------------------------------------------
// The primary workload's label
// ---------------------------------------------------------------------------
/// Some expression of a list is about the label of the primary workload.
pub open spec fn expression_claims(expressions: Seq<JsonView>) -> bool {
    exists|i: int|
        0 <= i < expressions.len() && is_text(
            json::member(#[trigger] expressions[i], "key"@),
            LABEL_WORKLOAD_NAME@,
        )
}

/// A raw document uses the label that belongs to the primary workload: in its
/// labels, in those of its pods or in a selector.
pub open spec fn claims_primary(document: JsonView) -> bool {
    let whole = Some(document);
    let label = LABEL_WORKLOAD_NAME@;
    let selector = down(down(whole, "spec"@), "selector"@);
    ||| down(down(down(whole, "metadata"@), "labels"@), label) is Some
    ||| down(
        down(down(down(down(whole, "spec"@), "template"@), "metadata"@), "labels"@),
        label,
    ) is Some
    ||| down(selector, label) is Some
    ||| down(down(selector, "matchLabels"@), label) is Some
    ||| match down(selector, "matchExpressions"@) {
        Some(JsonView::Array(expressions)) => expression_claims(expressions),
        _ => false,
    }
}

fn any_expression_claims(expressions: &Vec<Json>) -> (found: bool)
    ensures
        found == expression_claims(json::json_views(expressions@)),
{
    let ghost all = json::json_views(expressions@);
    let mut index: usize = 0;
    while index < expressions.len()
        invariant
            index <= expressions.len(),
            all == json::json_views(expressions@),
            forall|i: int|
                0 <= i < index ==> !is_text(
                    json::member(#[trigger] all[i], "key"@),
                    LABEL_WORKLOAD_NAME@,
                ),
        decreases expressions.len() - index,
    {
        assert(all[index as int] == expressions@[index as int]@);
        if holds_text(expressions[index].get("key"), LABEL_WORKLOAD_NAME) {
            return true;
        }
        index = index + 1;
    }
    false
}

fn claims_primary_label(value: &Json) -> (result: bool)
    ensures
        result == claims_primary(value@),
{
    let whole = Some(value);
    let labels = step(step(whole, "metadata"), "labels");
    if step(labels, LABEL_WORKLOAD_NAME).is_some() {
        return true;
    }
    let template = step(step(whole, "spec"), "template");
    let pod_labels = step(step(template, "metadata"), "labels");
    if step(pod_labels, LABEL_WORKLOAD_NAME).is_some() {
        return true;
    }
    let selector = step(step(whole, "spec"), "selector");
    if step(selector, LABEL_WORKLOAD_NAME).is_some() {
        return true;
    }
    if step(step(selector, "matchLabels"), LABEL_WORKLOAD_NAME).is_some() {
        return true;
    }
    match step(selector, "matchExpressions") {
        Some(expressions) => match expressions.as_array() {
            Some(items) => any_expression_claims(items),
            None => false,
        },
        None => false,
    }
}

/// The generated Service selector is reserved for the structured primary
/// workload: a raw auxiliary may not join that Service.
pub open spec fn primary_verdict(document: JsonView) -> Outcome<()> {
    if claims_primary(document) {
        super::invalid_field(
            "raw_objects.manifest"@,
            LABEL_WORKLOAD_NAME@
                + " is reserved for the primary workload and Service selector"@,
        )
    } else {
        Ok(())
    }
}

/// Rejects a raw document that uses the label of the primary workload.
pub fn reject_raw_primary_selector(value: &Json) -> (result: Result<(), ManifestRenderError>)
    ensures
        super::verdict(result) == primary_verdict(value@),
{
    if claims_primary_label(value) {
        let message = LABEL_WORKLOAD_NAME.to_owned().concat(
            " is reserved for the primary workload and Service selector",
        );
        return Err(field_error("raw_objects.manifest", message.as_str()));
    }
    Ok(())
}

// ---------------------------------------------------------------------------
// Fields of a raw document
// ---------------------------------------------------------------------------
/// The text under a key, which must not be blank.
pub open spec fn required_text(members: Members, key: Seq<char>, field: Seq<char>) -> Outcome<
    Seq<char>,
> {
    match string_map::entry_of(members, key) {
        Some(JsonView::Text(value)) if !text::blank(value) => Ok(value),
        _ => super::invalid_field(field, key + " must be a non-empty string"@),
    }
}

fn required_string_field(members: &StringMap<Json>, key: &str, field: &'static str) -> (result:
    Result<String, ManifestRenderError>)
    ensures
        super::outcome(result) == required_text(members@, key@, field@),
{
    if let Some(value) = members.get(key) {
        if let Some(content) = value.as_text() {
            if !is_blank(content.as_str()) {
                return Ok(content.clone());
            }
        }
    }
    Err(field_error(field, key.to_owned().concat(" must be a non-empty string").as_str()))
}

/// The turn of a raw object, which must be of a kind that a class may write out.
pub open spec fn raw_order(api_version: Seq<char>, kind: Seq<char>) -> Outcome<ApplyOrder> {
    if api_version == "v1"@ && kind == "PersistentVolume"@ {
        Ok(ApplyOrder::PersistentVolume)
    } else if api_version == "v1"@ && kind == "PersistentVolumeClaim"@ {
        Ok(ApplyOrder::PersistentVolumeClaim)
    } else if api_version == "v1"@ && kind == "Secret"@ {
        Ok(ApplyOrder::Secret)
    } else if api_version == "v1"@ && kind == "Service"@ {
        Ok(ApplyOrder::Service)
    } else if api_version == "apps/v1"@ && (kind == "Deployment"@ || kind == "StatefulSet"@) {
        Ok(ApplyOrder::Workload)
    } else {
        super::invalid_field(
            "raw_objects.manifest.kind"@,
            "raw object "@ + api_version + " "@ + kind + " is not in the V1 allow-list"@,
        )
    }
}

fn raw_apply_order(api_version: &str, kind: &str) -> (result: Result<
    ApplyOrder,
    ManifestRenderError,
>)
    ensures
        (match result {
            Ok(order) => Ok(order),
            Err(error) => Err(error@),
        }) == raw_order(api_version@, kind@),
{
    if same_text(api_version, "v1") {
        if same_text(kind, "PersistentVolume") {
            return Ok(ApplyOrder::PersistentVolume);
        }
        if same_text(kind, "PersistentVolumeClaim") {
            return Ok(ApplyOrder::PersistentVolumeClaim);
        }
        if same_text(kind, "Secret") {
            return Ok(ApplyOrder::Secret);
        }
        if same_text(kind, "Service") {
            return Ok(ApplyOrder::Service);
        }
    }
    if same_text(api_version, "apps/v1") && (same_text(kind, "Deployment") || same_text(
        kind,
        "StatefulSet",
    )) {
        return Ok(ApplyOrder::Workload);
    }
    let message = "raw object ".to_owned().concat(api_version).concat(" ").concat(kind).concat(
        " is not in the V1 allow-list",
    );
    Err(field_error("raw_objects.manifest.kind", message.as_str()))
}

/// Every kind but a PersistentVolume lives in a namespace.
pub open spec fn namespaced_kind(kind: Seq<char>) -> bool {
    kind != "PersistentVolume"@
}

fn raw_kind_is_namespaced(kind: &str) -> (result: bool)
    ensures
        result == namespaced_kind(kind@),
{
    !same_text(kind, "PersistentVolume")
}

/// The namespace of a raw object: the target's, which the object may repeat, and
/// none for an object of the cluster.
pub open spec fn raw_namespace(metadata: Members, namespace: Seq<char>, namespaced: bool) -> Outcome<
    Seq<char>,
> {
    let field = "raw_objects.manifest.metadata.namespace"@;
    let written = string_map::entry_of(metadata, "namespace"@);
    if !namespaced {
        if written is Some {
            super::invalid_field(
                field,
                "PersistentVolume must be cluster-scoped with no namespace"@,
            )
        } else {
            Ok(Seq::empty())
        }
    } else {
        match written {
            None => Ok(namespace),
            Some(JsonView::Text(effective)) => if effective.len() == 0 {
                super::invalid_field(field, "namespace must be a non-empty string"@)
            } else {
                match checks::dns_verdict(field, effective) {
                    Err(error) => Err(error),
                    Ok(_) => if effective != namespace {
                        super::invalid_field(
                            field,
                            "namespace must be omitted or match target namespace "@
                                + text::quoted_text(namespace),
                        )
                    } else {
                        Ok(effective)
                    },
                }
            },
            Some(_) => super::invalid_field(field, "namespace must be a string"@),
        }
    }
}

fn raw_effective_namespace(
    metadata: &StringMap<Json>,
    namespace: &str,
    namespaced: bool,
) -> (result: Result<String, ManifestRenderError>)
    ensures
        super::outcome(result) == raw_namespace(metadata@, namespace@, namespaced),
{
    let field = "raw_objects.manifest.metadata.namespace";
    if !namespaced {
        if metadata.contains_key("namespace") {
            return Err(
                field_error(field, "PersistentVolume must be cluster-scoped with no namespace"),
            );
        }
        return Ok(String::new());
    }
    match metadata.get("namespace") {
        None => Ok(namespace.to_owned()),
        Some(written) => match written.as_text() {
            None => Err(field_error(field, "namespace must be a string")),
            Some(effective) => {
                if effective.as_str().is_empty() {
                    return Err(field_error(field, "namespace must be a non-empty string"));
                }
                validate_dns_label(field, effective.as_str())?;
                if !same_text(effective.as_str(), namespace) {
                    let message = "namespace must be omitted or match target namespace ".to_owned().concat(
                    quoted(namespace).as_str());
                    return Err(field_error(field, message.as_str()));
                }
                Ok(effective.clone())
            },
        },
    }
}

/// The members of the object under a key, none where nothing stands there.
pub open spec fn child_object(
    members: Members,
    key: Seq<char>,
    field: Seq<char>,
    message: Seq<char>,
) -> Outcome<Members> {
    match string_map::entry_of(members, key) {
        None => Ok(Seq::empty()),
        Some(JsonView::Object(inner)) => Ok(inner),
        Some(_) => super::invalid_field(field, message),
    }
}

fn child_members(members: &StringMap<Json>, key: &str, field: &'static str, message: &str) -> (result:
    Result<StringMap<Json>, ManifestRenderError>)
    ensures
        super::outcome(result) == child_object(members@, key@, field@, message@),
{
    let value = members.get(key);
    if let Some(value) = value {
        if value.as_object().is_none() {
            return Err(field_error(field, message));
        }
    }
    Ok(copied_members(value))
}

/// A map with the first `count` of the entries that it must have. An entry that
/// is there with another value is a conflict.
pub open spec fn merged(
    map: Members,
    required: TextMap,
    count: nat,
    field: Seq<char>,
) -> Outcome<Members>
    decreases count,
{
    if count == 0 || count > required.len() {
        Ok(map)
    } else {
        match merged(map, required, (count - 1) as nat, field) {
            Err(error) => Err(error),
            Ok(before) => {
                let (label, value) = required[count - 1];
                match string_map::entry_of(before, label) {
                    Some(JsonView::Text(existing)) => if existing == value {
                        Ok(before)
                    } else {
                        super::invalid_field(
                            field,
                            label + " must be "@ + text::quoted_text(value)
                                + ", got conflicting value "@ + text::quoted_text(existing),
                        )
                    },
                    Some(_) => super::invalid_field(
                        field,
                        label + " must be "@ + text::quoted_text(value)
                            + ", got non-string value"@,
                    ),
                    None => Ok(string_map::with_entry(before, label, JsonView::Text(value))),
                }
            },
        }
    }
}

proof fn lemma_conflict_stays(map: Members, required: TextMap, from: nat, to: nat, field: Seq<char>)
    requires
        from <= to <= required.len(),
        merged(map, required, from, field) is Err,
    ensures
        merged(map, required, to, field) == merged(map, required, from, field),
    decreases to,
{
    if from < to {
        lemma_conflict_stays(map, required, from, (to - 1) as nat, field);
    }
}

/// Metadata with the entries that the map under a key must have.
pub open spec fn merged_under(
    metadata: Members,
    key: Seq<char>,
    required: TextMap,
    field: Seq<char>,
) -> Outcome<Members> {
    match child_object(metadata, key, field, key + " must be an object"@) {
        Err(error) => Err(error),
        Ok(map) => match merged(map, required, required.len(), field) {
            Err(error) => Err(error),
            Ok(full) => Ok(string_map::with_entry(metadata, key, JsonView::Object(full))),
        },
    }
}

fn merge_required_string_map(
    metadata: StringMap<Json>,
    key: &'static str,
    required: &StringMap<String>,
    field: &'static str,
) -> (result: Result<StringMap<Json>, ManifestRenderError>)
    ensures
        super::outcome(result) == merged_under(metadata@, key@, required@, field@),
{
    let message = key.to_owned().concat(" must be an object");
    let mut map = child_members(&metadata, key, field, message.as_str())?;
    let ghost start = map@;
    let length: usize = required.len();
    let mut at: usize = 0;
    while at < length
        invariant
            at <= length == required@.len(),
            merged(start, required@, at as nat, field@) == Ok::<Members, RenderErrorView>(map@),
            child_object(metadata@, key@, field@, key@ + " must be an object"@) == Ok::<
                Members,
                RenderErrorView,
            >(start),
        decreases length - at,
    {
        let label = required.key_at(at);
        let value = required.value_at(at);
        let mut add = false;
        match map.get(label.as_str()) {
            Some(existing) => match existing.as_text() {
                Some(found) => {
                    if !same_text(found.as_str(), value.as_str()) {
                        let message = label.clone().concat(" must be ").concat(
                            quoted(value.as_str()).as_str(),
                        ).concat(", got conflicting value ").concat(
                            quoted(found.as_str()).as_str(),
                        );
                        proof {
                            lemma_conflict_stays(
                                start,
                                required@,
                                (at + 1) as nat,
                                required@.len(),
                                field@,
                            );
                        }
                        return Err(field_error(field, message.as_str()));
                    }
                },
                None => {
                    let message = label.clone().concat(" must be ").concat(
                        quoted(value.as_str()).as_str(),
                    ).concat(", got non-string value");
                    proof {
                        lemma_conflict_stays(
                            start,
                            required@,
                            (at + 1) as nat,
                            required@.len(),
                            field@,
                        );
                    }
                    return Err(field_error(field, message.as_str()));
                },
            },
            None => {
                add = true;
            },
        }
        if add {
            map.insert(label.clone(), Json::text(value.clone()));
        }
        at = at + 1;
    }
    let mut full = metadata;
    full.insert(key.to_owned(), Json::object(map));
    Ok(full)
}

/// Every member of an object is a string.
pub open spec fn all_texts(members: Members) -> bool {
    forall|i: int| 0 <= i < members.len() ==> (#[trigger] members[i]).1 is Text
}

/// An object of strings as a map of texts.
pub open spec fn texts_of(members: Members) -> TextMap {
    Seq::new(members.len(), |i: int| (members[i].0, members[i].1->Text_0))
}

/// The map of texts under a key, empty where nothing stands there.
pub open spec fn text_map_outcome(metadata: Members, key: Seq<char>, field: Seq<char>) -> Outcome<
    TextMap,
> {
    match child_object(metadata, key, field, key + " must be an object"@) {
        Err(error) => Err(error),
        Ok(members) => if all_texts(members) {
            Ok(texts_of(members))
        } else {
            super::invalid_field(field, "all values must be strings"@)
        },
    }
}

fn text_map(metadata: &StringMap<Json>, key: &'static str, field: &'static str) -> (result: Result<
    StringMap<String>,
    ManifestRenderError,
>)
    ensures
        super::outcome(result) == text_map_outcome(metadata@, key@, field@),
{
    let message = key.to_owned().concat(" must be an object");
    let members = child_members(metadata, key, field, message.as_str())?;
    let mut map: StringMap<String> = StringMap::new();
    let length: usize = members.len();
    let mut at: usize = 0;
    while at < length
        invariant
            at <= length == members@.len(),
            string_map::sorted_keys(members@),
            forall|i: int| 0 <= i < at ==> (#[trigger] members@[i]).1 is Text,
            map@ == texts_of(members@).take(at as int),
            child_object(metadata@, key@, field@, key@ + " must be an object"@) == Ok::<
                Members,
                RenderErrorView,
            >(members@),
        decreases length - at,
    {
        match members.value_at(at).as_text() {
            Some(value) => {
                proof {
                    assert forall|i: int| 0 <= i < map@.len() implies text::text_lt(
                        #[trigger] map@[i].0,
                        members@[at as int].0,
                    ) by {
                        assert(map@[i].0 == members@[i].0);
                    }
                    string_map::lemma_with_entry_last(map@, members@[at as int].0, value@);
                }
                map.insert(members.key_at(at).clone(), value.clone());
            },
            None => {
                assert(!(members@[at as int].1 is Text));
                return Err(field_error(field, "all values must be strings"));
            },
        }
        at = at + 1;
        assert(texts_of(members@).take(at as int) =~= texts_of(members@).take(at - 1).push(
            texts_of(members@)[at - 1],
        ));
    }
    assert(texts_of(members@).take(at as int) =~= texts_of(members@));
    Ok(map)
}

// ---------------------------------------------------------------------------
// Metadata of a raw object and of its pods
// ---------------------------------------------------------------------------
/// Metadata with the labels and annotations that it must have, and the two maps
/// as they then stand.
pub open spec fn labelled_outcome(
    metadata: Members,
    labels: TextMap,
    annotations: TextMap,
    labels_field: Seq<char>,
    annotations_field: Seq<char>,
) -> Outcome<(Members, TextMap, TextMap)> {
    match merged_under(metadata, "labels"@, labels, labels_field) {
        Err(error) => Err(error),
        Ok(labelled) => match merged_under(
            labelled,
            "annotations"@,
            annotations,
            annotations_field,
        ) {
            Err(error) => Err(error),
            Ok(full) => match text_map_outcome(full, "labels"@, labels_field) {
                Err(error) => Err(error),
                Ok(all_labels) => match text_map_outcome(
                    full,
                    "annotations"@,
                    annotations_field,
                ) {
                    Err(error) => Err(error),
                    Ok(all_annotations) => Ok((full, all_labels, all_annotations)),
                },
            },
        },
    }
}

struct Labelled {
    metadata: StringMap<Json>,
    labels: StringMap<String>,
    annotations: StringMap<String>,
}

spec fn labelled_view(result: Result<Labelled, ManifestRenderError>) -> Outcome<
    (Members, TextMap, TextMap),
> {
    match result {
        Ok(value) => Ok((value.metadata@, value.labels@, value.annotations@)),
        Err(error) => Err(error@),
    }
}

fn label_metadata(
    metadata: StringMap<Json>,
    labels: &StringMap<String>,
    annotations: &StringMap<String>,
    labels_field: &'static str,
    annotations_field: &'static str,
) -> (result: Result<Labelled, ManifestRenderError>)
    ensures
        labelled_view(result) == labelled_outcome(
            metadata@,
            labels@,
            annotations@,
            labels_field@,
            annotations_field@,
        ),
{
    let labelled = merge_required_string_map(metadata, "labels", labels, labels_field)?;
    let full = merge_required_string_map(labelled, "annotations", annotations, annotations_field)?;
    let all_labels = text_map(&full, "labels", labels_field)?;
    let all_annotations = text_map(&full, "annotations", annotations_field)?;
    Ok(Labelled { metadata: full, labels: all_labels, annotations: all_annotations })
}

/// A raw workload with the labels and annotations that its pods must have, and
/// the metadata of those pods.
pub open spec fn pod_outcome(members: Members, labels: TextMap, annotations: TextMap) -> Outcome<
    (Members, PodTemplateMetadataView),
> {
    match child_object(
        members,
        "spec"@,
        "raw_objects.manifest.spec"@,
        "spec must be an object"@,
    ) {
        Err(error) => Err(error),
        Ok(specification) => match child_object(
            specification,
            "template"@,
            "raw_objects.manifest.spec.template"@,
            "workload template must be an object"@,
        ) {
            Err(error) => Err(error),
            Ok(template) => match child_object(
                template,
                "metadata"@,
                "raw_objects.manifest.spec.template.metadata"@,
                "workload template metadata must be an object"@,
            ) {
                Err(error) => Err(error),
                Ok(metadata) => match labelled_outcome(
                    metadata,
                    labels,
                    annotations,
                    "raw_objects.manifest.spec.template.metadata.labels"@,
                    "raw_objects.manifest.spec.template.metadata.annotations"@,
                ) {
                    Err(error) => Err(error),
                    Ok((full, all_labels, all_annotations)) => {
                        let pod = string_map::with_entry(
                            template,
                            "metadata"@,
                            JsonView::Object(full),
                        );
                        let workload = string_map::with_entry(
                            specification,
                            "template"@,
                            JsonView::Object(pod),
                        );
                        Ok(
                            (
                                string_map::with_entry(
                                    members,
                                    "spec"@,
                                    JsonView::Object(workload),
                                ),
                                PodTemplateMetadataView {
                                    labels: all_labels,
                                    annotations: all_annotations,
                                },
                            ),
                        )
                    },
                },
            },
        },
    }
}

fn raw_pod_template_metadata(
    members: StringMap<Json>,
    labels: &StringMap<String>,
    annotations: &StringMap<String>,
) -> (result: Result<(StringMap<Json>, PodTemplateMetadata), ManifestRenderError>)
    ensures
        (match result {
            Ok((full, metadata)) => Ok((full@, metadata@)),
            Err(error) => Err(error@),
        }) == pod_outcome(members@, labels@, annotations@),
{
    let mut specification = child_members(
        &members,
        "spec",
        "raw_objects.manifest.spec",
        "spec must be an object",
    )?;
    let mut template = child_members(
        &specification,
        "template",
        "raw_objects.manifest.spec.template",
        "workload template must be an object",
    )?;
    let metadata = child_members(
        &template,
        "metadata",
        "raw_objects.manifest.spec.template.metadata",
        "workload template metadata must be an object",
    )?;
    let labelled = label_metadata(
        metadata,
        labels,
        annotations,
        "raw_objects.manifest.spec.template.metadata.labels",
        "raw_objects.manifest.spec.template.metadata.annotations",
    )?;
    template.insert("metadata".to_owned(), Json::object(labelled.metadata));
    specification.insert("template".to_owned(), Json::object(template));
    let mut full = members;
    full.insert("spec".to_owned(), Json::object(specification));
    Ok(
        (
            full,
            PodTemplateMetadata { labels: labelled.labels, annotations: labelled.annotations },
        ),
    )
}

// ---------------------------------------------------------------------------
// Whole raw objects
// ---------------------------------------------------------------------------
/// A raw workload has pods of its own.
pub open spec fn has_pods(kind: Seq<char>) -> bool {
    kind == "Deployment"@ || kind == "StatefulSet"@
}

/// The settled metadata of a raw object, and its document with that metadata.
pub open spec fn metadata_outcome(
    members: Members,
    namespaced: bool,
    namespace: Seq<char>,
    labels: TextMap,
    annotations: TextMap,
) -> Outcome<(Members, ObjectMetaView)> {
    match child_object(
        members,
        "metadata"@,
        "raw_objects.manifest.metadata"@,
        "metadata must be an object"@,
    ) {
        Err(error) => Err(error),
        Ok(metadata) => match required_text(
            metadata,
            "name"@,
            "raw_objects.manifest.metadata.name"@,
        ) {
            Err(error) => Err(error),
            Ok(name) => match checks::dns_verdict("raw_objects.manifest.metadata.name"@, name) {
                Err(error) => Err(error),
                Ok(_) => match raw_namespace(metadata, namespace, namespaced) {
                    Err(error) => Err(error),
                    Ok(effective) => {
                        let placed = if namespaced {
                            string_map::with_entry(
                                metadata,
                                "namespace"@,
                                JsonView::Text(effective),
                            )
                        } else {
                            string_map::without_entry(metadata, "namespace"@)
                        };
                        match labelled_outcome(
                            placed,
                            labels,
                            annotations,
                            "raw_objects.manifest.metadata.labels"@,
                            "raw_objects.manifest.metadata.annotations"@,
                        ) {
                            Err(error) => Err(error),
                            Ok((full, all_labels, all_annotations)) => Ok(
                                (
                                    string_map::with_entry(
                                        members,
                                        "metadata"@,
                                        JsonView::Object(full),
                                    ),
                                    ObjectMetaView {
                                        name,
                                        namespace: if namespaced {
                                            Some(effective)
                                        } else {
                                            None
                                        },
                                        labels: all_labels,
                                        annotations: all_annotations,
                                    },
                                ),
                            ),
                        }
                    },
                },
            },
        },
    }
}

/// The rendered object that the members of a raw document make.
pub open spec fn raw_members_outcome(
    members: Members,
    namespace: Seq<char>,
    labels: TextMap,
    annotations: TextMap,
) -> Outcome<RenderedManifestObjectView> {
    match required_text(members, "apiVersion"@, "raw_objects.manifest"@) {
        Err(error) => Err(error),
        Ok(api_version) => match required_text(members, "kind"@, "raw_objects.manifest"@) {
            Err(error) => Err(error),
            Ok(kind) => match raw_order(api_version, kind) {
                Err(error) => Err(error),
                Ok(apply_order) => match metadata_outcome(
                    members,
                    namespaced_kind(kind),
                    namespace,
                    labels,
                    annotations,
                ) {
                    Err(error) => Err(error),
                    Ok((described, metadata)) => if has_pods(kind) {
                        match pod_outcome(described, labels, annotations) {
                            Err(error) => Err(error),
                            Ok((full, pods)) => Ok(
                                RenderedManifestObjectView {
                                    apply_order,
                                    object: KubernetesObjectView::Raw(
                                        RawKubernetesObjectView {
                                            api_version,
                                            kind,
                                            metadata,
                                            pod_template_metadata: Some(pods),
                                            value: JsonView::Object(full),
                                        },
                                    ),
                                },
                            ),
                        }
                    } else {
                        Ok(
                            RenderedManifestObjectView {
                                apply_order,
                                object: KubernetesObjectView::Raw(
                                    RawKubernetesObjectView {
                                        api_version,
                                        kind,
                                        metadata,
                                        pod_template_metadata: None,
                                        value: JsonView::Object(described),
                                    },
                                ),
                            },
                        )
                    },
                },
            },
        },
    }
}

/// The rendered object that a raw document makes, its instance values in place.
pub open spec fn raw_document_outcome(
    document: JsonView,
    namespace: Seq<char>,
    labels: TextMap,
    annotations: TextMap,
) -> Outcome<RenderedManifestObjectView> {
    match primary_verdict(document) {
        Err(error) => Err(error),
        Ok(_) => match document {
            JsonView::Object(members) => raw_members_outcome(
                members,
                namespace,
                labels,
                annotations,
            ),
            _ => super::invalid_field(
                "raw_objects.manifest"@,
                "manifest must render to one Kubernetes object"@,
            ),
        },
    }
}

/// The rendered object that a raw manifest makes for an instance.
pub open spec fn raw_outcome(
    parts: Seq<TemplatePartView>,
    values: ValuesView,
    namespace: Seq<char>,
    labels: TextMap,
    annotations: TextMap,
) -> Outcome<RenderedManifestObjectView> {
    match bind::with_values_of(bind::unbound(parts), values) {
        Err(error) => Err(error),
        Ok(placeholder) => if text::blank(placeholder.text) {
            super::invalid_field("raw_objects.manifest"@, "rendered value must not be empty"@)
        } else {
            match yaml::yaml_document(placeholder.text) {
                Err(message) => super::invalid_field(
                    "raw_objects.manifest"@,
                    "manifest must be valid YAML or JSON: "@ + message,
                ),
                Ok(document) => match bind::bound_by(document, placeholder) {
                    Err(error) => Err(error),
                    Ok(bound) => raw_document_outcome(bound, namespace, labels, annotations),
                },
            }
        },
    }
}

struct Described {
    members: StringMap<Json>,
    metadata: ObjectMeta,
}

fn raw_metadata(
    members: StringMap<Json>,
    namespaced: bool,
    namespace: &str,
    labels: &StringMap<String>,
    annotations: &StringMap<String>,
) -> (result: Result<Described, ManifestRenderError>)
    ensures
        (match result {
            Ok(described) => Ok((described.members@, described.metadata@)),
            Err(error) => Err(error@),
        }) == metadata_outcome(members@, namespaced, namespace@, labels@, annotations@),
{
    let mut metadata = child_members(
        &members,
        "metadata",
        "raw_objects.manifest.metadata",
        "metadata must be an object",
    )?;
    let name = required_string_field(&metadata, "name", "raw_objects.manifest.metadata.name")?;
    validate_dns_label("raw_objects.manifest.metadata.name", name.as_str())?;
    let effective = raw_effective_namespace(&metadata, namespace, namespaced)?;
    if namespaced {
        metadata.insert("namespace".to_owned(), Json::text(effective.clone()));
    } else {
        metadata.remove("namespace");
    }
    let labelled = label_metadata(
        metadata,
        labels,
        annotations,
        "raw_objects.manifest.metadata.labels",
        "raw_objects.manifest.metadata.annotations",
    )?;
    let mut full = members;
    full.insert("metadata".to_owned(), Json::object(labelled.metadata));
    Ok(
        Described {
            members: full,
            metadata: ObjectMeta {
                name,
                namespace: if namespaced {
                    Some(effective)
                } else {
                    None
                },
                labels: labelled.labels,
                annotations: labelled.annotations,
            },
        },
    )
}

/// The way down to the pods' metadata of a raw workload can be filled.
proof fn lemma_pods_serializable(members: Members, labels: TextMap, annotations: TextMap)
    ensures
        pod_outcome(members, labels, annotations) matches Ok((full, _)) ==> {
            let value = Some(JsonView::Object(full));
            &&& serialize::fillable(serialize::inner(value, "spec"@))
            &&& serialize::fillable(
                serialize::inner(serialize::inner(value, "spec"@), "template"@),
            )
        },
{
    if let Ok((full, _)) = pod_outcome(members, labels, annotations) {
        let specification = child_object(
            members,
            "spec"@,
            "raw_objects.manifest.spec"@,
            "spec must be an object"@,
        )->Ok_0;
        let template = child_object(
            specification,
            "template"@,
            "raw_objects.manifest.spec.template"@,
            "workload template must be an object"@,
        )->Ok_0;
        let metadata = child_object(
            template,
            "metadata"@,
            "raw_objects.manifest.spec.template.metadata"@,
            "workload template metadata must be an object"@,
        )->Ok_0;
        let settled = labelled_outcome(
            metadata,
            labels,
            annotations,
            "raw_objects.manifest.spec.template.metadata.labels"@,
            "raw_objects.manifest.spec.template.metadata.annotations"@,
        )->Ok_0;
        let pod = string_map::with_entry(template, "metadata"@, JsonView::Object(settled.0));
        let workload = string_map::with_entry(specification, "template"@, JsonView::Object(pod));
        string_map::lemma_entry_of_with_entry(
            members,
            "spec"@,
            JsonView::Object(workload),
            "spec"@,
        );
        string_map::lemma_entry_of_with_entry(
            specification,
            "template"@,
            JsonView::Object(pod),
            "template"@,
        );
    }
}

/// Renders a raw document whose instance values are in place.
pub fn render_raw_document(
    value: &Json,
    namespace: &str,
    labels: &StringMap<String>,
    annotations: &StringMap<String>,
) -> (result: Result<RenderedManifestObject, ManifestRenderError>)
    ensures
        super::outcome(result) == raw_document_outcome(
            value@,
            namespace@,
            labels@,
            annotations@,
        ),
        result matches Ok(rendered) ==> serialize::serializable(rendered@.object),
{
    reject_raw_primary_selector(value)?;
    if value.as_object().is_none() {
        return Err(
            field_error("raw_objects.manifest", "manifest must render to one Kubernetes object"),
        );
    }
    let members = copied_members(Some(value));
    let api_version = required_string_field(&members, "apiVersion", "raw_objects.manifest")?;
    let kind = required_string_field(&members, "kind", "raw_objects.manifest")?;
    let apply_order = raw_apply_order(api_version.as_str(), kind.as_str())?;
    let namespaced = raw_kind_is_namespaced(kind.as_str());
    let described = raw_metadata(members, namespaced, namespace, labels, annotations)?;
    if same_text(kind.as_str(), "Deployment") || same_text(kind.as_str(), "StatefulSet") {
        proof {
            lemma_pods_serializable(described.members@, labels@, annotations@);
        }
        let (full, pods) = raw_pod_template_metadata(described.members, labels, annotations)?;
        Ok(
            RenderedManifestObject {
                apply_order,
                object: KubernetesObject::Raw(
                    RawKubernetesObject {
                        api_version,
                        kind,
                        metadata: described.metadata,
                        pod_template_metadata: Some(pods),
                        value: Json::object(full),
                    },
                ),
            },
        )
    } else {
        Ok(
            RenderedManifestObject {
                apply_order,
                object: KubernetesObject::Raw(
                    RawKubernetesObject {
                        api_version,
                        kind,
                        metadata: described.metadata,
                        pod_template_metadata: None,
                        value: Json::object(described.members),
                    },
                ),
            },
        )
    }
}

/// Renders a raw manifest for an instance.
pub fn render_raw_object(
    template: &RawKubernetesManifestTemplate,
    values: &InstanceValues,
    namespace: &str,
    labels: &StringMap<String>,
    annotations: &StringMap<String>,
) -> (result: Result<RenderedManifestObject, ManifestRenderError>)
    ensures
        super::outcome(result) == raw_outcome(
            template.manifest@,
            values@,
            namespace@,
            labels@,
            annotations@,
        ),
        result matches Ok(rendered) ==> serialize::serializable(rendered@.object),
{
    let document = PlaceholderDocument::new(&template.manifest).with_values(values)?;
    if is_blank(document.text()) {
        return Err(field_error("raw_objects.manifest", "rendered value must not be empty"));
    }
    match read_yaml(document.text()) {
        Err(message) => {
            let shown = "manifest must be valid YAML or JSON: ".to_owned().concat(
                message.as_str(),
            );
            Err(field_error("raw_objects.manifest", shown.as_str()))
        },
        // Binding here puts every instance value inside a scalar of the parsed
        // document, so the checks and the object that reaches Kubernetes both see
        // the values the tenant actually supplied.
        Ok(value) => {
            let bound = document.bind(value)?;
            render_raw_document(&bound, namespace, labels, annotations)
        },
    }
}

// ---------------------------------------------------------------------------
// Retention of storage
// ---------------------------------------------------------------------------
/// The text at a path of two keys.
pub open spec fn text_below(document: JsonView, outer: Seq<char>, inner: Seq<char>) -> Option<
    Seq<char>,
> {
    match down(down(Some(document), outer), inner) {
        Some(found) => json::text_in(found),
        None => None,
    }
}

/// Reads the text at a path of two keys.
pub fn read_below<'a>(value: &'a Json, outer: &str, inner: &str) -> (found: Option<&'a String>)
    ensures
        super::optional_view(found) == text_below(value@, outer@, inner@),
{
    match step(step(Some(value), outer), inner) {
        Some(found) => found.as_text(),
        None => None,
    }
}

/// A raw volume keeps its bytes and a raw claim names its volume, as the parsed
/// manifest stands before the values of an instance.
pub open spec fn raw_retention_verdict(document: JsonView) -> Outcome<()> {
    let kind = json::member(document, "kind"@);
    if is_text(kind, "PersistentVolume"@) && text_below(
        document,
        "spec"@,
        "persistentVolumeReclaimPolicy"@,
    ) != Some("Retain"@) {
        super::invalid_field(
            "volumes.reclaim_policy"@,
            "raw managed static PVs require explicit Retain"@,
        )
    } else if is_text(kind, "PersistentVolumeClaim"@) && (match text_below(
        document,
        "spec"@,
        "volumeName"@,
    ) {
        Some(name) => name.len() == 0,
        None => true,
    }) {
        super::invalid_field(
            "volumes.static_binding"@,
            "raw PVCs require explicit static bindings in managed inventory"@,
        )
    } else {
        Ok(())
    }
}

/// Checks that a parsed raw manifest keeps its volume, or names it.
pub fn validate_raw_retention(value: &Json) -> (result: Result<(), ManifestRenderError>)
    ensures
        super::verdict(result) == raw_retention_verdict(value@),
{
    let kind = value.get("kind");
    if holds_text(kind, "PersistentVolume") {
        let retained = match read_below(value, "spec", "persistentVolumeReclaimPolicy") {
            Some(policy) => same_text(policy.as_str(), "Retain"),
            None => false,
        };
        if !retained {
            return Err(
                field_error(
                    "volumes.reclaim_policy",
                    "raw managed static PVs require explicit Retain",
                ),
            );
        }
    }
    if holds_text(kind, "PersistentVolumeClaim") {
        let bound = match read_below(value, "spec", "volumeName") {
            Some(name) => !name.as_str().is_empty(),
            None => false,
        };
        if !bound {
            return Err(
                field_error(
                    "volumes.static_binding",
                    "raw PVCs require explicit static bindings in managed inventory",
                ),
            );
        }
    }
    Ok(())
}

/// Every structured volume keeps its bytes.
pub open spec fn volumes_retained(volumes: Seq<VolumeTemplate>) -> bool {
    forall|i: int|
        0 <= i < volumes.len() ==> (#[trigger] volumes[i]).reclaim_policy
            == PersistentVolumeReclaimPolicy::Retain
}

/// Whether the first `count` raw manifests keep their volumes; one that does not
/// parse is passed over.
pub open spec fn raw_manifests_verdict(
    manifests: Seq<RawKubernetesManifestTemplate>,
    count: nat,
) -> Outcome<()>
    decreases count,
{
    if count == 0 || count > manifests.len() {
        Ok(())
    } else {
        match raw_manifests_verdict(manifests, (count - 1) as nat) {
            Err(error) => Err(error),
            Ok(_) => match yaml::yaml_document(bind::unbound(manifests[count - 1].manifest@).text) {
                Ok(document) => raw_retention_verdict(document),
                Err(_) => Ok(()),
            },
        }
    }
}

/// A class keeps the bytes of all its volumes. A templated raw volume is read
/// with a token in the place of each value: a token is not `Retain`, so a class
/// that lets an instance choose the policy is rejected.
pub open spec fn retention_verdict(template: ManifestTemplate) -> Outcome<()> {
    if !volumes_retained(template.volumes@) {
        super::invalid_field(
            "volumes.reclaim_policy"@,
            "managed static volumes require Retain; provider-volume deletion is outside the lifecycle contract"@,
        )
    } else {
        raw_manifests_verdict(template.raw_objects@, template.raw_objects@.len())
    }
}

proof fn lemma_retention_error_stays(
    manifests: Seq<RawKubernetesManifestTemplate>,
    from: nat,
    to: nat,
)
    requires
        from <= to <= manifests.len(),
        raw_manifests_verdict(manifests, from) is Err,
    ensures
        raw_manifests_verdict(manifests, to) == raw_manifests_verdict(manifests, from),
    decreases to,
{
    if from < to {
        lemma_retention_error_stays(manifests, from, (to - 1) as nat);
    }
}

impl ManifestTemplate {
    /// Checks that the class keeps the bytes of all its volumes.
    pub fn validate_storage_retention(&self) -> (result: Result<(), ManifestRenderError>)
        ensures
            super::verdict(result) == retention_verdict(*self),
    {
        let mut at: usize = 0;
        while at < self.volumes.len()
            invariant
                at <= self.volumes.len(),
                forall|i: int|
                    0 <= i < at ==> (#[trigger] self.volumes@[i]).reclaim_policy
                        == PersistentVolumeReclaimPolicy::Retain,
            decreases self.volumes.len() - at,
        {
            if self.volumes[at].reclaim_policy != PersistentVolumeReclaimPolicy::Retain {
                assert(!volumes_retained(self.volumes@));
                return Err(
                    field_error(
                        "volumes.reclaim_policy",
                        "managed static volumes require Retain; provider-volume deletion is outside the lifecycle contract",
                    ),
                );
            }
            at = at + 1;
        }
        let mut index: usize = 0;
        while index < self.raw_objects.len()
            invariant
                index <= self.raw_objects.len(),
                volumes_retained(self.volumes@),
                raw_manifests_verdict(self.raw_objects@, index as nat) is Ok,
            decreases self.raw_objects.len() - index,
        {
            // Reading the manifest with a token in each instance value's place
            // puts a templated raw volume under the same retention checks as a
            // literal one.
            let document = PlaceholderDocument::new(&self.raw_objects[index].manifest);
            if let Ok(value) = read_yaml(document.text()) {
                if let Err(error) = validate_raw_retention(&value) {
                    proof {
                        lemma_retention_error_stays(
                            self.raw_objects@,
                            (index + 1) as nat,
                            self.raw_objects@.len(),
                        );
                    }
                    return Err(error);
                }
            }
            index = index + 1;
        }
        Ok(())
    }
}

} // verus!
