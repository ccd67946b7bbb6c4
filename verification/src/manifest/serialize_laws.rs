//! Where everything of an object stands in its document.

use super::objects::{
    self, ContainerPortView, ContainerView, CsiPersistentVolumeSourceView, CsiSecretReferenceView,
    DeploymentView, EnvVarSourceView, EnvVarView, HttpReadinessProbeView, KubernetesObjectView,
    ObjectMetaView, PersistentVolumeClaimView, PersistentVolumeSourceView, PersistentVolumeView,
    PodTemplateMetadataView, PodTemplateSpecView, PodVolumeView, RawKubernetesObjectView,
    RenderedManifestObjectView, SecretView, ServicePortView, ServiceView, StatefulSetView, TextMap,
    VolumeMountView,
};
use super::serialize;
use super::template::{PersistentVolumeAccessMode, PersistentVolumeReclaimPolicy};
use crate::json::{self, JsonView};
use crate::string_map;
use crate::text;
use vstd::prelude::*;

verus! {

// ---------------------------------------------------------------------------
// Paths
// ---------------------------------------------------------------------------
/// What stands under a key of a key.
pub open spec fn below(document: JsonView, first: Seq<char>, second: Seq<char>) -> Option<JsonView> {
    match json::member(document, first) {
        Some(found) => json::member(found, second),
        None => None,
    }
}

/// What stands under a key of a key of a key.
pub open spec fn deep_below(
    document: JsonView,
    first: Seq<char>,
    second: Seq<char>,
    third: Seq<char>,
) -> Option<JsonView> {
    match below(document, first, second) {
        Some(found) => json::member(found, third),
        None => None,
    }
}

/// A document is a list that shows one thing after the other.
pub open spec fn lists(document: Option<JsonView>, length: nat) -> bool {
    document is Some && document->Some_0 is Array && document->Some_0->Array_0.len() == length
}

/// What stands at a place of a list.
pub open spec fn item(document: Option<JsonView>, at: int) -> JsonView {
    document->Some_0->Array_0[at]
}

/// A text that may be left out stands under a key where it is there.
pub open spec fn shows_optional(found: Option<JsonView>, content: Option<Seq<char>>) -> bool {
    match content {
        Some(content) => found == Some(JsonView::Text(content)),
        None => found is None,
    }
}

/// A number as documents write it.
pub open spec fn written_number(found: Option<JsonView>, value: nat) -> bool {
    found == Some(JsonView::Number(text::decimal(value)))
}

/// A map stands in a document with each text under its key, and with no other key.
pub open spec fn shows_map(found: Option<JsonView>, map: TextMap) -> bool {
    &&& found is Some && found->Some_0 is Object
    &&& forall|key: Seq<char>| #[trigger]
        json::member(found->Some_0, key) == (match string_map::entry_of(map, key) {
            Some(value) => Some(JsonView::Text(value)),
            None => None,
        })
}

proof fn lemma_text_members(map: TextMap, key: Seq<char>)
    ensures
        string_map::entry_of(json::text_members(map), key) == (match string_map::entry_of(
            map,
            key,
        ) {
            Some(value) => Some(JsonView::Text(value)),
            None => None,
        }),
    decreases map.len(),
{
    if map.len() > 0 && map[0].0 != key {
        lemma_text_members(map.drop_first(), key);
        assert(json::text_members(map).drop_first() =~= json::text_members(map.drop_first()));
    }
}

proof fn lemma_map_shown(map: TextMap)
    ensures
        shows_map(Some(serialize::map_document(map)), map),
{
    let document = serialize::map_document(map);
    assert forall|key: Seq<char>| #[trigger]
        json::member(document, key) == (match string_map::entry_of(map, key) {
            Some(value) => Some(JsonView::Text(value)),
            None => None,
        }) by {
        lemma_text_members(map, key);
    }
}

// ---------------------------------------------------------------------------
// Every object
// ---------------------------------------------------------------------------
/// Metadata stands in a document as it is.
pub open spec fn shows_metadata(document: JsonView, metadata: ObjectMetaView) -> bool {
    &&& below(document, "metadata"@, "name"@) == Some(JsonView::Text(metadata.name))
    &&& shows_optional(below(document, "metadata"@, "namespace"@), metadata.namespace)
    &&& shows_map(below(document, "metadata"@, "labels"@), metadata.labels)
    &&& shows_map(below(document, "metadata"@, "annotations"@), metadata.annotations)
}

/// A document says of which version and kind it is, and whose.
pub open spec fn tells_object(
    document: JsonView,
    api_version: Seq<char>,
    kind: Seq<char>,
    metadata: ObjectMetaView,
) -> bool {
    &&& json::member(document, "apiVersion"@) == Some(JsonView::Text(api_version))
    &&& json::member(document, "kind"@) == Some(JsonView::Text(kind))
    &&& shows_metadata(document, metadata)
}

proof fn lemma_metadata_keys()
    ensures
        "apiVersion"@.len() == 10,
        "kind"@.len() == 4,
        "metadata"@.len() == 8,
        "spec"@.len() == 4,
        "kind"@[0] == 'k',
        "spec"@[0] == 's',
        "name"@.len() == 4,
        "namespace"@.len() == 9,
        "labels"@.len() == 6,
        "annotations"@.len() == 11,
        "type"@.len() == 4,
        "type"@[0] == 't',
        "stringData"@.len() == 10,
        "stringData"@[0] == 's',
        "apiVersion"@[0] == 'a',
{
    reveal_strlit("apiVersion");
    reveal_strlit("kind");
    reveal_strlit("metadata");
    reveal_strlit("spec");
    reveal_strlit("name");
    reveal_strlit("namespace");
    reveal_strlit("labels");
    reveal_strlit("annotations");
    reveal_strlit("type");
    reveal_strlit("stringData");
}

proof fn lemma_metadata_document(metadata: ObjectMetaView)
    ensures
        ({
            let document = serialize::metadata_document(metadata);
            &&& json::member(document, "name"@) == Some(JsonView::Text(metadata.name))
            &&& shows_optional(json::member(document, "namespace"@), metadata.namespace)
            &&& shows_map(json::member(document, "labels"@), metadata.labels)
            &&& shows_map(json::member(document, "annotations"@), metadata.annotations)
        }),
{
    broadcast use string_map::lemma_entry_of_with_entry;

    lemma_metadata_keys();
    lemma_map_shown(metadata.labels);
    lemma_map_shown(metadata.annotations);
}

proof fn lemma_object_document(
    api_version: Seq<char>,
    kind: Seq<char>,
    metadata: ObjectMetaView,
    body: JsonView,
)
    ensures
        ({
            let document = serialize::object_document(api_version, kind, metadata, body);
            &&& tells_object(document, api_version, kind, metadata)
            &&& json::member(document, "spec"@) == Some(body)
        }),
{
    broadcast use string_map::lemma_entry_of_with_entry;

    lemma_metadata_keys();
    lemma_metadata_document(metadata);
}

// ---------------------------------------------------------------------------
// Storage
// ---------------------------------------------------------------------------
/// The word of an access mode.
pub open spec fn is_mode_word(word: JsonView, mode: PersistentVolumeAccessMode) -> bool {
    &&& mode is ReadWriteOnce ==> word == JsonView::Text("ReadWriteOnce"@)
    &&& mode is ReadOnlyMany ==> word == JsonView::Text("ReadOnlyMany"@)
    &&& mode is ReadWriteMany ==> word == JsonView::Text("ReadWriteMany"@)
}

/// Access modes stand in a document word by word, in their order.
pub open spec fn shows_modes(found: Option<JsonView>, modes: Seq<PersistentVolumeAccessMode>) -> bool {
    &&& lists(found, modes.len())
    &&& forall|i: int| 0 <= i < modes.len() ==> is_mode_word(item(found, i), #[trigger] modes[i])
}

/// No two access modes have one word, and so none is taken for another.
pub proof fn law_mode_words_differ(
    word: JsonView,
    left: PersistentVolumeAccessMode,
    right: PersistentVolumeAccessMode,
)
    requires
        is_mode_word(word, left),
        is_mode_word(word, right),
    ensures
        left == right,
{
    reveal_strlit("ReadWriteOnce");
    reveal_strlit("ReadOnlyMany");
    reveal_strlit("ReadWriteMany");
    assert("ReadWriteOnce"@[8] == 'e');
    assert("ReadWriteMany"@[8] == 'e');
    assert("ReadWriteOnce"@[9] == 'O');
    assert("ReadWriteMany"@[9] == 'M');
    assert("ReadOnlyMany"@.len() == 12);
}

/// A reference to a Secret stands in a document where it is there.
pub open spec fn shows_secret(
    found: Option<JsonView>,
    reference: Option<CsiSecretReferenceView>,
) -> bool {
    match reference {
        Some(reference) => found is Some && json::member(found->Some_0, "name"@) == Some(
            JsonView::Text(reference.name),
        ) && json::member(found->Some_0, "namespace"@) == Some(
            JsonView::Text(reference.namespace),
        ),
        None => found is None,
    }
}

/// A volume of a storage driver stands in a document as it is.
pub open spec fn shows_csi(document: JsonView, source: CsiPersistentVolumeSourceView) -> bool {
    &&& json::member(document, "driver"@) == Some(JsonView::Text(source.driver))
    &&& json::member(document, "volumeHandle"@) == Some(JsonView::Text(source.volume_handle))
    &&& shows_optional(json::member(document, "fsType"@), source.fs_type)
    &&& json::member(document, "readOnly"@) == Some(JsonView::Bool(source.read_only))
    &&& shows_map(json::member(document, "volumeAttributes"@), source.volume_attributes)
    &&& shows_secret(
        json::member(document, "controllerPublishSecretRef"@),
        source.controller_publish_secret_ref,
    )
    &&& shows_secret(json::member(document, "nodeStageSecretRef"@), source.node_stage_secret_ref)
    &&& shows_secret(
        json::member(document, "nodePublishSecretRef"@),
        source.node_publish_secret_ref,
    )
    &&& shows_secret(
        json::member(document, "controllerExpandSecretRef"@),
        source.controller_expand_secret_ref,
    )
    &&& shows_secret(json::member(document, "nodeExpandSecretRef"@), source.node_expand_secret_ref)
}

proof fn lemma_csi_keys()
    ensures
        "driver"@.len() == 6,
        "volumeHandle"@.len() == 12,
        "fsType"@.len() == 6,
        "driver"@[0] == 'd',
        "fsType"@[0] == 'f',
        "readOnly"@.len() == 8,
        "volumeAttributes"@.len() == 16,
        "controllerPublishSecretRef"@.len() == 26,
        "nodeStageSecretRef"@.len() == 18,
        "nodePublishSecretRef"@.len() == 20,
        "controllerExpandSecretRef"@.len() == 25,
        "nodeExpandSecretRef"@.len() == 19,
{
    reveal_strlit("driver");
    reveal_strlit("volumeHandle");
    reveal_strlit("fsType");
    reveal_strlit("readOnly");
    reveal_strlit("volumeAttributes");
    reveal_strlit("controllerPublishSecretRef");
    reveal_strlit("nodeStageSecretRef");
    reveal_strlit("nodePublishSecretRef");
    reveal_strlit("controllerExpandSecretRef");
    reveal_strlit("nodeExpandSecretRef");
}

/// Everything about a volume of a storage driver stands under its own key.
pub proof fn law_a_driver_is_written_down(source: CsiPersistentVolumeSourceView)
    ensures
        shows_csi(serialize::csi_document(source), source),
{
    broadcast use string_map::lemma_entry_of_with_entry;

    lemma_csi_keys();
    lemma_metadata_keys();
    lemma_map_shown(source.volume_attributes);
}

/// The bytes of a volume are where its document says: on the node or with a driver,
/// never both.
pub open spec fn shows_source(spec_document: JsonView, source: PersistentVolumeSourceView) -> bool {
    match source {
        PersistentVolumeSourceView::HostPath(source) => {
            &&& below(spec_document, "hostPath"@, "path"@) == Some(JsonView::Text(source.path))
            &&& shows_optional(below(spec_document, "hostPath"@, "type"@), source.type_)
            &&& json::member(spec_document, "csi"@) is None
        },
        PersistentVolumeSourceView::Csi(source) => {
            &&& json::member(spec_document, "csi"@) is Some
            &&& shows_csi(json::member(spec_document, "csi"@)->Some_0, source)
            &&& json::member(spec_document, "hostPath"@) is None
        },
    }
}

proof fn lemma_storage_keys()
    ensures
        "capacity"@.len() == 8,
        "capacity"@[0] == 'c',
        "storage"@.len() == 7,
        "accessModes"@.len() == 11,
        "persistentVolumeReclaimPolicy"@.len() == 29,
        "storageClassName"@.len() == 16,
        "claimRef"@.len() == 8,
        "claimRef"@[1] == 'l',
        "capacity"@[1] == 'a',
        "hostPath"@.len() == 8,
        "hostPath"@[0] == 'h',
        "claimRef"@[0] == 'c',
        "csi"@.len() == 3,
        "path"@.len() == 4,
        "path"@[0] == 'p',
        "type"@[0] == 't',
        "resources"@.len() == 9,
        "requests"@.len() == 8,
        "volumeName"@.len() == 10,
{
    reveal_strlit("capacity");
    reveal_strlit("storage");
    reveal_strlit("accessModes");
    reveal_strlit("persistentVolumeReclaimPolicy");
    reveal_strlit("storageClassName");
    reveal_strlit("claimRef");
    reveal_strlit("hostPath");
    reveal_strlit("csi");
    reveal_strlit("path");
    reveal_strlit("type");
    reveal_strlit("resources");
    reveal_strlit("requests");
    reveal_strlit("volumeName");
}

/// The document of a volume says what the volume is: its size, its access modes in
/// Kubernetes's words, whether its bytes are retained, its class, the claim it is for
/// and where its bytes are.
pub proof fn law_a_volume_is_written_down(object: PersistentVolumeView)
    ensures
        ({
            let document = serialize::document_of(KubernetesObjectView::PersistentVolume(object));
            let body = json::member(document, "spec"@);
            &&& tells_object(document, "v1"@, "PersistentVolume"@, object.metadata)
            &&& body is Some
            &&& below(body->Some_0, "capacity"@, "storage"@) == Some(
                JsonView::Text(object.spec.capacity),
            )
            &&& shows_modes(
                json::member(body->Some_0, "accessModes"@),
                object.spec.access_modes,
            )
            &&& json::member(body->Some_0, "persistentVolumeReclaimPolicy"@) == Some(
                JsonView::Text(
                    if object.spec.persistent_volume_reclaim_policy
                        == PersistentVolumeReclaimPolicy::Retain {
                        "Retain"@
                    } else {
                        "Delete"@
                    },
                ),
            )
            &&& shows_optional(
                json::member(body->Some_0, "storageClassName"@),
                object.spec.storage_class_name,
            )
            &&& below(body->Some_0, "claimRef"@, "name"@) == Some(
                JsonView::Text(object.spec.claim_ref.name),
            )
            &&& below(body->Some_0, "claimRef"@, "namespace"@) == Some(
                JsonView::Text(object.spec.claim_ref.namespace),
            )
            &&& shows_source(body->Some_0, object.spec.source)
        }),
{
    broadcast use string_map::lemma_entry_of_with_entry;

    lemma_storage_keys();
    lemma_metadata_keys();
    let document = serialize::document_of(KubernetesObjectView::PersistentVolume(object));
    if let PersistentVolumeSourceView::Csi(source) = object.spec.source {
        law_a_driver_is_written_down(source);
    }
    lemma_object_document(
        "v1"@,
        "PersistentVolume"@,
        object.metadata,
        json::member(document, "spec"@)->Some_0,
    );
    assert(shows_modes(
        Some(serialize::access_modes_document(object.spec.access_modes)),
        object.spec.access_modes,
    ));
}

/// The document of a claim says what it asks for: its access modes in Kubernetes's
/// words, its size, its class and the very volume it is bound to.
pub proof fn law_a_claim_is_written_down(object: PersistentVolumeClaimView)
    ensures
        ({
            let document = serialize::document_of(
                KubernetesObjectView::PersistentVolumeClaim(object),
            );
            let body = json::member(document, "spec"@);
            &&& tells_object(document, "v1"@, "PersistentVolumeClaim"@, object.metadata)
            &&& body is Some
            &&& shows_modes(
                json::member(body->Some_0, "accessModes"@),
                object.spec.access_modes,
            )
            &&& deep_below(body->Some_0, "resources"@, "requests"@, "storage"@) == Some(
                JsonView::Text(object.spec.resources.requests_storage),
            )
            &&& shows_optional(
                json::member(body->Some_0, "storageClassName"@),
                object.spec.storage_class_name,
            )
            &&& json::member(body->Some_0, "volumeName"@) == Some(
                JsonView::Text(object.spec.volume_name),
            )
        }),
{
    broadcast use string_map::lemma_entry_of_with_entry;

    lemma_storage_keys();
    lemma_metadata_keys();
    let document = serialize::document_of(KubernetesObjectView::PersistentVolumeClaim(object));
    lemma_object_document(
        "v1"@,
        "PersistentVolumeClaim"@,
        object.metadata,
        json::member(document, "spec"@)->Some_0,
    );
    assert(shows_modes(
        Some(serialize::access_modes_document(object.spec.access_modes)),
        object.spec.access_modes,
    ));
}

// ---------------------------------------------------------------------------
// Containers
// ---------------------------------------------------------------------------
proof fn lemma_container_keys()
    ensures
        "containerPort"@.len() == 13,
        "secretKeyRef"@.len() == 12,
        "key"@.len() == 3,
        "fieldRef"@.len() == 8,
        "fieldPath"@.len() == 9,
        "value"@.len() == 5,
        "valueFrom"@.len() == 9,
        "mountPath"@.len() == 9,
        "path"@.len() == 4,
        "port"@.len() == 4,
        "path"@[1] == 'a',
        "port"@[1] == 'o',
        "httpGet"@.len() == 7,
        "periodSeconds"@.len() == 13,
        "timeoutSeconds"@.len() == 14,
        "failureThreshold"@.len() == 16,
        "image"@.len() == 5,
        "image"@[0] == 'i',
        "ports"@.len() == 5,
        "ports"@[0] == 'p',
        "env"@.len() == 3,
        "volumeMounts"@.len() == 12,
        "securityContext"@.len() == 15,
        "allowPrivilegeEscalation"@.len() == 24,
        "readinessProbe"@.len() == 14,
        "persistentVolumeClaim"@.len() == 21,
        "claimName"@.len() == 9,
        "targetPort"@.len() == 10,
{
    reveal_strlit("containerPort");
    reveal_strlit("secretKeyRef");
    reveal_strlit("key");
    reveal_strlit("fieldRef");
    reveal_strlit("fieldPath");
    reveal_strlit("value");
    reveal_strlit("valueFrom");
    reveal_strlit("mountPath");
    reveal_strlit("path");
    reveal_strlit("port");
    reveal_strlit("httpGet");
    reveal_strlit("periodSeconds");
    reveal_strlit("timeoutSeconds");
    reveal_strlit("failureThreshold");
    reveal_strlit("image");
    reveal_strlit("ports");
    reveal_strlit("env");
    reveal_strlit("volumeMounts");
    reveal_strlit("securityContext");
    reveal_strlit("allowPrivilegeEscalation");
    reveal_strlit("readinessProbe");
    reveal_strlit("persistentVolumeClaim");
    reveal_strlit("claimName");
    reveal_strlit("targetPort");
}

/// A port of a container stands in a document as it is.
pub open spec fn shows_container_port(document: JsonView, port: ContainerPortView) -> bool {
    &&& shows_optional(json::member(document, "name"@), port.name)
    &&& written_number(json::member(document, "containerPort"@), port.container_port as nat)
}

/// A variable stands in a document with its name, and with its value or with where the
/// value is to be found, never with both.
pub open spec fn shows_env(document: JsonView, env: EnvVarView) -> bool {
    &&& json::member(document, "name"@) == Some(JsonView::Text(env.name))
    &&& match env.value_from {
        None => {
            &&& json::member(document, "value"@) == Some(JsonView::Text(env.value))
            &&& json::member(document, "valueFrom"@) is None
        },
        Some(EnvVarSourceView::SecretKeyRef(secret)) => {
            &&& json::member(document, "value"@) is None
            &&& deep_below(document, "valueFrom"@, "secretKeyRef"@, "name"@) == Some(
                JsonView::Text(secret.name),
            )
            &&& deep_below(document, "valueFrom"@, "secretKeyRef"@, "key"@) == Some(
                JsonView::Text(secret.key),
            )
        },
        Some(EnvVarSourceView::FieldRef { field_path }) => {
            &&& json::member(document, "value"@) is None
            &&& deep_below(document, "valueFrom"@, "fieldRef"@, "fieldPath"@) == Some(
                JsonView::Text(field_path),
            )
            &&& deep_below(document, "valueFrom"@, "fieldRef"@, "apiVersion"@) == Some(
                JsonView::Text("v1"@),
            )
        },
    }
}

/// A mount stands in a document as it is.
pub open spec fn shows_mount(document: JsonView, mount: VolumeMountView) -> bool {
    &&& json::member(document, "name"@) == Some(JsonView::Text(mount.name))
    &&& json::member(document, "mountPath"@) == Some(JsonView::Text(mount.mount_path))
}

/// A readiness probe stands in a document as it is.
pub open spec fn shows_probe(found: Option<JsonView>, probe: Option<HttpReadinessProbeView>) -> bool {
    match probe {
        None => found is None,
        Some(probe) => {
            &&& found is Some
            &&& below(found->Some_0, "httpGet"@, "path"@) == Some(JsonView::Text(probe.path))
            &&& written_number(below(found->Some_0, "httpGet"@, "port"@), probe.port as nat)
            &&& written_number(
                json::member(found->Some_0, "periodSeconds"@),
                probe.period_seconds as nat,
            )
            &&& written_number(
                json::member(found->Some_0, "timeoutSeconds"@),
                probe.timeout_seconds as nat,
            )
            &&& written_number(
                json::member(found->Some_0, "failureThreshold"@),
                probe.failure_threshold as nat,
            )
        },
    }
}

/// A container stands in a document as it is, and may not gain privileges.
pub open spec fn shows_container(document: JsonView, container: ContainerView) -> bool {
    let ports = json::member(document, "ports"@);
    let env = json::member(document, "env"@);
    let mounts = json::member(document, "volumeMounts"@);
    &&& json::member(document, "name"@) == Some(JsonView::Text(container.name))
    &&& json::member(document, "image"@) == Some(JsonView::Text(container.image))
    &&& below(document, "securityContext"@, "allowPrivilegeEscalation"@) == Some(
        JsonView::Bool(false),
    )
    &&& shows_probe(json::member(document, "readinessProbe"@), container.readiness_probe)
    &&& lists(ports, container.ports.len())
    &&& forall|i: int|
        0 <= i < container.ports.len() ==> shows_container_port(
            item(ports, i),
            #[trigger] container.ports[i],
        )
    &&& lists(env, container.env.len())
    &&& forall|i: int|
        0 <= i < container.env.len() ==> shows_env(item(env, i), #[trigger] container.env[i])
    &&& lists(mounts, container.volume_mounts.len())
    &&& forall|i: int|
        0 <= i < container.volume_mounts.len() ==> shows_mount(
            item(mounts, i),
            #[trigger] container.volume_mounts[i],
        )
}

proof fn lemma_container_port_document(port: ContainerPortView)
    ensures
        shows_container_port(serialize::container_port_document(port), port),
{
    broadcast use string_map::lemma_entry_of_with_entry;

    lemma_metadata_keys();
    lemma_container_keys();
}

proof fn lemma_env_document(env: EnvVarView)
    ensures
        shows_env(serialize::env_document(env), env),
{
    broadcast use string_map::lemma_entry_of_with_entry;

    lemma_metadata_keys();
    lemma_container_keys();
}

proof fn lemma_mount_document(mount: VolumeMountView)
    ensures
        shows_mount(serialize::volume_mount_document(mount), mount),
{
    broadcast use string_map::lemma_entry_of_with_entry;

    lemma_metadata_keys();
    lemma_container_keys();
}

proof fn lemma_probe_document(probe: HttpReadinessProbeView)
    ensures
        shows_probe(Some(serialize::probe_document(probe)), Some(probe)),
{
    broadcast use string_map::lemma_entry_of_with_entry;

    lemma_metadata_keys();
    lemma_container_keys();
}

/// Everything about a container stands under its own key: its ports, its variables, its
/// mounts and its probe, each in its place.
pub proof fn law_a_container_is_written_down(container: ContainerView)
    ensures
        shows_container(serialize::container_document(container), container),
{
    broadcast use string_map::lemma_entry_of_with_entry;

    lemma_metadata_keys();
    lemma_container_keys();
    if let Some(probe) = container.readiness_probe {
        lemma_probe_document(probe);
    }
    assert forall|i: int| 0 <= i < container.ports.len() implies shows_container_port(
        item(Some(serialize::container_port_documents(container.ports)), i),
        #[trigger] container.ports[i],
    ) by {
        lemma_container_port_document(container.ports[i]);
    }
    assert forall|i: int| 0 <= i < container.env.len() implies shows_env(
        item(Some(serialize::env_documents(container.env)), i),
        #[trigger] container.env[i],
    ) by {
        lemma_env_document(container.env[i]);
    }
    assert forall|i: int| 0 <= i < container.volume_mounts.len() implies shows_mount(
        item(Some(serialize::volume_mount_documents(container.volume_mounts)), i),
        #[trigger] container.volume_mounts[i],
    ) by {
        lemma_mount_document(container.volume_mounts[i]);
    }
}

// ---------------------------------------------------------------------------
// Pods and workloads
// ---------------------------------------------------------------------------
proof fn lemma_workload_keys()
    ensures
        "containers"@.len() == 10,
        "volumes"@.len() == 7,
        "automountServiceAccountToken"@.len() == 28,
        "seccompProfile"@.len() == 14,
        "replicas"@.len() == 8,
        "replicas"@[0] == 'r',
        "strategy"@.len() == 8,
        "strategy"@[0] == 's',
        "strategy"@[1] == 't',
        "selector"@.len() == 8,
        "selector"@[0] == 's',
        "selector"@[1] == 'e',
        "matchLabels"@.len() == 11,
        "template"@.len() == 8,
        "template"@[0] == 't',
        "serviceName"@.len() == 11,
{
    reveal_strlit("containers");
    reveal_strlit("volumes");
    reveal_strlit("automountServiceAccountToken");
    reveal_strlit("seccompProfile");
    reveal_strlit("replicas");
    reveal_strlit("strategy");
    reveal_strlit("selector");
    reveal_strlit("matchLabels");
    reveal_strlit("template");
    reveal_strlit("serviceName");
}

/// A volume of a pod stands in a document as it is.
pub open spec fn shows_pod_volume(document: JsonView, volume: PodVolumeView) -> bool {
    &&& json::member(document, "name"@) == Some(JsonView::Text(volume.name))
    &&& below(document, "persistentVolumeClaim"@, "claimName"@) == Some(
        JsonView::Text(volume.persistent_volume_claim.claim_name),
    )
}

/// A pod template stands in a document as it is: it gets no token of the cluster, and the
/// runtime's own filter of system calls.
pub open spec fn shows_pod_template(document: JsonView, template: PodTemplateSpecView) -> bool {
    let body = json::member(document, "spec"@);
    let containers = json::member(body->Some_0, "containers"@);
    let volumes = json::member(body->Some_0, "volumes"@);
    &&& shows_map(below(document, "metadata"@, "labels"@), template.metadata.labels)
    &&& shows_map(below(document, "metadata"@, "annotations"@), template.metadata.annotations)
    &&& body is Some
    &&& json::member(body->Some_0, "automountServiceAccountToken"@) == Some(JsonView::Bool(false))
    &&& deep_below(body->Some_0, "securityContext"@, "seccompProfile"@, "type"@) == Some(
        JsonView::Text("RuntimeDefault"@),
    )
    &&& lists(containers, template.spec.containers.len())
    &&& forall|i: int|
        0 <= i < template.spec.containers.len() ==> shows_container(
            item(containers, i),
            #[trigger] template.spec.containers[i],
        )
    &&& lists(volumes, template.spec.volumes.len())
    &&& forall|i: int|
        0 <= i < template.spec.volumes.len() ==> shows_pod_volume(
            item(volumes, i),
            #[trigger] template.spec.volumes[i],
        )
}

proof fn lemma_pod_volume_document(volume: PodVolumeView)
    ensures
        shows_pod_volume(serialize::pod_volume_document(volume), volume),
{
    broadcast use string_map::lemma_entry_of_with_entry;

    lemma_metadata_keys();
    lemma_container_keys();
}

/// Everything about a pod stands under its own key.
pub proof fn law_a_pod_is_written_down(template: PodTemplateSpecView)
    ensures
        shows_pod_template(serialize::pod_template_document(template), template),
{
    broadcast use string_map::lemma_entry_of_with_entry;

    lemma_metadata_keys();
    lemma_container_keys();
    lemma_workload_keys();
    lemma_map_shown(template.metadata.labels);
    lemma_map_shown(template.metadata.annotations);
    assert forall|i: int| 0 <= i < template.spec.containers.len() implies shows_container(
        item(Some(serialize::container_documents(template.spec.containers)), i),
        #[trigger] template.spec.containers[i],
    ) by {
        law_a_container_is_written_down(template.spec.containers[i]);
    }
    assert forall|i: int| 0 <= i < template.spec.volumes.len() implies shows_pod_volume(
        item(Some(serialize::pod_volume_documents(template.spec.volumes)), i),
        #[trigger] template.spec.volumes[i],
    ) by {
        lemma_pod_volume_document(template.spec.volumes[i]);
    }
}

/// The document of a Deployment says how many pods it runs, whom it selects and what its
/// pods are, and that an old pod goes before a new one comes.
pub proof fn law_a_deployment_is_written_down(object: DeploymentView)
    ensures
        ({
            let document = serialize::document_of(KubernetesObjectView::Deployment(object));
            let body = json::member(document, "spec"@);
            &&& tells_object(document, "apps/v1"@, "Deployment"@, object.metadata)
            &&& body is Some
            &&& written_number(
                json::member(body->Some_0, "replicas"@),
                object.spec.replicas as nat,
            )
            &&& below(body->Some_0, "strategy"@, "type"@) == Some(JsonView::Text("Recreate"@))
            &&& shows_map(
                below(body->Some_0, "selector"@, "matchLabels"@),
                object.spec.selector.match_labels,
            )
            &&& json::member(body->Some_0, "template"@) is Some
            &&& shows_pod_template(
                json::member(body->Some_0, "template"@)->Some_0,
                object.spec.template,
            )
        }),
{
    broadcast use string_map::lemma_entry_of_with_entry;

    let document = serialize::document_of(KubernetesObjectView::Deployment(object));
    lemma_workload_keys();
    lemma_metadata_keys();
    lemma_map_shown(object.spec.selector.match_labels);
    law_a_pod_is_written_down(object.spec.template);
    lemma_object_document(
        "apps/v1"@,
        "Deployment"@,
        object.metadata,
        json::member(document, "spec"@)->Some_0,
    );
}

/// The document of a StatefulSet says how many pods it runs, under which service, whom it
/// selects and what its pods are.
pub proof fn law_a_stateful_set_is_written_down(object: StatefulSetView)
    ensures
        ({
            let document = serialize::document_of(KubernetesObjectView::StatefulSet(object));
            let body = json::member(document, "spec"@);
            &&& tells_object(document, "apps/v1"@, "StatefulSet"@, object.metadata)
            &&& body is Some
            &&& written_number(
                json::member(body->Some_0, "replicas"@),
                object.spec.replicas as nat,
            )
            &&& json::member(body->Some_0, "serviceName"@) == Some(
                JsonView::Text(object.spec.service_name),
            )
            &&& shows_map(
                below(body->Some_0, "selector"@, "matchLabels"@),
                object.spec.selector.match_labels,
            )
            &&& json::member(body->Some_0, "template"@) is Some
            &&& shows_pod_template(
                json::member(body->Some_0, "template"@)->Some_0,
                object.spec.template,
            )
        }),
{
    broadcast use string_map::lemma_entry_of_with_entry;

    let document = serialize::document_of(KubernetesObjectView::StatefulSet(object));
    lemma_workload_keys();
    lemma_metadata_keys();
    lemma_map_shown(object.spec.selector.match_labels);
    law_a_pod_is_written_down(object.spec.template);
    lemma_object_document(
        "apps/v1"@,
        "StatefulSet"@,
        object.metadata,
        json::member(document, "spec"@)->Some_0,
    );
}

// ---------------------------------------------------------------------------
// Services and secrets
// ---------------------------------------------------------------------------
/// A port of a service stands in a document as it is.
pub open spec fn shows_service_port(document: JsonView, port: ServicePortView) -> bool {
    &&& shows_optional(json::member(document, "name"@), port.name)
    &&& written_number(json::member(document, "port"@), port.port as nat)
    &&& written_number(json::member(document, "targetPort"@), port.target_port as nat)
}

proof fn lemma_service_port_document(port: ServicePortView)
    ensures
        shows_service_port(serialize::service_port_document(port), port),
{
    broadcast use string_map::lemma_entry_of_with_entry;

    lemma_metadata_keys();
    lemma_container_keys();
    assert("name"@[0] == 'n') by {
        reveal_strlit("name");
    }
    assert("port"@[0] == 'p') by {
        reveal_strlit("port");
    }
}

/// The document of a Service says whom it selects and to which port each of its ports
/// leads.
pub proof fn law_a_service_is_written_down(object: ServiceView)
    ensures
        ({
            let document = serialize::document_of(KubernetesObjectView::Service(object));
            let body = json::member(document, "spec"@);
            let ports = json::member(body->Some_0, "ports"@);
            &&& tells_object(document, "v1"@, "Service"@, object.metadata)
            &&& body is Some
            &&& shows_map(json::member(body->Some_0, "selector"@), object.spec.selector)
            &&& lists(ports, object.spec.ports.len())
            &&& forall|i: int|
                0 <= i < object.spec.ports.len() ==> shows_service_port(
                    item(ports, i),
                    #[trigger] object.spec.ports[i],
                )
        }),
{
    broadcast use string_map::lemma_entry_of_with_entry;

    let document = serialize::document_of(KubernetesObjectView::Service(object));
    lemma_workload_keys();
    lemma_container_keys();
    lemma_metadata_keys();
    lemma_map_shown(object.spec.selector);
    assert forall|i: int| 0 <= i < object.spec.ports.len() implies shows_service_port(
        item(Some(serialize::service_port_documents(object.spec.ports)), i),
        #[trigger] object.spec.ports[i],
    ) by {
        lemma_service_port_document(object.spec.ports[i]);
    }
    lemma_object_document(
        "v1"@,
        "Service"@,
        object.metadata,
        json::member(document, "spec"@)->Some_0,
    );
}

/// The document of a Secret says its type and what it holds.
pub proof fn law_a_secret_is_written_down(object: SecretView)
    ensures
        ({
            let document = serialize::document_of(KubernetesObjectView::Secret(object));
            &&& tells_object(document, "v1"@, "Secret"@, object.metadata)
            &&& json::member(document, "type"@) == Some(JsonView::Text(object.type_))
            &&& shows_map(json::member(document, "stringData"@), object.string_data)
        }),
{
    broadcast use string_map::lemma_entry_of_with_entry;

    lemma_metadata_keys();
    lemma_metadata_document(object.metadata);
    lemma_map_shown(object.string_data);
}

// ---------------------------------------------------------------------------
// Raw objects
// ---------------------------------------------------------------------------
/// The document of a raw object is the document it was given as, but for what it is
/// called: its version, its kind, its metadata and the metadata of its pods. Everything
/// else stands in it as it stood.
pub proof fn law_a_raw_object_is_written_down(object: RawKubernetesObjectView, key: Seq<char>)
    requires
        string_map::sorted_keys(
            json::members_of(
                string_map::entry_of(json::members_of(Some(object.value)), "metadata"@),
            ),
        ),
    ensures
        ({
            let document = serialize::document_of(KubernetesObjectView::Raw(object));
            let given = json::members_of(Some(object.value));
            &&& tells_object(document, object.api_version, object.kind, object.metadata)
            &&& key != "apiVersion"@ && key != "kind"@ && key != "metadata"@ && (key != "spec"@
                || object.pod_template_metadata is None) ==> json::member(document, key)
                == string_map::entry_of(given, key)
            &&& key != "name"@ && key != "namespace"@ && key != "labels"@ && key != "annotations"@
                ==> below(document, "metadata"@, key) == serialize::inner(
                string_map::entry_of(given, "metadata"@),
                key,
            )
        }),
{
    broadcast use string_map::lemma_entry_of_with_entry;

    lemma_metadata_keys();
    lemma_map_shown(object.metadata.labels);
    lemma_map_shown(object.metadata.annotations);
    let given = json::members_of(Some(object.value));
    let old_metadata = json::members_of(string_map::entry_of(given, "metadata"@));
    let named = serialize::put(old_metadata, "name"@, JsonView::Text(object.metadata.name));
    string_map::lemma_with_entry_sorted(old_metadata, "name"@, JsonView::Text(object.metadata.name));
    string_map::lemma_entry_of_without_entry(named, "namespace"@, "namespace"@);
    string_map::lemma_entry_of_without_entry(named, "namespace"@, "name"@);
    string_map::lemma_entry_of_without_entry(named, "namespace"@, key);
}

/// The pods of a raw workload get the labels and annotations meant for them, and the rest
/// of the workload stands as it stood.
pub proof fn law_a_raw_workload_labels_its_pods(
    object: RawKubernetesObjectView,
    metadata: PodTemplateMetadataView,
    key: Seq<char>,
)
    requires
        object.pod_template_metadata == Some(metadata),
    ensures
        ({
            let document = serialize::document_of(KubernetesObjectView::Raw(object));
            let given = string_map::entry_of(json::members_of(Some(object.value)), "spec"@);
            let template = below(document, "spec"@, "template"@);
            &&& template is Some
            &&& shows_map(below(template->Some_0, "metadata"@, "labels"@), metadata.labels)
            &&& shows_map(
                below(template->Some_0, "metadata"@, "annotations"@),
                metadata.annotations,
            )
            &&& key != "template"@ ==> below(document, "spec"@, key) == serialize::inner(given, key)
            &&& key != "metadata"@ ==> json::member(template->Some_0, key) == serialize::inner(
                serialize::inner(given, "template"@),
                key,
            )
        }),
{
    broadcast use string_map::lemma_entry_of_with_entry;

    lemma_metadata_keys();
    lemma_map_shown(metadata.labels);
    lemma_map_shown(metadata.annotations);
}

/// The documents of a manifest are those of its objects, in their order.
pub proof fn law_every_object_is_written_down(objects: Seq<RenderedManifestObjectView>, at: int)
    requires
        0 <= at < objects.len(),
    ensures
        serialize::documents_of(objects).len() == objects.len(),
        serialize::documents_of(objects)[at] == serialize::document_of(objects[at].object),
{
}

/// An object is found by what its document says: by the version, the kind and the metadata
/// that stand in it.
pub proof fn law_an_object_is_what_its_document_says(object: KubernetesObjectView)
    requires
        object is Raw ==> string_map::sorted_keys(
            json::members_of(
                string_map::entry_of(json::members_of(Some(object->Raw_0.value)), "metadata"@),
            ),
        ),
    ensures
        tells_object(
            serialize::document_of(object),
            objects::api_version_of(object),
            objects::kind_of(object),
            objects::metadata_of(object),
        ),
        objects::namespace_of(object) == (match objects::metadata_of(object).namespace {
            Some(namespace) => namespace,
            None => Seq::empty(),
        }),
{
    match object {
        KubernetesObjectView::Deployment(object) => law_a_deployment_is_written_down(object),
        KubernetesObjectView::StatefulSet(object) => law_a_stateful_set_is_written_down(object),
        KubernetesObjectView::Service(object) => law_a_service_is_written_down(object),
        KubernetesObjectView::Secret(object) => law_a_secret_is_written_down(object),
        KubernetesObjectView::PersistentVolume(object) => law_a_volume_is_written_down(object),
        KubernetesObjectView::PersistentVolumeClaim(object) => law_a_claim_is_written_down(object),
        KubernetesObjectView::Raw(object) => law_a_raw_object_is_written_down(object, "kind"@),
    }
}

} // verus!
