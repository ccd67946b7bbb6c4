//! Kubernetes objects as the documents that the API server takes.

use super::objects::{
    self, Container, ContainerPort, ContainerPortView, ContainerView, CsiPersistentVolumeSource,
    CsiPersistentVolumeSourceView, CsiSecretReference, CsiSecretReferenceView, Deployment,
    DeploymentView, EnvVar, EnvVarSource, EnvVarSourceView, EnvVarView,
    HostPathPersistentVolumeSource, HostPathPersistentVolumeSourceView, HttpReadinessProbe,
    HttpReadinessProbeView, KubernetesObject, KubernetesObjectView, ObjectMeta, ObjectMetaView,
    PersistentVolume, PersistentVolumeClaim, PersistentVolumeClaimView, PersistentVolumeSource,
    PersistentVolumeSourceView, PersistentVolumeView, PodTemplateMetadata,
    PodTemplateMetadataView, PodTemplateSpec, PodTemplateSpecView, PodVolume, PodVolumeView,
    RawKubernetesObject, RawKubernetesObjectView, RenderedManifest, RenderedManifestObject,
    Secret, SecretView, Service, ServicePort, ServicePortView, ServiceView, StatefulSet,
    StatefulSetView, VolumeMount, VolumeMountView,
};
use super::template::{PersistentVolumeAccessMode, PersistentVolumeReclaimPolicy};
use crate::json::{self, copied_members, text_object, Json, JsonView};
use crate::string_map::{self, StringMap};
use crate::text;
use vstd::prelude::*;

verus! {

/// The model of the members of an object.
pub type Members = Seq<(Seq<char>, JsonView)>;

/// `members` with `value` under `key`.
pub open spec fn put(members: Members, key: Seq<char>, value: JsonView) -> Members {
    string_map::with_entry(members, key, value)
}

/// `members` with a text under `key`, where there is one.
pub open spec fn put_text(members: Members, key: Seq<char>, value: Option<Seq<char>>) -> Members {
    match value {
        Some(content) => put(members, key, JsonView::Text(content)),
        None => members,
    }
}

/// An object without members.
pub open spec fn nothing() -> Members {
    Seq::empty()
}

/// An object with one member.
pub open spec fn single(key: Seq<char>, value: JsonView) -> JsonView {
    JsonView::Object(put(nothing(), key, value))
}

/// A whole number.
pub open spec fn number(value: nat) -> JsonView {
    JsonView::Number(text::decimal(value))
}

/// A map of texts as an object of strings.
pub open spec fn map_document(map: objects::TextMap) -> JsonView {
    JsonView::Object(json::text_members(map))
}

fn single_object(key: &str, value: Json) -> (json: Json)
    ensures
        json@ == single(key@, value@),
{
    let mut members: StringMap<Json> = StringMap::new();
    members.insert(key.to_owned(), value);
    Json::object(members)
}

fn insert_optional_string(members: &mut StringMap<Json>, key: &str, value: &Option<String>)
    ensures
        final(members)@ == put_text(old(members)@, key@, super::optional_view(*value)),
{
    if let Some(content) = value {
        members.insert(key.to_owned(), Json::text(content.clone()));
    }
}

// ---------------------------------------------------------------------------
// Metadata
// ---------------------------------------------------------------------------
/// The document of an object's metadata.
pub open spec fn metadata_document(metadata: ObjectMetaView) -> JsonView {
    let named = put(nothing(), "name"@, JsonView::Text(metadata.name));
    let placed = put_text(named, "namespace"@, metadata.namespace);
    let labelled = put(placed, "labels"@, map_document(metadata.labels));
    JsonView::Object(put(labelled, "annotations"@, map_document(metadata.annotations)))
}

fn metadata_to_value(metadata: &ObjectMeta) -> (json: Json)
    ensures
        json@ == metadata_document(metadata@),
{
    let mut members: StringMap<Json> = StringMap::new();
    members.insert("name".to_owned(), Json::text(metadata.name.clone()));
    insert_optional_string(&mut members, "namespace", &metadata.namespace);
    members.insert("labels".to_owned(), text_object(&metadata.labels));
    members.insert("annotations".to_owned(), text_object(&metadata.annotations));
    Json::object(members)
}

/// The document of an object: its version, kind, metadata and specification.
pub open spec fn object_document(
    api_version: Seq<char>,
    kind: Seq<char>,
    metadata: ObjectMetaView,
    spec_document: JsonView,
) -> JsonView {
    let versioned = put(nothing(), "apiVersion"@, JsonView::Text(api_version));
    let kinded = put(versioned, "kind"@, JsonView::Text(kind));
    let described = put(kinded, "metadata"@, metadata_document(metadata));
    JsonView::Object(put(described, "spec"@, spec_document))
}

fn object_to_value(api_version: &str, kind: &str, metadata: &ObjectMeta, specification: Json) -> (json:
    Json)
    ensures
        json@ == object_document(api_version@, kind@, metadata@, specification@),
{
    let mut members: StringMap<Json> = StringMap::new();
    members.insert("apiVersion".to_owned(), Json::text_from(api_version));
    members.insert("kind".to_owned(), Json::text_from(kind));
    members.insert("metadata".to_owned(), metadata_to_value(metadata));
    members.insert("spec".to_owned(), specification);
    Json::object(members)
}

// ---------------------------------------------------------------------------
// Containers and pods
// ---------------------------------------------------------------------------
/// The document of a container's port.
pub open spec fn container_port_document(port: ContainerPortView) -> JsonView {
    let named = put_text(nothing(), "name"@, port.name);
    JsonView::Object(put(named, "containerPort"@, number(port.container_port as nat)))
}

fn container_port_to_value(port: &ContainerPort) -> (json: Json)
    ensures
        json@ == container_port_document(port@),
{
    let mut members: StringMap<Json> = StringMap::new();
    insert_optional_string(&mut members, "name", &port.name);
    members.insert("containerPort".to_owned(), Json::number(port.container_port as u64));
    Json::object(members)
}

/// The document of the source of an environment variable.
pub open spec fn env_source_document(source: EnvVarSourceView) -> JsonView {
    match source {
        EnvVarSourceView::SecretKeyRef(secret) => {
            let named = put(nothing(), "name"@, JsonView::Text(secret.name));
            single(
                "secretKeyRef"@,
                JsonView::Object(put(named, "key"@, JsonView::Text(secret.key))),
            )
        },
        EnvVarSourceView::FieldRef { field_path } => {
            let versioned = put(nothing(), "apiVersion"@, JsonView::Text("v1"@));
            single(
                "fieldRef"@,
                JsonView::Object(put(versioned, "fieldPath"@, JsonView::Text(field_path))),
            )
        },
    }
}

fn env_source_to_value(source: &EnvVarSource) -> (json: Json)
    ensures
        json@ == env_source_document(source@),
{
    let mut members: StringMap<Json> = StringMap::new();
    match source {
        EnvVarSource::SecretKeyRef(secret) => {
            members.insert("name".to_owned(), Json::text(secret.name.clone()));
            members.insert("key".to_owned(), Json::text(secret.key.clone()));
            single_object("secretKeyRef", Json::object(members))
        },
        EnvVarSource::FieldRef { field_path } => {
            members.insert("apiVersion".to_owned(), Json::text_from("v1"));
            members.insert("fieldPath".to_owned(), Json::text(field_path.clone()));
            single_object("fieldRef", Json::object(members))
        },
    }
}

/// The document of an environment variable: it has a source or a value, not both.
pub open spec fn env_document(env: EnvVarView) -> JsonView {
    let named = put(nothing(), "name"@, JsonView::Text(env.name));
    match env.value_from {
        Some(source) => JsonView::Object(put(named, "valueFrom"@, env_source_document(source))),
        None => JsonView::Object(put(named, "value"@, JsonView::Text(env.value))),
    }
}

fn env_var_to_value(env: &EnvVar) -> (json: Json)
    ensures
        json@ == env_document(env@),
{
    let mut members: StringMap<Json> = StringMap::new();
    members.insert("name".to_owned(), Json::text(env.name.clone()));
    match &env.value_from {
        Some(source) => members.insert("valueFrom".to_owned(), env_source_to_value(source)),
        None => members.insert("value".to_owned(), Json::text(env.value.clone())),
    }
    Json::object(members)
}

/// The document of a volume mount.
pub open spec fn volume_mount_document(mount: VolumeMountView) -> JsonView {
    let named = put(nothing(), "name"@, JsonView::Text(mount.name));
    JsonView::Object(put(named, "mountPath"@, JsonView::Text(mount.mount_path)))
}

fn volume_mount_to_value(mount: &VolumeMount) -> (json: Json)
    ensures
        json@ == volume_mount_document(mount@),
{
    let mut members: StringMap<Json> = StringMap::new();
    members.insert("name".to_owned(), Json::text(mount.name.clone()));
    members.insert("mountPath".to_owned(), Json::text(mount.mount_path.clone()));
    Json::object(members)
}

/// The document of a readiness probe.
pub open spec fn probe_document(probe: HttpReadinessProbeView) -> JsonView {
    let asked = put(nothing(), "path"@, JsonView::Text(probe.path));
    let get = JsonView::Object(put(asked, "port"@, number(probe.port as nat)));
    let a = put(nothing(), "httpGet"@, get);
    let b = put(a, "periodSeconds"@, number(probe.period_seconds as nat));
    let c = put(b, "timeoutSeconds"@, number(probe.timeout_seconds as nat));
    JsonView::Object(put(c, "failureThreshold"@, number(probe.failure_threshold as nat)))
}

fn probe_to_value(probe: &HttpReadinessProbe) -> (json: Json)
    ensures
        json@ == probe_document(probe@),
{
    let mut get: StringMap<Json> = StringMap::new();
    get.insert("path".to_owned(), Json::text(probe.path.clone()));
    get.insert("port".to_owned(), Json::number(probe.port as u64));
    let mut members: StringMap<Json> = StringMap::new();
    members.insert("httpGet".to_owned(), Json::object(get));
    members.insert("periodSeconds".to_owned(), Json::number(probe.period_seconds as u64));
    members.insert("timeoutSeconds".to_owned(), Json::number(probe.timeout_seconds as u64));
    members.insert("failureThreshold".to_owned(), Json::number(probe.failure_threshold as u64));
    Json::object(members)
}

/// The documents of a list of ports.
pub open spec fn container_port_documents(ports: Seq<ContainerPortView>) -> JsonView {
    JsonView::Array(Seq::new(ports.len(), |i: int| container_port_document(ports[i])))
}

/// The documents of a list of environment variables.
pub open spec fn env_documents(env: Seq<EnvVarView>) -> JsonView {
    JsonView::Array(Seq::new(env.len(), |i: int| env_document(env[i])))
}

/// The documents of a list of volume mounts.
pub open spec fn volume_mount_documents(mounts: Seq<VolumeMountView>) -> JsonView {
    JsonView::Array(Seq::new(mounts.len(), |i: int| volume_mount_document(mounts[i])))
}

fn container_ports_to_value(ports: &Vec<ContainerPort>) -> (json: Json)
    ensures
        json@ == container_port_documents(super::views(ports@)),
{
    let mut items: Vec<Json> = Vec::new();
    let mut index: usize = 0;
    while index < ports.len()
        invariant
            index <= ports.len(),
            items@.len() == index,
            forall|i: int|
                0 <= i < index ==> (#[trigger] items@[i])@ == container_port_document(ports@[i]@),
        decreases ports.len() - index,
    {
        items.push(container_port_to_value(&ports[index]));
        index = index + 1;
    }
    assert(json::json_views(items@) =~= container_port_documents(super::views(ports@))->Array_0);
    Json::array(items)
}

fn env_to_value(env: &Vec<EnvVar>) -> (json: Json)
    ensures
        json@ == env_documents(super::views(env@)),
{
    let mut items: Vec<Json> = Vec::new();
    let mut index: usize = 0;
    while index < env.len()
        invariant
            index <= env.len(),
            items@.len() == index,
            forall|i: int| 0 <= i < index ==> (#[trigger] items@[i])@ == env_document(env@[i]@),
        decreases env.len() - index,
    {
        items.push(env_var_to_value(&env[index]));
        index = index + 1;
    }
    assert(json::json_views(items@) =~= env_documents(super::views(env@))->Array_0);
    Json::array(items)
}

fn volume_mounts_to_value(mounts: &Vec<VolumeMount>) -> (json: Json)
    ensures
        json@ == volume_mount_documents(super::views(mounts@)),
{
    let mut items: Vec<Json> = Vec::new();
    let mut index: usize = 0;
    while index < mounts.len()
        invariant
            index <= mounts.len(),
            items@.len() == index,
            forall|i: int|
                0 <= i < index ==> (#[trigger] items@[i])@ == volume_mount_document(mounts@[i]@),
        decreases mounts.len() - index,
    {
        items.push(volume_mount_to_value(&mounts[index]));
        index = index + 1;
    }
    assert(json::json_views(items@) =~= volume_mount_documents(super::views(mounts@))->Array_0);
    Json::array(items)
}

/// The document of a container. A container starts with the privileges its image
/// needs and gains none after that.
pub open spec fn container_document(container: ContainerView) -> JsonView {
    let a = put(nothing(), "name"@, JsonView::Text(container.name));
    let b = put(a, "image"@, JsonView::Text(container.image));
    let c = put(b, "ports"@, container_port_documents(container.ports));
    let d = put(c, "env"@, env_documents(container.env));
    let e = put(d, "volumeMounts"@, volume_mount_documents(container.volume_mounts));
    let f = put(
        e,
        "securityContext"@,
        single("allowPrivilegeEscalation"@, JsonView::Bool(false)),
    );
    JsonView::Object(
        match container.readiness_probe {
            Some(probe) => put(f, "readinessProbe"@, probe_document(probe)),
            None => f,
        },
    )
}

fn container_to_value(container: &Container) -> (json: Json)
    ensures
        json@ == container_document(container@),
{
    let mut members: StringMap<Json> = StringMap::new();
    members.insert("name".to_owned(), Json::text(container.name.clone()));
    members.insert("image".to_owned(), Json::text(container.image.clone()));
    members.insert("ports".to_owned(), container_ports_to_value(&container.ports));
    members.insert("env".to_owned(), env_to_value(&container.env));
    members.insert("volumeMounts".to_owned(), volume_mounts_to_value(&container.volume_mounts));
    // A container starts with the privileges its image needs and gains none
    // after that, so a setuid binary inside it stays at the same level.
    members.insert(
        "securityContext".to_owned(),
        single_object("allowPrivilegeEscalation", Json::bool(false)),
    );
    if let Some(probe) = &container.readiness_probe {
        members.insert("readinessProbe".to_owned(), probe_to_value(probe));
    }
    Json::object(members)
}

/// The document of a pod's volume.
pub open spec fn pod_volume_document(volume: PodVolumeView) -> JsonView {
    let named = put(nothing(), "name"@, JsonView::Text(volume.name));
    JsonView::Object(
        put(
            named,
            "persistentVolumeClaim"@,
            single("claimName"@, JsonView::Text(volume.persistent_volume_claim.claim_name)),
        ),
    )
}

fn pod_volume_to_value(volume: &PodVolume) -> (json: Json)
    ensures
        json@ == pod_volume_document(volume@),
{
    let mut members: StringMap<Json> = StringMap::new();
    members.insert("name".to_owned(), Json::text(volume.name.clone()));
    members.insert(
        "persistentVolumeClaim".to_owned(),
        single_object(
            "claimName",
            Json::text(volume.persistent_volume_claim.claim_name.clone()),
        ),
    );
    Json::object(members)
}

/// The documents of a list of containers.
pub open spec fn container_documents(containers: Seq<ContainerView>) -> JsonView {
    JsonView::Array(Seq::new(containers.len(), |i: int| container_document(containers[i])))
}

/// The documents of a list of pod volumes.
pub open spec fn pod_volume_documents(volumes: Seq<PodVolumeView>) -> JsonView {
    JsonView::Array(Seq::new(volumes.len(), |i: int| pod_volume_document(volumes[i])))
}

fn containers_to_value(containers: &Vec<Container>) -> (json: Json)
    ensures
        json@ == container_documents(super::views(containers@)),
{
    let mut items: Vec<Json> = Vec::new();
    let mut index: usize = 0;
    while index < containers.len()
        invariant
            index <= containers.len(),
            items@.len() == index,
            forall|i: int|
                0 <= i < index ==> (#[trigger] items@[i])@ == container_document(containers@[i]@),
        decreases containers.len() - index,
    {
        items.push(container_to_value(&containers[index]));
        index = index + 1;
    }
    assert(json::json_views(items@) =~= container_documents(super::views(containers@))->Array_0);
    Json::array(items)
}

fn pod_volumes_to_value(volumes: &Vec<PodVolume>) -> (json: Json)
    ensures
        json@ == pod_volume_documents(super::views(volumes@)),
{
    let mut items: Vec<Json> = Vec::new();
    let mut index: usize = 0;
    while index < volumes.len()
        invariant
            index <= volumes.len(),
            items@.len() == index,
            forall|i: int|
                0 <= i < index ==> (#[trigger] items@[i])@ == pod_volume_document(volumes@[i]@),
        decreases volumes.len() - index,
    {
        items.push(pod_volume_to_value(&volumes[index]));
        index = index + 1;
    }
    assert(json::json_views(items@) =~= pod_volume_documents(super::views(volumes@))->Array_0);
    Json::array(items)
}

/// The document of a pod template's metadata.
pub open spec fn pod_metadata_document(metadata: PodTemplateMetadataView) -> JsonView {
    let labelled = put(nothing(), "labels"@, map_document(metadata.labels));
    JsonView::Object(put(labelled, "annotations"@, map_document(metadata.annotations)))
}

fn pod_template_metadata_to_value(metadata: &PodTemplateMetadata) -> (json: Json)
    ensures
        json@ == pod_metadata_document(metadata@),
{
    let mut members: StringMap<Json> = StringMap::new();
    members.insert("labels".to_owned(), text_object(&metadata.labels));
    members.insert("annotations".to_owned(), text_object(&metadata.annotations));
    Json::object(members)
}

/// The document of a pod template. A workload talks to the control plane with the
/// sidecar's own credential, so it gets no service account token and no more
/// system calls than the container runtime allows by default.
pub open spec fn pod_template_document(template: PodTemplateSpecView) -> JsonView {
    let a = put(nothing(), "containers"@, container_documents(template.spec.containers));
    let b = put(a, "volumes"@, pod_volume_documents(template.spec.volumes));
    let c = put(b, "automountServiceAccountToken"@, JsonView::Bool(false));
    let d = put(
        c,
        "securityContext"@,
        single("seccompProfile"@, single("type"@, JsonView::Text("RuntimeDefault"@))),
    );
    let described = put(nothing(), "metadata"@, pod_metadata_document(template.metadata));
    JsonView::Object(put(described, "spec"@, JsonView::Object(d)))
}

fn pod_template_to_value(template: &PodTemplateSpec) -> (json: Json)
    ensures
        json@ == pod_template_document(template@),
{
    let mut pod: StringMap<Json> = StringMap::new();
    pod.insert("containers".to_owned(), containers_to_value(&template.spec.containers));
    pod.insert("volumes".to_owned(), pod_volumes_to_value(&template.spec.volumes));
    // A workload talks to the control plane over gRPC with the sidecar's own
    // credential, so it needs no ServiceAccount token and no syscalls beyond the
    // container runtime's default set.
    pod.insert("automountServiceAccountToken".to_owned(), Json::bool(false));
    pod.insert(
        "securityContext".to_owned(),
        single_object(
            "seccompProfile",
            single_object("type", Json::text_from("RuntimeDefault")),
        ),
    );
    let mut members: StringMap<Json> = StringMap::new();
    members.insert("metadata".to_owned(), pod_template_metadata_to_value(&template.metadata));
    members.insert("spec".to_owned(), Json::object(pod));
    Json::object(members)
}

// ---------------------------------------------------------------------------
// Workloads and Services
// ---------------------------------------------------------------------------
/// The document of a Deployment, which replaces its pod before it starts another.
pub open spec fn deployment_document(object: DeploymentView) -> JsonView {
    let a = put(nothing(), "replicas"@, number(object.spec.replicas as nat));
    let b = put(a, "strategy"@, single("type"@, JsonView::Text("Recreate"@)));
    let c = put(
        b,
        "selector"@,
        single("matchLabels"@, map_document(object.spec.selector.match_labels)),
    );
    let d = put(c, "template"@, pod_template_document(object.spec.template));
    object_document("apps/v1"@, "Deployment"@, object.metadata, JsonView::Object(d))
}

fn deployment_to_value(object: &Deployment) -> (json: Json)
    ensures
        json@ == deployment_document(object@),
{
    let mut members: StringMap<Json> = StringMap::new();
    members.insert("replicas".to_owned(), Json::number(object.spec.replicas as u64));
    members.insert("strategy".to_owned(), single_object("type", Json::text_from("Recreate")));
    members.insert(
        "selector".to_owned(),
        single_object("matchLabels", text_object(&object.spec.selector.match_labels)),
    );
    members.insert("template".to_owned(), pod_template_to_value(&object.spec.template));
    object_to_value("apps/v1", "Deployment", &object.metadata, Json::object(members))
}

/// The document of a StatefulSet.
pub open spec fn stateful_set_document(object: StatefulSetView) -> JsonView {
    let a = put(nothing(), "replicas"@, number(object.spec.replicas as nat));
    let b = put(a, "serviceName"@, JsonView::Text(object.spec.service_name));
    let c = put(
        b,
        "selector"@,
        single("matchLabels"@, map_document(object.spec.selector.match_labels)),
    );
    let d = put(c, "template"@, pod_template_document(object.spec.template));
    object_document("apps/v1"@, "StatefulSet"@, object.metadata, JsonView::Object(d))
}

fn stateful_set_to_value(object: &StatefulSet) -> (json: Json)
    ensures
        json@ == stateful_set_document(object@),
{
    let mut members: StringMap<Json> = StringMap::new();
    members.insert("replicas".to_owned(), Json::number(object.spec.replicas as u64));
    members.insert("serviceName".to_owned(), Json::text(object.spec.service_name.clone()));
    members.insert(
        "selector".to_owned(),
        single_object("matchLabels", text_object(&object.spec.selector.match_labels)),
    );
    members.insert("template".to_owned(), pod_template_to_value(&object.spec.template));
    object_to_value("apps/v1", "StatefulSet", &object.metadata, Json::object(members))
}

/// The document of a Service's port.
pub open spec fn service_port_document(port: ServicePortView) -> JsonView {
    let named = put_text(nothing(), "name"@, port.name);
    let offered = put(named, "port"@, number(port.port as nat));
    JsonView::Object(put(offered, "targetPort"@, number(port.target_port as nat)))
}

fn service_port_to_value(port: &ServicePort) -> (json: Json)
    ensures
        json@ == service_port_document(port@),
{
    let mut members: StringMap<Json> = StringMap::new();
    insert_optional_string(&mut members, "name", &port.name);
    members.insert("port".to_owned(), Json::number(port.port as u64));
    members.insert("targetPort".to_owned(), Json::number(port.target_port as u64));
    Json::object(members)
}

/// The documents of a list of Service ports.
pub open spec fn service_port_documents(ports: Seq<ServicePortView>) -> JsonView {
    JsonView::Array(Seq::new(ports.len(), |i: int| service_port_document(ports[i])))
}

fn service_ports_to_value(ports: &Vec<ServicePort>) -> (json: Json)
    ensures
        json@ == service_port_documents(super::views(ports@)),
{
    let mut items: Vec<Json> = Vec::new();
    let mut index: usize = 0;
    while index < ports.len()
        invariant
            index <= ports.len(),
            items@.len() == index,
            forall|i: int|
                0 <= i < index ==> (#[trigger] items@[i])@ == service_port_document(ports@[i]@),
        decreases ports.len() - index,
    {
        items.push(service_port_to_value(&ports[index]));
        index = index + 1;
    }
    assert(json::json_views(items@) =~= service_port_documents(super::views(ports@))->Array_0);
    Json::array(items)
}

/// The document of a Service.
pub open spec fn service_document(object: ServiceView) -> JsonView {
    let selecting = put(nothing(), "selector"@, map_document(object.spec.selector));
    object_document(
        "v1"@,
        "Service"@,
        object.metadata,
        JsonView::Object(put(selecting, "ports"@, service_port_documents(object.spec.ports))),
    )
}

fn service_to_value(object: &Service) -> (json: Json)
    ensures
        json@ == service_document(object@),
{
    let mut members: StringMap<Json> = StringMap::new();
    members.insert("selector".to_owned(), text_object(&object.spec.selector));
    members.insert("ports".to_owned(), service_ports_to_value(&object.spec.ports));
    object_to_value("v1", "Service", &object.metadata, Json::object(members))
}

/// The document of a Secret, which has data in the place of a specification.
pub open spec fn secret_document(object: SecretView) -> JsonView {
    let versioned = put(nothing(), "apiVersion"@, JsonView::Text("v1"@));
    let kinded = put(versioned, "kind"@, JsonView::Text("Secret"@));
    let described = put(kinded, "metadata"@, metadata_document(object.metadata));
    let typed = put(described, "type"@, JsonView::Text(object.type_));
    JsonView::Object(put(typed, "stringData"@, map_document(object.string_data)))
}

fn secret_to_value(object: &Secret) -> (json: Json)
    ensures
        json@ == secret_document(object@),
{
    let mut members: StringMap<Json> = StringMap::new();
    members.insert("apiVersion".to_owned(), Json::text_from("v1"));
    members.insert("kind".to_owned(), Json::text_from("Secret"));
    members.insert("metadata".to_owned(), metadata_to_value(&object.metadata));
    members.insert("type".to_owned(), Json::text(object.type_.clone()));
    members.insert("stringData".to_owned(), text_object(&object.string_data));
    Json::object(members)
}

// ---------------------------------------------------------------------------
// Volumes
// ---------------------------------------------------------------------------
/// The name of an access mode.
pub open spec fn access_mode_name(mode: PersistentVolumeAccessMode) -> Seq<char> {
    match mode {
        PersistentVolumeAccessMode::ReadWriteOnce => "ReadWriteOnce"@,
        PersistentVolumeAccessMode::ReadOnlyMany => "ReadOnlyMany"@,
        PersistentVolumeAccessMode::ReadWriteMany => "ReadWriteMany"@,
    }
}

/// The documents of a list of access modes.
pub open spec fn access_modes_document(modes: Seq<PersistentVolumeAccessMode>) -> JsonView {
    JsonView::Array(Seq::new(modes.len(), |i: int| JsonView::Text(access_mode_name(modes[i]))))
}

fn access_modes_to_value(modes: &Vec<PersistentVolumeAccessMode>) -> (json: Json)
    ensures
        json@ == access_modes_document(modes@),
{
    let mut items: Vec<Json> = Vec::new();
    let mut index: usize = 0;
    while index < modes.len()
        invariant
            index <= modes.len(),
            items@.len() == index,
            forall|i: int|
                0 <= i < index ==> (#[trigger] items@[i])@ == JsonView::Text(
                    access_mode_name(modes@[i]),
                ),
        decreases modes.len() - index,
    {
        let name = match modes[index] {
            PersistentVolumeAccessMode::ReadWriteOnce => "ReadWriteOnce",
            PersistentVolumeAccessMode::ReadOnlyMany => "ReadOnlyMany",
            PersistentVolumeAccessMode::ReadWriteMany => "ReadWriteMany",
        };
        items.push(Json::text_from(name));
        index = index + 1;
    }
    assert(json::json_views(items@) =~= access_modes_document(modes@)->Array_0);
    Json::array(items)
}

/// The name of a reclaim policy.
pub open spec fn reclaim_policy_name(policy: PersistentVolumeReclaimPolicy) -> Seq<char> {
    match policy {
        PersistentVolumeReclaimPolicy::Retain => "Retain"@,
        PersistentVolumeReclaimPolicy::Delete => "Delete"@,
    }
}

fn reclaim_policy_to_str(policy: PersistentVolumeReclaimPolicy) -> (name: &'static str)
    ensures
        name@ == reclaim_policy_name(policy),
{
    match policy {
        PersistentVolumeReclaimPolicy::Retain => "Retain",
        PersistentVolumeReclaimPolicy::Delete => "Delete",
    }
}

/// `members` with a reference to a Secret under `key`, where there is one.
pub open spec fn put_secret(
    members: Members,
    key: Seq<char>,
    secret: Option<CsiSecretReferenceView>,
) -> Members {
    match secret {
        Some(reference) => {
            let named = put(nothing(), "name"@, JsonView::Text(reference.name));
            put(
                members,
                key,
                JsonView::Object(put(named, "namespace"@, JsonView::Text(reference.namespace))),
            )
        },
        None => members,
    }
}

fn insert_optional_secret_ref(
    members: &mut StringMap<Json>,
    key: &str,
    secret: &Option<CsiSecretReference>,
)
    ensures
        final(members)@ == put_secret(old(members)@, key@, super::optional_view(*secret)),
{
    if let Some(reference) = secret {
        let mut inner: StringMap<Json> = StringMap::new();
        inner.insert("name".to_owned(), Json::text(reference.name.clone()));
        inner.insert("namespace".to_owned(), Json::text(reference.namespace.clone()));
        members.insert(key.to_owned(), Json::object(inner));
    }
}

/// The document of a CSI volume source.
pub open spec fn csi_document(source: CsiPersistentVolumeSourceView) -> JsonView {
    let a = put(nothing(), "driver"@, JsonView::Text(source.driver));
    let b = put(a, "volumeHandle"@, JsonView::Text(source.volume_handle));
    let c = put_text(b, "fsType"@, source.fs_type);
    let d = put(c, "readOnly"@, JsonView::Bool(source.read_only));
    let e = put(d, "volumeAttributes"@, map_document(source.volume_attributes));
    let f = put_secret(e, "controllerPublishSecretRef"@, source.controller_publish_secret_ref);
    let g = put_secret(f, "nodeStageSecretRef"@, source.node_stage_secret_ref);
    let h = put_secret(g, "nodePublishSecretRef"@, source.node_publish_secret_ref);
    let i = put_secret(h, "controllerExpandSecretRef"@, source.controller_expand_secret_ref);
    JsonView::Object(put_secret(i, "nodeExpandSecretRef"@, source.node_expand_secret_ref))
}

fn csi_source_to_value(source: &CsiPersistentVolumeSource) -> (json: Json)
    ensures
        json@ == csi_document(source@),
{
    let mut members: StringMap<Json> = StringMap::new();
    members.insert("driver".to_owned(), Json::text(source.driver.clone()));
    members.insert("volumeHandle".to_owned(), Json::text(source.volume_handle.clone()));
    insert_optional_string(&mut members, "fsType", &source.fs_type);
    members.insert("readOnly".to_owned(), Json::bool(source.read_only));
    members.insert("volumeAttributes".to_owned(), text_object(&source.volume_attributes));
    insert_optional_secret_ref(
        &mut members,
        "controllerPublishSecretRef",
        &source.controller_publish_secret_ref,
    );
    insert_optional_secret_ref(&mut members, "nodeStageSecretRef", &source.node_stage_secret_ref);
    insert_optional_secret_ref(
        &mut members,
        "nodePublishSecretRef",
        &source.node_publish_secret_ref,
    );
    insert_optional_secret_ref(
        &mut members,
        "controllerExpandSecretRef",
        &source.controller_expand_secret_ref,
    );
    insert_optional_secret_ref(&mut members, "nodeExpandSecretRef", &source.node_expand_secret_ref);
    Json::object(members)
}

/// The document of a hostPath volume source.
pub open spec fn host_path_document(source: HostPathPersistentVolumeSourceView) -> JsonView {
    let placed = put(nothing(), "path"@, JsonView::Text(source.path));
    JsonView::Object(put_text(placed, "type"@, source.type_))
}

fn host_path_source_to_value(source: &HostPathPersistentVolumeSource) -> (json: Json)
    ensures
        json@ == host_path_document(source@),
{
    let mut members: StringMap<Json> = StringMap::new();
    members.insert("path".to_owned(), Json::text(source.path.clone()));
    insert_optional_string(&mut members, "type", &source.type_);
    Json::object(members)
}

/// The document of a PersistentVolume.
pub open spec fn persistent_volume_document(object: PersistentVolumeView) -> JsonView {
    let a = put(nothing(), "capacity"@, single("storage"@, JsonView::Text(object.spec.capacity)));
    let b = put(a, "accessModes"@, access_modes_document(object.spec.access_modes));
    let c = put(
        b,
        "persistentVolumeReclaimPolicy"@,
        JsonView::Text(reclaim_policy_name(object.spec.persistent_volume_reclaim_policy)),
    );
    let d = put_text(c, "storageClassName"@, object.spec.storage_class_name);
    let claimed = put(nothing(), "namespace"@, JsonView::Text(object.spec.claim_ref.namespace));
    let claim = put(claimed, "name"@, JsonView::Text(object.spec.claim_ref.name));
    let e = put(d, "claimRef"@, JsonView::Object(claim));
    let f = match object.spec.source {
        PersistentVolumeSourceView::Csi(source) => put(e, "csi"@, csi_document(source)),
        PersistentVolumeSourceView::HostPath(source) => {
            put(e, "hostPath"@, host_path_document(source))
        },
    };
    object_document("v1"@, "PersistentVolume"@, object.metadata, JsonView::Object(f))
}

fn persistent_volume_to_value(object: &PersistentVolume) -> (json: Json)
    ensures
        json@ == persistent_volume_document(object@),
{
    let mut members: StringMap<Json> = StringMap::new();
    members.insert(
        "capacity".to_owned(),
        single_object("storage", Json::text(object.spec.capacity.clone())),
    );
    members.insert("accessModes".to_owned(), access_modes_to_value(&object.spec.access_modes));
    members.insert(
        "persistentVolumeReclaimPolicy".to_owned(),
        Json::text_from(reclaim_policy_to_str(object.spec.persistent_volume_reclaim_policy)),
    );
    insert_optional_string(&mut members, "storageClassName", &object.spec.storage_class_name);
    let mut claim: StringMap<Json> = StringMap::new();
    claim.insert("namespace".to_owned(), Json::text(object.spec.claim_ref.namespace.clone()));
    claim.insert("name".to_owned(), Json::text(object.spec.claim_ref.name.clone()));
    members.insert("claimRef".to_owned(), Json::object(claim));
    match &object.spec.source {
        PersistentVolumeSource::Csi(source) => {
            members.insert("csi".to_owned(), csi_source_to_value(source));
        },
        PersistentVolumeSource::HostPath(source) => {
            members.insert("hostPath".to_owned(), host_path_source_to_value(source));
        },
    }
    object_to_value("v1", "PersistentVolume", &object.metadata, Json::object(members))
}

/// The document of a PersistentVolumeClaim.
pub open spec fn persistent_volume_claim_document(object: PersistentVolumeClaimView) -> JsonView {
    let a = put(nothing(), "accessModes"@, access_modes_document(object.spec.access_modes));
    let b = put(
        a,
        "resources"@,
        single(
            "requests"@,
            single("storage"@, JsonView::Text(object.spec.resources.requests_storage)),
        ),
    );
    let c = put_text(b, "storageClassName"@, object.spec.storage_class_name);
    let d = put(c, "volumeName"@, JsonView::Text(object.spec.volume_name));
    object_document("v1"@, "PersistentVolumeClaim"@, object.metadata, JsonView::Object(d))
}

fn persistent_volume_claim_to_value(object: &PersistentVolumeClaim) -> (json: Json)
    ensures
        json@ == persistent_volume_claim_document(object@),
{
    let mut members: StringMap<Json> = StringMap::new();
    members.insert("accessModes".to_owned(), access_modes_to_value(&object.spec.access_modes));
    members.insert(
        "resources".to_owned(),
        single_object(
            "requests",
            single_object("storage", Json::text(object.spec.resources.requests_storage.clone())),
        ),
    );
    insert_optional_string(&mut members, "storageClassName", &object.spec.storage_class_name);
    members.insert("volumeName".to_owned(), Json::text(object.spec.volume_name.clone()));
    object_to_value("v1", "PersistentVolumeClaim", &object.metadata, Json::object(members))
}

// ---------------------------------------------------------------------------
// Raw objects
// ---------------------------------------------------------------------------
/// A document whose members can be set: an object, nothing, or null.
pub open spec fn fillable(document: Option<JsonView>) -> bool {
    match document {
        None => true,
        Some(JsonView::Null) => true,
        Some(JsonView::Object(_)) => true,
        Some(_) => false,
    }
}

/// What stands under a key of a document that can be filled.
pub open spec fn inner(document: Option<JsonView>, key: Seq<char>) -> Option<JsonView> {
    string_map::entry_of(json::members_of(document), key)
}

/// An object that can be written as a document: of a raw object, the document
/// and, where its pods have metadata, the way down to it can be filled.
pub open spec fn serializable(object: KubernetesObjectView) -> bool {
    match object {
        KubernetesObjectView::Raw(raw) => {
            &&& fillable(Some(raw.value))
            &&& raw.pod_template_metadata is Some ==> {
                &&& fillable(inner(Some(raw.value), "spec"@))
                &&& fillable(inner(inner(Some(raw.value), "spec"@), "template"@))
            }
        },
        _ => true,
    }
}

/// A raw object's own metadata with the name, namespace, labels and annotations
/// that rendering settled.
pub open spec fn patched_metadata(document: Option<JsonView>, metadata: ObjectMetaView) -> JsonView {
    let named = put(json::members_of(document), "name"@, JsonView::Text(metadata.name));
    let placed = match metadata.namespace {
        Some(namespace) => put(named, "namespace"@, JsonView::Text(namespace)),
        None => string_map::without_entry(named, "namespace"@),
    };
    let labelled = put(placed, "labels"@, map_document(metadata.labels));
    JsonView::Object(put(labelled, "annotations"@, map_document(metadata.annotations)))
}

fn patch_raw_metadata(value: Option<&Json>, metadata: &ObjectMeta) -> (json: Json)
    ensures
        json@ == patched_metadata(
            match value {
                Some(value) => Some(value@),
                None => None,
            },
            metadata@,
        ),
{
    let mut members = copied_members(value);
    members.insert("name".to_owned(), Json::text(metadata.name.clone()));
    match &metadata.namespace {
        Some(namespace) => members.insert("namespace".to_owned(), Json::text(namespace.clone())),
        None => members.remove("namespace"),
    }
    members.insert("labels".to_owned(), text_object(&metadata.labels));
    members.insert("annotations".to_owned(), text_object(&metadata.annotations));
    Json::object(members)
}

/// A raw workload's own pod metadata with the labels and annotations that
/// rendering settled.
pub open spec fn patched_pod_metadata(
    document: Option<JsonView>,
    metadata: PodTemplateMetadataView,
) -> JsonView {
    let labelled = put(json::members_of(document), "labels"@, map_document(metadata.labels));
    JsonView::Object(put(labelled, "annotations"@, map_document(metadata.annotations)))
}

fn patch_raw_pod_template_metadata(value: Option<&Json>, metadata: &PodTemplateMetadata) -> (json:
    Json)
    ensures
        json@ == patched_pod_metadata(
            match value {
                Some(value) => Some(value@),
                None => None,
            },
            metadata@,
        ),
{
    let mut members = copied_members(value);
    members.insert("labels".to_owned(), text_object(&metadata.labels));
    members.insert("annotations".to_owned(), text_object(&metadata.annotations));
    Json::object(members)
}

/// The document of a raw object: what the author wrote, with what rendering
/// settled in its place.
pub open spec fn raw_document(object: RawKubernetesObjectView) -> JsonView {
    let a = put(
        json::members_of(Some(object.value)),
        "apiVersion"@,
        JsonView::Text(object.api_version),
    );
    let b = put(a, "kind"@, JsonView::Text(object.kind));
    let c = put(
        b,
        "metadata"@,
        patched_metadata(string_map::entry_of(b, "metadata"@), object.metadata),
    );
    match object.pod_template_metadata {
        Some(metadata) => {
            let specification = string_map::entry_of(c, "spec"@);
            let template = inner(specification, "template"@);
            let pod = put(
                json::members_of(template),
                "metadata"@,
                patched_pod_metadata(inner(template, "metadata"@), metadata),
            );
            let workload = put(
                json::members_of(specification),
                "template"@,
                JsonView::Object(pod),
            );
            JsonView::Object(put(c, "spec"@, JsonView::Object(workload)))
        },
        None => JsonView::Object(c),
    }
}

fn raw_object_to_value(object: &RawKubernetesObject) -> (json: Json)
    requires
        serializable(KubernetesObjectView::Raw(object@)),
    ensures
        json@ == raw_document(object@),
{
    let mut members = copied_members(Some(&object.value));
    members.insert("apiVersion".to_owned(), Json::text(object.api_version.clone()));
    members.insert("kind".to_owned(), Json::text(object.kind.clone()));
    let metadata = patch_raw_metadata(members.get("metadata"), &object.metadata);
    members.insert("metadata".to_owned(), metadata);
    if let Some(metadata) = &object.pod_template_metadata {
        let mut specification = copied_members(members.get("spec"));
        let mut template = copied_members(specification.get("template"));
        let pod = patch_raw_pod_template_metadata(template.get("metadata"), metadata);
        template.insert("metadata".to_owned(), pod);
        specification.insert("template".to_owned(), Json::object(template));
        members.insert("spec".to_owned(), Json::object(specification));
    }
    Json::object(members)
}

// ---------------------------------------------------------------------------
// Any object
// ---------------------------------------------------------------------------
/// The document of an object.
pub open spec fn document_of(object: KubernetesObjectView) -> JsonView {
    match object {
        KubernetesObjectView::Deployment(object) => deployment_document(object),
        KubernetesObjectView::StatefulSet(object) => stateful_set_document(object),
        KubernetesObjectView::Service(object) => service_document(object),
        KubernetesObjectView::Secret(object) => secret_document(object),
        KubernetesObjectView::PersistentVolume(object) => persistent_volume_document(object),
        KubernetesObjectView::PersistentVolumeClaim(object) => {
            persistent_volume_claim_document(object)
        },
        KubernetesObjectView::Raw(object) => raw_document(object),
    }
}

impl KubernetesObject {
    /// The document of the object.
    pub fn to_kubernetes_json(&self) -> (json: Json)
        requires
            serializable(self@),
        ensures
            json@ == document_of(self@),
    {
        match self {
            KubernetesObject::Deployment(object) => deployment_to_value(object),
            KubernetesObject::StatefulSet(object) => stateful_set_to_value(object),
            KubernetesObject::Service(object) => service_to_value(object),
            KubernetesObject::Secret(object) => secret_to_value(object),
            KubernetesObject::PersistentVolume(object) => persistent_volume_to_value(object),
            KubernetesObject::PersistentVolumeClaim(object) => {
                persistent_volume_claim_to_value(object)
            },
            KubernetesObject::Raw(object) => raw_object_to_value(object),
        }
    }
}

impl RenderedManifestObject {
    /// The document of the object.
    pub fn to_kubernetes_json(&self) -> (json: Json)
        requires
            serializable(self@.object),
        ensures
            json@ == document_of(self@.object),
    {
        self.object.to_kubernetes_json()
    }
}

/// The documents of a list of rendered objects.
pub open spec fn documents_of(objects: Seq<objects::RenderedManifestObjectView>) -> Seq<JsonView> {
    Seq::new(objects.len(), |i: int| document_of(objects[i].object))
}

/// The documents of a list of rendered objects, in their order.
pub fn to_documents(objects: &Vec<RenderedManifestObject>) -> (documents: Vec<Json>)
    requires
        forall|i: int| 0 <= i < objects@.len() ==> serializable((#[trigger] objects@[i])@.object),
    ensures
        json::json_views(documents@) == documents_of(super::views(objects@)),
{
    let mut documents: Vec<Json> = Vec::new();
    let mut index: usize = 0;
    while index < objects.len()
        invariant
            index <= objects.len(),
            forall|i: int|
                0 <= i < objects@.len() ==> serializable((#[trigger] objects@[i])@.object),
            documents@.len() == index,
            forall|i: int|
                0 <= i < index ==> (#[trigger] documents@[i])@ == document_of(objects@[i]@.object),
        decreases objects.len() - index,
    {
        documents.push(objects[index].to_kubernetes_json());
        index = index + 1;
    }
    assert(json::json_views(documents@) =~= documents_of(super::views(objects@)));
    documents
}

impl RenderedManifest {
    /// The documents of the objects, in the order of application.
    pub fn to_kubernetes_json_values(&self) -> (documents: Vec<Json>)
        requires
            forall|i: int|
                0 <= i < self.objects@.len() ==> serializable(
                    (#[trigger] self.objects@[i])@.object,
                ),
        ensures
            json::json_views(documents@) == documents_of(self@.objects),
    {
        to_documents(&self.objects)
    }
}

} // verus!
