//! The Kubernetes objects that rendering gives, each with its mathematical model.

use super::template::{PersistentVolumeAccessMode, PersistentVolumeReclaimPolicy};
use crate::ids::Generation;
use crate::json::{Json, JsonView};
use crate::string_map::StringMap;
use vstd::prelude::*;

verus! {

/// The model of a map from texts to texts.
pub type TextMap = Seq<(Seq<char>, Seq<char>)>;

/// The turns in which objects are applied, first to last.
#[derive(Clone, Copy, Debug, PartialEq, Eq, Structural)]
pub enum ApplyOrder {
    PersistentVolume,
    PersistentVolumeClaim,
    Secret,
    Service,
    Workload,
}

/// Where an environment variable gets its value from.
#[derive(Clone, Debug, PartialEq, Eq)]
pub enum EnvVarSource {
    SecretKeyRef(SecretKeyRef),
    FieldRef { field_path: String },
}

#[verifier::ext_equal]
pub enum EnvVarSourceView {
    SecretKeyRef(SecretKeyRefView),
    FieldRef { field_path: Seq<char> },
}

impl View for EnvVarSource {
    type V = EnvVarSourceView;

    open spec fn view(&self) -> EnvVarSourceView {
        match self {
            EnvVarSource::SecretKeyRef(secret) => EnvVarSourceView::SecretKeyRef(secret@),
            EnvVarSource::FieldRef { field_path } => {
                EnvVarSourceView::FieldRef { field_path: field_path@ }
            },
        }
    }
}

/// Where the bytes of a volume live.
#[derive(Clone, Debug, PartialEq, Eq)]
pub enum PersistentVolumeSource {
    Csi(Box<CsiPersistentVolumeSource>),
    HostPath(HostPathPersistentVolumeSource),
}

#[verifier::ext_equal]
pub enum PersistentVolumeSourceView {
    Csi(CsiPersistentVolumeSourceView),
    HostPath(HostPathPersistentVolumeSourceView),
}

impl View for PersistentVolumeSource {
    type V = PersistentVolumeSourceView;

    open spec fn view(&self) -> PersistentVolumeSourceView {
        match self {
            PersistentVolumeSource::Csi(source) => PersistentVolumeSourceView::Csi((**source)@),
            PersistentVolumeSource::HostPath(source) => {
                PersistentVolumeSourceView::HostPath(source@)
            },
        }
    }
}

/// One object for Kubernetes.
#[derive(Clone, Debug, PartialEq, Eq)]
pub enum KubernetesObject {
    Deployment(Deployment),
    StatefulSet(StatefulSet),
    Service(Service),
    Secret(Secret),
    PersistentVolume(Box<PersistentVolume>),
    PersistentVolumeClaim(PersistentVolumeClaim),
    Raw(RawKubernetesObject),
}

#[verifier::ext_equal]
pub enum KubernetesObjectView {
    Deployment(DeploymentView),
    StatefulSet(StatefulSetView),
    Service(ServiceView),
    Secret(SecretView),
    PersistentVolume(PersistentVolumeView),
    PersistentVolumeClaim(PersistentVolumeClaimView),
    Raw(RawKubernetesObjectView),
}

impl View for KubernetesObject {
    type V = KubernetesObjectView;

    open spec fn view(&self) -> KubernetesObjectView {
        match self {
            KubernetesObject::Deployment(object) => KubernetesObjectView::Deployment(object@),
            KubernetesObject::StatefulSet(object) => KubernetesObjectView::StatefulSet(object@),
            KubernetesObject::Service(object) => KubernetesObjectView::Service(object@),
            KubernetesObject::Secret(object) => KubernetesObjectView::Secret(object@),
            KubernetesObject::PersistentVolume(object) => {
                KubernetesObjectView::PersistentVolume((**object)@)
            },
            KubernetesObject::PersistentVolumeClaim(object) => {
                KubernetesObjectView::PersistentVolumeClaim(object@)
            },
            KubernetesObject::Raw(object) => KubernetesObjectView::Raw(object@),
        }
    }
}

/// What a template and an instance render to, in the order of application.
#[derive(Clone, Debug, PartialEq, Eq)]
pub struct RenderedManifest {
    pub instance_generation: Generation,
    pub template_generation: Option<Generation>,
    pub objects: Vec<RenderedManifestObject>,
}

#[verifier::ext_equal]
pub struct RenderedManifestView {
    pub instance_generation: u64,
    pub template_generation: Option<u64>,
    pub objects: Seq<RenderedManifestObjectView>,
}

impl View for RenderedManifest {
    type V = RenderedManifestView;

    open spec fn view(&self) -> RenderedManifestView {
        RenderedManifestView {
            instance_generation: self.instance_generation@,
            template_generation: super::optional_view(self.template_generation),
            objects: super::views(self.objects@),
        }
    }
}

/// The metadata of an object.
#[derive(Clone, Debug, PartialEq, Eq)]
pub struct ObjectMeta {
    pub name: String,
    pub namespace: Option<String>,
    pub labels: StringMap<String>,
    pub annotations: StringMap<String>,
}

#[verifier::ext_equal]
pub struct ObjectMetaView {
    pub name: Seq<char>,
    pub namespace: Option<Seq<char>>,
    pub labels: TextMap,
    pub annotations: TextMap,
}

impl View for ObjectMeta {
    type V = ObjectMetaView;

    open spec fn view(&self) -> ObjectMetaView {
        ObjectMetaView {
            name: self.name@,
            namespace: super::optional_view(self.namespace),
            labels: self.labels@,
            annotations: self.annotations@,
        }
    }
}

/// Which pods a workload owns.
#[derive(Clone, Debug, PartialEq, Eq)]
pub struct LabelSelector {
    pub match_labels: StringMap<String>,
}

#[verifier::ext_equal]
pub struct LabelSelectorView {
    pub match_labels: TextMap,
}

impl View for LabelSelector {
    type V = LabelSelectorView;

    open spec fn view(&self) -> LabelSelectorView {
        LabelSelectorView {
            match_labels: self.match_labels@,
        }
    }
}

/// A key of a Secret.
#[derive(Clone, Debug, PartialEq, Eq)]
pub struct SecretKeyRef {
    pub name: String,
    pub key: String,
}

#[verifier::ext_equal]
pub struct SecretKeyRefView {
    pub name: Seq<char>,
    pub key: Seq<char>,
}

impl View for SecretKeyRef {
    type V = SecretKeyRefView;

    open spec fn view(&self) -> SecretKeyRefView {
        SecretKeyRefView {
            name: self.name@,
            key: self.key@,
        }
    }
}

/// An environment variable of a container.
#[derive(Clone, Debug, PartialEq, Eq)]
pub struct EnvVar {
    pub name: String,
    pub value: String,
    pub value_from: Option<EnvVarSource>,
}

#[verifier::ext_equal]
pub struct EnvVarView {
    pub name: Seq<char>,
    pub value: Seq<char>,
    pub value_from: Option<EnvVarSourceView>,
}

impl View for EnvVar {
    type V = EnvVarView;

    open spec fn view(&self) -> EnvVarView {
        EnvVarView {
            name: self.name@,
            value: self.value@,
            value_from: super::optional_view(self.value_from),
        }
    }
}

/// A port of a container.
#[derive(Clone, Debug, PartialEq, Eq)]
pub struct ContainerPort {
    pub name: Option<String>,
    pub container_port: u16,
}

#[verifier::ext_equal]
pub struct ContainerPortView {
    pub name: Option<Seq<char>>,
    pub container_port: u16,
}

impl View for ContainerPort {
    type V = ContainerPortView;

    open spec fn view(&self) -> ContainerPortView {
        ContainerPortView {
            name: super::optional_view(self.name),
            container_port: self.container_port,
        }
    }
}

/// Where a volume stands in a container.
#[derive(Clone, Debug, PartialEq, Eq)]
pub struct VolumeMount {
    pub name: String,
    pub mount_path: String,
}

#[verifier::ext_equal]
pub struct VolumeMountView {
    pub name: Seq<char>,
    pub mount_path: Seq<char>,
}

impl View for VolumeMount {
    type V = VolumeMountView;

    open spec fn view(&self) -> VolumeMountView {
        VolumeMountView {
            name: self.name@,
            mount_path: self.mount_path@,
        }
    }
}

/// A probe that asks a path over HTTP.
#[derive(Clone, Debug, PartialEq, Eq)]
pub struct HttpReadinessProbe {
    pub path: String,
    pub port: u16,
    pub period_seconds: u32,
    pub timeout_seconds: u32,
    pub failure_threshold: u32,
}

#[verifier::ext_equal]
pub struct HttpReadinessProbeView {
    pub path: Seq<char>,
    pub port: u16,
    pub period_seconds: u32,
    pub timeout_seconds: u32,
    pub failure_threshold: u32,
}

impl View for HttpReadinessProbe {
    type V = HttpReadinessProbeView;

    open spec fn view(&self) -> HttpReadinessProbeView {
        HttpReadinessProbeView {
            path: self.path@,
            port: self.port,
            period_seconds: self.period_seconds,
            timeout_seconds: self.timeout_seconds,
            failure_threshold: self.failure_threshold,
        }
    }
}

/// A container of a pod.
#[derive(Clone, Debug, PartialEq, Eq)]
pub struct Container {
    pub name: String,
    pub image: String,
    pub ports: Vec<ContainerPort>,
    pub env: Vec<EnvVar>,
    pub volume_mounts: Vec<VolumeMount>,
    pub readiness_probe: Option<HttpReadinessProbe>,
}

#[verifier::ext_equal]
pub struct ContainerView {
    pub name: Seq<char>,
    pub image: Seq<char>,
    pub ports: Seq<ContainerPortView>,
    pub env: Seq<EnvVarView>,
    pub volume_mounts: Seq<VolumeMountView>,
    pub readiness_probe: Option<HttpReadinessProbeView>,
}

impl View for Container {
    type V = ContainerView;

    open spec fn view(&self) -> ContainerView {
        ContainerView {
            name: self.name@,
            image: self.image@,
            ports: super::views(self.ports@),
            env: super::views(self.env@),
            volume_mounts: super::views(self.volume_mounts@),
            readiness_probe: super::optional_view(self.readiness_probe),
        }
    }
}

/// The claim that a pod volume mounts.
#[derive(Clone, Debug, PartialEq, Eq)]
pub struct PersistentVolumeClaimVolumeSource {
    pub claim_name: String,
}

#[verifier::ext_equal]
pub struct PersistentVolumeClaimVolumeSourceView {
    pub claim_name: Seq<char>,
}

impl View for PersistentVolumeClaimVolumeSource {
    type V = PersistentVolumeClaimVolumeSourceView;

    open spec fn view(&self) -> PersistentVolumeClaimVolumeSourceView {
        PersistentVolumeClaimVolumeSourceView {
            claim_name: self.claim_name@,
        }
    }
}

/// A volume of a pod.
#[derive(Clone, Debug, PartialEq, Eq)]
pub struct PodVolume {
    pub name: String,
    pub persistent_volume_claim: PersistentVolumeClaimVolumeSource,
}

#[verifier::ext_equal]
pub struct PodVolumeView {
    pub name: Seq<char>,
    pub persistent_volume_claim: PersistentVolumeClaimVolumeSourceView,
}

impl View for PodVolume {
    type V = PodVolumeView;

    open spec fn view(&self) -> PodVolumeView {
        PodVolumeView {
            name: self.name@,
            persistent_volume_claim: self.persistent_volume_claim@,
        }
    }
}

/// The metadata of the pods of a workload.
#[derive(Clone, Debug, PartialEq, Eq)]
pub struct PodTemplateMetadata {
    pub labels: StringMap<String>,
    pub annotations: StringMap<String>,
}

#[verifier::ext_equal]
pub struct PodTemplateMetadataView {
    pub labels: TextMap,
    pub annotations: TextMap,
}

impl View for PodTemplateMetadata {
    type V = PodTemplateMetadataView;

    open spec fn view(&self) -> PodTemplateMetadataView {
        PodTemplateMetadataView {
            labels: self.labels@,
            annotations: self.annotations@,
        }
    }
}

/// What a pod runs.
#[derive(Clone, Debug, PartialEq, Eq)]
pub struct PodSpec {
    pub containers: Vec<Container>,
    pub volumes: Vec<PodVolume>,
}

#[verifier::ext_equal]
pub struct PodSpecView {
    pub containers: Seq<ContainerView>,
    pub volumes: Seq<PodVolumeView>,
}

impl View for PodSpec {
    type V = PodSpecView;

    open spec fn view(&self) -> PodSpecView {
        PodSpecView {
            containers: super::views(self.containers@),
            volumes: super::views(self.volumes@),
        }
    }
}

/// The pods of a workload.
#[derive(Clone, Debug, PartialEq, Eq)]
pub struct PodTemplateSpec {
    pub metadata: PodTemplateMetadata,
    pub spec: PodSpec,
}

#[verifier::ext_equal]
pub struct PodTemplateSpecView {
    pub metadata: PodTemplateMetadataView,
    pub spec: PodSpecView,
}

impl View for PodTemplateSpec {
    type V = PodTemplateSpecView;

    open spec fn view(&self) -> PodTemplateSpecView {
        PodTemplateSpecView {
            metadata: self.metadata@,
            spec: self.spec@,
        }
    }
}

#[derive(Clone, Debug, PartialEq, Eq)]
pub struct DeploymentSpec {
    pub replicas: u32,
    pub selector: LabelSelector,
    pub template: PodTemplateSpec,
}

#[verifier::ext_equal]
pub struct DeploymentSpecView {
    pub replicas: u32,
    pub selector: LabelSelectorView,
    pub template: PodTemplateSpecView,
}

impl View for DeploymentSpec {
    type V = DeploymentSpecView;

    open spec fn view(&self) -> DeploymentSpecView {
        DeploymentSpecView {
            replicas: self.replicas,
            selector: self.selector@,
            template: self.template@,
        }
    }
}

#[derive(Clone, Debug, PartialEq, Eq)]
pub struct Deployment {
    pub metadata: ObjectMeta,
    pub spec: DeploymentSpec,
}

#[verifier::ext_equal]
pub struct DeploymentView {
    pub metadata: ObjectMetaView,
    pub spec: DeploymentSpecView,
}

impl View for Deployment {
    type V = DeploymentView;

    open spec fn view(&self) -> DeploymentView {
        DeploymentView {
            metadata: self.metadata@,
            spec: self.spec@,
        }
    }
}

#[derive(Clone, Debug, PartialEq, Eq)]
pub struct StatefulSetSpec {
    pub replicas: u32,
    pub service_name: String,
    pub selector: LabelSelector,
    pub template: PodTemplateSpec,
}

#[verifier::ext_equal]
pub struct StatefulSetSpecView {
    pub replicas: u32,
    pub service_name: Seq<char>,
    pub selector: LabelSelectorView,
    pub template: PodTemplateSpecView,
}

impl View for StatefulSetSpec {
    type V = StatefulSetSpecView;

    open spec fn view(&self) -> StatefulSetSpecView {
        StatefulSetSpecView {
            replicas: self.replicas,
            service_name: self.service_name@,
            selector: self.selector@,
            template: self.template@,
        }
    }
}

#[derive(Clone, Debug, PartialEq, Eq)]
pub struct StatefulSet {
    pub metadata: ObjectMeta,
    pub spec: StatefulSetSpec,
}

#[verifier::ext_equal]
pub struct StatefulSetView {
    pub metadata: ObjectMetaView,
    pub spec: StatefulSetSpecView,
}

impl View for StatefulSet {
    type V = StatefulSetView;

    open spec fn view(&self) -> StatefulSetView {
        StatefulSetView {
            metadata: self.metadata@,
            spec: self.spec@,
        }
    }
}

#[derive(Clone, Debug, PartialEq, Eq)]
pub struct ServicePort {
    pub name: Option<String>,
    pub port: u16,
    pub target_port: u16,
}

#[verifier::ext_equal]
pub struct ServicePortView {
    pub name: Option<Seq<char>>,
    pub port: u16,
    pub target_port: u16,
}

impl View for ServicePort {
    type V = ServicePortView;

    open spec fn view(&self) -> ServicePortView {
        ServicePortView {
            name: super::optional_view(self.name),
            port: self.port,
            target_port: self.target_port,
        }
    }
}

#[derive(Clone, Debug, PartialEq, Eq)]
pub struct ServiceSpec {
    pub selector: StringMap<String>,
    pub ports: Vec<ServicePort>,
}

#[verifier::ext_equal]
pub struct ServiceSpecView {
    pub selector: TextMap,
    pub ports: Seq<ServicePortView>,
}

impl View for ServiceSpec {
    type V = ServiceSpecView;

    open spec fn view(&self) -> ServiceSpecView {
        ServiceSpecView {
            selector: self.selector@,
            ports: super::views(self.ports@),
        }
    }
}

#[derive(Clone, Debug, PartialEq, Eq)]
pub struct Service {
    pub metadata: ObjectMeta,
    pub spec: ServiceSpec,
}

#[verifier::ext_equal]
pub struct ServiceView {
    pub metadata: ObjectMetaView,
    pub spec: ServiceSpecView,
}

impl View for Service {
    type V = ServiceView;

    open spec fn view(&self) -> ServiceView {
        ServiceView {
            metadata: self.metadata@,
            spec: self.spec@,
        }
    }
}

#[derive(Clone, Debug, PartialEq, Eq)]
pub struct Secret {
    pub metadata: ObjectMeta,
    pub type_: String,
    pub string_data: StringMap<String>,
}

#[verifier::ext_equal]
pub struct SecretView {
    pub metadata: ObjectMetaView,
    pub type_: Seq<char>,
    pub string_data: TextMap,
}

impl View for Secret {
    type V = SecretView;

    open spec fn view(&self) -> SecretView {
        SecretView {
            metadata: self.metadata@,
            type_: self.type_@,
            string_data: self.string_data@,
        }
    }
}

#[derive(Clone, Debug, PartialEq, Eq)]
pub struct CsiSecretReference {
    pub name: String,
    pub namespace: String,
}

#[verifier::ext_equal]
pub struct CsiSecretReferenceView {
    pub name: Seq<char>,
    pub namespace: Seq<char>,
}

impl View for CsiSecretReference {
    type V = CsiSecretReferenceView;

    open spec fn view(&self) -> CsiSecretReferenceView {
        CsiSecretReferenceView {
            name: self.name@,
            namespace: self.namespace@,
        }
    }
}

#[derive(Clone, Debug, PartialEq, Eq)]
pub struct CsiPersistentVolumeSource {
    pub driver: String,
    pub volume_handle: String,
    pub fs_type: Option<String>,
    pub read_only: bool,
    pub volume_attributes: StringMap<String>,
    pub controller_publish_secret_ref: Option<CsiSecretReference>,
    pub node_stage_secret_ref: Option<CsiSecretReference>,
    pub node_publish_secret_ref: Option<CsiSecretReference>,
    pub controller_expand_secret_ref: Option<CsiSecretReference>,
    pub node_expand_secret_ref: Option<CsiSecretReference>,
}

#[verifier::ext_equal]
pub struct CsiPersistentVolumeSourceView {
    pub driver: Seq<char>,
    pub volume_handle: Seq<char>,
    pub fs_type: Option<Seq<char>>,
    pub read_only: bool,
    pub volume_attributes: TextMap,
    pub controller_publish_secret_ref: Option<CsiSecretReferenceView>,
    pub node_stage_secret_ref: Option<CsiSecretReferenceView>,
    pub node_publish_secret_ref: Option<CsiSecretReferenceView>,
    pub controller_expand_secret_ref: Option<CsiSecretReferenceView>,
    pub node_expand_secret_ref: Option<CsiSecretReferenceView>,
}

impl View for CsiPersistentVolumeSource {
    type V = CsiPersistentVolumeSourceView;

    open spec fn view(&self) -> CsiPersistentVolumeSourceView {
        CsiPersistentVolumeSourceView {
            driver: self.driver@,
            volume_handle: self.volume_handle@,
            fs_type: super::optional_view(self.fs_type),
            read_only: self.read_only,
            volume_attributes: self.volume_attributes@,
            controller_publish_secret_ref: super::optional_view(self.controller_publish_secret_ref),
            node_stage_secret_ref: super::optional_view(self.node_stage_secret_ref),
            node_publish_secret_ref: super::optional_view(self.node_publish_secret_ref),
            controller_expand_secret_ref: super::optional_view(self.controller_expand_secret_ref),
            node_expand_secret_ref: super::optional_view(self.node_expand_secret_ref),
        }
    }
}

#[derive(Clone, Debug, PartialEq, Eq)]
pub struct HostPathPersistentVolumeSource {
    pub path: String,
    pub type_: Option<String>,
}

#[verifier::ext_equal]
pub struct HostPathPersistentVolumeSourceView {
    pub path: Seq<char>,
    pub type_: Option<Seq<char>>,
}

impl View for HostPathPersistentVolumeSource {
    type V = HostPathPersistentVolumeSourceView;

    open spec fn view(&self) -> HostPathPersistentVolumeSourceView {
        HostPathPersistentVolumeSourceView {
            path: self.path@,
            type_: super::optional_view(self.type_),
        }
    }
}

#[derive(Clone, Debug, PartialEq, Eq)]
pub struct PersistentVolumeClaimRef {
    pub namespace: String,
    pub name: String,
}

#[verifier::ext_equal]
pub struct PersistentVolumeClaimRefView {
    pub namespace: Seq<char>,
    pub name: Seq<char>,
}

impl View for PersistentVolumeClaimRef {
    type V = PersistentVolumeClaimRefView;

    open spec fn view(&self) -> PersistentVolumeClaimRefView {
        PersistentVolumeClaimRefView {
            namespace: self.namespace@,
            name: self.name@,
        }
    }
}

#[derive(Clone, Debug, PartialEq, Eq)]
pub struct PersistentVolumeSpec {
    pub capacity: String,
    pub access_modes: Vec<PersistentVolumeAccessMode>,
    pub persistent_volume_reclaim_policy: PersistentVolumeReclaimPolicy,
    pub storage_class_name: Option<String>,
    pub claim_ref: PersistentVolumeClaimRef,
    pub source: PersistentVolumeSource,
}

#[verifier::ext_equal]
pub struct PersistentVolumeSpecView {
    pub capacity: Seq<char>,
    pub access_modes: Seq<PersistentVolumeAccessMode>,
    pub persistent_volume_reclaim_policy: PersistentVolumeReclaimPolicy,
    pub storage_class_name: Option<Seq<char>>,
    pub claim_ref: PersistentVolumeClaimRefView,
    pub source: PersistentVolumeSourceView,
}

impl View for PersistentVolumeSpec {
    type V = PersistentVolumeSpecView;

    open spec fn view(&self) -> PersistentVolumeSpecView {
        PersistentVolumeSpecView {
            capacity: self.capacity@,
            access_modes: self.access_modes@,
            persistent_volume_reclaim_policy: self.persistent_volume_reclaim_policy,
            storage_class_name: super::optional_view(self.storage_class_name),
            claim_ref: self.claim_ref@,
            source: self.source@,
        }
    }
}

#[derive(Clone, Debug, PartialEq, Eq)]
pub struct PersistentVolume {
    pub metadata: ObjectMeta,
    pub spec: PersistentVolumeSpec,
}

#[verifier::ext_equal]
pub struct PersistentVolumeView {
    pub metadata: ObjectMetaView,
    pub spec: PersistentVolumeSpecView,
}

impl View for PersistentVolume {
    type V = PersistentVolumeView;

    open spec fn view(&self) -> PersistentVolumeView {
        PersistentVolumeView {
            metadata: self.metadata@,
            spec: self.spec@,
        }
    }
}

#[derive(Clone, Debug, PartialEq, Eq)]
pub struct VolumeResourceRequirements {
    pub requests_storage: String,
}

#[verifier::ext_equal]
pub struct VolumeResourceRequirementsView {
    pub requests_storage: Seq<char>,
}

impl View for VolumeResourceRequirements {
    type V = VolumeResourceRequirementsView;

    open spec fn view(&self) -> VolumeResourceRequirementsView {
        VolumeResourceRequirementsView {
            requests_storage: self.requests_storage@,
        }
    }
}

#[derive(Clone, Debug, PartialEq, Eq)]
pub struct PersistentVolumeClaimSpec {
    pub access_modes: Vec<PersistentVolumeAccessMode>,
    pub resources: VolumeResourceRequirements,
    pub storage_class_name: Option<String>,
    pub volume_name: String,
}

#[verifier::ext_equal]
pub struct PersistentVolumeClaimSpecView {
    pub access_modes: Seq<PersistentVolumeAccessMode>,
    pub resources: VolumeResourceRequirementsView,
    pub storage_class_name: Option<Seq<char>>,
    pub volume_name: Seq<char>,
}

impl View for PersistentVolumeClaimSpec {
    type V = PersistentVolumeClaimSpecView;

    open spec fn view(&self) -> PersistentVolumeClaimSpecView {
        PersistentVolumeClaimSpecView {
            access_modes: self.access_modes@,
            resources: self.resources@,
            storage_class_name: super::optional_view(self.storage_class_name),
            volume_name: self.volume_name@,
        }
    }
}

#[derive(Clone, Debug, PartialEq, Eq)]
pub struct PersistentVolumeClaim {
    pub metadata: ObjectMeta,
    pub spec: PersistentVolumeClaimSpec,
}

#[verifier::ext_equal]
pub struct PersistentVolumeClaimView {
    pub metadata: ObjectMetaView,
    pub spec: PersistentVolumeClaimSpecView,
}

impl View for PersistentVolumeClaim {
    type V = PersistentVolumeClaimView;

    open spec fn view(&self) -> PersistentVolumeClaimView {
        PersistentVolumeClaimView {
            metadata: self.metadata@,
            spec: self.spec@,
        }
    }
}

/// An object that the class author wrote out.
#[derive(Clone, Debug, PartialEq, Eq)]
pub struct RawKubernetesObject {
    pub api_version: String,
    pub kind: String,
    pub metadata: ObjectMeta,
    pub pod_template_metadata: Option<PodTemplateMetadata>,
    pub value: Json,
}

#[verifier::ext_equal]
pub struct RawKubernetesObjectView {
    pub api_version: Seq<char>,
    pub kind: Seq<char>,
    pub metadata: ObjectMetaView,
    pub pod_template_metadata: Option<PodTemplateMetadataView>,
    pub value: JsonView,
}

impl View for RawKubernetesObject {
    type V = RawKubernetesObjectView;

    open spec fn view(&self) -> RawKubernetesObjectView {
        RawKubernetesObjectView {
            api_version: self.api_version@,
            kind: self.kind@,
            metadata: self.metadata@,
            pod_template_metadata: super::optional_view(self.pod_template_metadata),
            value: self.value@,
        }
    }
}

/// An object and the turn in which it is applied.
#[derive(Clone, Debug, PartialEq, Eq)]
pub struct RenderedManifestObject {
    pub apply_order: ApplyOrder,
    pub object: KubernetesObject,
}

#[verifier::ext_equal]
pub struct RenderedManifestObjectView {
    pub apply_order: ApplyOrder,
    pub object: KubernetesObjectView,
}

impl View for RenderedManifestObject {
    type V = RenderedManifestObjectView;

    open spec fn view(&self) -> RenderedManifestObjectView {
        RenderedManifestObjectView {
            apply_order: self.apply_order,
            object: self.object@,
        }
    }
}

/// The metadata of an object.
pub open spec fn metadata_of(object: KubernetesObjectView) -> ObjectMetaView {
    match object {
        KubernetesObjectView::Deployment(object) => object.metadata,
        KubernetesObjectView::StatefulSet(object) => object.metadata,
        KubernetesObjectView::Service(object) => object.metadata,
        KubernetesObjectView::Secret(object) => object.metadata,
        KubernetesObjectView::PersistentVolume(object) => object.metadata,
        KubernetesObjectView::PersistentVolumeClaim(object) => object.metadata,
        KubernetesObjectView::Raw(object) => object.metadata,
    }
}

/// The API version of an object.
pub open spec fn api_version_of(object: KubernetesObjectView) -> Seq<char> {
    match object {
        KubernetesObjectView::Deployment(_) | KubernetesObjectView::StatefulSet(_) => "apps/v1"@,
        KubernetesObjectView::Service(_)
        | KubernetesObjectView::Secret(_)
        | KubernetesObjectView::PersistentVolume(_)
        | KubernetesObjectView::PersistentVolumeClaim(_) => "v1"@,
        KubernetesObjectView::Raw(object) => object.api_version,
    }
}

/// The kind of an object.
pub open spec fn kind_of(object: KubernetesObjectView) -> Seq<char> {
    match object {
        KubernetesObjectView::Deployment(_) => "Deployment"@,
        KubernetesObjectView::StatefulSet(_) => "StatefulSet"@,
        KubernetesObjectView::Service(_) => "Service"@,
        KubernetesObjectView::Secret(_) => "Secret"@,
        KubernetesObjectView::PersistentVolume(_) => "PersistentVolume"@,
        KubernetesObjectView::PersistentVolumeClaim(_) => "PersistentVolumeClaim"@,
        KubernetesObjectView::Raw(object) => object.kind,
    }
}

/// The namespace of an object; empty where it belongs to the cluster.
pub open spec fn namespace_of(object: KubernetesObjectView) -> Seq<char> {
    match metadata_of(object).namespace {
        Some(namespace) => namespace,
        None => Seq::empty(),
    }
}

impl KubernetesObject {
    /// The metadata of the object.
    pub fn metadata(&self) -> (metadata: &ObjectMeta)
        ensures
            metadata@ == metadata_of(self@),
    {
        match self {
            KubernetesObject::Deployment(object) => &object.metadata,
            KubernetesObject::StatefulSet(object) => &object.metadata,
            KubernetesObject::Service(object) => &object.metadata,
            KubernetesObject::Secret(object) => &object.metadata,
            KubernetesObject::PersistentVolume(object) => &object.metadata,
            KubernetesObject::PersistentVolumeClaim(object) => &object.metadata,
            KubernetesObject::Raw(object) => &object.metadata,
        }
    }

    /// The API version of the object.
    pub fn api_version(&self) -> (version: &str)
        ensures
            version@ == api_version_of(self@),
    {
        match self {
            KubernetesObject::Deployment(_) | KubernetesObject::StatefulSet(_) => "apps/v1",
            KubernetesObject::Service(_)
            | KubernetesObject::Secret(_)
            | KubernetesObject::PersistentVolume(_)
            | KubernetesObject::PersistentVolumeClaim(_) => "v1",
            KubernetesObject::Raw(object) => object.api_version.as_str(),
        }
    }

    /// The kind of the object.
    pub fn kind(&self) -> (kind: &str)
        ensures
            kind@ == kind_of(self@),
    {
        match self {
            KubernetesObject::Deployment(_) => "Deployment",
            KubernetesObject::StatefulSet(_) => "StatefulSet",
            KubernetesObject::Service(_) => "Service",
            KubernetesObject::Secret(_) => "Secret",
            KubernetesObject::PersistentVolume(_) => "PersistentVolume",
            KubernetesObject::PersistentVolumeClaim(_) => "PersistentVolumeClaim",
            KubernetesObject::Raw(object) => object.kind.as_str(),
        }
    }

    /// The name of the object.
    pub fn name(&self) -> (name: &str)
        ensures
            name@ == metadata_of(self@).name,
    {
        self.metadata().name.as_str()
    }

    /// The namespace of the object; empty where it belongs to the cluster.
    pub fn namespace(&self) -> (namespace: &str)
        ensures
            namespace@ == namespace_of(self@),
    {
        match &self.metadata().namespace {
            Some(namespace) => namespace.as_str(),
            None => {
                proof {
                    reveal_strlit("");
                    assert(""@ =~= Seq::<char>::empty());
                }
                ""
            },
        }
    }
}

/// A text that may be absent, once more.
pub fn copied_text(text: &Option<String>) -> (copy: Option<String>)
    ensures
        super::optional_view(copy) == super::optional_view(*text),
{
    match text {
        Some(value) => Some(value.clone()),
        None => None,
    }
}

/// Access modes once more.
pub fn copied_modes(modes: &Vec<PersistentVolumeAccessMode>) -> (copy: Vec<
    PersistentVolumeAccessMode,
>)
    ensures
        copy@ == modes@,
{
    let mut copy: Vec<PersistentVolumeAccessMode> = Vec::new();
    let mut index: usize = 0;
    while index < modes.len()
        invariant
            index <= modes.len(),
            copy@ == modes@.take(index as int),
        decreases modes.len() - index,
    {
        copy.push(modes[index]);
        index = index + 1;
        assert(copy@ =~= modes@.take(index as int));
    }
    assert(copy@ =~= modes@);
    copy
}

fn copied_secret(secret: &Option<CsiSecretReference>) -> (copy: Option<CsiSecretReference>)
    ensures
        super::optional_view(copy) == super::optional_view(*secret),
{
    match secret {
        Some(secret) => Some(
            CsiSecretReference {
                name: secret.name.clone(),
                namespace: secret.namespace.clone(),
            },
        ),
        None => None,
    }
}

impl PersistentVolumeSource {
    /// The same source once more.
    pub fn duplicate(&self) -> (source: PersistentVolumeSource)
        ensures
            source@ == self@,
    {
        match self {
            PersistentVolumeSource::Csi(source) => PersistentVolumeSource::Csi(
                Box::new(
                    CsiPersistentVolumeSource {
                        driver: source.driver.clone(),
                        volume_handle: source.volume_handle.clone(),
                        fs_type: copied_text(&source.fs_type),
                        read_only: source.read_only,
                        volume_attributes: source.volume_attributes.duplicate(),
                        controller_publish_secret_ref: copied_secret(
                            &source.controller_publish_secret_ref,
                        ),
                        node_stage_secret_ref: copied_secret(&source.node_stage_secret_ref),
                        node_publish_secret_ref: copied_secret(&source.node_publish_secret_ref),
                        controller_expand_secret_ref: copied_secret(
                            &source.controller_expand_secret_ref,
                        ),
                        node_expand_secret_ref: copied_secret(&source.node_expand_secret_ref),
                    },
                ),
            ),
            PersistentVolumeSource::HostPath(source) => PersistentVolumeSource::HostPath(
                HostPathPersistentVolumeSource {
                    path: source.path.clone(),
                    type_: copied_text(&source.type_),
                },
            ),
        }
    }
}

} // verus!
