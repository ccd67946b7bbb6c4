//! A template and an instance, rendered into the objects of the instance.

use super::checks::{self, render_object_name, validate_namespace, ValuesView};
use super::inventory::{
    self, order_for_application, validate_retained_static_inventory,
    validate_unique_rendered_refs,
};
use super::labels::{self, metadata_annotations, metadata_labels, selector_labels};
use super::objects::{
    copied_modes, copied_text, ApplyOrder, Container, Deployment, DeploymentSpec,
    DeploymentSpecView, DeploymentView, KubernetesObject, KubernetesObjectView, LabelSelector,
    LabelSelectorView, ObjectMeta, ObjectMetaView, PersistentVolume, PersistentVolumeClaim,
    PersistentVolumeClaimRef, PersistentVolumeClaimRefView, PersistentVolumeClaimSpec,
    PersistentVolumeClaimSpecView, PersistentVolumeClaimView, PersistentVolumeSpec,
    PersistentVolumeSpecView, PersistentVolumeView, PodSpec, PodSpecView, PodTemplateMetadata,
    PodTemplateMetadataView, PodTemplateSpec, PodTemplateSpecView, RenderedManifest,
    RenderedManifestObject, RenderedManifestObjectView, RenderedManifestView, Secret, SecretView,
    Service, ServiceSpec, ServiceSpecView, ServiceView, StatefulSet, StatefulSetSpec,
    StatefulSetSpecView, StatefulSetView, TextMap, VolumeResourceRequirements,
    VolumeResourceRequirementsView,
};
use super::pod::{
    self, pod_volumes, render_app_container, render_service_ports, render_sidecar_config,
    render_sidecar_container, OptionsView, SidecarRenderConfig, SidecarRenderConfigView,
    SIDECAR_TOKEN_SECRET_KEY,
};
use super::raw::{self, render_raw_object};
use super::serialize::{self, to_documents};
use super::template::{
    self, RawKubernetesManifestTemplate, ServiceTemplate, WorkloadKind, WorkloadTemplate,
};
use super::volume::{self, render_volumes, RenderedVolume, RenderedVolumeView};
use super::{
    field_error, ManifestRenderError, Outcome, RenderErrorView, RenderManifestOptions,
    RenderManifestRequest, LABEL_WORKLOAD_NAME,
};
use crate::auth::BearerToken;
use crate::ids::{Generation, InstanceId};
use crate::instance::{InstanceRecord, InstanceValues};
use crate::kubernetes_name::{self, render_instance_scoped_name};
use crate::string_map::{self, StringMap};
use crate::text::same_text;
use vstd::prelude::*;
use vstd::string::*;

verus! {

/// The annotation that tells which protocol the backend of a Service speaks.
pub const ANNOTATION_BACKEND_SCHEME: &'static str = "sleepypods.io/backend-scheme";

// ---------------------------------------------------------------------------
// Names and labels
// ---------------------------------------------------------------------------
/// How the objects of an instance are named and labelled.
pub struct Names {
    pub workload: String,
    pub service: Option<String>,
    pub selector: StringMap<String>,
    pub labels: StringMap<String>,
    pub annotations: StringMap<String>,
}

#[verifier::ext_equal]
pub struct NamesView {
    pub workload: Seq<char>,
    pub service: Option<Seq<char>>,
    pub selector: TextMap,
    pub labels: TextMap,
    pub annotations: TextMap,
}

impl View for Names {
    type V = NamesView;

    open spec fn view(&self) -> NamesView {
        NamesView {
            workload: self.workload@,
            service: super::optional_view(self.service),
            selector: self.selector@,
            labels: self.labels@,
            annotations: self.annotations@,
        }
    }
}

/// The name of the Service, where there is one.
pub open spec fn service_name_outcome(
    service: Option<ServiceTemplate>,
    values: ValuesView,
    id: Seq<char>,
) -> Outcome<Option<Seq<char>>> {
    match service {
        None => Ok(None),
        Some(service) => match checks::object_name(
            "service.name"@,
            service.name@,
            values,
            id,
        ) {
            Err(error) => Err(error),
            Ok(name) => Ok(Some(name)),
        },
    }
}

/// How the objects of an instance are named and labelled.
pub open spec fn names_outcome(
    workload: WorkloadTemplate,
    service: Option<ServiceTemplate>,
    instance: InstanceRecord,
    template_generation: Option<Generation>,
) -> Outcome<NamesView> {
    match checks::object_name("workload.name"@, workload.name@, instance.values@, instance.id@) {
        Err(error) => Err(error),
        Ok(workload_name) => match service_name_outcome(
            service,
            instance.values@,
            instance.id@,
        ) {
            Err(error) => Err(error),
            Ok(service_name) => match labels::selector_labels_outcome(
                instance.id@,
                workload_name,
            ) {
                Err(error) => Err(error),
                Ok(selector) => match labels::metadata_labels_outcome(instance, workload_name) {
                    Err(error) => Err(error),
                    Ok(labels) => Ok(
                        NamesView {
                            workload: workload_name,
                            service: service_name,
                            selector,
                            labels,
                            annotations: labels::annotations_of(template_generation),
                        },
                    ),
                },
            },
        },
    }
}

fn render_names(
    workload: &WorkloadTemplate,
    service: &Option<ServiceTemplate>,
    instance: &InstanceRecord,
    template_generation: Option<Generation>,
) -> (result: Result<Names, ManifestRenderError>)
    ensures
        super::outcome(result) == names_outcome(
            *workload,
            *service,
            *instance,
            template_generation,
        ),
{
    let workload_name = render_object_name(
        "workload.name",
        &workload.name,
        &instance.values,
        &instance.id,
    )?;
    let service_name = match service {
        None => None,
        Some(service) => Some(
            render_object_name("service.name", &service.name, &instance.values, &instance.id)?,
        ),
    };
    let selector = selector_labels(instance, workload_name.as_str())?;
    let labels = metadata_labels(instance, workload_name.as_str())?;
    let annotations = metadata_annotations(template_generation);
    Ok(Names { workload: workload_name, service: service_name, selector, labels, annotations })
}

/// The metadata of an object in a namespace.
pub open spec fn named(name: Seq<char>, namespace: Seq<char>, names: NamesView) -> ObjectMetaView {
    ObjectMetaView {
        name,
        namespace: Some(namespace),
        labels: names.labels,
        annotations: names.annotations,
    }
}

fn name_object(name: &str, namespace: &str, names: &Names) -> (metadata: ObjectMeta)
    ensures
        metadata@ == named(name@, namespace@, names@),
{
    ObjectMeta {
        name: name.to_owned(),
        namespace: Some(namespace.to_owned()),
        labels: names.labels.duplicate(),
        annotations: names.annotations.duplicate(),
    }
}

// ---------------------------------------------------------------------------
// Storage
// ---------------------------------------------------------------------------
/// The PersistentVolume of a volume.
pub open spec fn volume_object(
    volume: RenderedVolumeView,
    namespace: Seq<char>,
    names: NamesView,
) -> RenderedManifestObjectView {
    RenderedManifestObjectView {
        apply_order: ApplyOrder::PersistentVolume,
        object: KubernetesObjectView::PersistentVolume(
            PersistentVolumeView {
                metadata: ObjectMetaView {
                    name: volume.pv_name,
                    namespace: None,
                    labels: names.labels,
                    annotations: names.annotations,
                },
                spec: PersistentVolumeSpecView {
                    capacity: volume.capacity,
                    access_modes: volume.access_modes,
                    persistent_volume_reclaim_policy: volume.reclaim_policy,
                    storage_class_name: volume.storage_class_name,
                    claim_ref: PersistentVolumeClaimRefView { namespace, name: volume.pvc_name },
                    source: volume.source,
                },
            },
        ),
    }
}

/// The PersistentVolumeClaim on a volume.
pub open spec fn claim_object(
    volume: RenderedVolumeView,
    namespace: Seq<char>,
    names: NamesView,
) -> RenderedManifestObjectView {
    RenderedManifestObjectView {
        apply_order: ApplyOrder::PersistentVolumeClaim,
        object: KubernetesObjectView::PersistentVolumeClaim(
            PersistentVolumeClaimView {
                metadata: named(volume.pvc_name, namespace, names),
                spec: PersistentVolumeClaimSpecView {
                    access_modes: volume.access_modes,
                    resources: VolumeResourceRequirementsView {
                        requests_storage: volume.capacity,
                    },
                    storage_class_name: volume.storage_class_name,
                    volume_name: volume.pv_name,
                },
            },
        ),
    }
}

/// The PersistentVolumes of an instance.
pub open spec fn volume_objects(
    volumes: Seq<RenderedVolumeView>,
    namespace: Seq<char>,
    names: NamesView,
) -> Seq<RenderedManifestObjectView> {
    Seq::new(volumes.len(), |i: int| volume_object(volumes[i], namespace, names))
}

/// The PersistentVolumeClaims of an instance.
pub open spec fn claim_objects(
    volumes: Seq<RenderedVolumeView>,
    namespace: Seq<char>,
    names: NamesView,
) -> Seq<RenderedManifestObjectView> {
    Seq::new(volumes.len(), |i: int| claim_object(volumes[i], namespace, names))
}

fn render_volume_objects(volumes: &Vec<RenderedVolume>, namespace: &str, names: &Names) -> (objects:
    Vec<RenderedManifestObject>)
    ensures
        super::views(objects@) == volume_objects(super::views(volumes@), namespace@, names@),
{
    let mut objects: Vec<RenderedManifestObject> = Vec::new();
    let mut at: usize = 0;
    while at < volumes.len()
        invariant
            at <= volumes.len(),
            objects@.len() == at,
            forall|i: int|
                0 <= i < at ==> (#[trigger] objects@[i])@ == volume_object(
                    volumes@[i]@,
                    namespace@,
                    names@,
                ),
        decreases volumes.len() - at,
    {
        let volume = &volumes[at];
        objects.push(
            RenderedManifestObject {
                apply_order: ApplyOrder::PersistentVolume,
                object: KubernetesObject::PersistentVolume(
                    Box::new(
                        PersistentVolume {
                            metadata: ObjectMeta {
                                name: volume.pv_name.clone(),
                                namespace: None,
                                labels: names.labels.duplicate(),
                                annotations: names.annotations.duplicate(),
                            },
                            spec: PersistentVolumeSpec {
                                capacity: volume.capacity.clone(),
                                access_modes: copied_modes(&volume.access_modes),
                                persistent_volume_reclaim_policy: volume.reclaim_policy,
                                storage_class_name: copied_text(&volume.storage_class_name),
                                claim_ref: PersistentVolumeClaimRef {
                                    namespace: namespace.to_owned(),
                                    name: volume.pvc_name.clone(),
                                },
                                source: volume.source.duplicate(),
                            },
                        },
                    ),
                ),
            },
        );
        at = at + 1;
    }
    assert(super::views(objects@) =~= volume_objects(
        super::views(volumes@),
        namespace@,
        names@,
    ));
    objects
}

fn render_claim_objects(volumes: &Vec<RenderedVolume>, namespace: &str, names: &Names) -> (objects:
    Vec<RenderedManifestObject>)
    ensures
        super::views(objects@) == claim_objects(super::views(volumes@), namespace@, names@),
{
    let mut objects: Vec<RenderedManifestObject> = Vec::new();
    let mut at: usize = 0;
    while at < volumes.len()
        invariant
            at <= volumes.len(),
            objects@.len() == at,
            forall|i: int|
                0 <= i < at ==> (#[trigger] objects@[i])@ == claim_object(
                    volumes@[i]@,
                    namespace@,
                    names@,
                ),
        decreases volumes.len() - at,
    {
        let volume = &volumes[at];
        objects.push(
            RenderedManifestObject {
                apply_order: ApplyOrder::PersistentVolumeClaim,
                object: KubernetesObject::PersistentVolumeClaim(
                    PersistentVolumeClaim {
                        metadata: name_object(volume.pvc_name.as_str(), namespace, names),
                        spec: PersistentVolumeClaimSpec {
                            access_modes: copied_modes(&volume.access_modes),
                            resources: VolumeResourceRequirements {
                                requests_storage: volume.capacity.clone(),
                            },
                            storage_class_name: copied_text(&volume.storage_class_name),
                            volume_name: volume.pv_name.clone(),
                        },
                    },
                ),
            },
        );
        at = at + 1;
    }
    assert(super::views(objects@) =~= claim_objects(
        super::views(volumes@),
        namespace@,
        names@,
    ));
    objects
}

// ---------------------------------------------------------------------------
// Service and Secret
// ---------------------------------------------------------------------------
/// The annotations of the Service: those of every object, and the protocol of
/// the backend where it is plain TCP.
pub open spec fn service_annotations(annotations: TextMap, mode: Option<Seq<char>>) -> TextMap {
    if mode == Some("tcp"@) {
        string_map::with_entry(annotations, ANNOTATION_BACKEND_SCHEME@, "tcp"@)
    } else {
        annotations
    }
}

/// The Service of an instance, where the template and the name of one are there.
pub open spec fn service_objects(
    service: Option<ServiceTemplate>,
    config: SidecarRenderConfigView,
    namespace: Seq<char>,
    names: NamesView,
) -> Outcome<Seq<RenderedManifestObjectView>> {
    match (service, names.service) {
        (Some(service), Some(name)) => match pod::service_ports_outcome(
            service.ports@,
            service.ports@.len(),
            config.listen_port,
        ) {
            Err(error) => Err(error),
            Ok(ports) => Ok(
                seq![
                    RenderedManifestObjectView {
                        apply_order: ApplyOrder::Service,
                        object: KubernetesObjectView::Service(
                            ServiceView {
                                metadata: ObjectMetaView {
                                    name,
                                    namespace: Some(namespace),
                                    labels: names.labels,
                                    annotations: service_annotations(
                                        names.annotations,
                                        config.mode,
                                    ),
                                },
                                spec: ServiceSpecView { selector: names.selector, ports },
                            },
                        ),
                    },
                ],
            ),
        },
        _ => Ok(Seq::empty()),
    }
}

fn render_service_objects(
    service: &Option<ServiceTemplate>,
    config: &SidecarRenderConfig,
    namespace: &str,
    names: &Names,
) -> (result: Result<Vec<RenderedManifestObject>, ManifestRenderError>)
    ensures
        (match result {
            Ok(objects) => Ok(super::views(objects@)),
            Err(error) => Err(error@),
        }) == service_objects(*service, config@, namespace@, names@),
{
    let mut objects: Vec<RenderedManifestObject> = Vec::new();
    match (service, &names.service) {
        (Some(service), Some(name)) => {
            let ports = render_service_ports(service, config.listen_port)?;
            let mut annotations = names.annotations.duplicate();
            if let Some(mode) = &config.mode {
                if same_text(mode.as_str(), "tcp") {
                    annotations.insert(ANNOTATION_BACKEND_SCHEME.to_owned(), "tcp".to_owned());
                }
            }
            let object = RenderedManifestObject {
                apply_order: ApplyOrder::Service,
                object: KubernetesObject::Service(
                    Service {
                        metadata: ObjectMeta {
                            name: name.clone(),
                            namespace: Some(namespace.to_owned()),
                            labels: names.labels.duplicate(),
                            annotations,
                        },
                        spec: ServiceSpec { selector: names.selector.duplicate(), ports },
                    },
                ),
            };
            objects.push(object);
            assert(super::views(objects@) =~= seq![object@]);
        },
        _ => {
            assert(super::views(objects@) =~= Seq::<RenderedManifestObjectView>::empty());
        },
    }
    Ok(objects)
}

/// The name of the Secret with the token of the sidecar.
pub open spec fn secret_name(token: Option<Seq<char>>, id: Seq<char>) -> Option<Seq<char>> {
    match token {
        Some(_) => Some(kubernetes_name::scoped_name("sleepypods-sidecar-token"@, id)),
        None => None,
    }
}

/// The Secret with the token of the sidecar, where there is a token.
pub open spec fn secret_objects(
    token: Option<Seq<char>>,
    id: Seq<char>,
    namespace: Seq<char>,
    names: NamesView,
) -> Seq<RenderedManifestObjectView> {
    match token {
        Some(token) => seq![
            RenderedManifestObjectView {
                apply_order: ApplyOrder::Secret,
                object: KubernetesObjectView::Secret(
                    SecretView {
                        metadata: named(
                            kubernetes_name::scoped_name("sleepypods-sidecar-token"@, id),
                            namespace,
                            names,
                        ),
                        type_: "Opaque"@,
                        string_data: string_map::with_entry(
                            Seq::empty(),
                            SIDECAR_TOKEN_SECRET_KEY@,
                            token,
                        ),
                    },
                ),
            },
        ],
        None => Seq::empty(),
    }
}

/// The model of a token that may be absent.
pub open spec fn token_view(token: Option<&BearerToken>) -> Option<Seq<char>> {
    match token {
        Some(token) => Some(token@),
        None => None,
    }
}

fn render_secret_name(token: Option<&BearerToken>, id: &InstanceId) -> (name: Option<String>)
    ensures
        super::optional_view(name) == secret_name(token_view(token), id@),
{
    match token {
        Some(_) => Some(render_instance_scoped_name("sleepypods-sidecar-token", id)),
        None => None,
    }
}

fn render_secret_objects(
    token: Option<&BearerToken>,
    id: &InstanceId,
    namespace: &str,
    names: &Names,
) -> (objects: Vec<RenderedManifestObject>)
    ensures
        super::views(objects@) == secret_objects(token_view(token), id@, namespace@, names@),
{
    let mut objects: Vec<RenderedManifestObject> = Vec::new();
    if let Some(token) = token {
        let name = render_instance_scoped_name("sleepypods-sidecar-token", id);
        let mut string_data: StringMap<String> = StringMap::new();
        string_data.insert(
            SIDECAR_TOKEN_SECRET_KEY.to_owned(),
            token.as_secret_str().to_owned(),
        );
        objects.push(
            RenderedManifestObject {
                apply_order: ApplyOrder::Secret,
                object: KubernetesObject::Secret(
                    Secret {
                        metadata: name_object(name.as_str(), namespace, names),
                        type_: "Opaque".to_owned(),
                        string_data,
                    },
                ),
            },
        );
    }
    assert(super::views(objects@) =~= secret_objects(token_view(token), id@, namespace@, names@));
    objects
}

// ---------------------------------------------------------------------------
// The workload
// ---------------------------------------------------------------------------
/// What the pods of an instance are made from.
pub open spec fn pod_template_outcome(
    request: RenderManifestRequest<'_>,
    config: SidecarRenderConfigView,
    volumes: Seq<RenderedVolumeView>,
    options: OptionsView,
    names: NamesView,
) -> Outcome<PodTemplateSpecView> {
    match pod::app_container_outcome(
        request.template.workload.app_container,
        request.instance.values@,
        volumes,
    ) {
        Err(error) => Err(error),
        Ok(app) => match pod::sidecar_container_outcome(
            request.template.sidecar,
            *request.instance,
            config,
            request.namespace@,
            request.sleep_policy,
            secret_name(options.token, request.instance.id@),
            options,
        ) {
            Err(error) => Err(error),
            Ok(sidecar) => Ok(
                PodTemplateSpecView {
                    metadata: PodTemplateMetadataView {
                        labels: names.labels,
                        annotations: names.annotations,
                    },
                    spec: PodSpecView {
                        containers: seq![app, sidecar],
                        volumes: pod::pod_volumes_of(volumes),
                    },
                },
            ),
        },
    }
}

fn render_pod_template(
    request: &RenderManifestRequest<'_>,
    config: &SidecarRenderConfig,
    volumes: &Vec<RenderedVolume>,
    options: RenderManifestOptions<'_>,
    names: &Names,
) -> (result: Result<PodTemplateSpec, ManifestRenderError>)
    ensures
        super::outcome(result) == pod_template_outcome(
            *request,
            config@,
            super::views(volumes@),
            pod::options_view(options),
            names@,
        ),
{
    let secret = render_secret_name(options.sidecar_control_plane_token, &request.instance.id);
    let app = render_app_container(
        &request.template.workload.app_container,
        &request.instance.values,
        volumes,
    )?;
    let sidecar = render_sidecar_container(
        &request.template.sidecar,
        request.instance,
        config,
        request.namespace,
        request.sleep_policy,
        &secret,
        options,
    )?;
    let ghost expected = seq![app@, sidecar@];
    let mut containers: Vec<Container> = Vec::new();
    containers.push(app);
    containers.push(sidecar);
    assert(super::views(containers@) =~= expected);
    Ok(
        PodTemplateSpec {
            metadata: PodTemplateMetadata {
                labels: names.labels.duplicate(),
                annotations: names.annotations.duplicate(),
            },
            spec: PodSpec { containers, volumes: pod_volumes(volumes) },
        },
    )
}

/// The workload itself. A StatefulSet needs the name of a Service.
pub open spec fn workload_outcome(
    workload: WorkloadTemplate,
    template: PodTemplateSpecView,
    namespace: Seq<char>,
    names: NamesView,
) -> Outcome<RenderedManifestObjectView> {
    let metadata = named(names.workload, namespace, names);
    let replicas = template::replicas_of(workload);
    let selector = LabelSelectorView { match_labels: names.selector };
    match workload.kind {
        WorkloadKind::Deployment => Ok(
            RenderedManifestObjectView {
                apply_order: ApplyOrder::Workload,
                object: KubernetesObjectView::Deployment(
                    DeploymentView {
                        metadata,
                        spec: DeploymentSpecView { replicas, selector, template },
                    },
                ),
            },
        ),
        WorkloadKind::StatefulSet => match names.service {
            None => super::invalid_field(
                "stateful_set.service_name"@,
                "StatefulSet rendering requires a service template"@,
            ),
            Some(service_name) => Ok(
                RenderedManifestObjectView {
                    apply_order: ApplyOrder::Workload,
                    object: KubernetesObjectView::StatefulSet(
                        StatefulSetView {
                            metadata,
                            spec: StatefulSetSpecView {
                                replicas,
                                service_name,
                                selector,
                                template,
                            },
                        },
                    ),
                },
            ),
        },
    }
}

fn render_workload(
    workload: &WorkloadTemplate,
    pod_template: PodTemplateSpec,
    namespace: &str,
    names: &Names,
) -> (result: Result<RenderedManifestObject, ManifestRenderError>)
    ensures
        super::outcome(result) == workload_outcome(
            *workload,
            pod_template@,
            namespace@,
            names@,
        ),
{
    let replicas: u32 = match workload.replicas {
        Some(count) => count,
        None => 1,
    };
    let metadata = name_object(names.workload.as_str(), namespace, names);
    let selector = LabelSelector { match_labels: names.selector.duplicate() };
    match workload.kind {
        WorkloadKind::Deployment => Ok(
            RenderedManifestObject {
                apply_order: ApplyOrder::Workload,
                object: KubernetesObject::Deployment(
                    Deployment {
                        metadata,
                        spec: DeploymentSpec { replicas, selector, template: pod_template },
                    },
                ),
            },
        ),
        WorkloadKind::StatefulSet => match &names.service {
            None => Err(
                field_error(
                    "stateful_set.service_name",
                    "StatefulSet rendering requires a service template",
                ),
            ),
            Some(service_name) => Ok(
                RenderedManifestObject {
                    apply_order: ApplyOrder::Workload,
                    object: KubernetesObject::StatefulSet(
                        StatefulSet {
                            metadata,
                            spec: StatefulSetSpec {
                                replicas,
                                service_name: service_name.clone(),
                                selector,
                                template: pod_template,
                            },
                        },
                    ),
                },
            ),
        },
    }
}

// ---------------------------------------------------------------------------
// The structured objects
// ---------------------------------------------------------------------------
/// The objects that the structured part of a template renders to, once the
/// names are known.
pub open spec fn named_objects_outcome(
    request: RenderManifestRequest<'_>,
    options: OptionsView,
    names: NamesView,
) -> Outcome<Seq<RenderedManifestObjectView>> {
    match pod::sidecar_config_outcome(*request.template, request.instance.values@) {
        Err(error) => Err(error),
        Ok(config) => match volume::volumes_outcome(
            request.template.volumes@,
            request.template.volumes@.len(),
            request.instance.values@,
            request.instance.id@,
            request.namespace@,
        ) {
            Err(error) => Err(error),
            Ok(volumes) => match service_objects(
                request.template.service,
                config,
                request.namespace@,
                names,
            ) {
                Err(error) => Err(error),
                Ok(services) => match pod_template_outcome(
                    request,
                    config,
                    volumes,
                    options,
                    names,
                ) {
                    Err(error) => Err(error),
                    Ok(pod_template) => match workload_outcome(
                        request.template.workload,
                        pod_template,
                        request.namespace@,
                        names,
                    ) {
                        Err(error) => Err(error),
                        Ok(workload) => Ok(
                            (volume_objects(volumes, request.namespace@, names) + claim_objects(
                                volumes,
                                request.namespace@,
                                names,
                            ) + services + secret_objects(
                                options.token,
                                request.instance.id@,
                                request.namespace@,
                                names,
                            )).push(workload),
                        ),
                    },
                },
            },
        },
    }
}

fn join(first: Vec<RenderedManifestObject>, second: Vec<RenderedManifestObject>) -> (joined: Vec<
    RenderedManifestObject,
>)
    ensures
        super::views(joined@) == super::views(first@) + super::views(second@),
{
    let mut joined = first;
    let mut rest = second;
    joined.append(&mut rest);
    assert(super::views(joined@) =~= super::views(first@) + super::views(second@));
    joined
}

/// No object was written out by the class author.
pub open spec fn all_structured(objects: Seq<RenderedManifestObjectView>) -> bool {
    forall|i: int| 0 <= i < objects.len() ==> (#[trigger] objects[i]).object !is Raw
}

fn render_named_objects(
    request: &RenderManifestRequest<'_>,
    options: RenderManifestOptions<'_>,
    names: &Names,
) -> (result: Result<Vec<RenderedManifestObject>, ManifestRenderError>)
    ensures
        (match result {
            Ok(objects) => Ok(super::views(objects@)),
            Err(error) => Err(error@),
        }) == named_objects_outcome(*request, pod::options_view(options), names@),
        result matches Ok(objects) ==> all_structured(super::views(objects@)),
{
    let namespace = request.namespace;
    let config = render_sidecar_config(request.template, &request.instance.values)?;
    let volumes = render_volumes(&request.template.volumes, request.instance, namespace)?;
    let persistent = render_volume_objects(&volumes, namespace, names);
    let claims = render_claim_objects(&volumes, namespace, names);
    let services = render_service_objects(&request.template.service, &config, namespace, names)?;
    let secrets = render_secret_objects(
        options.sidecar_control_plane_token,
        &request.instance.id,
        namespace,
        names,
    );
    let pod_template = render_pod_template(request, &config, &volumes, options, names)?;
    let workload = render_workload(&request.template.workload, pod_template, namespace, names)?;
    let mut objects = join(join(join(persistent, claims), services), secrets);
    let ghost before = super::views(objects@);
    let ghost last = workload@;
    objects.push(workload);
    assert(super::views(objects@) =~= before.push(last));
    Ok(objects)
}

// ---------------------------------------------------------------------------
// Raw objects
// ---------------------------------------------------------------------------
/// The objects that the first `count` raw manifests render to.
pub open spec fn raws_outcome(
    raws: Seq<RawKubernetesManifestTemplate>,
    count: nat,
    values: ValuesView,
    namespace: Seq<char>,
    labels: TextMap,
    annotations: TextMap,
) -> Outcome<Seq<RenderedManifestObjectView>>
    decreases count,
{
    if count == 0 || count > raws.len() {
        Ok(Seq::empty())
    } else {
        match raws_outcome(raws, (count - 1) as nat, values, namespace, labels, annotations) {
            Err(error) => Err(error),
            Ok(before) => match raw::raw_outcome(
                raws[count - 1].manifest@,
                values,
                namespace,
                labels,
                annotations,
            ) {
                Err(error) => Err(error),
                Ok(object) => Ok(before.push(object)),
            },
        }
    }
}

proof fn lemma_raws_error_stays(
    raws: Seq<RawKubernetesManifestTemplate>,
    from: nat,
    to: nat,
    values: ValuesView,
    namespace: Seq<char>,
    labels: TextMap,
    annotations: TextMap,
)
    requires
        from <= to <= raws.len(),
        raws_outcome(raws, from, values, namespace, labels, annotations) is Err,
    ensures
        raws_outcome(raws, to, values, namespace, labels, annotations) == raws_outcome(
            raws,
            from,
            values,
            namespace,
            labels,
            annotations,
        ),
    decreases to,
{
    if from < to {
        lemma_raws_error_stays(
            raws,
            from,
            (to - 1) as nat,
            values,
            namespace,
            labels,
            annotations,
        );
    }
}

/// Each object can be written as a document.
pub open spec fn all_serializable(objects: Seq<RenderedManifestObjectView>) -> bool {
    forall|i: int|
        0 <= i < objects.len() ==> serialize::serializable((#[trigger] objects[i]).object)
}

fn render_raws(
    raws: &Vec<RawKubernetesManifestTemplate>,
    values: &InstanceValues,
    namespace: &str,
    labels: &StringMap<String>,
    annotations: &StringMap<String>,
) -> (result: Result<Vec<RenderedManifestObject>, ManifestRenderError>)
    ensures
        (match result {
            Ok(objects) => Ok(super::views(objects@)),
            Err(error) => Err(error@),
        }) == raws_outcome(
            raws@,
            raws@.len(),
            values@,
            namespace@,
            labels@,
            annotations@,
        ),
        result matches Ok(objects) ==> all_serializable(super::views(objects@)),
{
    let mut objects: Vec<RenderedManifestObject> = Vec::new();
    let mut at: usize = 0;
    assert(super::views(objects@) =~= Seq::<RenderedManifestObjectView>::empty());
    while at < raws.len()
        invariant
            at <= raws.len(),
            all_serializable(super::views(objects@)),
            raws_outcome(
                raws@,
                at as nat,
                values@,
                namespace@,
                labels@,
                annotations@,
            ) == Ok::<Seq<RenderedManifestObjectView>, RenderErrorView>(super::views(objects@)),
        decreases raws.len() - at,
    {
        match render_raw_object(&raws[at], values, namespace, labels, annotations) {
            Err(error) => {
                proof {
                    lemma_raws_error_stays(
                        raws@,
                        (at + 1) as nat,
                        raws@.len(),
                        values@,
                        namespace@,
                        labels@,
                        annotations@,
                    );
                }
                return Err(error);
            },
            Ok(object) => {
                let ghost before = objects@;
                objects.push(object);
                assert(super::views(objects@) =~= super::views(before).push(object@));
            },
        }
        at = at + 1;
    }
    Ok(objects)
}

// ---------------------------------------------------------------------------
// The manifest
// ---------------------------------------------------------------------------
/// The labels of auxiliary objects: those of every object, but for the one by
/// which the primary Service finds its pods.
pub open spec fn auxiliary_labels(labels: TextMap) -> TextMap {
    string_map::without_entry(labels, LABEL_WORKLOAD_NAME@)
}

/// The objects of an instance in the order in which the template lists them.
pub open spec fn objects_outcome(
    request: RenderManifestRequest<'_>,
    options: OptionsView,
) -> Outcome<Seq<RenderedManifestObjectView>> {
    match names_outcome(
        request.template.workload,
        request.template.service,
        *request.instance,
        request.template_generation,
    ) {
        Err(error) => Err(error),
        Ok(names) => match named_objects_outcome(request, options, names) {
            Err(error) => Err(error),
            Ok(structured) => match raws_outcome(
                request.template.raw_objects@,
                request.template.raw_objects@.len(),
                request.instance.values@,
                request.namespace@,
                auxiliary_labels(names.labels),
                names.annotations,
            ) {
                Err(error) => Err(error),
                Ok(raws) => Ok(structured + raws),
            },
        },
    }
}

/// The objects in the order of application, if no two have one reference and
/// their storage is retained.
pub open spec fn checked_outcome(objects: Seq<RenderedManifestObjectView>) -> Outcome<
    Seq<RenderedManifestObjectView>,
> {
    let ordered = inventory::in_application_order(objects);
    match inventory::unique_verdict(ordered, ordered.len()) {
        Err(error) => Err(error),
        Ok(_) => match inventory::inventory_verdict(
            serialize::documents_of(ordered),
            ordered.len(),
        ) {
            Err(error) => Err(error),
            Ok(_) => Ok(ordered),
        },
    }
}

/// What a template and an instance render to.
pub open spec fn manifest_outcome(
    request: RenderManifestRequest<'_>,
    options: OptionsView,
) -> Outcome<RenderedManifestView> {
    match template::replicas_verdict(request.template.workload) {
        Err(error) => Err(error),
        Ok(_) => match raw::retention_verdict(*request.template) {
            Err(error) => Err(error),
            Ok(_) => match checks::dns_verdict("namespace"@, request.namespace@) {
                Err(error) => Err(error),
                Ok(_) => match objects_outcome(request, options) {
                    Err(error) => Err(error),
                    Ok(objects) => match checked_outcome(objects) {
                        Err(error) => Err(error),
                        Ok(ordered) => Ok(
                            RenderedManifestView {
                                instance_generation: request.instance.generation@,
                                template_generation: super::optional_view(
                                    request.template_generation,
                                ),
                                objects: ordered,
                            },
                        ),
                    },
                },
            },
        },
    }
}

/// The options of a sidecar that is told nothing about the control plane.
pub open spec fn no_options() -> OptionsView {
    OptionsView { token: None, endpoint: None, ca: None }
}

impl<'a> Default for RenderManifestOptions<'a> {
    fn default() -> (options: RenderManifestOptions<'a>)
        ensures
            pod::options_view(options) == no_options(),
    {
        RenderManifestOptions {
            sidecar_control_plane_token: None,
            sidecar_control_plane_endpoint: None,
            sidecar_control_plane_ca: None,
        }
    }
}

fn render_objects(request: &RenderManifestRequest<'_>, options: RenderManifestOptions<'_>) -> (result:
    Result<Vec<RenderedManifestObject>, ManifestRenderError>)
    ensures
        (match result {
            Ok(objects) => Ok(super::views(objects@)),
            Err(error) => Err(error@),
        }) == objects_outcome(*request, pod::options_view(options)),
        result matches Ok(objects) ==> all_serializable(super::views(objects@)),
{
    let names = render_names(
        &request.template.workload,
        &request.template.service,
        request.instance,
        request.template_generation,
    )?;
    let structured = render_named_objects(request, options, &names)?;
    let mut labels = names.labels.duplicate();
    labels.remove(LABEL_WORKLOAD_NAME);
    let raws = render_raws(
        &request.template.raw_objects,
        &request.instance.values,
        request.namespace,
        &labels,
        &names.annotations,
    )?;
    Ok(join(structured, raws))
}

fn check_objects(objects: Vec<RenderedManifestObject>) -> (result: Result<
    Vec<RenderedManifestObject>,
    ManifestRenderError,
>)
    requires
        all_serializable(super::views(objects@)),
    ensures
        (match result {
            Ok(ordered) => Ok(super::views(ordered@)),
            Err(error) => Err(error@),
        }) == checked_outcome(super::views(objects@)),
        result matches Ok(ordered) ==> all_serializable(super::views(ordered@)),
{
    let ghost listed = super::views(objects@);
    let ordered = order_for_application(objects);
    proof {
        inventory::law_application_order(listed);
        assert forall|i: int| 0 <= i < ordered@.len() implies serialize::serializable(
            (#[trigger] ordered@[i])@.object,
        ) by {
            assert(super::views(ordered@)[i] == ordered@[i]@);
            let at = choose|at: int|
                0 <= at < listed.len() && listed[at] == super::views(ordered@)[i];
            assert(serialize::serializable(listed[at].object));
        }
        assert(all_serializable(super::views(ordered@)));
    }
    validate_unique_rendered_refs(&ordered)?;
    let documents = to_documents(&ordered);
    validate_retained_static_inventory(&documents)?;
    Ok(ordered)
}

/// Renders a template for an instance.
pub fn render_manifests(request: RenderManifestRequest<'_>) -> (result: Result<
    RenderedManifest,
    ManifestRenderError,
>)
    ensures
        super::outcome(result) == manifest_outcome(request, no_options()),
        result matches Ok(manifest) ==> all_serializable(manifest@.objects),
{
    render_manifests_with_options(request, RenderManifestOptions::default())
}

/// Renders a template for an instance, and tells the sidecar how to reach the
/// control plane.
pub fn render_manifests_with_options(
    request: RenderManifestRequest<'_>,
    options: RenderManifestOptions<'_>,
) -> (result: Result<RenderedManifest, ManifestRenderError>)
    ensures
        super::outcome(result) == manifest_outcome(request, pod::options_view(options)),
        result matches Ok(manifest) ==> all_serializable(manifest@.objects),
{
    request.template.workload.validate_replicas()?;
    request.template.validate_storage_retention()?;
    validate_namespace(request.namespace)?;
    let objects = render_objects(&request, options)?;
    let ordered = check_objects(objects)?;
    Ok(
        RenderedManifest {
            instance_generation: request.instance.generation,
            template_generation: request.template_generation,
            objects: ordered,
        },
    )
}

} // verus!
