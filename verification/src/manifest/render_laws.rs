//! What the objects of an instance have from its template, its values and each
//! other.

use super::checks::{self, ValuesView};
use super::inventory;
use super::labels;
use super::objects::{
    ContainerView, CsiSecretReferenceView, EnvVarSourceView, EnvVarView, KubernetesObjectView,
    ObjectMetaView, PersistentVolumeClaimView, PersistentVolumeSourceView, PersistentVolumeView,
    PodTemplateSpecView, RenderedManifestObjectView, SecretKeyRefView, SecretView, ServiceView,
    TextMap,
};
use super::pod::{self, OptionsView, SidecarRenderConfigView};
use super::raw;
use super::readiness;
use super::render::{self, NamesView};
use super::template::{
    self, CsiSecretRefTemplate, ManifestTemplate, PersistentVolumeReclaimPolicy,
    PersistentVolumeSourceTemplate, RawKubernetesManifestTemplate, TemplatePartView,
    VolumeTemplate, WorkloadKind,
};
use super::volume::{self, RenderedVolumeView};
use super::{RenderErrorView, RenderManifestRequest};
use crate::ids::Generation;
use crate::instance::InstanceRecord;
use crate::kubernetes_name;
use crate::string_map;
use crate::text;
use vstd::prelude::*;

verus! {

// ---------------------------------------------------------------------------
// Parts
// ---------------------------------------------------------------------------
/// The pods of an object that runs some.
pub open spec fn pods_of(object: KubernetesObjectView) -> Option<PodTemplateSpecView> {
    match object {
        KubernetesObjectView::Deployment(object) => Some(object.spec.template),
        KubernetesObjectView::StatefulSet(object) => Some(object.spec.template),
        _ => None,
    }
}

/// The labels by which an object finds its pods.
pub open spec fn selector_of(object: KubernetesObjectView) -> Option<TextMap> {
    match object {
        KubernetesObjectView::Deployment(object) => Some(object.spec.selector.match_labels),
        KubernetesObjectView::StatefulSet(object) => Some(object.spec.selector.match_labels),
        KubernetesObjectView::Service(object) => Some(object.spec.selector),
        _ => None,
    }
}

/// What a manifest is made of.
ghost struct Parts {
    names: NamesView,
    config: SidecarRenderConfigView,
    volumes: Seq<RenderedVolumeView>,
    services: Seq<RenderedManifestObjectView>,
    pods: PodTemplateSpecView,
    workload: RenderedManifestObjectView,
    raws: Seq<RenderedManifestObjectView>,
}

#[verifier::opaque]
spec fn listed(request: RenderManifestRequest<'_>, options: OptionsView, parts: Parts) -> Seq<
    RenderedManifestObjectView,
> {
    (render::volume_objects(parts.volumes, request.namespace@, parts.names)
        + render::claim_objects(parts.volumes, request.namespace@, parts.names) + parts.services
        + render::secret_objects(
        options.token,
        request.instance.id@,
        request.namespace@,
        parts.names,
    )).push(parts.workload) + parts.raws
}

#[verifier::opaque]
spec fn made_of(request: RenderManifestRequest<'_>, options: OptionsView, parts: Parts) -> bool {
    let values = request.instance.values@;
    &&& render::names_outcome(
        request.template.workload,
        request.template.service,
        *request.instance,
        request.template_generation,
    ) == Ok::<NamesView, RenderErrorView>(parts.names)
    &&& pod::sidecar_config_outcome(*request.template, values) == Ok::<
        SidecarRenderConfigView,
        RenderErrorView,
    >(parts.config)
    &&& volume::volumes_outcome(
        request.template.volumes@,
        request.template.volumes@.len(),
        values,
        request.instance.id@,
        request.namespace@,
    ) == Ok::<Seq<RenderedVolumeView>, RenderErrorView>(parts.volumes)
    &&& render::service_objects(
        request.template.service,
        parts.config,
        request.namespace@,
        parts.names,
    ) == Ok::<Seq<RenderedManifestObjectView>, RenderErrorView>(parts.services)
    &&& render::pod_template_outcome(
        request,
        parts.config,
        parts.volumes,
        options,
        parts.names,
    ) == Ok::<PodTemplateSpecView, RenderErrorView>(parts.pods)
    &&& render::workload_outcome(
        request.template.workload,
        parts.pods,
        request.namespace@,
        parts.names,
    ) == Ok::<RenderedManifestObjectView, RenderErrorView>(parts.workload)
    &&& render::raws_outcome(
        request.template.raw_objects@,
        request.template.raw_objects@.len(),
        values,
        request.namespace@,
        render::auxiliary_labels(parts.names.labels),
        parts.names.annotations,
    ) == Ok::<Seq<RenderedManifestObjectView>, RenderErrorView>(parts.raws)
}

/// Two lists hold the same objects.
#[verifier::opaque]
spec fn same_members(
    objects: Seq<RenderedManifestObjectView>,
    all: Seq<RenderedManifestObjectView>,
) -> bool {
    &&& objects.len() == all.len()
    &&& forall|i: int| 0 <= i < all.len() ==> objects.contains(#[trigger] all[i])
    &&& forall|i: int| 0 <= i < objects.len() ==> all.contains(#[trigger] objects[i])
}

proof fn lemma_stands(
    objects: Seq<RenderedManifestObjectView>,
    all: Seq<RenderedManifestObjectView>,
    at: int,
) -> (place: int)
    requires
        same_members(objects, all),
        0 <= at < all.len(),
    ensures
        0 <= place < objects.len(),
        objects[place] == all[at],
{
    reveal(same_members);
    assert(objects.contains(all[at]));
    choose|place: int| 0 <= place < objects.len() && objects[place] == all[at]
}

proof fn lemma_comes_from(
    objects: Seq<RenderedManifestObjectView>,
    all: Seq<RenderedManifestObjectView>,
    place: int,
) -> (at: int)
    requires
        same_members(objects, all),
        0 <= place < objects.len(),
    ensures
        0 <= at < all.len(),
        all[at] == objects[place],
        objects.len() == all.len(),
{
    reveal(same_members);
    assert(all.contains(objects[place]));
    choose|at: int| 0 <= at < all.len() && all[at] == objects[place]
}

proof fn lemma_made_of(request: RenderManifestRequest<'_>, options: OptionsView) -> (parts: Parts)
    requires
        render::manifest_outcome(request, options) is Ok,
    ensures
        made_of(request, options, parts),
        same_members(
            render::manifest_outcome(request, options)->Ok_0.objects,
            listed(request, options, parts),
        ),
{
    broadcast use vstd::seq_lib::group_to_multiset_ensures;

    reveal(made_of);
    reveal(listed);
    reveal(same_members);
    let values = request.instance.values@;
    let names = render::names_outcome(
        request.template.workload,
        request.template.service,
        *request.instance,
        request.template_generation,
    )->Ok_0;
    let config = pod::sidecar_config_outcome(*request.template, values)->Ok_0;
    let volumes = volume::volumes_outcome(
        request.template.volumes@,
        request.template.volumes@.len(),
        values,
        request.instance.id@,
        request.namespace@,
    )->Ok_0;
    let services = render::service_objects(
        request.template.service,
        config,
        request.namespace@,
        names,
    )->Ok_0;
    let pods = render::pod_template_outcome(request, config, volumes, options, names)->Ok_0;
    let workload = render::workload_outcome(
        request.template.workload,
        pods,
        request.namespace@,
        names,
    )->Ok_0;
    let raws = render::raws_outcome(
        request.template.raw_objects@,
        request.template.raw_objects@.len(),
        values,
        request.namespace@,
        render::auxiliary_labels(names.labels),
        names.annotations,
    )->Ok_0;
    let parts = Parts { names, config, volumes, services, pods, workload, raws };
    let all = listed(request, options, parts);
    assert(render::objects_outcome(request, options) == Ok::<
        Seq<RenderedManifestObjectView>,
        RenderErrorView,
    >(all));
    inventory::law_application_order(all);
    let objects = render::manifest_outcome(request, options)->Ok_0.objects;
    assert(objects == inventory::in_application_order(all));
    assert forall|i: int| 0 <= i < all.len() implies objects.contains(#[trigger] all[i]) by {
        assert(all.to_multiset().contains(all[i]));
        assert(objects.to_multiset().contains(all[i]));
    }
    parts
}

proof fn lemma_raws_are_raw(
    raws: Seq<RawKubernetesManifestTemplate>,
    count: nat,
    values: ValuesView,
    namespace: Seq<char>,
    required: TextMap,
    annotations: TextMap,
)
    requires
        count <= raws.len(),
    ensures
        render::raws_outcome(raws, count, values, namespace, required, annotations) matches Ok(
            objects,
        ) ==> objects.len() == count && forall|i: int|
            0 <= i < count ==> (#[trigger] objects[i]).object is Raw && raw::raw_outcome(
                raws[i].manifest@,
                values,
                namespace,
                required,
                annotations,
            ) == Ok::<RenderedManifestObjectView, RenderErrorView>(objects[i]),
    decreases count,
{
    if count > 0 {
        lemma_raws_are_raw(raws, (count - 1) as nat, values, namespace, required, annotations);
    }
}

/// How many objects a token adds.
spec fn secrets(options: OptionsView) -> int {
    if options.token is Some {
        1
    } else {
        0
    }
}

/// Where the parts of a manifest stand in the list.
proof fn lemma_places(
    request: RenderManifestRequest<'_>,
    options: OptionsView,
    parts: Parts,
    at: int,
)
    requires
        made_of(request, options, parts),
        0 <= at < listed(request, options, parts).len(),
    ensures
        ({
            let all = listed(request, options, parts);
            let n = parts.volumes.len() as int;
            let s = parts.services.len() as int;
            let t = secrets(options);
            if at < n {
                all[at] == render::volume_object(
                    parts.volumes[at],
                    request.namespace@,
                    parts.names,
                )
            } else if at < 2 * n {
                all[at] == render::claim_object(
                    parts.volumes[at - n],
                    request.namespace@,
                    parts.names,
                )
            } else if at < 2 * n + s {
                all[at] == parts.services[at - 2 * n]
            } else if at < 2 * n + s + t {
                all[at] == render::secret_objects(
                    options.token,
                    request.instance.id@,
                    request.namespace@,
                    parts.names,
                )[0]
            } else if at == 2 * n + s + t {
                all[at] == parts.workload
            } else {
                all[at] == parts.raws[at - (2 * n + s + t + 1)] && all[at].object is Raw
            }
        }),
{
    reveal(made_of);
    reveal(listed);
    lemma_raws_are_raw(
        request.template.raw_objects@,
        request.template.raw_objects@.len(),
        request.instance.values@,
        request.namespace@,
        render::auxiliary_labels(parts.names.labels),
        parts.names.annotations,
    );
}

proof fn lemma_lengths(request: RenderManifestRequest<'_>, options: OptionsView, parts: Parts)
    requires
        made_of(request, options, parts),
    ensures
        listed(request, options, parts).len() == 2 * parts.volumes.len() + parts.services.len()
            + secrets(options) + 1 + request.template.raw_objects@.len(),
        parts.raws.len() == request.template.raw_objects@.len(),
        pods_of(parts.workload.object) == Some(parts.pods),
{
    reveal(made_of);
    reveal(listed);
    lemma_raws_are_raw(
        request.template.raw_objects@,
        request.template.raw_objects@.len(),
        request.instance.values@,
        request.namespace@,
        render::auxiliary_labels(parts.names.labels),
        parts.names.annotations,
    );
}

proof fn lemma_only_the_workload_has_pods(
    request: RenderManifestRequest<'_>,
    options: OptionsView,
    parts: Parts,
    at: int,
)
    requires
        made_of(request, options, parts),
        0 <= at < listed(request, options, parts).len(),
        pods_of(listed(request, options, parts)[at].object) is Some,
    ensures
        listed(request, options, parts)[at] == parts.workload,
{
    lemma_places(request, options, parts, at);
    lemma_service_kind(request, options, parts);
}

proof fn lemma_service_kind(request: RenderManifestRequest<'_>, options: OptionsView, parts: Parts)
    requires
        made_of(request, options, parts),
    ensures
        parts.services.len() <= 1,
        parts.services.len() == 1 ==> parts.services[0].object is Service,
{
    reveal(made_of);
}

proof fn lemma_volumes(
    volumes: Seq<VolumeTemplate>,
    count: nat,
    values: ValuesView,
    id: Seq<char>,
    namespace: Seq<char>,
)
    requires
        count <= volumes.len(),
    ensures
        volume::volumes_outcome(volumes, count, values, id, namespace) matches Ok(rendered)
            ==> rendered.len() == count && forall|i: int|
            0 <= i < count ==> volume::volume_outcome(#[trigger] volumes[i], values, id, namespace)
                == Ok::<RenderedVolumeView, RenderErrorView>(rendered[i]),
    decreases count,
{
    if count > 0 {
        lemma_volumes(volumes, (count - 1) as nat, values, id, namespace);
    }
}

/// What the volumes of a manifest are made from.
proof fn lemma_volume_parts(request: RenderManifestRequest<'_>, options: OptionsView, parts: Parts)
    requires
        made_of(request, options, parts),
    ensures
        parts.volumes.len() == request.template.volumes@.len(),
        forall|i: int|
            0 <= i < parts.volumes.len() ==> volume::volume_outcome(
                #[trigger] request.template.volumes@[i],
                request.instance.values@,
                request.instance.id@,
                request.namespace@,
            ) == Ok::<RenderedVolumeView, RenderErrorView>(parts.volumes[i]),
{
    reveal(made_of);
    lemma_volumes(
        request.template.volumes@,
        request.template.volumes@.len(),
        request.instance.values@,
        request.instance.id@,
        request.namespace@,
    );
}

/// What the pods of a manifest are made from.
proof fn lemma_pod_parts(request: RenderManifestRequest<'_>, options: OptionsView, parts: Parts)
    requires
        made_of(request, options, parts),
    ensures
        parts.pods.spec.containers.len() == 2,
        pod::app_container_outcome(
            request.template.workload.app_container,
            request.instance.values@,
            parts.volumes,
        ) == Ok::<ContainerView, RenderErrorView>(parts.pods.spec.containers[0]),
        pod::sidecar_container_outcome(
            request.template.sidecar,
            *request.instance,
            parts.config,
            request.namespace@,
            request.sleep_policy,
            render::secret_name(options.token, request.instance.id@),
            options,
        ) == Ok::<ContainerView, RenderErrorView>(parts.pods.spec.containers[1]),
        parts.pods.spec.volumes == pod::pod_volumes_of(parts.volumes),
        parts.pods.metadata.labels == parts.names.labels,
        parts.pods.metadata.annotations == parts.names.annotations,
{
    reveal(made_of);
}

/// The one object of a manifest that runs pods.
proof fn lemma_workload(
    request: RenderManifestRequest<'_>,
    options: OptionsView,
    place: int,
) -> (parts: Parts)
    requires
        render::manifest_outcome(request, options) is Ok,
        0 <= place < render::manifest_outcome(request, options)->Ok_0.objects.len(),
        pods_of(
            render::manifest_outcome(request, options)->Ok_0.objects[place].object,
        ) is Some,
    ensures
        made_of(request, options, parts),
        render::manifest_outcome(request, options)->Ok_0.objects[place] == parts.workload,
        pods_of(parts.workload.object) == Some(parts.pods),
{
    let parts = lemma_made_of(request, options);
    let objects = render::manifest_outcome(request, options)->Ok_0.objects;
    let i = lemma_comes_from(objects, listed(request, options, parts), place);
    lemma_only_the_workload_has_pods(request, options, parts, i);
    lemma_lengths(request, options, parts);
    parts
}

/// A name that a template gives an object of one instance: what the template renders
/// to, cut to make room, with a mark of the instance behind it.
pub open spec fn names_object(
    name: Seq<char>,
    parts: Seq<TemplatePartView>,
    instance: InstanceRecord,
) -> bool {
    template::rendered_text(parts, instance.values@) matches Ok(base) && name
        == kubernetes_name::scoped_name(base, instance.id@)
}

/// A text that a template renders for an instance.
pub open spec fn renders_to(
    parts: Seq<TemplatePartView>,
    instance: InstanceRecord,
    rendered: Seq<char>,
) -> bool {
    template::rendered_text(parts, instance.values@) == Ok::<Seq<char>, RenderErrorView>(rendered)
}

/// A text that a template may leave out: it is rendered where it is there.
pub open spec fn renders_optional(
    parts: Option<Seq<TemplatePartView>>,
    instance: InstanceRecord,
    rendered: Option<Seq<char>>,
) -> bool {
    match (parts, rendered) {
        (Some(parts), Some(rendered)) => renders_to(parts, instance, rendered),
        (None, None) => true,
        _ => false,
    }
}

// ---------------------------------------------------------------------------
// Volumes
// ---------------------------------------------------------------------------
/// Every volume of the template stands in the container of the application, and
/// there alone, under its own name at its own path; the pods have it under that name
/// from the claim that the same entry of the template names.
pub proof fn law_every_volume_is_mounted_at_its_path(
    request: RenderManifestRequest<'_>,
    options: OptionsView,
    place: int,
    at: int,
)
    requires
        render::manifest_outcome(request, options) is Ok,
        0 <= place < render::manifest_outcome(request, options)->Ok_0.objects.len(),
        pods_of(
            render::manifest_outcome(request, options)->Ok_0.objects[place].object,
        ) is Some,
        0 <= at < request.template.volumes@.len(),
    ensures
        ({
            let objects = render::manifest_outcome(request, options)->Ok_0.objects;
            let pods = pods_of(objects[place].object)->Some_0.spec;
            let volume = request.template.volumes@[at];
            let app = pods.containers[0];
            &&& pods.containers.len() == 2
            &&& app.volume_mounts.len() == request.template.volumes@.len()
            &&& app.volume_mounts[at].name == volume.name@
            &&& renders_to(
                volume.mount_path@,
                *request.instance,
                app.volume_mounts[at].mount_path,
            )
            &&& pods.containers[1].volume_mounts.len() == 0
            &&& pods.volumes.len() == request.template.volumes@.len()
            &&& pods.volumes[at].name == volume.name@
            &&& names_object(
                pods.volumes[at].persistent_volume_claim.claim_name,
                volume.pvc_name@,
                *request.instance,
            )
        }),
{
    let parts = lemma_workload(request, options, place);
    lemma_pod_parts(request, options, parts);
    lemma_volume_parts(request, options, parts);
    lemma_mounts(
        request.template.workload.app_container,
        *request.instance,
        parts.volumes,
        request.template.volumes@[at],
        request.namespace@,
        at,
    );
}

proof fn lemma_mounts(
    container: template::ContainerTemplate,
    instance: InstanceRecord,
    volumes: Seq<RenderedVolumeView>,
    volume: VolumeTemplate,
    namespace: Seq<char>,
    at: int,
)
    requires
        0 <= at < volumes.len(),
        volume::volume_outcome(volume, instance.values@, instance.id@, namespace) == Ok::<
            RenderedVolumeView,
            RenderErrorView,
        >(volumes[at]),
    ensures
        pod::app_container_outcome(container, instance.values@, volumes) matches Ok(app) ==> {
            &&& app.volume_mounts.len() == volumes.len()
            &&& app.volume_mounts[at].name == volume.name@
            &&& renders_to(volume.mount_path@, instance, app.volume_mounts[at].mount_path)
        },
        pod::pod_volumes_of(volumes).len() == volumes.len(),
        pod::pod_volumes_of(volumes)[at].name == volume.name@,
        names_object(
            pod::pod_volumes_of(volumes)[at].persistent_volume_claim.claim_name,
            volume.pvc_name@,
            instance,
        ),
{
}

/// The mounts of a template's volumes are absolute, and no volume is without access
/// modes or names one twice.
pub proof fn law_a_volume_that_renders_is_sound(
    volume: VolumeTemplate,
    values: ValuesView,
    id: Seq<char>,
    namespace: Seq<char>,
)
    requires
        volume::volume_outcome(volume, values, id, namespace) is Ok,
    ensures
        ({
            let rendered = volume::volume_outcome(volume, values, id, namespace)->Ok_0;
            &&& rendered.mount_path.len() > 0 && rendered.mount_path[0] == '/'
            &&& volume.access_modes@.len() > 0
            &&& forall|i: int, j: int|
                #![trigger volume.access_modes@[i], volume.access_modes@[j]]
                0 <= i < j < volume.access_modes@.len() ==> volume.access_modes@[i]
                    != volume.access_modes@[j]
            &&& !text::blank(rendered.capacity)
        }),
{
}

/// Two objects are the volume and the claim that a template entry describes, and
/// each names the other.
pub open spec fn bound_by_template(
    first: KubernetesObjectView,
    second: KubernetesObjectView,
    volume: VolumeTemplate,
    request: RenderManifestRequest<'_>,
) -> bool {
    match (first, second) {
        (
            KubernetesObjectView::PersistentVolume(made),
            KubernetesObjectView::PersistentVolumeClaim(claim),
        ) => {
            &&& provides(made, volume, request)
            &&& claims(claim, volume, request)
            &&& made.spec.claim_ref.name == claim.metadata.name
            &&& made.spec.claim_ref.namespace == request.namespace@
            &&& claim.spec.volume_name == made.metadata.name
        },
        _ => false,
    }
}

proof fn lemma_pair_places(request: RenderManifestRequest<'_>, options: OptionsView, at: int) -> (places:
    (int, int))
    requires
        render::manifest_outcome(request, options) is Ok,
        0 <= at < request.template.volumes@.len(),
    ensures
        ({
            let objects = render::manifest_outcome(request, options)->Ok_0.objects;
            &&& 0 <= places.0 < objects.len()
            &&& 0 <= places.1 < objects.len()
            &&& bound_by_template(
                objects[places.0].object,
                objects[places.1].object,
                request.template.volumes@[at],
                request,
            )
        }),
{
    let parts = lemma_made_of(request, options);
    lemma_lengths(request, options, parts);
    lemma_volume_parts(request, options, parts);
    let objects = render::manifest_outcome(request, options)->Ok_0.objects;
    let all = listed(request, options, parts);
    let n = parts.volumes.len() as int;
    lemma_places(request, options, parts, at);
    lemma_places(request, options, parts, n + at);
    let i = lemma_stands(objects, all, at);
    let j = lemma_stands(objects, all, n + at);
    lemma_bound_pair(
        request,
        request.template.volumes@[at],
        parts.volumes[at],
        parts.names,
    );
    (i, j)
}

/// Each volume of the template becomes a volume and a claim that name each other,
/// with the size, the access modes and the storage class that the template says. The
/// claim stands in the namespace; the volume stands in none.
pub proof fn law_a_volume_and_its_claim_are_bound(
    request: RenderManifestRequest<'_>,
    options: OptionsView,
    at: int,
)
    requires
        render::manifest_outcome(request, options) is Ok,
        0 <= at < request.template.volumes@.len(),
    ensures
        ({
            let objects = render::manifest_outcome(request, options)->Ok_0.objects;
            exists|i: int, j: int|
                0 <= i < objects.len() && 0 <= j < objects.len() && #[trigger] bound_by_template(
                    objects[i].object,
                    objects[j].object,
                    request.template.volumes@[at],
                    request,
                )
        }),
{
    let (i, j) = lemma_pair_places(request, options, at);
}

proof fn lemma_bound_pair(
    request: RenderManifestRequest<'_>,
    volume: VolumeTemplate,
    rendered: RenderedVolumeView,
    names: NamesView,
)
    requires
        volume::volume_outcome(
            volume,
            request.instance.values@,
            request.instance.id@,
            request.namespace@,
        ) == Ok::<RenderedVolumeView, RenderErrorView>(rendered),
    ensures
        bound_by_template(
            render::volume_object(rendered, request.namespace@, names).object,
            render::claim_object(rendered, request.namespace@, names).object,
            volume,
            request,
        ),
{
    law_a_source_is_what_the_template_names(volume.source, *request.instance);
}

/// A volume is the one that a template entry describes.
pub open spec fn provides(
    made: PersistentVolumeView,
    volume: VolumeTemplate,
    request: RenderManifestRequest<'_>,
) -> bool {
    &&& names_object(made.metadata.name, volume.pv_name@, *request.instance)
    &&& made.metadata.namespace is None
    &&& renders_to(volume.capacity@, *request.instance, made.spec.capacity)
    &&& made.spec.access_modes == volume.access_modes@
    &&& made.spec.persistent_volume_reclaim_policy == volume.reclaim_policy
    &&& renders_optional(
        super::optional_view(volume.storage_class_name),
        *request.instance,
        made.spec.storage_class_name,
    )
    &&& stands_for(made.spec.source, volume.source, *request.instance)
}

/// A claim is the one that a template entry describes.
pub open spec fn claims(
    claim: PersistentVolumeClaimView,
    volume: VolumeTemplate,
    request: RenderManifestRequest<'_>,
) -> bool {
    &&& names_object(claim.metadata.name, volume.pvc_name@, *request.instance)
    &&& claim.metadata.namespace == Some(request.namespace@)
    &&& renders_to(volume.capacity@, *request.instance, claim.spec.resources.requests_storage)
    &&& claim.spec.access_modes == volume.access_modes@
    &&& renders_optional(
        super::optional_view(volume.storage_class_name),
        *request.instance,
        claim.spec.storage_class_name,
    )
}

/// A reference to a Secret is the one that a template names.
pub open spec fn refers_to_secret(
    rendered: Option<CsiSecretReferenceView>,
    reference: Option<Box<CsiSecretRefTemplate>>,
    instance: InstanceRecord,
) -> bool {
    match (rendered, reference) {
        (Some(rendered), Some(reference)) => renders_to(
            reference.name@,
            instance,
            rendered.name,
        ) && renders_to(reference.namespace@, instance, rendered.namespace),
        (None, None) => true,
        _ => false,
    }
}

/// Where a volume keeps its bytes is what the template names.
pub open spec fn stands_for(
    rendered: PersistentVolumeSourceView,
    source: PersistentVolumeSourceTemplate,
    instance: InstanceRecord,
) -> bool {
    match (rendered, source) {
        (
            PersistentVolumeSourceView::HostPath(rendered),
            PersistentVolumeSourceTemplate::HostPath { path, type_ },
        ) => renders_to(path@, instance, rendered.path) && renders_optional(
            super::optional_view(type_),
            instance,
            rendered.type_,
        ),
        (
            PersistentVolumeSourceView::Csi(rendered),
            PersistentVolumeSourceTemplate::Csi {
                driver,
                volume_handle,
                fs_type,
                read_only,
                volume_attributes,
                controller_publish_secret_ref,
                node_stage_secret_ref,
                node_publish_secret_ref,
                controller_expand_secret_ref,
                node_expand_secret_ref,
            },
        ) => {
            &&& renders_to(driver@, instance, rendered.driver)
            &&& renders_to(volume_handle@, instance, rendered.volume_handle)
            &&& renders_optional(super::optional_view(fs_type), instance, rendered.fs_type)
            &&& rendered.read_only == read_only
            &&& forall|i: int|
                #![trigger volume_attributes@[i]]
                0 <= i < volume_attributes@.len() && (forall|j: int|
                    i < j < volume_attributes@.len() ==> (#[trigger] volume_attributes@[j]).0
                        != volume_attributes@[i].0) ==> string_map::entry_of(
                    rendered.volume_attributes,
                    volume_attributes@[i].0,
                ) is Some && renders_to(
                    volume_attributes@[i].1,
                    instance,
                    string_map::entry_of(
                        rendered.volume_attributes,
                        volume_attributes@[i].0,
                    )->Some_0,
                )
            &&& refers_to_secret(
                rendered.controller_publish_secret_ref,
                controller_publish_secret_ref,
                instance,
            )
            &&& refers_to_secret(
                rendered.node_stage_secret_ref,
                node_stage_secret_ref,
                instance,
            )
            &&& refers_to_secret(
                rendered.node_publish_secret_ref,
                node_publish_secret_ref,
                instance,
            )
            &&& refers_to_secret(
                rendered.controller_expand_secret_ref,
                controller_expand_secret_ref,
                instance,
            )
            &&& refers_to_secret(
                rendered.node_expand_secret_ref,
                node_expand_secret_ref,
                instance,
            )
        },
        _ => false,
    }
}

proof fn lemma_attributes(
    attributes: Seq<(Seq<char>, Seq<TemplatePartView>)>,
    count: nat,
    instance: InstanceRecord,
    at: int,
)
    requires
        0 <= at < count <= attributes.len(),
        forall|j: int| at < j < count ==> (#[trigger] attributes[j]).0 != attributes[at].0,
    ensures
        volume::attributes_outcome(attributes, count, instance.values@) matches Ok(rendered)
            ==> string_map::entry_of(rendered, attributes[at].0) is Some && renders_to(
            attributes[at].1,
            instance,
            string_map::entry_of(rendered, attributes[at].0)->Some_0,
        ),
    decreases count,
{
    if volume::attributes_outcome(attributes, count, instance.values@) is Ok {
        let before = volume::attributes_outcome(
            attributes,
            (count - 1) as nat,
            instance.values@,
        )->Ok_0;
        let value = checks::nonempty_text(
            "volume.source.csi.volume_attributes"@,
            attributes[count - 1].1,
            instance.values@,
        )->Ok_0;
        string_map::lemma_entry_of_with_entry(
            before,
            attributes[count - 1].0,
            value,
            attributes[at].0,
        );
        if at < count - 1 {
            assert(attributes[count - 1].0 != attributes[at].0);
            lemma_attributes(attributes, (count - 1) as nat, instance, at);
        }
    }
}

/// Where a volume keeps its bytes, and by which Secrets it is reached, is what the
/// template names at the same place.
pub proof fn law_a_source_is_what_the_template_names(
    source: PersistentVolumeSourceTemplate,
    instance: InstanceRecord,
)
    ensures
        volume::source_outcome(source, instance.values@) matches Ok(rendered) ==> stands_for(
            rendered,
            source,
            instance,
        ),
{
    if let Ok(rendered) = volume::source_outcome(source, instance.values@) {
        if let PersistentVolumeSourceTemplate::Csi { volume_attributes, .. } = source {
            assert forall|i: int|
                #![trigger volume_attributes@[i]]
                0 <= i < volume_attributes@.len() && (forall|j: int|
                    i < j < volume_attributes@.len() ==> (#[trigger] volume_attributes@[j]).0
                        != volume_attributes@[i].0) implies string_map::entry_of(
                rendered->Csi_0.volume_attributes,
                volume_attributes@[i].0,
            ) is Some && renders_to(
                volume_attributes@[i].1,
                instance,
                string_map::entry_of(
                    rendered->Csi_0.volume_attributes,
                    volume_attributes@[i].0,
                )->Some_0,
            ) by {
                lemma_attributes(volume_attributes@, volume_attributes@.len(), instance, i);
            }
        }
    }
}

// ---------------------------------------------------------------------------
// Containers
// ---------------------------------------------------------------------------
proof fn lemma_ports(ports: Seq<template::ContainerPortTemplate>, count: nat)
    requires
        count <= ports.len(),
    ensures
        pod::ports_outcome(ports, count) matches Ok(rendered) ==> rendered.len() == count
            && forall|i: int|
            0 <= i < count ==> (#[trigger] rendered[i]).container_port == ports[i].container_port
                && rendered[i].name == super::optional_view(ports[i].name)
                && rendered[i].container_port != 0,
    decreases count,
{
    if count > 0 {
        lemma_ports(ports, (count - 1) as nat);
    }
}

proof fn lemma_env(env: Seq<template::EnvVarTemplate>, count: nat, instance: InstanceRecord)
    requires
        count <= env.len(),
    ensures
        pod::env_outcome(env, count, instance.values@) matches Ok(rendered) ==> rendered.len()
            == count && forall|i: int|
            0 <= i < count ==> (#[trigger] rendered[i]).name == env[i].name@ && renders_to(
                env[i].value@,
                instance,
                rendered[i].value,
            ) && rendered[i].value_from is None,
    decreases count,
{
    if count > 0 {
        lemma_env(env, (count - 1) as nat, instance);
    }
}

/// The container of the application is the one that the template describes: its
/// name, its image, each port under its name and each variable with its value, all in
/// the order of the template.
pub open spec fn runs_application(
    app: ContainerView,
    container: template::ContainerTemplate,
    instance: InstanceRecord,
) -> bool {
    &&& app.name == container.name@
    &&& renders_to(container.image@, instance, app.image)
    &&& app.ports.len() == container.ports@.len()
    &&& forall|i: int|
        0 <= i < app.ports.len() ==> (#[trigger] app.ports[i]).container_port
            == container.ports@[i].container_port && app.ports[i].name == super::optional_view(
            container.ports@[i].name,
        )
    &&& app.env.len() == container.env@.len()
    &&& forall|i: int|
        0 <= i < app.env.len() ==> (#[trigger] app.env[i]).name == container.env@[i].name@
            && renders_to(container.env@[i].value@, instance, app.env[i].value)
            && app.env[i].value_from is None
    &&& app.readiness_probe is None
}

/// The first container of the pods runs the application as the template describes
/// it.
pub proof fn law_the_application_runs_as_described(
    request: RenderManifestRequest<'_>,
    options: OptionsView,
    place: int,
)
    requires
        render::manifest_outcome(request, options) is Ok,
        0 <= place < render::manifest_outcome(request, options)->Ok_0.objects.len(),
        pods_of(
            render::manifest_outcome(request, options)->Ok_0.objects[place].object,
        ) is Some,
    ensures
        runs_application(
            pods_of(
                render::manifest_outcome(request, options)->Ok_0.objects[place].object,
            )->Some_0.spec.containers[0],
            request.template.workload.app_container,
            *request.instance,
        ),
{
    let parts = lemma_workload(request, options, place);
    lemma_pod_parts(request, options, parts);
    lemma_application(
        request.template.workload.app_container,
        *request.instance,
        parts.volumes,
    );
}

proof fn lemma_application(
    container: template::ContainerTemplate,
    instance: InstanceRecord,
    volumes: Seq<RenderedVolumeView>,
)
    ensures
        pod::app_container_outcome(container, instance.values@, volumes) matches Ok(app)
            ==> runs_application(app, container, instance),
{
    lemma_ports(container.ports@, container.ports@.len());
    lemma_env(container.env@, container.env@.len(), instance);
}

/// A variable is set to a text.
pub open spec fn sets(env: Seq<EnvVarView>, name: Seq<char>, value: Seq<char>) -> bool {
    exists|i: int|
        0 <= i < env.len() && (#[trigger] env[i]).name == name && env[i].value == value
            && env[i].value_from is None
}

/// A variable is set from elsewhere.
pub open spec fn draws(env: Seq<EnvVarView>, name: Seq<char>, source: EnvVarSourceView) -> bool {
    exists|i: int|
        0 <= i < env.len() && (#[trigger] env[i]).name == name && env[i].value_from == Some(source)
}

/// What a sidecar is told: which instance it is beside, in which revision; where it
/// listens, where it is asked whether it is ready, where the application listens;
/// where the control plane is; and when the instance is to sleep.
pub open spec fn told(
    env: Seq<EnvVarView>,
    listen_port: u16,
    readiness_port: u16,
    app_port: u16,
    request: RenderManifestRequest<'_>,
    options: OptionsView,
) -> bool {
    &&& draws(
        env,
        "SLEEPYPODS_POD_UID"@,
        EnvVarSourceView::FieldRef { field_path: "metadata.uid"@ },
    )
    &&& sets(env, "SLEEPYPODS_LISTEN_PORT"@, text::decimal(listen_port as nat))
    &&& sets(
        env,
        "SLEEPYPODS_SIDECAR_LISTEN_ADDR"@,
        "0.0.0.0:"@ + text::decimal(listen_port as nat),
    )
    &&& sets(
        env,
        "SLEEPYPODS_SIDECAR_READINESS_LISTEN_ADDR"@,
        "0.0.0.0:"@ + text::decimal(readiness_port as nat),
    )
    &&& sets(env, "SLEEPYPODS_APP_PORT"@, text::decimal(app_port as nat))
    &&& sets(env, "SLEEPYPODS_INSTANCE_ID"@, request.instance.id@)
    &&& sets(
        env,
        "SLEEPYPODS_INSTANCE_GENERATION"@,
        text::decimal(request.instance.generation@ as nat),
    )
    &&& sets(
        env,
        "SLEEPYPODS_CONTROL_PLANE_ENDPOINT"@,
        match options.endpoint {
            Some(endpoint) => endpoint,
            None => "http://sleepypods-control-plane."@ + request.namespace@
                + ".svc.cluster.local:50051"@,
        },
    )
    &&& sets(
        env,
        "SLEEPYPODS_IDLE_TIMEOUT_MS"@,
        text::decimal(request.sleep_policy.idle_timeout_ms as nat),
    )
    &&& sets(
        env,
        "SLEEPYPODS_IDLE_RETRY_BACKOFF_MS"@,
        text::decimal(request.sleep_policy.idle_retry_backoff_ms as nat),
    )
    &&& sets(
        env,
        "SLEEPYPODS_DRAIN_GRACE_TIMEOUT_MS"@,
        text::decimal(request.sleep_policy.drain_grace_timeout_ms as nat),
    )
    &&& options.ca matches Some(ca) ==> sets(env, "SLEEPYPODS_CONTROL_PLANE_TLS_CA_PEM"@, ca)
    &&& request.template.sidecar.mode matches Some(mode) ==> sets(
        env,
        "SLEEPYPODS_SIDECAR_MODE"@,
        mode@,
    )
    &&& options.token is Some ==> draws(
        env,
        "SLEEPYPODS_CONTROL_PLANE_SIDECAR_TOKEN"@,
        EnvVarSourceView::SecretKeyRef(
            SecretKeyRefView {
                name: kubernetes_name::scoped_name(
                    "sleepypods-sidecar-token"@,
                    request.instance.id@,
                ),
                key: "token"@,
            },
        ),
    )
    &&& env.len() == 11 + (if options.ca is Some {
        1int
    } else {
        0
    }) + (if request.template.sidecar.mode is Some {
        1int
    } else {
        0
    }) + (if options.token is Some {
        1int
    } else {
        0
    })
}

/// The second container of the pods is the sidecar: it listens on the port that the
/// template gives it, is asked whether it is ready on a port of its own, and is told
/// what it needs and nothing else.
pub proof fn law_the_sidecar_is_told_what_it_needs(
    request: RenderManifestRequest<'_>,
    options: OptionsView,
    place: int,
)
    requires
        render::manifest_outcome(request, options) is Ok,
        0 <= place < render::manifest_outcome(request, options)->Ok_0.objects.len(),
        pods_of(
            render::manifest_outcome(request, options)->Ok_0.objects[place].object,
        ) is Some,
    ensures
        serves_as_sidecar(
            pods_of(
                render::manifest_outcome(request, options)->Ok_0.objects[place].object,
            )->Some_0.spec.containers[1],
            request,
            options,
        ),
{
    let parts = lemma_workload(request, options, place);
    lemma_pod_parts(request, options, parts);
    lemma_config(request, options, parts);
    readiness::law_readiness_port_is_unused(*request.template, request.instance.values@);
    lemma_sidecar(request, options, parts.config);
}

/// A container is the sidecar that a template describes.
pub open spec fn serves_as_sidecar(
    sidecar: ContainerView,
    request: RenderManifestRequest<'_>,
    options: OptionsView,
) -> bool {
    let listen_port = request.template.sidecar.listen_port;
    &&& sidecar.name == request.template.sidecar.name@
    &&& renders_to(request.template.sidecar.image@, *request.instance, sidecar.image)
    &&& sidecar.ports.len() == 2
    &&& sidecar.ports[0].container_port == listen_port
    &&& sidecar.ports[1].container_port != listen_port
    &&& sidecar.ports[1].name is None
    &&& forall|i: int|
        0 <= i < request.template.workload.app_container.ports@.len()
            ==> sidecar.ports[1].container_port != (
        #[trigger] request.template.workload.app_container.ports@[i]).container_port
    &&& sidecar.readiness_probe is Some
    &&& sidecar.readiness_probe->Some_0.port == sidecar.ports[1].container_port
    &&& sidecar.readiness_probe->Some_0.path == "/ready"@
    &&& sidecar.readiness_probe->Some_0.period_seconds == 1
    &&& sidecar.readiness_probe->Some_0.timeout_seconds == 1
    &&& sidecar.readiness_probe->Some_0.failure_threshold == 1
    &&& request.template.service is Some
    &&& request.template.service->Some_0.ports@.len() == 1
    &&& told(
        sidecar.env,
        listen_port,
        sidecar.ports[1].container_port,
        request.template.service->Some_0.ports@[0].target_port,
        request,
        options,
    )
    &&& sidecar.ports[0].name == Some("sleepypods"@) || sidecar.ports[0].name is None && exists|
        i: int,
    |
        0 <= i < request.template.workload.app_container.ports@.len() && super::optional_view(
            (#[trigger] request.template.workload.app_container.ports@[i]).name,
        ) == Some("sleepypods"@)
}

proof fn lemma_config(request: RenderManifestRequest<'_>, options: OptionsView, parts: Parts)
    requires
        made_of(request, options, parts),
    ensures
        pod::sidecar_config_outcome(*request.template, request.instance.values@) == Ok::<
            SidecarRenderConfigView,
            RenderErrorView,
        >(parts.config),
{
    reveal(made_of);
}

proof fn lemma_sidecar_env(
    request: RenderManifestRequest<'_>,
    options: OptionsView,
    config: SidecarRenderConfigView,
)
    requires
        config.mode == super::optional_view(request.template.sidecar.mode),
    ensures
        told(
            pod::sidecar_env(
                *request.instance,
                config,
                request.namespace@,
                request.sleep_policy,
                render::secret_name(options.token, request.instance.id@),
                options,
            ),
            config.listen_port,
            config.readiness_port,
            config.app_port,
            request,
            options,
        ),
{
    let base = pod::sidecar_base_env(
        *request.instance,
        config,
        request.namespace@,
        request.sleep_policy,
        options.endpoint,
    );
    let env = pod::sidecar_env(
        *request.instance,
        config,
        request.namespace@,
        request.sleep_policy,
        render::secret_name(options.token, request.instance.id@),
        options,
    );
    assert(base.len() == 11);
    assert forall|i: int| 0 <= i < 11 implies env[i] == #[trigger] base[i] by {}
    assert(env[0].name == "SLEEPYPODS_POD_UID"@);
    assert(env[1].name == "SLEEPYPODS_LISTEN_PORT"@);
    assert(env[2].name == "SLEEPYPODS_SIDECAR_LISTEN_ADDR"@);
    assert(env[3].name == "SLEEPYPODS_SIDECAR_READINESS_LISTEN_ADDR"@);
    assert(env[4].name == "SLEEPYPODS_APP_PORT"@);
    assert(env[5].name == "SLEEPYPODS_INSTANCE_ID"@);
    assert(env[6].name == "SLEEPYPODS_INSTANCE_GENERATION"@);
    assert(env[7].name == "SLEEPYPODS_CONTROL_PLANE_ENDPOINT"@);
    assert(env[8].name == "SLEEPYPODS_IDLE_TIMEOUT_MS"@);
    assert(env[9].name == "SLEEPYPODS_IDLE_RETRY_BACKOFF_MS"@);
    assert(env[10].name == "SLEEPYPODS_DRAIN_GRACE_TIMEOUT_MS"@);
    if options.ca is Some {
        assert(env[11].name == "SLEEPYPODS_CONTROL_PLANE_TLS_CA_PEM"@);
    }
    if config.mode is Some {
        let at: int = if options.ca is Some {
            12
        } else {
            11
        };
        assert(env[at].name == "SLEEPYPODS_SIDECAR_MODE"@);
    }
    if options.token is Some {
        assert(env[env.len() - 1].name == "SLEEPYPODS_CONTROL_PLANE_SIDECAR_TOKEN"@);
    }
}

proof fn lemma_sidecar(
    request: RenderManifestRequest<'_>,
    options: OptionsView,
    config: SidecarRenderConfigView,
)
    requires
        pod::sidecar_config_outcome(*request.template, request.instance.values@) == Ok::<
            SidecarRenderConfigView,
            RenderErrorView,
        >(config),
        config.readiness_port != request.template.sidecar.listen_port,
        forall|i: int|
            0 <= i < request.template.workload.app_container.ports@.len() ==> config.readiness_port
                != (#[trigger] request.template.workload.app_container.ports@[i]).container_port,
    ensures
        pod::sidecar_container_outcome(
            request.template.sidecar,
            *request.instance,
            config,
            request.namespace@,
            request.sleep_policy,
            render::secret_name(options.token, request.instance.id@),
            options,
        ) matches Ok(sidecar) ==> serves_as_sidecar(sidecar, request, options),
{
    lemma_sidecar_env(request, options, config);
}

// ---------------------------------------------------------------------------
// The Service, the Secret and the workload
// ---------------------------------------------------------------------------
proof fn lemma_service_ports(
    ports: Seq<template::ServicePortTemplate>,
    count: nat,
    listen_port: u16,
)
    requires
        count <= ports.len(),
    ensures
        pod::service_ports_outcome(ports, count, listen_port) matches Ok(rendered)
            ==> rendered.len() == count && forall|i: int|
            0 <= i < count ==> (#[trigger] rendered[i]).port == ports[i].port
                && rendered[i].target_port == listen_port && rendered[i].name
                == super::optional_view(ports[i].name) && rendered[i].port != 0,
    decreases count,
{
    if count > 0 {
        lemma_service_ports(ports, (count - 1) as nat, listen_port);
    }
}

/// A Service leads to the sidecar of an instance: every port that the template offers
/// is offered, and leads to the port on which the sidecar listens.
pub open spec fn leads_to_sidecar(service: ServiceView, request: RenderManifestRequest<'_>) -> bool {
    &&& request.template.service is Some
    &&& names_object(
        service.metadata.name,
        request.template.service->Some_0.name@,
        *request.instance,
    )
    &&& service.spec.ports.len() == request.template.service->Some_0.ports@.len()
    &&& forall|i: int|
        0 <= i < service.spec.ports.len() ==> (#[trigger] service.spec.ports[i]).port
            == request.template.service->Some_0.ports@[i].port && service.spec.ports[i].target_port
            == request.template.sidecar.listen_port && service.spec.ports[i].name
            == super::optional_view(request.template.service->Some_0.ports@[i].name)
    &&& (request.template.sidecar.mode is Some && request.template.sidecar.mode->Some_0@ == "tcp"@
        ==> string_map::entry_of(
        service.metadata.annotations,
        "sleepypods.io/backend-scheme"@,
    ) == Some("tcp"@))
}

proof fn lemma_service(request: RenderManifestRequest<'_>, options: OptionsView, parts: Parts)
    requires
        made_of(request, options, parts),
    ensures
        parts.services.len() == 1,
        parts.services[0].object is Service,
        leads_to_sidecar(parts.services[0].object->Service_0, request),
        parts.services[0].object->Service_0.spec.selector == parts.names.selector,
        selector_of(parts.workload.object) == Some(parts.names.selector),
        parts.services[0].object->Service_0.metadata.namespace == Some(request.namespace@),
        parts.services[0].object->Service_0.metadata.labels == parts.names.labels,
{
    reveal(made_of);
    let service = request.template.service->Some_0;
    lemma_service_ports(service.ports@, service.ports@.len(), parts.config.listen_port);
    if request.template.sidecar.mode is Some && request.template.sidecar.mode->Some_0@ == "tcp"@ {
        assert(super::optional_view(request.template.sidecar.mode) == Some("tcp"@));
        string_map::lemma_entry_of_with_entry(
            parts.names.annotations,
            "sleepypods.io/backend-scheme"@,
            "tcp"@,
            "sleepypods.io/backend-scheme"@,
        );
    }
}

/// There is one Service: it leads to the sidecar, and it and the workload find their
/// pods by the same labels, which the pods have.
pub proof fn law_the_service_leads_to_the_pods(
    request: RenderManifestRequest<'_>,
    options: OptionsView,
    place: int,
)
    requires
        render::manifest_outcome(request, options) is Ok,
        0 <= place < render::manifest_outcome(request, options)->Ok_0.objects.len(),
        pods_of(
            render::manifest_outcome(request, options)->Ok_0.objects[place].object,
        ) is Some,
    ensures
        ({
            let objects = render::manifest_outcome(request, options)->Ok_0.objects;
            let pods = pods_of(objects[place].object)->Some_0;
            exists|i: int|
                #![trigger objects[i]]
                0 <= i < objects.len() && objects[i].object is Service && leads_to_sidecar(
                    objects[i].object->Service_0,
                    request,
                ) && Some(objects[i].object->Service_0.spec.selector) == selector_of(
                    objects[place].object,
                ) && forall|key: Seq<char>|
                    #[trigger] string_map::entry_of(
                        objects[i].object->Service_0.spec.selector,
                        key,
                    ) is Some ==> string_map::entry_of(pods.metadata.labels, key)
                        == string_map::entry_of(objects[i].object->Service_0.spec.selector, key)
        }),
{
    let at = lemma_service_place(request, options, place);
}

proof fn lemma_service_place(
    request: RenderManifestRequest<'_>,
    options: OptionsView,
    place: int,
) -> (at: int)
    requires
        render::manifest_outcome(request, options) is Ok,
        0 <= place < render::manifest_outcome(request, options)->Ok_0.objects.len(),
        pods_of(
            render::manifest_outcome(request, options)->Ok_0.objects[place].object,
        ) is Some,
    ensures
        ({
            let objects = render::manifest_outcome(request, options)->Ok_0.objects;
            let pods = pods_of(objects[place].object)->Some_0;
            &&& 0 <= at < objects.len()
            &&& objects[at].object is Service
            &&& leads_to_sidecar(objects[at].object->Service_0, request)
            &&& Some(objects[at].object->Service_0.spec.selector) == selector_of(
                objects[place].object,
            )
            &&& forall|key: Seq<char>|
                #[trigger] string_map::entry_of(
                    objects[at].object->Service_0.spec.selector,
                    key,
                ) is Some ==> string_map::entry_of(pods.metadata.labels, key)
                    == string_map::entry_of(objects[at].object->Service_0.spec.selector, key)
        }),
{
    let objects = render::manifest_outcome(request, options)->Ok_0.objects;
    let parts = lemma_workload(request, options, place);
    lemma_pod_parts(request, options, parts);
    lemma_service(request, options, parts);
    lemma_names(request, options, parts);
    super::laws::law_selector_selects_primary(*request.instance, parts.names.workload);
    let at = lemma_standing_service(request, options, parts);
    at
}

proof fn lemma_standing_service(
    request: RenderManifestRequest<'_>,
    options: OptionsView,
    parts: Parts,
) -> (at: int)
    requires
        render::manifest_outcome(request, options) is Ok,
        made_of(request, options, parts),
    ensures
        ({
            let objects = render::manifest_outcome(request, options)->Ok_0.objects;
            &&& 0 <= at < objects.len()
            &&& objects[at] == parts.services[0]
        }),
{
    let objects = render::manifest_outcome(request, options)->Ok_0.objects;
    let same = lemma_made_of(request, options);
    lemma_same_parts(request, options, parts, same);
    lemma_lengths(request, options, parts);
    lemma_service(request, options, parts);
    let n = parts.volumes.len() as int;
    lemma_places(request, options, parts, 2 * n);
    lemma_stands(objects, listed(request, options, parts), 2 * n)
}

proof fn lemma_same_parts(
    request: RenderManifestRequest<'_>,
    options: OptionsView,
    left: Parts,
    right: Parts,
)
    requires
        made_of(request, options, left),
        made_of(request, options, right),
    ensures
        left == right,
{
    reveal(made_of);
}

proof fn lemma_names(request: RenderManifestRequest<'_>, options: OptionsView, parts: Parts)
    requires
        made_of(request, options, parts),
    ensures
        labels::selector_labels_outcome(request.instance.id@, parts.names.workload) == Ok::<
            TextMap,
            RenderErrorView,
        >(parts.names.selector),
        labels::metadata_labels_outcome(*request.instance, parts.names.workload) == Ok::<
            TextMap,
            RenderErrorView,
        >(parts.names.labels),
        parts.names.annotations == labels::annotations_of(request.template_generation),
        names_object(
            parts.names.workload,
            request.template.workload.name@,
            *request.instance,
        ),
{
    reveal(made_of);
}

/// The token of the sidecar stands in a Secret, under the name and the key by which
/// the sidecar draws it, and nowhere else among the structured objects. Without a
/// token there is no Secret.
pub proof fn law_the_token_stands_in_its_secret(
    request: RenderManifestRequest<'_>,
    options: OptionsView,
)
    requires
        render::manifest_outcome(request, options) is Ok,
    ensures
        ({
            let objects = render::manifest_outcome(request, options)->Ok_0.objects;
            match options.token {
                Some(token) => exists|i: int|
                    #![trigger objects[i]]
                    0 <= i < objects.len() && objects[i].object is Secret && keeps_token(
                        objects[i].object->Secret_0,
                        token,
                        request,
                    ),
                None => forall|i: int|
                    0 <= i < objects.len() ==> !((#[trigger] objects[i]).object is Secret),
            }
        }),
{
    let parts = lemma_made_of(request, options);
    lemma_token_stands(
        request,
        options,
        parts,
        render::manifest_outcome(request, options)->Ok_0.objects,
    );
}

proof fn lemma_token_stands(
    request: RenderManifestRequest<'_>,
    options: OptionsView,
    parts: Parts,
    objects: Seq<RenderedManifestObjectView>,
)
    requires
        made_of(request, options, parts),
        same_members(objects, listed(request, options, parts)),
    ensures
        match options.token {
            Some(token) => exists|i: int|
                #![trigger objects[i]]
                0 <= i < objects.len() && objects[i].object is Secret && keeps_token(
                    objects[i].object->Secret_0,
                    token,
                    request,
                ),
            None => forall|i: int|
                0 <= i < objects.len() ==> !((#[trigger] objects[i]).object is Secret),
        },
{
    lemma_lengths(request, options, parts);
    lemma_service(request, options, parts);
    let all = listed(request, options, parts);
    let n = parts.volumes.len() as int;
    match options.token {
        Some(token) => {
            lemma_secret(request, options, parts.names);
            lemma_places(request, options, parts, 2 * n + 1);
            let i = lemma_stands(objects, all, 2 * n + 1);
            assert(objects[i].object is Secret);
        },
        None => {
            assert forall|i: int| 0 <= i < objects.len() implies !((#[trigger] objects[i]).object
                is Secret) by {
                let j = lemma_comes_from(objects, all, i);
                lemma_places(request, options, parts, j);
            }
        },
    }
}

/// A Secret keeps a token where the sidecar looks for it.
pub open spec fn keeps_token(
    secret: SecretView,
    token: Seq<char>,
    request: RenderManifestRequest<'_>,
) -> bool {
    &&& secret.metadata.name == kubernetes_name::scoped_name(
        "sleepypods-sidecar-token"@,
        request.instance.id@,
    )
    &&& secret.metadata.namespace == Some(request.namespace@)
    &&& secret.type_ == "Opaque"@
    &&& string_map::entry_of(secret.string_data, "token"@) == Some(token)
    &&& secret.string_data.len() == 1
}

proof fn lemma_secret(request: RenderManifestRequest<'_>, options: OptionsView, names: NamesView)
    requires
        options.token is Some,
    ensures
        ({
            let made = render::secret_objects(
                options.token,
                request.instance.id@,
                request.namespace@,
                names,
            );
            &&& made.len() == 1
            &&& made[0].object is Secret
            &&& keeps_token(made[0].object->Secret_0, options.token->Some_0, request)
        }),
{
    string_map::lemma_entry_of_with_entry(
        Seq::<(Seq<char>, Seq<char>)>::empty(),
        "token"@,
        options.token->Some_0,
        "token"@,
    );
}

/// A manifest holds one object for each thing that the template asks for: a volume
/// and a claim for each volume, the Service, the Secret where there is a token, the
/// workload, and each raw manifest; and it says for which revisions it was made.
pub proof fn law_nothing_is_left_out_of_a_manifest(
    request: RenderManifestRequest<'_>,
    options: OptionsView,
)
    requires
        render::manifest_outcome(request, options) is Ok,
    ensures
        ({
            let manifest = render::manifest_outcome(request, options)->Ok_0;
            &&& manifest.objects.len() == 2 * request.template.volumes@.len() + 1 + (
            if options.token is Some {
                1int
            } else {
                0
            }) + 1 + request.template.raw_objects@.len()
            &&& manifest.instance_generation == request.instance.generation@
            &&& manifest.template_generation == super::optional_view(request.template_generation)
        }),
{
    let parts = lemma_made_of(request, options);
    lemma_count(request, options, parts);
    reveal(same_members);
}

proof fn lemma_count(request: RenderManifestRequest<'_>, options: OptionsView, parts: Parts)
    requires
        made_of(request, options, parts),
    ensures
        listed(request, options, parts).len() == 2 * request.template.volumes@.len() + 1 + (
        if options.token is Some {
            1int
        } else {
            0
        }) + 1 + request.template.raw_objects@.len(),
{
    lemma_lengths(request, options, parts);
    lemma_service(request, options, parts);
    lemma_volume_parts(request, options, parts);
}

/// Each raw manifest of the template is rendered, and stands in the manifest.
pub proof fn law_every_raw_manifest_is_rendered(
    request: RenderManifestRequest<'_>,
    options: OptionsView,
    at: int,
)
    requires
        render::manifest_outcome(request, options) is Ok,
        0 <= at < request.template.raw_objects@.len(),
    ensures
        ({
            let objects = render::manifest_outcome(request, options)->Ok_0.objects;
            exists|i: int, required: TextMap, annotations: TextMap|
                0 <= i < objects.len() && #[trigger] raw::raw_outcome(
                    request.template.raw_objects@[at].manifest@,
                    request.instance.values@,
                    request.namespace@,
                    required,
                    annotations,
                ) == Ok::<RenderedManifestObjectView, RenderErrorView>(#[trigger] objects[i])
        }),
{
    let parts = lemma_made_of(request, options);
    lemma_raw_stands(
        request,
        options,
        parts,
        render::manifest_outcome(request, options)->Ok_0.objects,
        at,
    );
}

proof fn lemma_raw_stands(
    request: RenderManifestRequest<'_>,
    options: OptionsView,
    parts: Parts,
    objects: Seq<RenderedManifestObjectView>,
    at: int,
)
    requires
        made_of(request, options, parts),
        same_members(objects, listed(request, options, parts)),
        0 <= at < request.template.raw_objects@.len(),
    ensures
        exists|i: int, required: TextMap, annotations: TextMap|
            0 <= i < objects.len() && #[trigger] raw::raw_outcome(
                request.template.raw_objects@[at].manifest@,
                request.instance.values@,
                request.namespace@,
                required,
                annotations,
            ) == Ok::<RenderedManifestObjectView, RenderErrorView>(#[trigger] objects[i]),
{
    lemma_lengths(request, options, parts);
    lemma_raw_parts(request, options, parts, at);
    let before = 2 * parts.volumes.len() + parts.services.len() + secrets(options) + 1;
    lemma_places(request, options, parts, before + at);
    let i = lemma_stands(objects, listed(request, options, parts), before + at);
    assert(raw::raw_outcome(
        request.template.raw_objects@[at].manifest@,
        request.instance.values@,
        request.namespace@,
        render::auxiliary_labels(parts.names.labels),
        parts.names.annotations,
    ) == Ok::<RenderedManifestObjectView, RenderErrorView>(objects[i]));
}

proof fn lemma_raw_parts(
    request: RenderManifestRequest<'_>,
    options: OptionsView,
    parts: Parts,
    at: int,
)
    requires
        made_of(request, options, parts),
        0 <= at < request.template.raw_objects@.len(),
    ensures
        raw::raw_outcome(
            request.template.raw_objects@[at].manifest@,
            request.instance.values@,
            request.namespace@,
            render::auxiliary_labels(parts.names.labels),
            parts.names.annotations,
        ) == Ok::<RenderedManifestObjectView, RenderErrorView>(parts.raws[at]),
{
    reveal(made_of);
    lemma_raws_are_raw(
        request.template.raw_objects@,
        request.template.raw_objects@.len(),
        request.instance.values@,
        request.namespace@,
        render::auxiliary_labels(parts.names.labels),
        parts.names.annotations,
    );
}

/// The workload is of the kind that the template names, bears its name, runs once,
/// and, where it is a StatefulSet, is reached by the Service of the template.
pub proof fn law_the_workload_is_of_its_kind(
    request: RenderManifestRequest<'_>,
    options: OptionsView,
    place: int,
)
    requires
        render::manifest_outcome(request, options) is Ok,
        0 <= place < render::manifest_outcome(request, options)->Ok_0.objects.len(),
        pods_of(
            render::manifest_outcome(request, options)->Ok_0.objects[place].object,
        ) is Some,
    ensures
        ({
            let object = render::manifest_outcome(request, options)->Ok_0.objects[place].object;
            match object {
                KubernetesObjectView::Deployment(made) => {
                    &&& request.template.workload.kind == WorkloadKind::Deployment
                    &&& made.spec.replicas == 1
                    &&& names_object(
                        made.metadata.name,
                        request.template.workload.name@,
                        *request.instance,
                    )
                    &&& made.metadata.namespace == Some(request.namespace@)
                },
                KubernetesObjectView::StatefulSet(made) => {
                    &&& request.template.workload.kind == WorkloadKind::StatefulSet
                    &&& made.spec.replicas == 1
                    &&& names_object(
                        made.metadata.name,
                        request.template.workload.name@,
                        *request.instance,
                    )
                    &&& made.metadata.namespace == Some(request.namespace@)
                    &&& request.template.service is Some
                    &&& names_object(
                        made.spec.service_name,
                        request.template.service->Some_0.name@,
                        *request.instance,
                    )
                },
                _ => false,
            }
        }),
{
    let parts = lemma_workload(request, options, place);
    lemma_names(request, options, parts);
    lemma_kind(request, options, parts);
    super::laws::law_one_replica(request, options);
}

proof fn lemma_kind(request: RenderManifestRequest<'_>, options: OptionsView, parts: Parts)
    requires
        made_of(request, options, parts),
    ensures
        match parts.workload.object {
            KubernetesObjectView::Deployment(made) => {
                &&& request.template.workload.kind == WorkloadKind::Deployment
                &&& made.spec.replicas == template::replicas_of(request.template.workload)
                &&& made.metadata.name == parts.names.workload
                &&& made.metadata.namespace == Some(request.namespace@)
            },
            KubernetesObjectView::StatefulSet(made) => {
                &&& request.template.workload.kind == WorkloadKind::StatefulSet
                &&& made.spec.replicas == template::replicas_of(request.template.workload)
                &&& made.metadata.name == parts.names.workload
                &&& made.metadata.namespace == Some(request.namespace@)
                &&& request.template.service is Some
                &&& names_object(
                    made.spec.service_name,
                    request.template.service->Some_0.name@,
                    *request.instance,
                )
            },
            _ => false,
        },
{
    reveal(made_of);
}

// ---------------------------------------------------------------------------
// Labels
// ---------------------------------------------------------------------------
/// The labels of an instance's objects say which instance they belong to, in which
/// revision, of which class in which version, and under which workload.
pub proof fn law_labels_tell_the_instance(instance: InstanceRecord, workload_name: Seq<char>)
    ensures
        labels::metadata_labels_outcome(instance, workload_name) matches Ok(all) ==> {
            &&& string_map::entry_of(all, "sleepypods.io/instance-id"@) == Some(instance.id@)
            &&& string_map::entry_of(all, "sleepypods.io/instance-generation"@) == Some(
                text::decimal(instance.generation@ as nat),
            )
            &&& string_map::entry_of(all, "sleepypods.io/workload-class-id"@) == Some(
                instance.workload_class.class_id@,
            )
            &&& string_map::entry_of(all, "sleepypods.io/workload-class-version"@) == Some(
                text::decimal(instance.workload_class.version@ as nat),
            )
            &&& string_map::entry_of(all, "sleepypods.io/workload-name"@) == Some(workload_name)
            &&& all.len() == 5
        },
{
    reveal_strlit("sleepypods.io/instance-id");
    reveal_strlit("sleepypods.io/instance-generation");
    reveal_strlit("sleepypods.io/workload-class-id");
    reveal_strlit("sleepypods.io/workload-class-version");
    reveal_strlit("sleepypods.io/workload-name");
    let k0 = "sleepypods.io/instance-id"@;
    let k1 = "sleepypods.io/instance-generation"@;
    let k2 = "sleepypods.io/workload-class-id"@;
    let k3 = "sleepypods.io/workload-class-version"@;
    let k4 = "sleepypods.io/workload-name"@;
    assert(k0.len() == 25 && k1.len() == 33 && k2.len() == 31 && k3.len() == 36 && k4.len()
        == 27);
    let none = Seq::<(Seq<char>, Seq<char>)>::empty();
    let v0 = instance.id@;
    let v1 = text::decimal(instance.generation@ as nat);
    let v2 = instance.workload_class.class_id@;
    let v3 = text::decimal(instance.workload_class.version@ as nat);
    let a = string_map::with_entry(none, k0, v0);
    let b = string_map::with_entry(a, k1, v1);
    let c = string_map::with_entry(b, k2, v2);
    let d = string_map::with_entry(c, k3, v3);
    let e = string_map::with_entry(d, k4, workload_name);
    assert forall|key: Seq<char>| #[trigger] string_map::entry_of(e, key) == (if key == k4 {
        Some(workload_name)
    } else if key == k3 {
        Some(v3)
    } else if key == k2 {
        Some(v2)
    } else if key == k1 {
        Some(v1)
    } else if key == k0 {
        Some(v0)
    } else {
        None
    }) by {
        string_map::lemma_entry_of_with_entry(none, k0, v0, key);
        string_map::lemma_entry_of_with_entry(a, k1, v1, key);
        string_map::lemma_entry_of_with_entry(b, k2, v2, key);
        string_map::lemma_entry_of_with_entry(c, k3, v3, key);
        string_map::lemma_entry_of_with_entry(d, k4, workload_name, key);
    }
    string_map::lemma_entry_of_with_entry(none, k0, v0, k1);
    string_map::lemma_entry_of_with_entry(none, k0, v0, k2);
    string_map::lemma_entry_of_with_entry(none, k0, v0, k3);
    string_map::lemma_entry_of_with_entry(none, k0, v0, k4);
    string_map::lemma_entry_of_with_entry(a, k1, v1, k2);
    string_map::lemma_entry_of_with_entry(a, k1, v1, k3);
    string_map::lemma_entry_of_with_entry(a, k1, v1, k4);
    string_map::lemma_entry_of_with_entry(b, k2, v2, k3);
    string_map::lemma_entry_of_with_entry(b, k2, v2, k4);
    string_map::lemma_entry_of_with_entry(c, k3, v3, k4);
    string_map::lemma_with_entry_grows(none, k0, v0);
    string_map::lemma_with_entry_grows(a, k1, v1);
    string_map::lemma_with_entry_grows(b, k2, v2);
    string_map::lemma_with_entry_grows(c, k3, v3);
    string_map::lemma_with_entry_grows(d, k4, workload_name);
}

/// The annotations of an instance's objects say from which revision of the template
/// they were made, where that is known, and nothing else.
pub proof fn law_annotations_tell_the_template(template_generation: Option<Generation>)
    ensures
        ({
            let all = labels::annotations_of(template_generation);
            match template_generation {
                Some(generation) => all.len() == 1 && string_map::entry_of(
                    all,
                    "sleepypods.io/template-generation"@,
                ) == Some(text::decimal(generation@ as nat)),
                None => all.len() == 0,
            }
        }),
{
    if let Some(generation) = template_generation {
        string_map::lemma_entry_of_with_entry(
            Seq::<(Seq<char>, Seq<char>)>::empty(),
            "sleepypods.io/template-generation"@,
            text::decimal(generation@ as nat),
            "sleepypods.io/template-generation"@,
        );
    }
}

/// Every structured object of a manifest stands in the namespace, but for volumes,
/// which stand in none, and bears the labels of the instance; the pods bear them too.
pub proof fn law_every_object_is_the_instances(
    request: RenderManifestRequest<'_>,
    options: OptionsView,
    place: int,
)
    requires
        render::manifest_outcome(request, options) is Ok,
        0 <= place < render::manifest_outcome(request, options)->Ok_0.objects.len(),
        !(render::manifest_outcome(request, options)->Ok_0.objects[place].object is Raw),
    ensures
        ({
            let object = render::manifest_outcome(request, options)->Ok_0.objects[place].object;
            let metadata = super::objects::metadata_of(object);
            &&& metadata.namespace == (if object is PersistentVolume {
                None
            } else {
                Some(request.namespace@)
            })
            &&& exists|workload_name: Seq<char>|
                names_object(workload_name, request.template.workload.name@, *request.instance)
                    && #[trigger] labels::metadata_labels_outcome(*request.instance, workload_name)
                    == Ok::<TextMap, RenderErrorView>(metadata.labels) && (pods_of(object) is Some
                    ==> pods_of(object)->Some_0.metadata.labels == metadata.labels
                    && pods_of(object)->Some_0.metadata.annotations == metadata.annotations)
            &&& !(object is Service) ==> metadata.annotations == labels::annotations_of(
                request.template_generation,
            )
        }),
{
    let parts = lemma_made_of(request, options);
    lemma_object_metadata(
        request,
        options,
        parts,
        render::manifest_outcome(request, options)->Ok_0.objects,
        place,
    );
}

proof fn lemma_object_metadata(
    request: RenderManifestRequest<'_>,
    options: OptionsView,
    parts: Parts,
    objects: Seq<RenderedManifestObjectView>,
    place: int,
)
    requires
        made_of(request, options, parts),
        same_members(objects, listed(request, options, parts)),
        0 <= place < objects.len(),
        !(objects[place].object is Raw),
    ensures
        ({
            let object = objects[place].object;
            let metadata = super::objects::metadata_of(object);
            &&& metadata.namespace == (if object is PersistentVolume {
                None
            } else {
                Some(request.namespace@)
            })
            &&& exists|workload_name: Seq<char>|
                names_object(workload_name, request.template.workload.name@, *request.instance)
                    && #[trigger] labels::metadata_labels_outcome(*request.instance, workload_name)
                    == Ok::<TextMap, RenderErrorView>(metadata.labels) && (pods_of(object) is Some
                    ==> pods_of(object)->Some_0.metadata.labels == metadata.labels
                    && pods_of(object)->Some_0.metadata.annotations == metadata.annotations)
            &&& !(object is Service) ==> metadata.annotations == labels::annotations_of(
                request.template_generation,
            )
        }),
{
    lemma_lengths(request, options, parts);
    lemma_service(request, options, parts);
    lemma_names(request, options, parts);
    lemma_pod_parts(request, options, parts);
    lemma_kind_metadata(request, options, parts);
    let i = lemma_comes_from(objects, listed(request, options, parts), place);
    lemma_places(request, options, parts, i);
    assert(labels::metadata_labels_outcome(*request.instance, parts.names.workload) == Ok::<
        TextMap,
        RenderErrorView,
    >(super::objects::metadata_of(objects[place].object).labels));
}

proof fn lemma_kind_metadata(request: RenderManifestRequest<'_>, options: OptionsView, parts: Parts)
    requires
        made_of(request, options, parts),
    ensures
        super::objects::metadata_of(parts.workload.object) == (ObjectMetaView {
            name: parts.names.workload,
            namespace: Some(request.namespace@),
            labels: parts.names.labels,
            annotations: parts.names.annotations,
        }),
        !(parts.workload.object is Service),
        !(parts.workload.object is PersistentVolume),
{
    reveal(made_of);
}

// ---------------------------------------------------------------------------
// What a template must be
// ---------------------------------------------------------------------------
/// A template renders only where it is sound: it runs one replica, offers one port
/// that leads to a port of the application other than the sidecar's own, speaks HTTP
/// or TCP, names no port zero, and keeps the bytes of every volume.
pub proof fn law_only_a_sound_template_renders(
    request: RenderManifestRequest<'_>,
    options: OptionsView,
)
    requires
        render::manifest_outcome(request, options) is Ok,
    ensures
        ({
            let template = *request.template;
            let app = template.workload.app_container;
            &&& template.workload.replicas is None || template.workload.replicas == Some(1u32)
            &&& template.sidecar.listen_port != 0
            &&& template.service is Some
            &&& template.service->Some_0.ports@.len() == 1
            &&& template.service->Some_0.ports@[0].port != 0
            &&& template.service->Some_0.ports@[0].target_port != 0
            &&& template.service->Some_0.ports@[0].target_port != template.sidecar.listen_port
            &&& exists|i: int|
                0 <= i < app.ports@.len() && (#[trigger] app.ports@[i]).container_port
                    == template.service->Some_0.ports@[0].target_port
            &&& forall|i: int|
                0 <= i < app.ports@.len() ==> (#[trigger] app.ports@[i]).container_port != 0
            &&& template.sidecar.mode is None || template.sidecar.mode->Some_0@ == "http"@
                || template.sidecar.mode->Some_0@ == "tcp"@
            &&& forall|i: int|
                0 <= i < template.volumes@.len() ==> (
                #[trigger] template.volumes@[i]).reclaim_policy
                    == PersistentVolumeReclaimPolicy::Retain
            &&& kubernetes_name::dns_label(request.namespace@)
            &&& kubernetes_name::dns_label(app.name@)
            &&& kubernetes_name::dns_label(template.sidecar.name@)
        }),
{
    let parts = lemma_made_of(request, options);
    lemma_config(request, options, parts);
    lemma_pod_parts(request, options, parts);
    lemma_service(request, options, parts);
    let app = request.template.workload.app_container;
    lemma_ports(app.ports@, app.ports@.len());
    lemma_sound_application(app, *request.instance, parts.volumes);
    lemma_sound_config(*request.template, *request.instance);
    lemma_sound_frame(request, options);
    lemma_sound_service(request, options, parts);
}

proof fn lemma_sound_application(
    container: template::ContainerTemplate,
    instance: InstanceRecord,
    volumes: Seq<RenderedVolumeView>,
)
    requires
        pod::app_container_outcome(container, instance.values@, volumes) is Ok,
    ensures
        kubernetes_name::dns_label(container.name@),
        forall|i: int|
            0 <= i < container.ports@.len() ==> (#[trigger] container.ports@[i]).container_port
                != 0,
{
    lemma_ports(container.ports@, container.ports@.len());
    let rendered = pod::ports_outcome(container.ports@, container.ports@.len())->Ok_0;
    assert forall|i: int| 0 <= i < container.ports@.len() implies (
    #[trigger] container.ports@[i]).container_port != 0 by {
        assert(rendered[i].container_port != 0);
    }
}

proof fn lemma_sound_config(template: ManifestTemplate, instance: InstanceRecord)
    requires
        pod::sidecar_config_outcome(template, instance.values@) is Ok,
    ensures
        template.sidecar.listen_port != 0,
        template.service is Some,
        template.service->Some_0.ports@.len() == 1,
        template.service->Some_0.ports@[0].target_port != 0,
        template.service->Some_0.ports@[0].target_port != template.sidecar.listen_port,
        pod::declares(template.workload.app_container.ports@, 0) || pod::declares(
            template.workload.app_container.ports@,
            template.service->Some_0.ports@[0].target_port,
        ),
        template.sidecar.mode is None || template.sidecar.mode->Some_0@ == "http"@
            || template.sidecar.mode->Some_0@ == "tcp"@,
        kubernetes_name::dns_label(template.sidecar.name@),
{
}

proof fn lemma_sound_service(request: RenderManifestRequest<'_>, options: OptionsView, parts: Parts)
    requires
        made_of(request, options, parts),
        request.template.service is Some,
        request.template.service->Some_0.ports@.len() == 1,
    ensures
        request.template.service->Some_0.ports@[0].port != 0,
{
    reveal(made_of);
    let service = request.template.service->Some_0;
    lemma_service_ports(service.ports@, service.ports@.len(), parts.config.listen_port);
    let ports = pod::service_ports_outcome(
        service.ports@,
        service.ports@.len(),
        parts.config.listen_port,
    )->Ok_0;
    assert(ports[0].port != 0);
}

proof fn lemma_sound_frame(request: RenderManifestRequest<'_>, options: OptionsView)
    requires
        render::manifest_outcome(request, options) is Ok,
    ensures
        request.template.workload.replicas is None || request.template.workload.replicas == Some(
            1u32,
        ),
        kubernetes_name::dns_label(request.namespace@),
        forall|i: int|
            0 <= i < request.template.volumes@.len() ==> (
            #[trigger] request.template.volumes@[i]).reclaim_policy
                == PersistentVolumeReclaimPolicy::Retain,
{
    assert(raw::retention_verdict(*request.template) is Ok);
}

} // verus!
