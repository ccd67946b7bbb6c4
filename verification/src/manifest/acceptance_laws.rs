//! What a template may say: each check takes everything that it should.

use super::checks::{self, ValuesView};
use super::inventory;
use super::labels;
use super::pod::{self, OptionsView};
use super::raw;
use super::readiness;
use super::render;
use super::serialize;
use super::template::{
    self, ContainerPortTemplate, CsiSecretRefTemplate, EnvVarTemplate, ManifestTemplate,
    PersistentVolumeAccessMode, ServicePortTemplate, TemplatePartView, VolumeTemplate,
};
use super::volume;
use super::RenderManifestRequest;
use crate::instance::InstanceRecord;
use crate::kubernetes_name;
use crate::string_map;
use crate::text;
use vstd::prelude::*;

verus! {

// ---------------------------------------------------------------------------
// Ports
// ---------------------------------------------------------------------------
/// The port that is found is the lowest of a range that nothing occupies, and none is
/// found only where there is none.
pub proof fn law_the_lowest_free_port_is_found(occupied: Set<u16>, from: int, end: int)
    requires
        0 <= from,
        end <= 65536,
    ensures
        ({
            let found = readiness::free_port(occupied, from, end);
            &&& found is Some ==> from <= found->Some_0 < end && !occupied.contains(found->Some_0)
                && forall|port: u16|
                from <= port < found->Some_0 ==> #[trigger] occupied.contains(port)
            &&& found is None ==> forall|port: u16|
                from <= port < end ==> #[trigger] occupied.contains(port)
        }),
    decreases end - from,
{
    if from < end && occupied.contains(from as u16) {
        law_the_lowest_free_port_is_found(occupied, from + 1, end);
    }
}

/// The sidecar is asked whether it is ready on the lowest port from 15001 on that is not
/// taken, and on a lower one, but none that needs a privilege, only where all those are.
pub proof fn law_readiness_takes_the_lowest_port(template: ManifestTemplate, values: ValuesView)
    requires
        readiness::readiness_port_outcome(template, values) is Ok,
    ensures
        ({
            let container = template.workload.app_container;
            let taken = readiness::occupied_outcome(
                readiness::declared_ports(container.ports@, template.sidecar.listen_port),
                container.env@,
                container.env@.len(),
                values,
            );
            let port = readiness::readiness_port_outcome(template, values)->Ok_0;
            &&& taken is Ok
            &&& !taken->Ok_0.contains(port)
            &&& port >= 1024
            &&& port >= 15001 ==> forall|lower: u16|
                15001 <= lower < port ==> #[trigger] taken->Ok_0.contains(lower)
            &&& port < 15001 ==> forall|other: u16|
                15001 <= other || 1024 <= other < port ==> #[trigger] taken->Ok_0.contains(other)
        }),
{
    let container = template.workload.app_container;
    let taken = readiness::occupied_outcome(
        readiness::declared_ports(container.ports@, template.sidecar.listen_port),
        container.env@,
        container.env@.len(),
        values,
    )->Ok_0;
    law_the_lowest_free_port_is_found(taken, 15001, 65536);
    law_the_lowest_free_port_is_found(taken, 1024, 15001);
}

/// The variables that say where metrics are read are these.
pub proof fn law_metrics_are_read_where_these_say(name: Seq<char>)
    ensures
        readiness::metrics_variable("SLEEPYPODS_SIDECAR_METRICS_LISTEN_ADDR"@),
        readiness::metrics_variable("SLEEPYPODS_FRONTLINE_METRICS_LISTEN_ADDR"@),
        readiness::metrics_variable("SLEEPYPODS_CONTROL_PLANE_METRICS_LISTEN_ADDR"@),
        readiness::metrics_variable(name) ==> name == "SLEEPYPODS_SIDECAR_METRICS_LISTEN_ADDR"@
            || name == "SLEEPYPODS_FRONTLINE_METRICS_LISTEN_ADDR"@ || name
            == "SLEEPYPODS_CONTROL_PLANE_METRICS_LISTEN_ADDR"@,
{
}

/// Nothing is taken but what the sidecar and the application say they take, and what the
/// metrics are read at.
pub proof fn law_ports_are_taken_by_what_is_said(
    ports: Seq<ContainerPortTemplate>,
    listen_port: u16,
    env: Seq<EnvVarTemplate>,
    count: nat,
    values: ValuesView,
    port: u16,
)
    requires
        count <= env.len(),
        readiness::occupied_outcome(
            readiness::declared_ports(ports, listen_port),
            env,
            count,
            values,
        ) is Ok,
    ensures
        readiness::occupied_outcome(
            readiness::declared_ports(ports, listen_port),
            env,
            count,
            values,
        )->Ok_0.contains(port) <==> {
            ||| port == listen_port
            ||| exists|i: int| 0 <= i < ports.len() && (#[trigger] ports[i]).container_port == port
            ||| exists|i: int| 0 <= i < count && takes(#[trigger] env[i], values, port)
        },
    decreases count,
{
    if count > 0 {
        law_ports_are_taken_by_what_is_said(
            ports,
            listen_port,
            env,
            (count - 1) as nat,
            values,
            port,
        );
        let last = env[count - 1];
        if takes(last, values, port) {
            assert(takes(env[count - 1], values, port));
        }
        assert((exists|i: int| 0 <= i < count && takes(#[trigger] env[i], values, port)) <==> takes(
            last,
            values,
            port,
        ) || exists|i: int| 0 <= i < count - 1 && takes(#[trigger] env[i], values, port)) by {
            if exists|i: int| 0 <= i < count && takes(#[trigger] env[i], values, port) {
                let i = choose|i: int| 0 <= i < count && takes(#[trigger] env[i], values, port);
                if i < count - 1 {
                    assert(takes(env[i], values, port));
                }
            }
        }
    }
}

/// A variable says that metrics are read at a port.
pub open spec fn takes(variable: EnvVarTemplate, values: ValuesView, port: u16) -> bool {
    let written = template::rendered_text(variable.value@, values);
    &&& readiness::metrics_variable(variable.name@)
    &&& written is Ok
    &&& written->Ok_0.len() > 0
    &&& crate::net::parsed_socket(written->Ok_0) is Some
    &&& crate::net::parsed_socket(written->Ok_0)->Some_0.port == port
}

/// Ports of a container are taken exactly where none is zero, each as it is.
pub proof fn law_ports_are_taken_as_they_are(ports: Seq<ContainerPortTemplate>, count: nat)
    requires
        count <= ports.len(),
    ensures
        pod::ports_outcome(ports, count) is Ok <==> forall|i: int|
            0 <= i < count ==> (#[trigger] ports[i]).container_port != 0,
        pod::ports_outcome(ports, count) is Ok ==> pod::ports_outcome(ports, count)->Ok_0.len()
            == count && forall|i: int|
            0 <= i < count ==> (#[trigger] pod::ports_outcome(
                ports,
                count,
            )->Ok_0[i]).container_port == ports[i].container_port && pod::ports_outcome(
                ports,
                count,
            )->Ok_0[i].name == super::optional_view(ports[i].name),
    decreases count,
{
    if count > 0 {
        law_ports_are_taken_as_they_are(ports, (count - 1) as nat);
    }
}

/// Ports of a service are taken exactly where none is zero; each keeps its name and its
/// number and leads to the sidecar.
pub proof fn law_service_ports_lead_to_the_sidecar(
    ports: Seq<ServicePortTemplate>,
    count: nat,
    listen_port: u16,
)
    requires
        count <= ports.len(),
    ensures
        ({
            let taken = pod::service_ports_outcome(ports, count, listen_port);
            &&& taken is Ok <==> forall|i: int|
                0 <= i < count ==> (#[trigger] ports[i]).port != 0 && ports[i].target_port != 0
            &&& taken is Ok ==> taken->Ok_0.len() == count
            &&& taken is Ok ==> forall|i: int|
                0 <= i < count ==> (#[trigger] taken->Ok_0[i]).port == ports[i].port
                    && taken->Ok_0[i].target_port == listen_port && taken->Ok_0[i].name
                    == super::optional_view(ports[i].name)
        }),
    decreases count,
{
    if count > 0 {
        law_service_ports_lead_to_the_sidecar(ports, (count - 1) as nat, listen_port);
    }
}

/// Variables are taken exactly where each of them renders; each keeps its name and is what
/// it renders to.
pub proof fn law_variables_are_what_they_render_to(
    env: Seq<EnvVarTemplate>,
    count: nat,
    values: ValuesView,
)
    requires
        count <= env.len(),
    ensures
        ({
            let taken = pod::env_outcome(env, count, values);
            &&& taken is Ok <==> forall|i: int|
                0 <= i < count ==> template::rendered_text((#[trigger] env[i]).value@, values) is Ok
            &&& taken is Ok ==> taken->Ok_0.len() == count
            &&& taken is Ok ==> forall|i: int|
                0 <= i < count ==> (#[trigger] taken->Ok_0[i]).name == env[i].name@
                    && taken->Ok_0[i].value_from is None && Ok::<_, super::RenderErrorView>(
                    taken->Ok_0[i].value,
                ) == template::rendered_text(env[i].value@, values)
        }),
    decreases count,
{
    if count > 0 {
        law_variables_are_what_they_render_to(env, (count - 1) as nat, values);
    }
}

/// The sidecar finds the application exactly where it has a port of its own, the service
/// has one port, and that leads to a port of the application other than the sidecar's.
pub proof fn law_the_sidecar_finds_the_application(template: ManifestTemplate)
    ensures
        ({
            let found = pod::app_port_outcome(template);
            let ports = template.workload.app_container.ports@;
            &&& found is Ok <==> {
                &&& template.sidecar.listen_port != 0
                &&& template.service is Some
                &&& template.service->Some_0.ports@.len() == 1
                &&& template.service->Some_0.ports@[0].target_port != 0
                &&& template.service->Some_0.ports@[0].target_port != template.sidecar.listen_port
                &&& exists|i: int|
                    0 <= i < ports.len() && ((#[trigger] ports[i]).container_port == 0
                        || ports[i].container_port == template.service->Some_0.ports@[0].target_port)
            }
            &&& found is Ok ==> found->Ok_0 == template.service->Some_0.ports@[0].target_port
        }),
{
    let ports = template.workload.app_container.ports@;
    if template.service is Some && template.service->Some_0.ports@.len() == 1 {
        let port = template.service->Some_0.ports@[0].target_port;
        if pod::declares(ports, 0) {
            let i = choose|i: int|
                0 <= i < ports.len() && (#[trigger] ports[i]).container_port == 0;
            assert(ports[i].container_port == 0);
        }
        if pod::declares(ports, port) {
            let i = choose|i: int|
                0 <= i < ports.len() && (#[trigger] ports[i]).container_port == port;
            assert(ports[i].container_port == port);
        }
        if exists|i: int|
            0 <= i < ports.len() && ((#[trigger] ports[i]).container_port == 0
                || ports[i].container_port == port) {
            let i = choose|i: int|
                0 <= i < ports.len() && ((#[trigger] ports[i]).container_port == 0
                    || ports[i].container_port == port);
            assert(pod::declares(ports, 0) || pod::declares(ports, port));
        }
    }
}

/// A sidecar speaks HTTP or TCP, or says nothing about it.
pub proof fn law_a_sidecar_speaks_http_or_tcp(mode: Option<Seq<char>>)
    ensures
        pod::mode_verdict(mode) is Ok <==> mode is None || mode == Some("http"@) || mode == Some(
            "tcp"@,
        ),
{
}

/// A sidecar is set up exactly where it finds the application, has an image and a name,
/// speaks what it may and there is a port left to ask it on; and it is set up so.
pub proof fn law_a_sound_sidecar_is_set_up(template: ManifestTemplate, values: ValuesView)
    ensures
        ({
            let set_up = pod::sidecar_config_outcome(template, values);
            &&& set_up is Ok <==> {
                &&& pod::app_port_outcome(template) is Ok
                &&& checks::nonempty_text("sidecar.image"@, template.sidecar.image@, values) is Ok
                &&& kubernetes_name::dns_label(template.sidecar.name@)
                &&& pod::mode_verdict(super::optional_view(template.sidecar.mode)) is Ok
                &&& readiness::readiness_port_outcome(template, values) is Ok
            }
            &&& set_up is Ok ==> {
                &&& set_up->Ok_0.listen_port == template.sidecar.listen_port
                &&& Ok::<_, super::RenderErrorView>(set_up->Ok_0.app_port) == pod::app_port_outcome(
                    template,
                )
                &&& Ok::<_, super::RenderErrorView>(set_up->Ok_0.readiness_port)
                    == readiness::readiness_port_outcome(template, values)
                &&& set_up->Ok_0.mode == super::optional_view(template.sidecar.mode)
            }
        }),
{
}

// ---------------------------------------------------------------------------
// Names and labels
// ---------------------------------------------------------------------------
/// An instance is labelled exactly where what it is called can stand in a label.
pub proof fn law_an_instance_is_labelled(instance: InstanceRecord, workload_name: Seq<char>)
    requires
        text::decimal(instance.generation@ as nat).len() <= 63,
        text::decimal(instance.workload_class.version@ as nat).len() <= 63,
    ensures
        labels::selector_labels_outcome(instance.id@, workload_name) is Ok
            <==> checks::label_value(instance.id@) && checks::label_value(workload_name),
        labels::metadata_labels_outcome(instance, workload_name) is Ok <==> checks::label_value(
            instance.id@,
        ) && checks::label_value(workload_name) && checks::label_value(
            instance.workload_class.class_id@,
        ),
{
    lemma_numbers_are_labels(instance.generation@ as nat);
    lemma_numbers_are_labels(instance.workload_class.version@ as nat);
}

proof fn lemma_numbers_are_labels(value: nat)
    requires
        text::decimal(value).len() <= 63,
    ensures
        checks::label_value(text::decimal(value)),
{
    let written = text::decimal(value);
    text::lemma_decimal_digits(value);
    assert forall|i: int| 0 <= i < written.len() implies checks::label_character(
        #[trigger] written[i],
    ) && checks::ascii_alphanumeric(written[i]) by {
        assert('0' <= written[i] <= '9');
    }
}

/// An object has the name of its template and its instance exactly where that renders to
/// something that is a name.
pub proof fn law_an_object_is_named(
    field: Seq<char>,
    parts: Seq<TemplatePartView>,
    values: ValuesView,
    id: Seq<char>,
)
    ensures
        ({
            let base = checks::nonempty_text(field, parts, values);
            let name = checks::object_name(field, parts, values, id);
            &&& name is Ok <==> base is Ok && kubernetes_name::dns_label(
                kubernetes_name::scoped_name(base->Ok_0, id),
            )
            &&& name is Ok ==> name->Ok_0 == kubernetes_name::scoped_name(base->Ok_0, id)
        }),
{
}

// ---------------------------------------------------------------------------
// Volumes
// ---------------------------------------------------------------------------
/// A path leaves its directory exactly where one of its segments is two dots.
pub proof fn law_two_dots_leave_a_directory(path: Seq<char>)
    ensures
        volume::leaves_directory(path) <==> exists|front: Seq<char>, back: Seq<char>|
            path == #[trigger] (front + ".."@ + back) && (front.len() == 0 || front.last()
                == '/') && (back.len() == 0 || back[0] == '/'),
{
    reveal_strlit("..");
    let dots = ".."@;
    if volume::leaves_directory(path) {
        let at = choose|at: int| #[trigger] volume::parent_segment_at(path, at);
        let front = path.take(at);
        let back = path.skip(at + 2);
        assert(path =~= front + dots + back);
        assert(front.len() == 0 || front.last() == '/');
        assert(back.len() == 0 || back[0] == '/');
    }
    assert forall|front: Seq<char>, back: Seq<char>|
        path == #[trigger] (front + dots + back) && (front.len() == 0 || front.last() == '/') && (
        back.len() == 0 || back[0] == '/') implies volume::leaves_directory(path) by {
        let at = front.len() as int;
        assert(path[at] == dots[0]);
        assert(path[at + 1] == dots[1]);
        assert(at > 0 ==> path[at - 1] == front.last());
        assert(back.len() > 0 ==> path[at + 2] == back[0]);
        assert(volume::parent_segment_at(path, at));
    }
}

/// A path on the node is taken exactly where it is absolute, its author fixed where it
/// begins, and it stays where it is.
pub proof fn law_a_host_path_stays_where_it_is(parts: Seq<TemplatePartView>, rendered: Seq<char>)
    ensures
        volume::host_path_verdict(parts, rendered) is Ok <==> {
            &&& rendered.len() > 0 && rendered[0] == '/'
            &&& template::fixed_front(parts).len() > 0 && template::fixed_front(parts)[0] == '/'
            &&& !volume::leaves_directory(rendered)
        },
{
}

/// Access modes are taken exactly where there is one and none is named twice.
pub proof fn law_access_modes_are_named_once(modes: Seq<PersistentVolumeAccessMode>)
    ensures
        volume::modes_verdict(modes) is Ok <==> modes.len() > 0 && forall|i: int, j: int|
            #![trigger modes[i], modes[j]]
            0 <= i < j < modes.len() ==> modes[i] != modes[j],
{
}

/// A volume is mounted at what its path renders to, exactly where that is absolute.
pub proof fn law_a_volume_is_mounted_at_a_path(parts: Seq<TemplatePartView>, values: ValuesView)
    ensures
        ({
            let rendered = template::rendered_text(parts, values);
            let path = volume::mount_path_outcome(parts, values);
            &&& path is Ok <==> rendered is Ok && rendered->Ok_0.len() > 0 && rendered->Ok_0[0]
                == '/'
            &&& path is Ok ==> path == rendered
        }),
{
    if let Ok(rendered) = template::rendered_text(parts, values) {
        if rendered.len() > 0 && rendered[0] == '/' {
            assert(!text::white_space('/'));
            assert(!text::blank(rendered));
        }
    }
}

/// A reference to a Secret is taken exactly where both its parts render to names.
pub proof fn law_a_secret_is_named_twice(
    name_field: Seq<char>,
    namespace_field: Seq<char>,
    reference: CsiSecretRefTemplate,
    values: ValuesView,
)
    ensures
        ({
            let name = checks::nonempty_text(name_field, reference.name@, values);
            let namespace = checks::nonempty_text(namespace_field, reference.namespace@, values);
            let taken = volume::secret_outcome(
                name_field,
                namespace_field,
                Some(reference),
                values,
            );
            &&& taken is Ok <==> name is Ok && namespace is Ok && kubernetes_name::dns_label(
                name->Ok_0,
            ) && kubernetes_name::dns_label(namespace->Ok_0)
            &&& taken is Ok ==> taken->Ok_0 is Some && taken->Ok_0->Some_0.name == name->Ok_0
                && taken->Ok_0->Some_0.namespace == namespace->Ok_0
            &&& volume::secret_outcome(name_field, namespace_field, None, values) is Ok
            &&& volume::secret_outcome(name_field, namespace_field, None, values)->Ok_0 is None
        }),
{
}

/// Attributes of a volume are taken exactly where each renders to something; each stands
/// under its key.
pub proof fn law_attributes_stand_under_their_keys(
    attributes: Seq<(Seq<char>, Seq<TemplatePartView>)>,
    count: nat,
    values: ValuesView,
    at: int,
)
    requires
        count <= attributes.len(),
        forall|i: int, j: int|
            #![trigger attributes[i], attributes[j]]
            0 <= i < j < attributes.len() ==> attributes[i].0 != attributes[j].0,
    ensures
        ({
            let field = "volume.source.csi.volume_attributes"@;
            let taken = volume::attributes_outcome(attributes, count, values);
            &&& taken is Ok <==> forall|i: int|
                0 <= i < count ==> checks::nonempty_text(field, (#[trigger] attributes[i]).1, values)
                    is Ok
            &&& taken is Ok && 0 <= at < count ==> string_map::entry_of(
                taken->Ok_0,
                attributes[at].0,
            ) is Some && Ok::<_, super::RenderErrorView>(
                string_map::entry_of(taken->Ok_0, attributes[at].0)->Some_0,
            ) == template::rendered_text(attributes[at].1, values)
        }),
    decreases count,
{
    broadcast use string_map::lemma_entry_of_with_entry;

    if count > 0 {
        law_attributes_stand_under_their_keys(attributes, (count - 1) as nat, values, at);
        if 0 <= at < count - 1 {
            assert(attributes[at].0 != attributes[count - 1].0);
        }
    }
}

/// A volume renders exactly where everything that is said of it does.
pub proof fn law_a_sound_volume_renders(
    template: VolumeTemplate,
    values: ValuesView,
    id: Seq<char>,
    namespace: Seq<char>,
)
    ensures
        volume::volume_outcome(template, values, id, namespace) is Ok <==> {
            &&& kubernetes_name::dns_label(template.name@)
            &&& volume::modes_verdict(template.access_modes@) is Ok
            &&& volume::mount_path_outcome(template.mount_path@, values) is Ok
            &&& checks::object_name("volume.pv_name"@, template.pv_name@, values, id) is Ok
            &&& checks::object_name("volume.pvc_name"@, template.pvc_name@, values, id) is Ok
            &&& checks::nonempty_text("volume.capacity"@, template.capacity@, values) is Ok
            &&& checks::optional_text(
                "volume.storage_class_name"@,
                super::optional_view(template.storage_class_name),
                values,
            ) is Ok
            &&& volume::source_outcome(template.source, values) is Ok
            &&& kubernetes_name::dns_label(namespace)
        },
{
}

/// Volumes render exactly where each of them does, and each as it does alone.
pub proof fn law_volumes_render_one_by_one(
    volumes: Seq<VolumeTemplate>,
    count: nat,
    values: ValuesView,
    id: Seq<char>,
    namespace: Seq<char>,
)
    requires
        count <= volumes.len(),
    ensures
        ({
            let rendered = volume::volumes_outcome(volumes, count, values, id, namespace);
            &&& rendered is Ok <==> forall|i: int|
                0 <= i < count ==> volume::volume_outcome(
                    #[trigger] volumes[i],
                    values,
                    id,
                    namespace,
                ) is Ok
            &&& rendered is Ok ==> rendered->Ok_0.len() == count
            &&& rendered is Ok ==> forall|i: int|
                0 <= i < count ==> Ok::<_, super::RenderErrorView>(#[trigger] rendered->Ok_0[i])
                    == volume::volume_outcome(volumes[i], values, id, namespace)
        }),
    decreases count,
{
    if count > 0 {
        law_volumes_render_one_by_one(volumes, (count - 1) as nat, values, id, namespace);
    }
}

// ---------------------------------------------------------------------------
// Manifests
// ---------------------------------------------------------------------------
/// A template of which every part is sound renders, as long as no two of its objects have
/// one name and its storage is kept.
pub proof fn law_a_sound_template_renders(request: RenderManifestRequest<'_>, options: OptionsView)
    requires
        ({
            let values = request.instance.values@;
            let names = render::names_outcome(
                request.template.workload,
                request.template.service,
                *request.instance,
                request.template_generation,
            );
            let config = pod::sidecar_config_outcome(*request.template, values);
            let volumes = volume::volumes_outcome(
                request.template.volumes@,
                request.template.volumes@.len(),
                values,
                request.instance.id@,
                request.namespace@,
            );
            &&& template::replicas_verdict(request.template.workload) is Ok
            &&& raw::retention_verdict(*request.template) is Ok
            &&& kubernetes_name::dns_label(request.namespace@)
            &&& names is Ok
            &&& config is Ok
            &&& volumes is Ok
            &&& request.template.service->Some_0.ports@[0].port != 0
            &&& pod::app_container_outcome(
                request.template.workload.app_container,
                values,
                volumes->Ok_0,
            ) is Ok
            &&& render::raws_outcome(
                request.template.raw_objects@,
                request.template.raw_objects@.len(),
                values,
                request.namespace@,
                render::auxiliary_labels(names->Ok_0.labels),
                names->Ok_0.annotations,
            ) is Ok
        }),
    ensures
        render::objects_outcome(request, options) is Ok,
        ({
            let ordered = inventory::in_application_order(
                render::objects_outcome(request, options)->Ok_0,
            );
            render::manifest_outcome(request, options) is Ok <==> inventory::unique_verdict(
                ordered,
                ordered.len(),
            ) is Ok && inventory::inventory_verdict(
                serialize::documents_of(ordered),
                ordered.len(),
            ) is Ok
        }),
{
    let service = request.template.service->Some_0;
    let config = pod::sidecar_config_outcome(*request.template, request.instance.values@)->Ok_0;
    law_the_sidecar_finds_the_application(*request.template);
    law_service_ports_lead_to_the_sidecar(service.ports@, service.ports@.len(), config.listen_port);
}

} // verus!
