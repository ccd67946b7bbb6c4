//! Volumes of an instance.

use super::checks::{
    self, render_non_empty, render_object_name, render_optional, validate_dns_label,
    validate_namespace, ValuesView,
};
use super::objects::{
    copied_modes, CsiPersistentVolumeSource, CsiPersistentVolumeSourceView, CsiSecretReference,
    CsiSecretReferenceView, HostPathPersistentVolumeSource, HostPathPersistentVolumeSourceView,
    PersistentVolumeSource, PersistentVolumeSourceView, TextMap,
};
use super::template::{
    self, CsiSecretRefTemplate, PersistentVolumeAccessMode, PersistentVolumeReclaimPolicy,
    PersistentVolumeSourceTemplate, TemplatePartView, TemplateText, VolumeTemplate,
};
use super::{field_error, ManifestRenderError, Outcome, RenderErrorView};
use crate::instance::{InstanceRecord, InstanceValues};
use crate::string_map::{self, StringMap};
use crate::text::{self, characters, quoted};
use vstd::prelude::*;
use vstd::string::*;

verus! {

/// A volume of an instance, before its objects are made.
pub struct RenderedVolume {
    pub volume_name: String,
    pub mount_path: String,
    pub pv_name: String,
    pub pvc_name: String,
    pub access_modes: Vec<PersistentVolumeAccessMode>,
    pub capacity: String,
    pub reclaim_policy: PersistentVolumeReclaimPolicy,
    pub storage_class_name: Option<String>,
    pub source: PersistentVolumeSource,
}

#[verifier::ext_equal]
pub struct RenderedVolumeView {
    pub volume_name: Seq<char>,
    pub mount_path: Seq<char>,
    pub pv_name: Seq<char>,
    pub pvc_name: Seq<char>,
    pub access_modes: Seq<PersistentVolumeAccessMode>,
    pub capacity: Seq<char>,
    pub reclaim_policy: PersistentVolumeReclaimPolicy,
    pub storage_class_name: Option<Seq<char>>,
    pub source: PersistentVolumeSourceView,
}

impl View for RenderedVolume {
    type V = RenderedVolumeView;

    open spec fn view(&self) -> RenderedVolumeView {
        RenderedVolumeView {
            volume_name: self.volume_name@,
            mount_path: self.mount_path@,
            pv_name: self.pv_name@,
            pvc_name: self.pvc_name@,
            access_modes: self.access_modes@,
            capacity: self.capacity@,
            reclaim_policy: self.reclaim_policy,
            storage_class_name: super::optional_view(self.storage_class_name),
            source: self.source@,
        }
    }
}

// ---------------------------------------------------------------------------
// hostPath
// ---------------------------------------------------------------------------
/// A segment of a path, between two slashes or the ends, is `..` at a place.
pub open spec fn parent_segment_at(path: Seq<char>, at: int) -> bool {
    &&& 0 <= at
    &&& at + 2 <= path.len()
    &&& path[at] == '.'
    &&& path[at + 1] == '.'
    &&& at == 0 || path[at - 1] == '/'
    &&& at + 2 == path.len() || path[at + 2] == '/'
}

/// Some segment of a path is `..`.
pub open spec fn leaves_directory(path: Seq<char>) -> bool {
    exists|at: int| #[trigger] parent_segment_at(path, at)
}

/// A text that begins with a slash.
pub open spec fn absolute(path: Seq<char>) -> bool {
    path.len() > 0 && path[0] == '/'
}

/// A hostPath names a directory on the node, so the class author fixes its root
/// and an instance may only choose a subdirectory beneath that root.
pub open spec fn host_path_verdict(parts: Seq<TemplatePartView>, rendered: Seq<char>) -> Outcome<
    (),
> {
    let field = "volume.source.host_path.path"@;
    let shown = "hostPath path "@ + text::quoted_text(rendered);
    if !absolute(rendered) {
        super::invalid_field(field, shown + " must be absolute"@)
    } else if !absolute(template::fixed_front(parts)) {
        super::invalid_field(
            field,
            shown
                + " must start with a literal absolute directory, so that an instance value chooses a subdirectory rather than the root"@,
        )
    } else if leaves_directory(rendered) {
        super::invalid_field(
            field,
            shown + " must stay inside its directory, so no segment may be \"..\""@,
        )
    } else {
        Ok(())
    }
}

fn is_absolute(path: &str) -> (result: bool)
    ensures
        result == absolute(path@),
{
    let list = characters(path);
    list.len() > 0 && list[0] == '/'
}

fn has_parent_segment(path: &str) -> (result: bool)
    ensures
        result == leaves_directory(path@),
{
    let list = characters(path);
    let mut at: usize = 0;
    while list.len() - at >= 2
        invariant
            at <= list.len(),
            list@ == path@,
            forall|i: int| 0 <= i < at ==> !#[trigger] parent_segment_at(path@, i),
        decreases list.len() - at,
    {
        if list[at] == '.' && list[at + 1] == '.' && (at == 0 || list[at - 1] == '/') && (at + 2
            == list.len() || list[at + 2] == '/') {
            assert(parent_segment_at(path@, at as int));
            return true;
        }
        at = at + 1;
    }
    false
}

fn validate_host_path(template: &TemplateText, rendered: &str) -> (result: Result<
    (),
    ManifestRenderError,
>)
    ensures
        super::verdict(result) == host_path_verdict(template@, rendered@),
{
    let field = "volume.source.host_path.path";
    if !is_absolute(rendered) {
        let shown = "hostPath path ".to_owned().concat(quoted(rendered).as_str());
        return Err(field_error(field, shown.concat(" must be absolute").as_str()));
    }
    if !is_absolute(template.literal_prefix().as_str()) {
        let shown = "hostPath path ".to_owned().concat(quoted(rendered).as_str());
        let message = shown.concat(
            " must start with a literal absolute directory, so that an instance value chooses a subdirectory rather than the root",
        );
        return Err(field_error(field, message.as_str()));
    }
    if has_parent_segment(rendered) {
        let shown = "hostPath path ".to_owned().concat(quoted(rendered).as_str());
        let message = shown.concat(
            " must stay inside its directory, so no segment may be \"..\"",
        );
        return Err(field_error(field, message.as_str()));
    }
    Ok(())
}

/// An instance's hostPath opens with the absolute text that the class author
/// fixed, and no segment leads back out.
pub proof fn law_host_path_stays_inside(
    parts: Seq<TemplatePartView>,
    values: ValuesView,
    path: Seq<char>,
)
    requires
        template::rendered_text(parts, values) == Ok::<Seq<char>, RenderErrorView>(path),
        host_path_verdict(parts, path) is Ok,
    ensures
        absolute(template::fixed_front(parts)),
        text::opens_with(path, template::fixed_front(parts)),
        !leaves_directory(path),
{
    template::law_fixed_front_is_rendered(parts, values);
}

// ---------------------------------------------------------------------------
// CSI
// ---------------------------------------------------------------------------
/// The reference to a Secret that a template makes, where there is one.
pub open spec fn secret_outcome(
    name_field: Seq<char>,
    namespace_field: Seq<char>,
    reference: Option<CsiSecretRefTemplate>,
    values: ValuesView,
) -> Outcome<Option<CsiSecretReferenceView>> {
    match reference {
        None => Ok(None),
        Some(reference) => match checks::nonempty_text(name_field, reference.name@, values) {
            Err(error) => Err(error),
            Ok(name) => match checks::nonempty_text(
                namespace_field,
                reference.namespace@,
                values,
            ) {
                Err(error) => Err(error),
                Ok(namespace) => match checks::dns_verdict(name_field, name) {
                    Err(error) => Err(error),
                    Ok(_) => match checks::dns_verdict(namespace_field, namespace) {
                        Err(error) => Err(error),
                        Ok(_) => Ok(Some(CsiSecretReferenceView { name, namespace })),
                    },
                },
            },
        },
    }
}

/// The template in a box, where there is one.
pub open spec fn unboxed(reference: Option<Box<CsiSecretRefTemplate>>) -> Option<
    CsiSecretRefTemplate,
> {
    match reference {
        Some(reference) => Some(*reference),
        None => None,
    }
}

fn render_csi_secret_ref(
    name_field: &'static str,
    namespace_field: &'static str,
    reference: &Option<Box<CsiSecretRefTemplate>>,
    values: &InstanceValues,
) -> (result: Result<Option<CsiSecretReference>, ManifestRenderError>)
    ensures
        (match result {
            Ok(value) => Ok(super::optional_view(value)),
            Err(error) => Err(error@),
        }) == secret_outcome(name_field@, namespace_field@, unboxed(*reference), values@),
{
    match reference {
        None => Ok(None),
        Some(reference) => {
            let name = match render_non_empty(name_field, &reference.name, values) {
                Err(error) => {
                    return Err(error);
                },
                Ok(name) => name,
            };
            let namespace = match render_non_empty(namespace_field, &reference.namespace, values) {
                Err(error) => {
                    return Err(error);
                },
                Ok(namespace) => namespace,
            };
            if let Err(error) = validate_dns_label(name_field, name.as_str()) {
                return Err(error);
            }
            if let Err(error) = validate_dns_label(namespace_field, namespace.as_str()) {
                return Err(error);
            }
            Ok(Some(CsiSecretReference { name, namespace }))
        },
    }
}

/// The first `count` attributes of a CSI volume.
pub open spec fn attributes_outcome(
    attributes: Seq<(Seq<char>, Seq<TemplatePartView>)>,
    count: nat,
    values: ValuesView,
) -> Outcome<TextMap>
    decreases count,
{
    if count == 0 || count > attributes.len() {
        Ok(Seq::empty())
    } else {
        match attributes_outcome(attributes, (count - 1) as nat, values) {
            Err(error) => Err(error),
            Ok(before) => match checks::nonempty_text(
                "volume.source.csi.volume_attributes"@,
                attributes[count - 1].1,
                values,
            ) {
                Err(error) => Err(error),
                Ok(value) => Ok(
                    string_map::with_entry(before, attributes[count - 1].0, value),
                ),
            },
        }
    }
}

proof fn lemma_attribute_error_stays(
    attributes: Seq<(Seq<char>, Seq<TemplatePartView>)>,
    from: nat,
    to: nat,
    values: ValuesView,
)
    requires
        from <= to <= attributes.len(),
        attributes_outcome(attributes, from, values) is Err,
    ensures
        attributes_outcome(attributes, to, values) == attributes_outcome(attributes, from, values),
    decreases to,
{
    if from < to {
        lemma_attribute_error_stays(attributes, from, (to - 1) as nat, values);
    }
}

fn render_attributes(attributes: &StringMap<TemplateText>, values: &InstanceValues) -> (result:
    Result<StringMap<String>, ManifestRenderError>)
    ensures
        super::outcome(result) == attributes_outcome(
            attributes@,
            attributes@.len(),
            values@,
        ),
{
    let mut rendered: StringMap<String> = StringMap::new();
    let length: usize = attributes.len();
    let mut at: usize = 0;
    while at < length
        invariant
            at <= length == attributes@.len(),
            attributes_outcome(attributes@, at as nat, values@) == Ok::<TextMap, RenderErrorView>(
                rendered@,
            ),
        decreases length - at,
    {
        match render_non_empty(
            "volume.source.csi.volume_attributes",
            attributes.value_at(at),
            values,
        ) {
            Err(error) => {
                proof {
                    lemma_attribute_error_stays(
                        attributes@,
                        (at + 1) as nat,
                        attributes@.len(),
                        values@,
                    );
                }
                return Err(error);
            },
            Ok(value) => rendered.insert(attributes.key_at(at).clone(), value),
        }
        at = at + 1;
    }
    Ok(rendered)
}

/// The five references of a CSI volume to Secrets.
pub struct SecretsView {
    pub controller_publish: Option<CsiSecretReferenceView>,
    pub node_stage: Option<CsiSecretReferenceView>,
    pub node_publish: Option<CsiSecretReferenceView>,
    pub controller_expand: Option<CsiSecretReferenceView>,
    pub node_expand: Option<CsiSecretReferenceView>,
}

/// The references of a CSI volume to Secrets, in the order in which they are
/// checked.
pub open spec fn secrets_outcome(
    controller_publish: Option<CsiSecretRefTemplate>,
    node_stage: Option<CsiSecretRefTemplate>,
    node_publish: Option<CsiSecretRefTemplate>,
    controller_expand: Option<CsiSecretRefTemplate>,
    node_expand: Option<CsiSecretRefTemplate>,
    values: ValuesView,
) -> Outcome<SecretsView> {
    match secret_outcome(
        "volume.source.csi.controller_publish_secret_ref.name"@,
        "volume.source.csi.controller_publish_secret_ref.namespace"@,
        controller_publish,
        values,
    ) {
        Err(error) => Err(error),
        Ok(controller_publish) => match secret_outcome(
            "volume.source.csi.node_stage_secret_ref.name"@,
            "volume.source.csi.node_stage_secret_ref.namespace"@,
            node_stage,
            values,
        ) {
            Err(error) => Err(error),
            Ok(node_stage) => match secret_outcome(
                "volume.source.csi.node_publish_secret_ref.name"@,
                "volume.source.csi.node_publish_secret_ref.namespace"@,
                node_publish,
                values,
            ) {
                Err(error) => Err(error),
                Ok(node_publish) => match secret_outcome(
                    "volume.source.csi.controller_expand_secret_ref.name"@,
                    "volume.source.csi.controller_expand_secret_ref.namespace"@,
                    controller_expand,
                    values,
                ) {
                    Err(error) => Err(error),
                    Ok(controller_expand) => match secret_outcome(
                        "volume.source.csi.node_expand_secret_ref.name"@,
                        "volume.source.csi.node_expand_secret_ref.namespace"@,
                        node_expand,
                        values,
                    ) {
                        Err(error) => Err(error),
                        Ok(node_expand) => Ok(
                            SecretsView {
                                controller_publish,
                                node_stage,
                                node_publish,
                                controller_expand,
                                node_expand,
                            },
                        ),
                    },
                },
            },
        },
    }
}

/// Where the bytes of a volume live, once its templates are rendered.
pub open spec fn source_outcome(source: PersistentVolumeSourceTemplate, values: ValuesView) -> Outcome<
    PersistentVolumeSourceView,
> {
    match source {
        PersistentVolumeSourceTemplate::Csi {
            driver,
            volume_handle,
            fs_type,
            read_only,
            volume_attributes,
            controller_publish_secret_ref,
            node_stage_secret_ref,
            node_publish_secret_ref,
            controller_expand_secret_ref,
            node_expand_secret_ref,
        } => match attributes_outcome(volume_attributes@, volume_attributes@.len(), values) {
            Err(error) => Err(error),
            Ok(attributes) => match checks::nonempty_text(
                "volume.source.csi.driver"@,
                driver@,
                values,
            ) {
                Err(error) => Err(error),
                Ok(driver) => match checks::nonempty_text(
                    "volume.source.csi.volume_handle"@,
                    volume_handle@,
                    values,
                ) {
                    Err(error) => Err(error),
                    Ok(volume_handle) => match checks::optional_text(
                        "volume.source.csi.fs_type"@,
                        super::optional_view(fs_type),
                        values,
                    ) {
                        Err(error) => Err(error),
                        Ok(fs_type) => match secrets_outcome(
                            unboxed(controller_publish_secret_ref),
                            unboxed(node_stage_secret_ref),
                            unboxed(node_publish_secret_ref),
                            unboxed(controller_expand_secret_ref),
                            unboxed(node_expand_secret_ref),
                            values,
                        ) {
                            Err(error) => Err(error),
                            Ok(secrets) => Ok(
                                PersistentVolumeSourceView::Csi(
                                    CsiPersistentVolumeSourceView {
                                        driver,
                                        volume_handle,
                                        fs_type,
                                        read_only,
                                        volume_attributes: attributes,
                                        controller_publish_secret_ref: secrets.controller_publish,
                                        node_stage_secret_ref: secrets.node_stage,
                                        node_publish_secret_ref: secrets.node_publish,
                                        controller_expand_secret_ref: secrets.controller_expand,
                                        node_expand_secret_ref: secrets.node_expand,
                                    },
                                ),
                            ),
                        },
                    },
                },
            },
        },
        PersistentVolumeSourceTemplate::HostPath { path, type_ } => match checks::nonempty_text(
            "volume.source.host_path.path"@,
            path@,
            values,
        ) {
            Err(error) => Err(error),
            Ok(rendered) => match host_path_verdict(path@, rendered) {
                Err(error) => Err(error),
                Ok(_) => match checks::optional_text(
                    "volume.source.host_path.type"@,
                    super::optional_view(type_),
                    values,
                ) {
                    Err(error) => Err(error),
                    Ok(type_) => Ok(
                        PersistentVolumeSourceView::HostPath(
                            HostPathPersistentVolumeSourceView { path: rendered, type_ },
                        ),
                    ),
                },
            },
        },
    }
}

fn render_source(source: &PersistentVolumeSourceTemplate, values: &InstanceValues) -> (result:
    Result<PersistentVolumeSource, ManifestRenderError>)
    ensures
        super::outcome(result) == source_outcome(*source, values@),
{
    match source {
        PersistentVolumeSourceTemplate::Csi {
            driver,
            volume_handle,
            fs_type,
            read_only,
            volume_attributes,
            controller_publish_secret_ref,
            node_stage_secret_ref,
            node_publish_secret_ref,
            controller_expand_secret_ref,
            node_expand_secret_ref,
        } => {
            let volume_attributes = render_attributes(volume_attributes, values)?;
            let driver = render_non_empty("volume.source.csi.driver", driver, values)?;
            let volume_handle = render_non_empty(
                "volume.source.csi.volume_handle",
                volume_handle,
                values,
            )?;
            let fs_type = render_optional("volume.source.csi.fs_type", fs_type, values)?;
            let controller_publish_secret_ref = render_csi_secret_ref(
                "volume.source.csi.controller_publish_secret_ref.name",
                "volume.source.csi.controller_publish_secret_ref.namespace",
                controller_publish_secret_ref,
                values,
            )?;
            let node_stage_secret_ref = render_csi_secret_ref(
                "volume.source.csi.node_stage_secret_ref.name",
                "volume.source.csi.node_stage_secret_ref.namespace",
                node_stage_secret_ref,
                values,
            )?;
            let node_publish_secret_ref = render_csi_secret_ref(
                "volume.source.csi.node_publish_secret_ref.name",
                "volume.source.csi.node_publish_secret_ref.namespace",
                node_publish_secret_ref,
                values,
            )?;
            let controller_expand_secret_ref = render_csi_secret_ref(
                "volume.source.csi.controller_expand_secret_ref.name",
                "volume.source.csi.controller_expand_secret_ref.namespace",
                controller_expand_secret_ref,
                values,
            )?;
            let node_expand_secret_ref = render_csi_secret_ref(
                "volume.source.csi.node_expand_secret_ref.name",
                "volume.source.csi.node_expand_secret_ref.namespace",
                node_expand_secret_ref,
                values,
            )?;
            Ok(
                PersistentVolumeSource::Csi(
                    Box::new(
                        CsiPersistentVolumeSource {
                            driver,
                            volume_handle,
                            fs_type,
                            read_only: *read_only,
                            volume_attributes,
                            controller_publish_secret_ref,
                            node_stage_secret_ref,
                            node_publish_secret_ref,
                            controller_expand_secret_ref,
                            node_expand_secret_ref,
                        },
                    ),
                ),
            )
        },
        PersistentVolumeSourceTemplate::HostPath { path, type_ } => {
            let rendered = render_non_empty("volume.source.host_path.path", path, values)?;
            validate_host_path(path, rendered.as_str())?;
            let type_ = render_optional("volume.source.host_path.type", type_, values)?;
            Ok(
                PersistentVolumeSource::HostPath(
                    HostPathPersistentVolumeSource { path: rendered, type_ },
                ),
            )
        },
    }
}

// ---------------------------------------------------------------------------
// Volumes
// ---------------------------------------------------------------------------
/// Some access mode is listed twice.
pub open spec fn mode_repeats(modes: Seq<PersistentVolumeAccessMode>) -> bool {
    exists|i: int, j: int| 0 <= i < j < modes.len() && #[trigger] modes[i] == #[trigger] modes[j]
}

/// A volume has access modes, and none of them twice.
pub open spec fn modes_verdict(modes: Seq<PersistentVolumeAccessMode>) -> Outcome<()> {
    if modes.len() == 0 {
        super::invalid_field("volume.access_modes"@, "at least one access mode is required"@)
    } else if mode_repeats(modes) {
        super::invalid_field("volume.access_modes"@, "access modes must not contain duplicates"@)
    } else {
        Ok(())
    }
}

fn has_duplicate_mode(modes: &Vec<PersistentVolumeAccessMode>) -> (found: bool)
    ensures
        found == mode_repeats(modes@),
{
    let mut later: usize = 0;
    while later < modes.len()
        invariant
            later <= modes.len(),
            forall|i: int, j: int|
                0 <= i < j < later ==> #[trigger] modes@[i] != #[trigger] modes@[j],
        decreases modes.len() - later,
    {
        let mut earlier: usize = 0;
        while earlier < later
            invariant
                earlier <= later < modes.len(),
                forall|i: int| 0 <= i < earlier ==> #[trigger] modes@[i] != modes@[later as int],
            decreases later - earlier,
        {
            if modes[earlier] == modes[later] {
                return true;
            }
            earlier = earlier + 1;
        }
        later = later + 1;
    }
    false
}

fn validate_access_modes(modes: &Vec<PersistentVolumeAccessMode>) -> (result: Result<
    (),
    ManifestRenderError,
>)
    ensures
        super::verdict(result) == modes_verdict(modes@),
{
    if modes.len() == 0 {
        return Err(field_error("volume.access_modes", "at least one access mode is required"));
    }
    if has_duplicate_mode(modes) {
        return Err(field_error("volume.access_modes", "access modes must not contain duplicates"));
    }
    Ok(())
}

/// The path in the container at which a volume stands.
pub open spec fn mount_path_outcome(parts: Seq<TemplatePartView>, values: ValuesView) -> Outcome<
    Seq<char>,
> {
    match checks::nonempty_text("volume.mount_path"@, parts, values) {
        Err(error) => Err(error),
        Ok(path) => if absolute(path) {
            Ok(path)
        } else {
            super::invalid_field(
                "volume.mount_path"@,
                "mount path "@ + text::quoted_text(path) + " must be absolute"@,
            )
        },
    }
}

fn render_mount_path(template: &TemplateText, values: &InstanceValues) -> (result: Result<
    String,
    ManifestRenderError,
>)
    ensures
        super::outcome(result) == mount_path_outcome(template@, values@),
{
    let path = render_non_empty("volume.mount_path", template, values)?;
    if !is_absolute(path.as_str()) {
        let message = "mount path ".to_owned().concat(quoted(path.as_str()).as_str()).concat(
            " must be absolute",
        );
        return Err(field_error("volume.mount_path", message.as_str()));
    }
    Ok(path)
}

/// The volume that a template makes for an instance. The checks come in the order
/// in which the result names what they check; the namespace comes last.
pub open spec fn volume_outcome(
    volume: VolumeTemplate,
    values: ValuesView,
    id: Seq<char>,
    namespace: Seq<char>,
) -> Outcome<RenderedVolumeView> {
    match checks::dns_verdict("volume.name"@, volume.name@) {
        Err(error) => Err(error),
        Ok(_) => match modes_verdict(volume.access_modes@) {
            Err(error) => Err(error),
            Ok(_) => match mount_path_outcome(volume.mount_path@, values) {
                Err(error) => Err(error),
                Ok(mount_path) => match checks::object_name(
                    "volume.pv_name"@,
                    volume.pv_name@,
                    values,
                    id,
                ) {
                    Err(error) => Err(error),
                    Ok(pv_name) => match checks::object_name(
                        "volume.pvc_name"@,
                        volume.pvc_name@,
                        values,
                        id,
                    ) {
                        Err(error) => Err(error),
                        Ok(pvc_name) => match checks::nonempty_text(
                            "volume.capacity"@,
                            volume.capacity@,
                            values,
                        ) {
                            Err(error) => Err(error),
                            Ok(capacity) => match checks::optional_text(
                                "volume.storage_class_name"@,
                                super::optional_view(volume.storage_class_name),
                                values,
                            ) {
                                Err(error) => Err(error),
                                Ok(storage_class_name) => match source_outcome(
                                    volume.source,
                                    values,
                                ) {
                                    Err(error) => Err(error),
                                    Ok(source) => match checks::dns_verdict(
                                        "namespace"@,
                                        namespace,
                                    ) {
                                        Err(error) => Err(error),
                                        Ok(_) => Ok(
                                            RenderedVolumeView {
                                                volume_name: volume.name@,
                                                mount_path,
                                                pv_name,
                                                pvc_name,
                                                access_modes: volume.access_modes@,
                                                capacity,
                                                reclaim_policy: volume.reclaim_policy,
                                                storage_class_name,
                                                source,
                                            },
                                        ),
                                    },
                                },
                            },
                        },
                    },
                },
            },
        },
    }
}

/// Renders a volume of an instance.
pub fn render_volume(template: &VolumeTemplate, instance: &InstanceRecord, namespace: &str) -> (result:
    Result<RenderedVolume, ManifestRenderError>)
    ensures
        super::outcome(result) == volume_outcome(
            *template,
            instance.values@,
            instance.id@,
            namespace@,
        ),
{
    let values = &instance.values;
    validate_dns_label("volume.name", template.name.as_str())?;
    validate_access_modes(&template.access_modes)?;
    let mount_path = render_mount_path(&template.mount_path, values)?;
    let pv_name = render_object_name("volume.pv_name", &template.pv_name, values, &instance.id)?;
    let pvc_name = render_object_name("volume.pvc_name", &template.pvc_name, values, &instance.id)?;
    let capacity = render_non_empty("volume.capacity", &template.capacity, values)?;
    let storage_class_name = render_optional(
        "volume.storage_class_name",
        &template.storage_class_name,
        values,
    )?;
    let source = render_source(&template.source, values)?;
    validate_namespace(namespace)?;
    Ok(
        RenderedVolume {
            volume_name: template.name.clone(),
            mount_path,
            pv_name,
            pvc_name,
            access_modes: copied_modes(&template.access_modes),
            capacity,
            reclaim_policy: template.reclaim_policy,
            storage_class_name,
            source,
        },
    )
}

/// The first `count` volumes of an instance.
pub open spec fn volumes_outcome(
    volumes: Seq<VolumeTemplate>,
    count: nat,
    values: ValuesView,
    id: Seq<char>,
    namespace: Seq<char>,
) -> Outcome<Seq<RenderedVolumeView>>
    decreases count,
{
    if count == 0 || count > volumes.len() {
        Ok(Seq::empty())
    } else {
        match volumes_outcome(volumes, (count - 1) as nat, values, id, namespace) {
            Err(error) => Err(error),
            Ok(before) => match volume_outcome(volumes[count - 1], values, id, namespace) {
                Err(error) => Err(error),
                Ok(volume) => Ok(before.push(volume)),
            },
        }
    }
}

proof fn lemma_volume_error_stays(
    volumes: Seq<VolumeTemplate>,
    from: nat,
    to: nat,
    values: ValuesView,
    id: Seq<char>,
    namespace: Seq<char>,
)
    requires
        from <= to <= volumes.len(),
        volumes_outcome(volumes, from, values, id, namespace) is Err,
    ensures
        volumes_outcome(volumes, to, values, id, namespace) == volumes_outcome(
            volumes,
            from,
            values,
            id,
            namespace,
        ),
    decreases to,
{
    if from < to {
        lemma_volume_error_stays(volumes, from, (to - 1) as nat, values, id, namespace);
    }
}

/// Renders the volumes of an instance, in their order.
pub fn render_volumes(
    volumes: &Vec<VolumeTemplate>,
    instance: &InstanceRecord,
    namespace: &str,
) -> (result: Result<Vec<RenderedVolume>, ManifestRenderError>)
    ensures
        (match result {
            Ok(rendered) => Ok(super::views(rendered@)),
            Err(error) => Err(error@),
        }) == volumes_outcome(
            volumes@,
            volumes@.len(),
            instance.values@,
            instance.id@,
            namespace@,
        ),
{
    let mut rendered: Vec<RenderedVolume> = Vec::new();
    let mut at: usize = 0;
    assert(super::views(rendered@) =~= Seq::<RenderedVolumeView>::empty());
    while at < volumes.len()
        invariant
            at <= volumes.len(),
            volumes_outcome(
                volumes@,
                at as nat,
                instance.values@,
                instance.id@,
                namespace@,
            ) == Ok::<Seq<RenderedVolumeView>, RenderErrorView>(super::views(rendered@)),
        decreases volumes.len() - at,
    {
        match render_volume(&volumes[at], instance, namespace) {
            Err(error) => {
                proof {
                    lemma_volume_error_stays(
                        volumes@,
                        (at + 1) as nat,
                        volumes@.len(),
                        instance.values@,
                        instance.id@,
                        namespace@,
                    );
                }
                return Err(error);
            },
            Ok(volume) => {
                let ghost before = rendered@;
                rendered.push(volume);
                assert(super::views(rendered@) =~= super::views(before).push(volume@));
            },
        }
        at = at + 1;
    }
    Ok(rendered)
}

} // verus!
