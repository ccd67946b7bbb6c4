//! What a class author writes: a manifest with places for instance values.

use super::{ManifestRenderError, Outcome, RenderErrorView};
use crate::instance::InstanceValues;
use crate::string_map::{self, StringMap};
use vstd::prelude::*;
use vstd::string::*;

verus! {

/// A text with places for instance values.
#[derive(Clone, Debug, PartialEq, Eq)]
pub struct TemplateText {
    parts: Vec<TemplateTextPart>,
}

/// A piece of a template text.
#[derive(Clone, Debug, PartialEq, Eq)]
pub enum TemplateTextPart {
    Literal(String),
    InstanceValue(String),
}

/// The mathematical model of a [`TemplateTextPart`].
#[verifier::ext_equal]
pub enum TemplatePartView {
    Literal(Seq<char>),
    InstanceValue(Seq<char>),
}

impl View for TemplateTextPart {
    type V = TemplatePartView;

    open spec fn view(&self) -> TemplatePartView {
        match self {
            TemplateTextPart::Literal(value) => TemplatePartView::Literal(value@),
            TemplateTextPart::InstanceValue(field) => TemplatePartView::InstanceValue(field@),
        }
    }
}

impl View for TemplateText {
    type V = Seq<TemplatePartView>;

    closed spec fn view(&self) -> Seq<TemplatePartView> {
        super::views(self.parts@)
    }
}

/// The text that a template makes of instance values: its pieces one after the
/// other, with each value in the place of its field. The first field without a
/// value is reported.
pub open spec fn rendered_text(
    parts: Seq<TemplatePartView>,
    values: Seq<(Seq<char>, Seq<char>)>,
) -> Outcome<Seq<char>>
    decreases parts.len(),
{
    if parts.len() == 0 {
        Ok(Seq::empty())
    } else {
        match rendered_text(parts.drop_last(), values) {
            Err(error) => Err(error),
            Ok(before) => match parts.last() {
                TemplatePartView::Literal(value) => Ok(before + value),
                TemplatePartView::InstanceValue(field) => match string_map::entry_of(
                    values,
                    field,
                ) {
                    Some(value) => Ok(before + value),
                    None => Err(RenderErrorView::MissingInstanceValue { field }),
                },
            },
        }
    }
}

/// No piece waits for a value.
pub open spec fn all_fixed(parts: Seq<TemplatePartView>) -> bool {
    forall|i: int| 0 <= i < parts.len() ==> #[trigger] parts[i] is Literal
}

/// The text that the class author fixed at the front: the literal pieces before
/// the first place for a value, one after the other.
pub open spec fn fixed_front(parts: Seq<TemplatePartView>) -> Seq<char>
    decreases parts.len(),
{
    if parts.len() == 0 {
        Seq::empty()
    } else {
        let before = fixed_front(parts.drop_last());
        match parts.last() {
            TemplatePartView::Literal(value) if all_fixed(parts.drop_last()) => before + value,
            _ => before,
        }
    }
}

proof fn lemma_error_stays(
    parts: Seq<TemplatePartView>,
    values: Seq<(Seq<char>, Seq<char>)>,
    length: int,
)
    requires
        0 <= length <= parts.len(),
        rendered_text(parts.take(length), values) is Err,
    ensures
        rendered_text(parts, values) == rendered_text(parts.take(length), values),
    decreases parts.len() - length,
{
    if length < parts.len() {
        assert(parts.take(length + 1).drop_last() =~= parts.take(length));
        lemma_error_stays(parts, values, length + 1);
    } else {
        assert(parts.take(length) =~= parts);
    }
}

/// The text that the class author fixed at the front stands at the front of what
/// every instance renders, and it is the whole of it where nothing waits for a
/// value.
pub proof fn law_fixed_front_is_rendered(
    parts: Seq<TemplatePartView>,
    values: Seq<(Seq<char>, Seq<char>)>,
)
    requires
        rendered_text(parts, values) is Ok,
    ensures
        crate::text::opens_with(rendered_text(parts, values)->Ok_0, fixed_front(parts)),
        all_fixed(parts) ==> rendered_text(parts, values)->Ok_0 == fixed_front(parts),
    decreases parts.len(),
{
    let whole = rendered_text(parts, values)->Ok_0;
    let front = fixed_front(parts);
    if parts.len() > 0 {
        law_fixed_front_is_rendered(parts.drop_last(), values);
        let before = rendered_text(parts.drop_last(), values)->Ok_0;
        let old_front = fixed_front(parts.drop_last());
        assert(whole.take(old_front.len() as int) =~= before.take(old_front.len() as int));
        if all_fixed(parts) {
            assert forall|i: int| 0 <= i < parts.len() - 1 implies #[trigger] parts.drop_last()[i]
                is Literal by {
                assert(parts.drop_last()[i] == parts[i]);
            }
            assert(parts[parts.len() - 1] is Literal);
        }
        assert(whole.take(front.len() as int) =~= front);
    } else {
        assert(whole.take(0) =~= front);
    }
}

/// What stands from the first place for a value on adds nothing to the text at
/// the front, which is empty where a value comes first.
pub proof fn law_fixed_front_ends_at_a_value(parts: Seq<TemplatePartView>, at: int)
    requires
        0 <= at < parts.len(),
        parts[at] is InstanceValue,
    ensures
        fixed_front(parts) == fixed_front(parts.take(at)),
        at == 0 ==> fixed_front(parts) == Seq::<char>::empty(),
    decreases parts.len(),
{
    let shorter = parts.drop_last();
    if at == parts.len() - 1 {
        assert(shorter =~= parts.take(at));
    } else {
        assert(shorter[at] == parts[at]);
        law_fixed_front_ends_at_a_value(shorter, at);
        assert(shorter.take(at) =~= parts.take(at));
    }
}

impl TemplateText {
    /// A text without places for values.
    pub fn literal(value: &str) -> (template: TemplateText)
        ensures
            template@ == seq![TemplatePartView::Literal(value@)],
    {
        let mut parts: Vec<TemplateTextPart> = Vec::new();
        parts.push(TemplateTextPart::literal(value));
        let template = TemplateText { parts };
        assert(template@ =~= seq![TemplatePartView::Literal(value@)]);
        template
    }

    /// The value of a field.
    pub fn instance_value(field: &str) -> (template: TemplateText)
        ensures
            template@ == seq![TemplatePartView::InstanceValue(field@)],
    {
        let mut parts: Vec<TemplateTextPart> = Vec::new();
        parts.push(TemplateTextPart::instance_value(field));
        let template = TemplateText { parts };
        assert(template@ =~= seq![TemplatePartView::InstanceValue(field@)]);
        template
    }

    /// Pieces one after the other.
    pub fn from_parts(parts: Vec<TemplateTextPart>) -> (template: TemplateText)
        ensures
            template@ == super::views(parts@),
    {
        TemplateText { parts }
    }

    /// The pieces of the text.
    pub fn parts(&self) -> (parts: &[TemplateTextPart])
        ensures
            super::views(parts@) == self@,
    {
        self.parts.as_slice()
    }

    /// The text the class author fixed at the front, which renders the same for
    /// every instance. Empty when an instance value comes first.
    pub fn literal_prefix(&self) -> (prefix: String)
        ensures
            prefix@ == fixed_front(self@),
    {
        let mut prefix = String::new();
        let mut index: usize = 0;
        assert(self@.take(0) =~= Seq::<TemplatePartView>::empty());
        while index < self.parts.len()
            invariant
                index <= self.parts.len(),
                self@.len() == self.parts@.len(),
                forall|i: int| 0 <= i < self@.len() ==> #[trigger] self@[i] == self.parts@[i]@,
                all_fixed(self@.take(index as int)),
                prefix@ == fixed_front(self@.take(index as int)),
            decreases self.parts.len() - index,
        {
            proof {
                let next = self@.take(index + 1);
                assert(next.drop_last() =~= self@.take(index as int));
                assert(next.last() == self.parts@[index as int]@);
            }
            match &self.parts[index] {
                TemplateTextPart::Literal(literal) => {
                    prefix.append(literal.as_str());
                    proof {
                        let next = self@.take(index + 1);
                        assert forall|i: int| 0 <= i < next.len() implies #[trigger] next[i]
                            is Literal by {
                            assert(i < index ==> next[i] == self@.take(index as int)[i]);
                        }
                    }
                },
                TemplateTextPart::InstanceValue(_) => {
                    proof {
                        law_fixed_front_ends_at_a_value(self@, index as int);
                    }
                    return prefix;
                },
            }
            index = index + 1;
        }
        assert(self@.take(index as int) =~= self@);
        prefix
    }

    /// The text that the template makes of instance values.
    pub fn render(&self, values: &InstanceValues) -> (result: Result<String, ManifestRenderError>)
        ensures
            super::outcome(result) == rendered_text(self@, values@),
    {
        let mut rendered = String::new();
        let mut index: usize = 0;
        assert(self@.take(0) =~= Seq::<TemplatePartView>::empty());
        while index < self.parts.len()
            invariant
                index <= self.parts.len(),
                self@.len() == self.parts@.len(),
                forall|i: int| 0 <= i < self@.len() ==> #[trigger] self@[i] == self.parts@[i]@,
                rendered_text(self@.take(index as int), values@) == Ok::<Seq<char>, RenderErrorView>(
                    rendered@,
                ),
            decreases self.parts.len() - index,
        {
            proof {
                let next = self@.take(index + 1);
                assert(next.drop_last() =~= self@.take(index as int));
                assert(next.last() == self.parts@[index as int]@);
            }
            match &self.parts[index] {
                TemplateTextPart::Literal(value) => rendered.append(value.as_str()),
                TemplateTextPart::InstanceValue(field) => match values.get(field.as_str()) {
                    Some(value) => rendered.append(value.as_str()),
                    None => {
                        proof {
                            lemma_error_stays(self@, values@, index + 1);
                        }
                        return Err(
                            ManifestRenderError::MissingInstanceValue { field: field.clone() },
                        );
                    },
                },
            }
            index = index + 1;
        }
        assert(self@.take(index as int) =~= self@);
        Ok(rendered)
    }
}

impl TemplateTextPart {
    /// A piece that is the same for every instance.
    pub fn literal(value: &str) -> (part: TemplateTextPart)
        ensures
            part@ == TemplatePartView::Literal(value@),
    {
        TemplateTextPart::Literal(value.to_owned())
    }

    /// A piece that an instance supplies.
    pub fn instance_value(field: &str) -> (part: TemplateTextPart)
        ensures
            part@ == TemplatePartView::InstanceValue(field@),
    {
        TemplateTextPart::InstanceValue(field.to_owned())
    }
}

/// What a workload class renders.
#[derive(Clone, Debug, PartialEq, Eq)]
pub struct ManifestTemplate {
    pub workload: WorkloadTemplate,
    pub sidecar: SidecarTemplate,
    pub service: Option<ServiceTemplate>,
    pub volumes: Vec<VolumeTemplate>,
    pub raw_objects: Vec<RawKubernetesManifestTemplate>,
}

#[derive(Clone, Debug, PartialEq, Eq)]
pub struct WorkloadTemplate {
    pub kind: WorkloadKind,
    pub name: TemplateText,
    pub replicas: Option<u32>,
    pub app_container: ContainerTemplate,
}

#[derive(Clone, Copy, Debug, PartialEq, Eq, Structural)]
pub enum WorkloadKind {
    Deployment,
    StatefulSet,
}

#[derive(Clone, Debug, PartialEq, Eq)]
pub struct ContainerTemplate {
    pub name: String,
    pub image: TemplateText,
    pub ports: Vec<ContainerPortTemplate>,
    pub env: Vec<EnvVarTemplate>,
}

#[derive(Clone, Debug, PartialEq, Eq)]
pub struct ContainerPortTemplate {
    pub name: Option<String>,
    pub container_port: u16,
}

#[derive(Clone, Debug, PartialEq, Eq)]
pub struct EnvVarTemplate {
    pub name: String,
    pub value: TemplateText,
}

#[derive(Clone, Debug, PartialEq, Eq)]
pub struct SidecarTemplate {
    pub name: String,
    pub image: TemplateText,
    pub listen_port: u16,
    pub mode: Option<String>,
}

#[derive(Clone, Debug, PartialEq, Eq)]
pub struct ServiceTemplate {
    pub name: TemplateText,
    pub ports: Vec<ServicePortTemplate>,
}

#[derive(Clone, Debug, PartialEq, Eq)]
pub struct ServicePortTemplate {
    pub name: Option<String>,
    pub port: u16,
    pub target_port: u16,
}

#[derive(Clone, Debug, PartialEq, Eq)]
pub struct VolumeTemplate {
    pub name: String,
    pub mount_path: TemplateText,
    pub pv_name: TemplateText,
    pub pvc_name: TemplateText,
    pub access_modes: Vec<PersistentVolumeAccessMode>,
    pub capacity: TemplateText,
    pub reclaim_policy: PersistentVolumeReclaimPolicy,
    pub storage_class_name: Option<TemplateText>,
    pub source: PersistentVolumeSourceTemplate,
}

#[derive(Clone, Debug, PartialEq, Eq)]
pub struct RawKubernetesManifestTemplate {
    pub manifest: TemplateText,
}

#[derive(Clone, Copy, Debug, PartialEq, Eq, Structural)]
pub enum PersistentVolumeAccessMode {
    ReadWriteOnce,
    ReadOnlyMany,
    ReadWriteMany,
}

#[derive(Clone, Copy, Debug, PartialEq, Eq, Structural)]
pub enum PersistentVolumeReclaimPolicy {
    Retain,
    Delete,
}

#[derive(Clone, Debug, PartialEq, Eq)]
pub enum PersistentVolumeSourceTemplate {
    Csi {
        driver: TemplateText,
        volume_handle: TemplateText,
        fs_type: Option<TemplateText>,
        read_only: bool,
        volume_attributes: StringMap<TemplateText>,
        controller_publish_secret_ref: Option<Box<CsiSecretRefTemplate>>,
        node_stage_secret_ref: Option<Box<CsiSecretRefTemplate>>,
        node_publish_secret_ref: Option<Box<CsiSecretRefTemplate>>,
        controller_expand_secret_ref: Option<Box<CsiSecretRefTemplate>>,
        node_expand_secret_ref: Option<Box<CsiSecretRefTemplate>>,
    },
    HostPath { path: TemplateText, type_: Option<TemplateText> },
}

#[derive(Clone, Debug, PartialEq, Eq)]
pub struct CsiSecretRefTemplate {
    pub name: TemplateText,
    pub namespace: TemplateText,
}

/// How many replicas a workload asks for: one where it does not say.
pub open spec fn replicas_of(workload: WorkloadTemplate) -> u32 {
    match workload.replicas {
        Some(count) => count,
        None => 1,
    }
}

/// A workload runs as exactly one replica.
pub open spec fn replicas_verdict(workload: WorkloadTemplate) -> Outcome<()> {
    if replicas_of(workload) == 1 {
        Ok(())
    } else {
        Err(
            RenderErrorView::InvalidReplicas {
                kind: workload.kind,
                replicas: replicas_of(workload),
                message: "automatic sleep requires exactly one replica"@,
            },
        )
    }
}

impl WorkloadTemplate {
    /// Every sidecar observation must describe the whole supported workload.
    pub fn validate_replicas(&self) -> (result: Result<(), ManifestRenderError>)
        ensures
            super::verdict(result) == replicas_verdict(*self),
    {
        let replicas: u32 = match self.replicas {
            Some(count) => count,
            None => 1,
        };
        if replicas != 1 {
            return Err(
                ManifestRenderError::InvalidReplicas {
                    kind: self.kind,
                    replicas,
                    message: "automatic sleep requires exactly one replica".to_owned(),
                },
            );
        }
        Ok(())
    }
}

} // verus!
