//! Rendering of a workload class and an instance into Kubernetes objects.

pub mod acceptance_laws;
pub mod bind;
pub mod bind_laws;
pub mod checks;
pub mod inventory;
pub mod labels;
pub mod laws;
pub mod objects;
pub mod pod;
pub mod raw;
pub mod raw_laws;
pub mod readiness;
pub mod render;
pub mod render_laws;
pub mod serialize;
pub mod serialize_laws;
pub mod template;
pub mod volume;

use crate::auth::BearerToken;
use crate::ids::Generation;
use crate::instance::{InstanceRecord, ResolvedSleepPolicy};
use crate::text::{self, decimal_text, quoted};
use template::{ManifestTemplate, WorkloadKind};
use vstd::prelude::*;
use vstd::string::*;

verus! {

pub const LABEL_INSTANCE_ID: &'static str = "sleepypods.io/instance-id";

pub const LABEL_INSTANCE_GENERATION: &'static str = "sleepypods.io/instance-generation";

pub const LABEL_WORKLOAD_CLASS_ID: &'static str = "sleepypods.io/workload-class-id";

pub const LABEL_WORKLOAD_CLASS_VERSION: &'static str = "sleepypods.io/workload-class-version";

pub const LABEL_WORKLOAD_NAME: &'static str = "sleepypods.io/workload-name";

pub const ANNOTATION_TEMPLATE_GENERATION: &'static str = "sleepypods.io/template-generation";

/// What to render, and for whom.
#[derive(Clone, Debug, PartialEq, Eq)]
pub struct RenderManifestRequest<'a> {
    pub template: &'a ManifestTemplate,
    pub instance: &'a InstanceRecord,
    pub sleep_policy: ResolvedSleepPolicy,
    pub namespace: &'a str,
    pub template_generation: Option<Generation>,
}

/// How the sidecar reaches the control plane.
#[derive(Clone, Copy, Debug, PartialEq, Eq)]
pub struct RenderManifestOptions<'a> {
    pub sidecar_control_plane_token: Option<&'a BearerToken>,
    pub sidecar_control_plane_endpoint: Option<&'a str>,
    pub sidecar_control_plane_ca: Option<&'a str>,
}

/// Why a manifest cannot be rendered.
#[allow(inconsistent_fields)]
#[derive(Clone, Debug, PartialEq, Eq)]
pub enum ManifestRenderError {
    MissingInstanceValue { field: String },
    InvalidName { field: &'static str, value: String },
    InvalidField { field: &'static str, message: String },
    InvalidReplicas { kind: WorkloadKind, replicas: u32, message: String },
}

/// The mathematical model of a [`ManifestRenderError`].
#[verifier::ext_equal]
pub enum RenderErrorView {
    MissingInstanceValue { field: Seq<char> },
    InvalidName { field: Seq<char>, value: Seq<char> },
    InvalidField { field: Seq<char>, message: Seq<char> },
    InvalidReplicas { kind: WorkloadKind, replicas: u32, message: Seq<char> },
}

impl View for ManifestRenderError {
    type V = RenderErrorView;

    open spec fn view(&self) -> RenderErrorView {
        match self {
            ManifestRenderError::MissingInstanceValue { field } => {
                RenderErrorView::MissingInstanceValue { field: field@ }
            },
            ManifestRenderError::InvalidName { field, value } => {
                RenderErrorView::InvalidName { field: field@, value: value@ }
            },
            ManifestRenderError::InvalidField { field, message } => {
                RenderErrorView::InvalidField { field: field@, message: message@ }
            },
            ManifestRenderError::InvalidReplicas { kind, replicas, message } => {
                RenderErrorView::InvalidReplicas {
                    kind: *kind,
                    replicas: *replicas,
                    message: message@,
                }
            },
        }
    }
}

/// The model of what rendering gives: a value, or the reason why there is none.
pub type Outcome<T> = Result<T, RenderErrorView>;

/// The model of a rendering whose value has a model.
pub open spec fn outcome<T: View>(result: Result<T, ManifestRenderError>) -> Outcome<T::V> {
    match result {
        Ok(value) => Ok(value@),
        Err(error) => Err(error@),
    }
}

/// The model of a check.
pub open spec fn verdict(result: Result<(), ManifestRenderError>) -> Outcome<()> {
    match result {
        Ok(_) => Ok(()),
        Err(error) => Err(error@),
    }
}

/// A field that holds what it must not.
pub open spec fn invalid_field<T>(field: Seq<char>, message: Seq<char>) -> Outcome<T> {
    Err(RenderErrorView::InvalidField { field, message })
}

/// A field that holds what it must not.
pub fn field_error(field: &'static str, message: &str) -> (error: ManifestRenderError)
    ensures
        error@ == (RenderErrorView::InvalidField { field: field@, message: message@ }),
{
    ManifestRenderError::InvalidField { field, message: message.to_owned() }
}

/// The models of a sequence of values.
pub open spec fn views<T: View>(items: Seq<T>) -> Seq<T::V> {
    Seq::new(items.len(), |i: int| items[i]@)
}

/// The model of a value that may be absent.
pub open spec fn optional_view<T: View>(item: Option<T>) -> Option<T::V> {
    match item {
        Some(value) => Some(value@),
        None => None,
    }
}

/// The sentence that tells an operator why rendering failed.
pub open spec fn render_error_text(error: RenderErrorView) -> Seq<char> {
    match error {
        RenderErrorView::MissingInstanceValue { field } => {
            "missing instance value "@ + text::quoted_text(field)
        },
        RenderErrorView::InvalidName { field, value } => {
            field + " rendered invalid Kubernetes name "@ + text::quoted_text(value)
        },
        RenderErrorView::InvalidField { field, message } => {
            field + " is invalid: "@ + message
        },
        RenderErrorView::InvalidReplicas { kind, replicas, message } => {
            (match kind {
                WorkloadKind::Deployment => "Deployment"@,
                WorkloadKind::StatefulSet => "StatefulSet"@,
            }) + " replicas "@ + text::decimal(replicas as nat) + " are invalid: "@ + message
        },
    }
}

impl ManifestRenderError {
    /// The sentence that tells an operator why rendering failed.
    pub fn to_text(&self) -> (sentence: String)
        ensures
            sentence@ == render_error_text(self@),
    {
        match self {
            ManifestRenderError::MissingInstanceValue { field } => {
                "missing instance value ".to_owned().concat(quoted(field.as_str()).as_str())
            },
            ManifestRenderError::InvalidName { field, value } => {
                (*field).to_owned().concat(" rendered invalid Kubernetes name ").concat(
                    quoted(value.as_str()).as_str(),
                )
            },
            ManifestRenderError::InvalidField { field, message } => {
                (*field).to_owned().concat(" is invalid: ").concat(message.as_str())
            },
            ManifestRenderError::InvalidReplicas { kind, replicas, message } => {
                let name = match kind {
                    WorkloadKind::Deployment => "Deployment",
                    WorkloadKind::StatefulSet => "StatefulSet",
                };
                name.to_owned().concat(" replicas ").concat(
                    decimal_text(*replicas as u64).as_str(),
                ).concat(" are invalid: ").concat(message.as_str())
            },
        }
    }
}

} // verus!
