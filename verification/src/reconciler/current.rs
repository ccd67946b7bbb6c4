//! The manifest that an instance has now.

use super::job::{self, JobAction, JobView};
use super::{MaterializationReconcileError, MaterializationReconcilerConfig, ReconcileErrorView};
use crate::ids::Generation;
use crate::instance::{InstanceRecord, ResolvedSleepPolicy};
use crate::manifest::objects::{RenderedManifest, RenderedManifestView};
use crate::manifest::pod::{self, OptionsView};
use crate::manifest::render::{self, render_manifests_with_options};
use crate::manifest::template::ManifestTemplate;
use crate::manifest::{self, RenderManifestOptions, RenderManifestRequest};
use crate::materialization::MaterializationRecord;
use crate::store::{StoreError, StoreErrorView};
use vstd::prelude::*;

verus! {

/// What the store holds of the class version that an instance runs.
#[derive(Debug, PartialEq, Eq)]
pub struct CurrentClass {
    pub template: ManifestTemplate,
    pub template_generation: Generation,
    /// What the values of the instance settle of its sleep, or why they settle
    /// nothing.
    pub sleep_policy: Result<ResolvedSleepPolicy, String>,
}

/// What is rendered for an instance of a class in the namespace of its
/// materialization.
pub open spec fn rendered_request<'a>(
    request: RenderManifestRequest<'a>,
    class: CurrentClass,
    sleep_policy: ResolvedSleepPolicy,
    instance: InstanceRecord,
    materialization: MaterializationRecord,
) -> bool {
    &&& *request.template == class.template
    &&& *request.instance == instance
    &&& request.sleep_policy == sleep_policy
    &&& request.namespace@ == materialization.target@.namespace
    &&& request.template_generation == Some(class.template_generation)
}

/// What a manifest that was asked for came to.
pub open spec fn manifest_answer(
    result: Result<RenderedManifest, MaterializationReconcileError>,
) -> Result<RenderedManifestView, ReconcileErrorView> {
    match result {
        Ok(rendered) => Ok(rendered@),
        Err(error) => Err(error@),
    }
}

/// What rendering comes to, with the sentence of what stopped it.
pub open spec fn told(
    outcome: manifest::Outcome<RenderedManifestView>,
) -> Result<RenderedManifestView, ReconcileErrorView> {
    match outcome {
        Ok(rendered) => Ok(rendered),
        Err(error) => Err(ReconcileErrorView::Render(manifest::render_error_text(error))),
    }
}

/// Renders the manifest that an instance has now, from what the store answered
/// when it was asked for the class of the instance.
pub fn render_current_manifest(
    class: Result<Option<CurrentClass>, StoreError>,
    instance: &InstanceRecord,
    materialization: &MaterializationRecord,
    options: RenderManifestOptions<'_>,
) -> (result: Result<RenderedManifest, MaterializationReconcileError>)
    ensures
        match class {
            Err(error) => manifest_answer(result) == Err::<RenderedManifestView, _>(
                ReconcileErrorView::Store(error@),
            ),
            Ok(None) => manifest_answer(result) == Err::<RenderedManifestView, _>(
                ReconcileErrorView::Store(
                    StoreErrorView::NotFound { resource: "workload class version"@ },
                ),
            ),
            Ok(Some(class)) => match class.sleep_policy {
                Err(message) => manifest_answer(result) == Err::<RenderedManifestView, _>(
                    ReconcileErrorView::Render(message@),
                ),
                Ok(sleep_policy) => exists|request: RenderManifestRequest| #[trigger]
                    rendered_request(request, class, sleep_policy, *instance, *materialization)
                        && manifest_answer(result) == told(
                        render::manifest_outcome(request, pod::options_view(options)),
                    ),
            },
        },
        result matches Ok(rendered) ==> render::all_serializable(rendered@.objects),
{
    let class = match class {
        Err(error) => return Err(MaterializationReconcileError::Store(error)),
        Ok(None) => {
            return Err(
                MaterializationReconcileError::Store(
                    StoreError::NotFound { resource: "workload class version" },
                ),
            );
        },
        Ok(Some(class)) => class,
    };
    let sleep_policy = match class.sleep_policy {
        Err(message) => return Err(MaterializationReconcileError::Render(message)),
        Ok(sleep_policy) => sleep_policy,
    };
    let request = RenderManifestRequest {
        template: &class.template,
        instance,
        sleep_policy,
        namespace: materialization.target.namespace(),
        template_generation: Some(class.template_generation),
    };
    assert(rendered_request(request, class, sleep_policy, *instance, *materialization));
    match render_manifests_with_options(request, options) {
        Ok(rendered) => Ok(rendered),
        Err(error) => Err(MaterializationReconcileError::Render(error.to_text())),
    }
}

/// What is rendered for a wake carries the generation that the materialization was
/// accepted with.
pub proof fn law_a_wake_renders_its_own_generation(
    job: JobView,
    config: MaterializationReconcilerConfig,
    action: JobAction,
    request: RenderManifestRequest<'_>,
    options: OptionsView,
)
    requires
        job.phase is Rendering,
        job::asks(job, config, action),
        action matches JobAction::Render(projected) && *request.instance == projected,
    ensures
        render::manifest_outcome(request, options) matches Ok(rendered)
            ==> rendered.instance_generation == job.claimed->Some_0.projection_generation@,
{
}

} // verus!
