//! Labels and annotations of the objects of an instance.

use super::checks::{self, validate_label_value};
use super::objects::TextMap;
use super::{
    ManifestRenderError, Outcome, ANNOTATION_TEMPLATE_GENERATION, LABEL_INSTANCE_GENERATION,
    LABEL_INSTANCE_ID, LABEL_WORKLOAD_CLASS_ID, LABEL_WORKLOAD_CLASS_VERSION,
    LABEL_WORKLOAD_NAME,
};
use crate::ids::Generation;
use crate::instance::InstanceRecord;
use crate::string_map::{self, StringMap};
use crate::text;
use vstd::prelude::*;

verus! {

/// A map with a label more, whose value Kubernetes must take.
pub open spec fn labelled(labels: Outcome<TextMap>, field: Seq<char>, value: Seq<char>) -> Outcome<
    TextMap,
> {
    match labels {
        Err(error) => Err(error),
        Ok(labels) => match checks::label_verdict(field, value) {
            Err(error) => Err(error),
            Ok(_) => Ok(string_map::with_entry(labels, field, value)),
        },
    }
}

fn add_label(labels: &mut StringMap<String>, field: &'static str, value: &str) -> (result: Result<
    (),
    ManifestRenderError,
>)
    ensures
        (match result {
            Ok(_) => Ok(final(labels)@),
            Err(error) => Err(error@),
        }) == labelled(Ok(old(labels)@), field@, value@),
{
    validate_label_value(field, value)?;
    labels.insert(field.to_owned(), value.to_owned());
    Ok(())
}

/// The labels by which the primary Service and workload find their pods.
pub open spec fn selector_labels_outcome(id: Seq<char>, workload_name: Seq<char>) -> Outcome<
    TextMap,
> {
    labelled(
        labelled(Ok(Seq::empty()), LABEL_INSTANCE_ID@, id),
        LABEL_WORKLOAD_NAME@,
        workload_name,
    )
}

/// The labels by which the primary Service and workload find their pods.
pub fn selector_labels(instance: &InstanceRecord, workload_name: &str) -> (result: Result<
    StringMap<String>,
    ManifestRenderError,
>)
    ensures
        super::outcome(result) == selector_labels_outcome(instance.id@, workload_name@),
{
    let mut labels: StringMap<String> = StringMap::new();
    add_label(&mut labels, LABEL_INSTANCE_ID, instance.id.as_str())?;
    add_label(&mut labels, LABEL_WORKLOAD_NAME, workload_name)?;
    Ok(labels)
}

/// The labels of every object of an instance.
pub open spec fn metadata_labels_outcome(instance: InstanceRecord, workload_name: Seq<char>) -> Outcome<
    TextMap,
> {
    let a = labelled(Ok(Seq::empty()), LABEL_INSTANCE_ID@, instance.id@);
    let b = labelled(
        a,
        LABEL_INSTANCE_GENERATION@,
        text::decimal(instance.generation@ as nat),
    );
    let c = labelled(b, LABEL_WORKLOAD_CLASS_ID@, instance.workload_class.class_id@);
    let d = labelled(
        c,
        LABEL_WORKLOAD_CLASS_VERSION@,
        text::decimal(instance.workload_class.version@ as nat),
    );
    labelled(d, LABEL_WORKLOAD_NAME@, workload_name)
}

/// The labels of every object of an instance.
pub fn metadata_labels(instance: &InstanceRecord, workload_name: &str) -> (result: Result<
    StringMap<String>,
    ManifestRenderError,
>)
    ensures
        super::outcome(result) == metadata_labels_outcome(*instance, workload_name@),
{
    let mut labels: StringMap<String> = StringMap::new();
    add_label(&mut labels, LABEL_INSTANCE_ID, instance.id.as_str())?;
    add_label(&mut labels, LABEL_INSTANCE_GENERATION, instance.generation.to_text().as_str())?;
    add_label(&mut labels, LABEL_WORKLOAD_CLASS_ID, instance.workload_class.class_id.as_str())?;
    add_label(
        &mut labels,
        LABEL_WORKLOAD_CLASS_VERSION,
        instance.workload_class.version.to_text().as_str(),
    )?;
    add_label(&mut labels, LABEL_WORKLOAD_NAME, workload_name)?;
    Ok(labels)
}

/// The annotations of every object: the generation of the template, where it is
/// known.
pub open spec fn annotations_of(template_generation: Option<Generation>) -> TextMap {
    match template_generation {
        Some(generation) => string_map::with_entry(
            Seq::empty(),
            ANNOTATION_TEMPLATE_GENERATION@,
            text::decimal(generation@ as nat),
        ),
        None => Seq::empty(),
    }
}

/// The annotations of every object.
pub fn metadata_annotations(template_generation: Option<Generation>) -> (annotations: StringMap<
    String,
>)
    ensures
        annotations@ == annotations_of(template_generation),
{
    let mut annotations: StringMap<String> = StringMap::new();
    if let Some(generation) = template_generation {
        annotations.insert(ANNOTATION_TEMPLATE_GENERATION.to_owned(), generation.to_text());
    }
    annotations
}

} // verus!
