//! Checks that every rendered value passes.

use super::template::{self, TemplatePartView, TemplateText};
use super::{field_error, ManifestRenderError, Outcome, RenderErrorView};
use crate::ids::InstanceId;
use crate::instance::InstanceValues;
use crate::kubernetes_name::{self, is_dns_label, render_instance_scoped_name};
use crate::text::{self, characters, is_blank, quoted};
use vstd::prelude::*;
use vstd::string::*;

verus! {

/// The model of the values of an instance.
pub type ValuesView = Seq<(Seq<char>, Seq<char>)>;

/// A name must be a DNS label.
pub open spec fn dns_verdict(field: Seq<char>, value: Seq<char>) -> Outcome<()> {
    if kubernetes_name::dns_label(value) {
        Ok(())
    } else {
        Err(RenderErrorView::InvalidName { field, value })
    }
}

/// A name must be a DNS label.
pub fn validate_dns_label(field: &'static str, value: &str) -> (result: Result<
    (),
    ManifestRenderError,
>)
    ensures
        super::verdict(result) == dns_verdict(field@, value@),
{
    if is_dns_label(value) {
        Ok(())
    } else {
        Err(ManifestRenderError::InvalidName { field, value: value.to_owned() })
    }
}

/// A namespace must be a DNS label.
pub fn validate_namespace(namespace: &str) -> (result: Result<(), ManifestRenderError>)
    ensures
        super::verdict(result) == dns_verdict("namespace"@, namespace@),
{
    validate_dns_label("namespace", namespace)
}

/// A port must not be zero.
pub open spec fn port_verdict(field: Seq<char>, value: u16) -> Outcome<()> {
    if value == 0 {
        super::invalid_field(field, "port must be between 1 and 65535"@)
    } else {
        Ok(())
    }
}

/// A port must not be zero.
pub fn validate_port(field: &'static str, value: u16) -> (result: Result<(), ManifestRenderError>)
    ensures
        super::verdict(result) == port_verdict(field@, value),
{
    if value == 0 {
        Err(field_error(field, "port must be between 1 and 65535"))
    } else {
        Ok(())
    }
}

/// A letter or a digit of ASCII.
pub open spec fn ascii_alphanumeric(character: char) -> bool {
    'a' <= character <= 'z' || 'A' <= character <= 'Z' || '0' <= character <= '9'
}

/// A character that may stand inside a label value.
pub open spec fn label_character(character: char) -> bool {
    ascii_alphanumeric(character) || character == '-' || character == '_' || character == '.'
}

/// A text that Kubernetes takes as the value of a label: nothing, or up to 63
/// letters, digits, hyphens, underscores and full stops that begin and end with a
/// letter or a digit.
pub open spec fn label_value(value: Seq<char>) -> bool {
    value.len() == 0 || {
        &&& value.len() <= 63
        &&& forall|i: int| 0 <= i < value.len() ==> label_character(#[trigger] value[i])
        &&& ascii_alphanumeric(value[0])
        &&& ascii_alphanumeric(value.last())
    }
}

/// The message about a value that no label can have.
pub open spec fn label_message(value: Seq<char>) -> Seq<char> {
    "label value "@ + text::quoted_text(value) + " is not Kubernetes label-value-safe"@
}

/// A label must have a value that Kubernetes takes.
pub open spec fn label_verdict(field: Seq<char>, value: Seq<char>) -> Outcome<()> {
    if label_value(value) {
        Ok(())
    } else {
        super::invalid_field(field, label_message(value))
    }
}

fn is_ascii_alphanumeric(character: char) -> (result: bool)
    ensures
        result == ascii_alphanumeric(character),
{
    ('a' <= character && character <= 'z') || ('A' <= character && character <= 'Z') || ('0'
        <= character && character <= '9')
}

fn is_label_value(value: &str) -> (result: bool)
    ensures
        result == label_value(value@),
{
    let list = characters(value);
    if list.len() == 0 {
        return true;
    }
    if list.len() > 63 {
        return false;
    }
    let mut index: usize = 0;
    while index < list.len()
        invariant
            index <= list.len(),
            list@ == value@,
            forall|i: int| 0 <= i < index ==> label_character(#[trigger] value@[i]),
        decreases list.len() - index,
    {
        let character = list[index];
        if !is_ascii_alphanumeric(character) && character != '-' && character != '_' && character
            != '.' {
            assert(!label_character(value@[index as int]));
            return false;
        }
        index = index + 1;
    }
    is_ascii_alphanumeric(list[0]) && is_ascii_alphanumeric(list[list.len() - 1])
}

/// A label must have a value that Kubernetes takes.
pub fn validate_label_value(field: &'static str, value: &str) -> (result: Result<
    (),
    ManifestRenderError,
>)
    ensures
        super::verdict(result) == label_verdict(field@, value@),
{
    if is_label_value(value) {
        Ok(())
    } else {
        let message = "label value ".to_owned().concat(quoted(value).as_str()).concat(
            " is not Kubernetes label-value-safe",
        );
        Err(ManifestRenderError::InvalidField { field, message })
    }
}

/// The text of a template, which must not be blank.
pub open spec fn nonempty_text(
    field: Seq<char>,
    parts: Seq<TemplatePartView>,
    values: ValuesView,
) -> Outcome<Seq<char>> {
    match template::rendered_text(parts, values) {
        Err(error) => Err(error),
        Ok(value) => if text::blank(value) {
            super::invalid_field(field, "rendered value must not be empty"@)
        } else {
            Ok(value)
        },
    }
}

/// Renders a template whose text must not be blank.
pub fn render_non_empty(
    field: &'static str,
    template: &TemplateText,
    values: &InstanceValues,
) -> (result: Result<String, ManifestRenderError>)
    ensures
        super::outcome(result) == nonempty_text(field@, template@, values@),
{
    match template.render(values) {
        Err(error) => Err(error),
        Ok(value) => if is_blank(value.as_str()) {
            Err(field_error(field, "rendered value must not be empty"))
        } else {
            Ok(value)
        },
    }
}

/// The text of a template that may be absent.
pub open spec fn optional_text(
    field: Seq<char>,
    parts: Option<Seq<TemplatePartView>>,
    values: ValuesView,
) -> Outcome<Option<Seq<char>>> {
    match parts {
        None => Ok(None),
        Some(parts) => match nonempty_text(field, parts, values) {
            Err(error) => Err(error),
            Ok(value) => Ok(Some(value)),
        },
    }
}

/// The model of rendering a text that may be absent.
pub open spec fn optional_outcome(result: Result<Option<String>, ManifestRenderError>) -> Outcome<
    Option<Seq<char>>,
> {
    match result {
        Ok(value) => Ok(super::optional_view(value)),
        Err(error) => Err(error@),
    }
}

/// Renders a template that may be absent.
pub fn render_optional(
    field: &'static str,
    template: &Option<TemplateText>,
    values: &InstanceValues,
) -> (result: Result<Option<String>, ManifestRenderError>)
    ensures
        optional_outcome(result) == optional_text(
            field@,
            super::optional_view(*template),
            values@,
        ),
{
    match template {
        None => Ok(None),
        Some(template) => match render_non_empty(field, template, values) {
            Err(error) => Err(error),
            Ok(value) => Ok(Some(value)),
        },
    }
}

/// The name of an object of an instance: the text of a template, made the
/// instance's own, which must be a DNS label.
pub open spec fn object_name(
    field: Seq<char>,
    parts: Seq<TemplatePartView>,
    values: ValuesView,
    id: Seq<char>,
) -> Outcome<Seq<char>> {
    match nonempty_text(field, parts, values) {
        Err(error) => Err(error),
        Ok(base) => {
            let name = kubernetes_name::scoped_name(base, id);
            match dns_verdict(field, name) {
                Err(error) => Err(error),
                Ok(_) => Ok(name),
            }
        },
    }
}

/// Renders the name of an object of an instance.
pub fn render_object_name(
    field: &'static str,
    template: &TemplateText,
    values: &InstanceValues,
    id: &InstanceId,
) -> (result: Result<String, ManifestRenderError>)
    ensures
        super::outcome(result) == object_name(field@, template@, values@, id@),
{
    match render_non_empty(field, template, values) {
        Err(error) => Err(error),
        Ok(base) => {
            let name = render_instance_scoped_name(base.as_str(), id);
            match validate_dns_label(field, name.as_str()) {
                Err(error) => Err(error),
                Ok(_) => Ok(name),
            }
        },
    }
}

} // verus!
