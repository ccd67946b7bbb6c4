//! Identifiers of the things that the control plane keeps.

use crate::kubernetes_name::{self, is_dns_label};
use crate::text::{self, decimal_text, is_blank};
use vstd::prelude::*;

verus! {

/// A value that an identifier cannot hold.
#[derive(Clone, Debug, PartialEq, Eq)]
pub struct InvalidId {
    field: &'static str,
    value: String,
}

impl InvalidId {
    /// The identifier that was asked for.
    pub closed spec fn field_view(self) -> Seq<char> {
        self.field@
    }

    /// The value that it cannot hold.
    pub closed spec fn value_view(self) -> Seq<char> {
        self.value@
    }

    /// The identifier that was asked for.
    pub fn field(&self) -> (field: &'static str)
        ensures
            field@ == self.field_view(),
    {
        self.field
    }

    /// The value that it cannot hold.
    pub fn value(&self) -> (value: &str)
        ensures
            value@ == self.value_view(),
    {
        self.value.as_str()
    }
}

/// The identifier of an instance, which is a DNS label.
#[derive(Clone, Debug, PartialEq, Eq)]
pub struct InstanceId {
    value: String,
}

impl View for InstanceId {
    type V = Seq<char>;

    closed spec fn view(&self) -> Seq<char> {
        self.value@
    }
}

impl InstanceId {
    /// The identifier that a value writes, if it is a DNS label.
    pub fn new(value: &str) -> (id: Result<InstanceId, InvalidId>)
        ensures
            match id {
                Ok(id) => kubernetes_name::dns_label(value@) && id@ == value@,
                Err(error) => !kubernetes_name::dns_label(value@) && error.field_view()
                    == "InstanceId"@ && error.value_view() == value@,
            },
    {
        if is_dns_label(value) {
            Ok(InstanceId { value: value.to_owned() })
        } else {
            Err(InvalidId { field: "InstanceId", value: value.to_owned() })
        }
    }

    /// The text of the identifier.
    pub fn as_str(&self) -> (value: &str)
        ensures
            value@ == self@,
    {
        self.value.as_str()
    }

    /// The same identifier once more.
    pub fn duplicate(&self) -> (id: InstanceId)
        ensures
            id@ == self@,
    {
        InstanceId { value: self.value.clone() }
    }
}

/// The identifier of a workload class, which is not blank.
#[derive(Clone, Debug, PartialEq, Eq)]
pub struct WorkloadClassId {
    value: String,
}

impl View for WorkloadClassId {
    type V = Seq<char>;

    closed spec fn view(&self) -> Seq<char> {
        self.value@
    }
}

impl WorkloadClassId {
    /// The identifier that a value writes, if it is not blank.
    pub fn new(value: &str) -> (id: Result<WorkloadClassId, InvalidId>)
        ensures
            match id {
                Ok(id) => !text::blank(value@) && id@ == value@,
                Err(error) => text::blank(value@) && error.field_view() == "WorkloadClassId"@
                    && error.value_view() == value@,
            },
    {
        if is_blank(value) {
            Err(InvalidId { field: "WorkloadClassId", value: value.to_owned() })
        } else {
            Ok(WorkloadClassId { value: value.to_owned() })
        }
    }

    /// The text of the identifier.
    pub fn as_str(&self) -> (value: &str)
        ensures
            value@ == self@,
    {
        self.value.as_str()
    }
}

impl WorkloadClassId {
    /// The same identifier once more.
    pub fn duplicate(&self) -> (id: WorkloadClassId)
        ensures
            id@ == self@,
    {
        WorkloadClassId { value: self.value.clone() }
    }
}

/// The identifier of a materialization, which is not blank.
#[derive(Clone, Debug, PartialEq, Eq)]
pub struct MaterializationId {
    value: String,
}

impl View for MaterializationId {
    type V = Seq<char>;

    closed spec fn view(&self) -> Seq<char> {
        self.value@
    }
}

impl MaterializationId {
    /// The identifier that a value writes, if it is not blank.
    pub fn new(value: &str) -> (id: Result<MaterializationId, InvalidId>)
        ensures
            match id {
                Ok(id) => !text::blank(value@) && id@ == value@,
                Err(error) => text::blank(value@) && error.field_view() == "MaterializationId"@
                    && error.value_view() == value@,
            },
    {
        if is_blank(value) {
            Err(InvalidId { field: "MaterializationId", value: value.to_owned() })
        } else {
            Ok(MaterializationId { value: value.to_owned() })
        }
    }

    /// The text of the identifier.
    pub fn as_str(&self) -> (value: &str)
        ensures
            value@ == self@,
    {
        self.value.as_str()
    }

    /// The same identifier once more.
    pub fn duplicate(&self) -> (id: MaterializationId)
        ensures
            id@ == self@,
    {
        MaterializationId { value: self.value.clone() }
    }
}

/// The identifier of a route binding, which is not blank.
#[derive(Clone, Debug, PartialEq, Eq)]
pub struct RouteBindingId {
    value: String,
}

impl View for RouteBindingId {
    type V = Seq<char>;

    closed spec fn view(&self) -> Seq<char> {
        self.value@
    }
}

impl RouteBindingId {
    /// The identifier that a value writes, if it is not blank.
    pub fn new(value: &str) -> (id: Result<RouteBindingId, InvalidId>)
        ensures
            match id {
                Ok(id) => !text::blank(value@) && id@ == value@,
                Err(error) => text::blank(value@) && error.field_view() == "RouteBindingId"@
                    && error.value_view() == value@,
            },
    {
        if is_blank(value) {
            Err(InvalidId { field: "RouteBindingId", value: value.to_owned() })
        } else {
            Ok(RouteBindingId { value: value.to_owned() })
        }
    }

    /// The text of the identifier.
    pub fn as_str(&self) -> (value: &str)
        ensures
            value@ == self@,
    {
        self.value.as_str()
    }

    /// The same identifier once more.
    pub fn duplicate(&self) -> (id: RouteBindingId)
        ensures
            id@ == self@,
    {
        RouteBindingId { value: self.value.clone() }
    }
}

/// How often a record has moved on.
#[derive(Clone, Copy, Debug, PartialEq, Eq, Structural)]
pub struct Generation {
    value: u64,
}

impl View for Generation {
    type V = u64;

    closed spec fn view(&self) -> u64 {
        self.value
    }
}

/// The generation after one; the last that can be counted stays.
pub open spec fn next_generation(value: u64) -> u64 {
    if value == u64::MAX {
        u64::MAX
    } else {
        (value + 1) as u64
    }
}

impl Generation {
    /// The generation with a number.
    pub fn new(value: u64) -> (generation: Generation)
        ensures
            generation@ == value,
    {
        Generation { value }
    }

    /// The number of the generation.
    pub fn get(self) -> (value: u64)
        ensures
            value == self@,
    {
        self.value
    }

    /// The generation that follows.
    pub fn next(self) -> (generation: Generation)
        ensures
            generation@ == next_generation(self@),
    {
        Generation { value: self.value.saturating_add(1) }
    }

    /// Whether two generations are the same.
    pub fn same(self, other: Generation) -> (same: bool)
        ensures
            same == (self@ == other@),
    {
        self.value == other.value
    }

    /// The number of the generation in decimal.
    pub fn to_text(self) -> (result: String)
        ensures
            result@ == text::decimal(self@ as nat),
    {
        decimal_text(self.value)
    }
}

/// How often the backend of a materialization has been replaced.
#[derive(Clone, Copy, Debug, PartialEq, Eq, Structural)]
pub struct BackendGeneration {
    value: u64,
}

impl View for BackendGeneration {
    type V = u64;

    closed spec fn view(&self) -> u64 {
        self.value
    }
}

impl BackendGeneration {
    /// The generation with a number.
    pub fn new(value: u64) -> (generation: BackendGeneration)
        ensures
            generation@ == value,
    {
        BackendGeneration { value }
    }

    /// The number of the generation.
    pub fn get(self) -> (value: u64)
        ensures
            value == self@,
    {
        self.value
    }
}

} // verus!
