//! Where instances are materialized.

use crate::text::{self, is_blank, same_text};
use vstd::prelude::*;

verus! {

/// A namespace of a cluster.
#[derive(Clone, Debug, PartialEq, Eq)]
pub struct MaterializationTarget {
    cluster_id: String,
    namespace: String,
}

/// The mathematical model of a [`MaterializationTarget`].
#[verifier::ext_equal]
pub struct TargetView {
    pub cluster_id: Seq<char>,
    pub namespace: Seq<char>,
}

impl View for MaterializationTarget {
    type V = TargetView;

    closed spec fn view(&self) -> TargetView {
        TargetView { cluster_id: self.cluster_id@, namespace: self.namespace@ }
    }
}

/// A target that lacks a cluster or a namespace.
#[derive(Clone, Debug, PartialEq, Eq)]
pub struct InvalidMaterializationTarget {
    pub field: &'static str,
}

/// The field that a target lacks, the cluster before the namespace.
pub open spec fn lacking_field(cluster_id: Seq<char>, namespace: Seq<char>) -> Option<Seq<char>> {
    if text::blank(cluster_id) {
        Some("cluster_id"@)
    } else if text::blank(namespace) {
        Some("namespace"@)
    } else {
        None
    }
}

impl MaterializationTarget {
    /// The namespace of a cluster, if neither is blank.
    pub fn new(cluster_id: &str, namespace: &str) -> (target: Result<
        MaterializationTarget,
        InvalidMaterializationTarget,
    >)
        ensures
            match target {
                Ok(target) => lacking_field(cluster_id@, namespace@) is None && target@ == (
                TargetView { cluster_id: cluster_id@, namespace: namespace@ }),
                Err(error) => lacking_field(cluster_id@, namespace@) == Some(error.field@),
            },
    {
        if is_blank(cluster_id) {
            return Err(InvalidMaterializationTarget { field: "cluster_id" });
        }
        if is_blank(namespace) {
            return Err(InvalidMaterializationTarget { field: "namespace" });
        }
        Ok(
            MaterializationTarget {
                cluster_id: cluster_id.to_owned(),
                namespace: namespace.to_owned(),
            },
        )
    }

    /// The cluster.
    pub fn cluster_id(&self) -> (cluster_id: &str)
        ensures
            cluster_id@ == self@.cluster_id,
    {
        self.cluster_id.as_str()
    }

    /// The namespace.
    pub fn namespace(&self) -> (namespace: &str)
        ensures
            namespace@ == self@.namespace,
    {
        self.namespace.as_str()
    }

    /// Two targets are one.
    pub fn same(&self, other: &MaterializationTarget) -> (same: bool)
        ensures
            same == (self@ == other@),
    {
        same_text(self.cluster_id.as_str(), other.cluster_id.as_str()) && same_text(
            self.namespace.as_str(),
            other.namespace.as_str(),
        )
    }

    /// The same target once more.
    pub fn duplicate(&self) -> (target: MaterializationTarget)
        ensures
            target@ == self@,
    {
        MaterializationTarget {
            cluster_id: self.cluster_id.clone(),
            namespace: self.namespace.clone(),
        }
    }
}

} // verus!
