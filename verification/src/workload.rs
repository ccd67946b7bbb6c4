//! What a workload class asks of the instances that run it.

use vstd::prelude::*;

verus! {

/// A key that at most one materialization in a target may hold at a time.
#[derive(Clone, Debug, PartialEq, Eq)]
pub struct RenderedExclusivityKey {
    pub name: String,
    pub value: String,
}

/// The mathematical model of a [`RenderedExclusivityKey`].
#[verifier::ext_equal]
pub struct KeyView {
    pub name: Seq<char>,
    pub value: Seq<char>,
}

impl View for RenderedExclusivityKey {
    type V = KeyView;

    open spec fn view(&self) -> KeyView {
        KeyView { name: self.name@, value: self.value@ }
    }
}

impl RenderedExclusivityKey {
    /// A key of a name and a value.
    pub fn new(name: &str, value: &str) -> (key: RenderedExclusivityKey)
        ensures
            key@ == (KeyView { name: name@, value: value@ }),
    {
        RenderedExclusivityKey { name: name.to_owned(), value: value.to_owned() }
    }
}

} // verus!
