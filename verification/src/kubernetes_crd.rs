//! Parts of the document that registers the `FoxService` kind with the
//! control plane.

use vstd::prelude::*;

verus! {

/// The identity under which a definition is registered.
#[derive(Clone, Debug, PartialEq, Eq)]
pub struct Metadata {
    pub name: String,
    pub namespace: String,
}

/// The names by which a kind is addressed.
#[derive(Clone, Debug, PartialEq, Eq)]
pub struct Names {
    pub kind: String,
    pub plural: String,
    pub singular: String,
    pub short_names: Vec<String>,
}

} // verus!
