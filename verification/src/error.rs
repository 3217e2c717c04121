//! What can go wrong in a reconciliation pass.

use vstd::prelude::*;

verus! {

/// `kube::Error`, the error with which a call of the Kubernetes client fails.
/// It is carried through as it is: nothing is read from it and nothing is
/// claimed of what it holds.
#[verifier::external_type_specification]
#[verifier::external_body]
pub struct ExKubeError(kube::Error);

/// The errors that end a reconciliation pass.
#[derive(Debug)]
pub enum ReconcileError {
    /// A call to the control plane failed, whatever the cause.
    KubeError { source: kube::Error },
    /// The resource lacks something that reconciliation needs.
    UserInputError(String),
}

impl From<kube::Error> for ReconcileError {
    fn from(source: kube::Error) -> (error: ReconcileError) {
        ReconcileError::KubeError { source }
    }
}

impl vstd::std_specs::convert::FromSpecImpl<kube::Error> for ReconcileError {
    open spec fn obeys_from_spec() -> bool {
        true
    }

    open spec fn from_spec(source: kube::Error) -> ReconcileError {
        ReconcileError::KubeError { source }
    }
}

} // verus!
