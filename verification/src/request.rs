//! The calls that a reconciliation pass asks its caller to make.

use crate::deployment::{WorkloadDescriptor, WorkloadDescriptorView};
use crate::finalizer::{FinalizerPatch, FinalizerPatchView};
use crate::service::{ExposureDescriptor, ExposureDescriptorView};
use vstd::prelude::*;

verus! {

/// One call to the control plane. The library decides which call is due and
/// what it carries; the caller performs it and reports how it ended.
#[derive(Clone, Debug, PartialEq, Eq)]
pub enum Request {
    /// Merge a patch into the finalizer field of a `FoxService`.
    PatchFinalizers(FinalizerPatch),
    /// Create a workload in its namespace.
    CreateDeployment(WorkloadDescriptor),
    /// Delete the workload of that name from the namespace.
    DeleteDeployment { name: String, namespace: String },
    /// Create an exposure in its namespace.
    CreateService(ExposureDescriptor),
    /// Delete the exposure of that name from the namespace.
    DeleteService { name: String, namespace: String },
}

/// A [`Request`] as a mathematical value.
pub enum RequestView {
    PatchFinalizers(FinalizerPatchView),
    CreateDeployment(WorkloadDescriptorView),
    DeleteDeployment { name: Seq<char>, namespace: Seq<char> },
    CreateService(ExposureDescriptorView),
    DeleteService { name: Seq<char>, namespace: Seq<char> },
}

impl View for Request {
    type V = RequestView;

    open spec fn view(&self) -> RequestView {
        match self {
            Request::PatchFinalizers(patch) => RequestView::PatchFinalizers(patch@),
            Request::CreateDeployment(workload) => RequestView::CreateDeployment(workload@),
            Request::DeleteDeployment { name, namespace } => RequestView::DeleteDeployment {
                name: name@,
                namespace: namespace@,
            },
            Request::CreateService(service) => RequestView::CreateService(service@),
            Request::DeleteService { name, namespace } => RequestView::DeleteService {
                name: name@,
                namespace: namespace@,
            },
        }
    }
}

} // verus!
