//! One reconciliation pass over a `FoxService`, as a state machine.
//!
//! A pass alternates decisions and calls to the control plane. The decisions
//! are made here; the calls are made by the caller, one at a time.
//! [`reconcile`] begins a pass and [`resume`] continues it once a call has
//! ended. Each returns a [`Progress`]: either the next call to make, or the
//! result of the pass.

use crate::action::{action_for, determine_action, Action};
use crate::deployment::describes_workload;
use crate::error::ReconcileError;
use crate::finalizer::{add_patch, delete_patch};
use crate::request::{Request, RequestView};
use crate::resource::{FoxService, FoxServiceView};
use vstd::prelude::*;

verus! {

/// Seconds after which a resource that is set up is looked at again.
pub const REQUEUE_SECONDS: u64 = 10;

/// Seconds after which a failed pass is tried again.
pub const RETRY_SECONDS: u64 = 5;

/// What a pass says of a resource that has no namespace.
pub const MISSING_NAMESPACE: &'static str =
    "Expected FoxService resource to be namespaced. Can't deploy to an unknown namespace.";

/// What the scheduler is to do with a resource after a pass.
#[derive(Clone, Copy, Debug, PartialEq, Eq, Structural)]
pub struct ReconcilerAction {
    /// Seconds after which the resource is reconciled again; `None` where
    /// only a change of the resource brings the next pass.
    pub requeue_after: Option<u64>,
}

/// The call that a pass is waiting for.
#[derive(Clone, Copy, Debug, PartialEq, Eq, Structural)]
pub enum Step {
    /// Setting up: the finalizer is being attached.
    AddFinalizer,
    /// Setting up: the workload is being created.
    CreateDeployment,
    /// Tearing down: the workload is being deleted.
    DeleteDeployment,
    /// Tearing down: the finalizers are being cleared.
    DeleteFinalizer,
}

/// Where a pass stands.
#[derive(Debug)]
pub enum Progress {
    /// The caller is to make the call `request`, and then to hand its outcome
    /// to [`resume`] together with `step`.
    Call { request: Request, step: Step },
    /// The pass is over.
    Done(Result<ReconcilerAction, ReconcileError>),
}

/// `progress` asks for the call `request` and waits for it at `step`.
pub open spec fn calls(progress: Progress, step: Step, request: RequestView) -> bool {
    progress matches Progress::Call { request: r, step: s } && s == step && r@ == request
}

/// `progress` ends the pass successfully, with the next pass due after
/// `requeue_after` seconds.
pub open spec fn succeeds(progress: Progress, requeue_after: Option<u64>) -> bool {
    progress == Progress::Done(Ok(ReconcilerAction { requeue_after }))
}

/// How a pass over `fox_svc` begins. A resource without a namespace is
/// refused before anything else is looked at. Otherwise the lifecycle
/// metadata decides: setting up begins by attaching the finalizer, tearing
/// down by deleting the workload, and a resource that is set up needs no call.
pub open spec fn begins(fox_svc: FoxServiceView, progress: Progress) -> bool {
    match fox_svc.namespace {
        None => progress matches Progress::Done(Err(ReconcileError::UserInputError(message)))
            && message@ == MISSING_NAMESPACE@,
        Some(namespace) => match action_for(fox_svc) {
            Action::Create => calls(
                progress,
                Step::AddFinalizer,
                RequestView::PatchFinalizers(add_patch(fox_svc.name, namespace)),
            ),
            Action::Delete => calls(
                progress,
                Step::DeleteDeployment,
                RequestView::DeleteDeployment { name: fox_svc.name, namespace },
            ),
            Action::NoOp => succeeds(progress, Some(REQUEUE_SECONDS)),
        },
    }
}

/// How a pass over `fox_svc` goes on once the call awaited at `step` has
/// ended with `outcome`. A failed call ends the pass with its error, and no
/// further call is made. After a call that succeeded, setting up goes from the
/// finalizer to the workload and then ends, to be looked at again; tearing
/// down goes from the workload to the finalizers and then ends for good.
pub open spec fn continues(
    fox_svc: FoxServiceView,
    step: Step,
    outcome: Result<(), kube::Error>,
    progress: Progress,
) -> bool {
    match outcome {
        Err(source) => progress == Progress::Done(Err(ReconcileError::KubeError { source })),
        Ok(_) => match fox_svc.namespace {
            None => progress matches Progress::Done(
                Err(ReconcileError::UserInputError(message)),
            ) && message@ == MISSING_NAMESPACE@,
            Some(namespace) => match step {
                Step::AddFinalizer => progress matches Progress::Call {
                    request: Request::CreateDeployment(workload),
                    step: Step::CreateDeployment,
                } && describes_workload(fox_svc.spec, fox_svc.name, namespace, workload@),
                Step::CreateDeployment => succeeds(progress, Some(REQUEUE_SECONDS)),
                Step::DeleteDeployment => calls(
                    progress,
                    Step::DeleteFinalizer,
                    RequestView::PatchFinalizers(delete_patch(fox_svc.name, namespace)),
                ),
                Step::DeleteFinalizer => succeeds(progress, None),
            },
        },
    }
}

/// `progress` asks for a call that touches an exposure.
pub open spec fn touches_exposure(progress: Progress) -> bool {
    progress matches Progress::Call { request, .. } && (request is CreateService
        || request is DeleteService)
}

/// Setting up takes two calls in a fixed order: the finalizer is attached
/// first, the workload is created second, and then the pass ends with the
/// resource due again after the usual delay.
pub proof fn lemma_setting_up_attaches_then_creates(
    fox_svc: FoxServiceView,
    first: Progress,
    second: Progress,
    third: Progress,
)
    requires
        fox_svc.namespace is Some,
        action_for(fox_svc) == Action::Create,
        begins(fox_svc, first),
        first is Call ==> continues(fox_svc, first->step, Ok(()), second),
        second is Call ==> continues(fox_svc, second->step, Ok(()), third),
    ensures
        calls(
            first,
            Step::AddFinalizer,
            RequestView::PatchFinalizers(add_patch(fox_svc.name, fox_svc.namespace->0)),
        ),
        second matches Progress::Call {
            request: Request::CreateDeployment(workload),
            step: Step::CreateDeployment,
        } && describes_workload(fox_svc.spec, fox_svc.name, fox_svc.namespace->0, workload@),
        succeeds(third, Some(REQUEUE_SECONDS)),
{
}

/// Tearing down takes two calls in a fixed order: the workload is deleted
/// first, the finalizers are cleared second, and then the pass ends for good.
pub proof fn lemma_tearing_down_deletes_then_clears(
    fox_svc: FoxServiceView,
    first: Progress,
    second: Progress,
    third: Progress,
)
    requires
        fox_svc.namespace is Some,
        action_for(fox_svc) == Action::Delete,
        begins(fox_svc, first),
        first is Call ==> continues(fox_svc, first->step, Ok(()), second),
        second is Call ==> continues(fox_svc, second->step, Ok(()), third),
    ensures
        calls(
            first,
            Step::DeleteDeployment,
            RequestView::DeleteDeployment { name: fox_svc.name, namespace: fox_svc.namespace->0 },
        ),
        calls(
            second,
            Step::DeleteFinalizer,
            RequestView::PatchFinalizers(delete_patch(fox_svc.name, fox_svc.namespace->0)),
        ),
        succeeds(third, None),
{
}

/// A call that fails ends the pass then and there, with the error of the
/// call: whatever step was awaited, no further call is asked for. So the
/// finalizers are never cleared after a workload that could not be deleted.
pub proof fn lemma_failed_call_ends_the_pass(
    fox_svc: FoxServiceView,
    step: Step,
    source: kube::Error,
    progress: Progress,
)
    requires
        continues(fox_svc, step, Err(source), progress),
    ensures
        progress == Progress::Done(Err(ReconcileError::KubeError { source })),
        !(progress is Call),
{
}

/// The finalizers are cleared in one place only: after the workload has been
/// deleted.
pub proof fn lemma_finalizers_cleared_only_after_deletion(
    fox_svc: FoxServiceView,
    step: Step,
    outcome: Result<(), kube::Error>,
    progress: Progress,
)
    requires
        continues(fox_svc, step, outcome, progress),
        progress matches Progress::Call { request: Request::PatchFinalizers(patch), .. }
            && patch@.finalizers is None,
    ensures
        step == Step::DeleteDeployment,
        outcome is Ok,
{
}

/// A pass leaves exposures alone: it neither begins nor goes on with a call
/// that creates or deletes one.
pub proof fn lemma_pass_leaves_exposures_alone(
    fox_svc: FoxServiceView,
    step: Step,
    outcome: Result<(), kube::Error>,
    begun: Progress,
    resumed: Progress,
)
    requires
        begins(fox_svc, begun),
        continues(fox_svc, step, outcome, resumed),
    ensures
        !touches_exposure(begun),
        !touches_exposure(resumed),
{
}

fn missing_namespace() -> (progress: Progress)
    ensures
        progress matches Progress::Done(Err(ReconcileError::UserInputError(message)))
            && message@ == MISSING_NAMESPACE@,
{
    Progress::Done(Err(ReconcileError::UserInputError(MISSING_NAMESPACE.to_owned())))
}

/// Begins a reconciliation pass over `fox_svc`.
pub fn reconcile(fox_svc: &FoxService) -> (progress: Progress)
    ensures
        begins(fox_svc@, progress),
{
    let namespace = match &fox_svc.namespace {
        None => {
            return missing_namespace();
        },
        Some(namespace) => namespace,
    };
    match determine_action(fox_svc) {
        Action::Create => Progress::Call {
            request: crate::finalizer::add(fox_svc.name.as_str(), namespace.as_str()),
            step: Step::AddFinalizer,
        },
        Action::Delete => Progress::Call {
            request: crate::deployment::delete_deployment(
                fox_svc.name.as_str(),
                namespace.as_str(),
            ),
            step: Step::DeleteDeployment,
        },
        Action::NoOp => Progress::Done(
            Ok(ReconcilerAction { requeue_after: Some(REQUEUE_SECONDS) }),
        ),
    }
}

/// Continues the pass over `fox_svc` after the call awaited at `step` has
/// ended with `outcome`.
pub fn resume(fox_svc: &FoxService, step: Step, outcome: Result<(), kube::Error>) -> (progress:
    Progress)
    ensures
        continues(fox_svc@, step, outcome, progress),
{
    if let Err(source) = outcome {
        return Progress::Done(Err(ReconcileError::from(source)));
    }
    let namespace = match &fox_svc.namespace {
        None => {
            return missing_namespace();
        },
        Some(namespace) => namespace,
    };
    match step {
        Step::AddFinalizer => Progress::Call {
            request: crate::deployment::create_deployment(
                &fox_svc.spec,
                fox_svc.name.as_str(),
                namespace.as_str(),
            ),
            step: Step::CreateDeployment,
        },
        Step::CreateDeployment => Progress::Done(
            Ok(ReconcilerAction { requeue_after: Some(REQUEUE_SECONDS) }),
        ),
        Step::DeleteDeployment => Progress::Call {
            request: crate::finalizer::delete(fox_svc.name.as_str(), namespace.as_str()),
            step: Step::DeleteFinalizer,
        },
        Step::DeleteFinalizer => Progress::Done(Ok(ReconcilerAction { requeue_after: None })),
    }
}

/// What the scheduler is to do with a resource whose pass has failed: try
/// again after a fixed delay, whatever the error and however often it has
/// failed before.
pub fn on_error(error: &ReconcileError) -> (action: ReconcilerAction)
    ensures
        action == (ReconcilerAction { requeue_after: Some(RETRY_SECONDS) }),
{
    ReconcilerAction { requeue_after: Some(RETRY_SECONDS) }
}

} // verus!
