//! Deciding what a reconciliation pass has to do with a resource.

use crate::resource::{FoxService, FoxServiceView};
use vstd::prelude::*;

verus! {

/// What a reconciliation pass does with a `FoxService`.
#[derive(Clone, Copy, Debug, PartialEq, Eq, Structural)]
pub enum Action {
    /// Attach the finalizer, then create the native objects.
    Create,
    /// Remove the native objects, then clear the finalizer.
    Delete,
    /// Nothing to do but look again later.
    NoOp,
}

/// The action that the lifecycle metadata of a resource calls for. A deletion
/// marker always wins; without one, a resource that carries no finalizer has
/// not been set up yet, and any other is taken to be set up.
pub open spec fn action_for(fox_svc: FoxServiceView) -> Action {
    if fox_svc.deletion_timestamp is Some {
        Action::Delete
    } else if fox_svc.finalizers.len() == 0 {
        Action::Create
    } else {
        Action::NoOp
    }
}

/// Looks at the lifecycle metadata of `fox_svc` and decides the next action.
pub fn determine_action(fox_svc: &FoxService) -> (action: Action)
    ensures
        action == action_for(fox_svc@),
        fox_svc.deletion_timestamp is Some ==> action == Action::Delete,
        fox_svc.deletion_timestamp is None && fox_svc.finalizers@.len() == 0 ==> action
            == Action::Create,
        fox_svc.deletion_timestamp is None && fox_svc.finalizers@.len() > 0 ==> action
            == Action::NoOp,
{
    if fox_svc.deletion_timestamp.is_some() {
        Action::Delete
    } else if fox_svc.finalizers.len() == 0 {
        Action::Create
    } else {
        Action::NoOp
    }
}

} // verus!
