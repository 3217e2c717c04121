//! The finalizer that keeps a `FoxService` from being removed while native
//! objects made for it may still exist.

use crate::action::{action_for, Action};
use crate::request::{Request, RequestView};
use crate::resource::{clone_strings, FoxServiceView};
use vstd::prelude::*;

verus! {

/// The token that this controller puts on the resources it has set up.
pub const FINALIZER: &'static str = "foxservices.cbopt.com";

/// A merge-style update of the finalizer field of one `FoxService`. The field
/// is replaced as a whole: tokens that the patch does not name are dropped.
#[derive(Clone, Debug, PartialEq, Eq)]
pub struct FinalizerPatch {
    pub name: String,
    pub namespace: String,
    /// What the field is set to; `None` clears it.
    pub finalizers: Option<Vec<String>>,
}

/// A [`FinalizerPatch`] as a mathematical value.
pub struct FinalizerPatchView {
    pub name: Seq<char>,
    pub namespace: Seq<char>,
    pub finalizers: Option<Seq<Seq<char>>>,
}

impl View for FinalizerPatch {
    type V = FinalizerPatchView;

    open spec fn view(&self) -> FinalizerPatchView {
        FinalizerPatchView {
            name: self.name@,
            namespace: self.namespace@,
            finalizers: self.finalizers.deep_view(),
        }
    }
}

impl FinalizerPatchView {
    /// The finalizers of a resource that carried `current` once the patch is
    /// merged into it.
    pub open spec fn merged(self, current: Seq<Seq<char>>) -> Seq<Seq<char>> {
        match self.finalizers {
            Some(finalizers) => finalizers,
            None => Seq::empty(),
        }
    }
}

/// The patch that attaches the finalizer to the named resource.
pub open spec fn add_patch(name: Seq<char>, namespace: Seq<char>) -> FinalizerPatchView {
    FinalizerPatchView { name, namespace, finalizers: Some(seq![FINALIZER@]) }
}

/// The patch that clears the finalizers of the named resource.
pub open spec fn delete_patch(name: Seq<char>, namespace: Seq<char>) -> FinalizerPatchView {
    FinalizerPatchView { name, namespace, finalizers: None }
}

impl FinalizerPatch {
    /// Merges the patch into a finalizer field that holds `current`, as the
    /// control plane does, and returns what the field holds afterwards.
    pub fn merge(&self, current: Vec<String>) -> (merged: Vec<String>)
        ensures
            merged.deep_view() == self@.merged(current.deep_view()),
    {
        match &self.finalizers {
            Some(finalizers) => clone_strings(finalizers),
            None => {
                let cleared: Vec<String> = Vec::new();
                assert(cleared.deep_view() =~= Seq::<Seq<char>>::empty());
                cleared
            },
        }
    }
}

/// The call that attaches the finalizer to the `FoxService` of that name.
/// Whether the resource exists is not looked at.
pub fn add(name: &str, namespace: &str) -> (request: Request)
    ensures
        request@ == RequestView::PatchFinalizers(add_patch(name@, namespace@)),
{
    let mut finalizers: Vec<String> = Vec::new();
    finalizers.push(FINALIZER.to_owned());
    assert(finalizers.deep_view() =~= seq![FINALIZER@]);
    Request::PatchFinalizers(
        FinalizerPatch {
            name: name.to_owned(),
            namespace: namespace.to_owned(),
            finalizers: Some(finalizers),
        },
    )
}

/// The call that removes every finalizer from the `FoxService` of that name.
/// Whether the resource exists is not looked at.
pub fn delete(name: &str, namespace: &str) -> (request: Request)
    ensures
        request@ == RequestView::PatchFinalizers(delete_patch(name@, namespace@)),
{
    Request::PatchFinalizers(
        FinalizerPatch { name: name.to_owned(), namespace: namespace.to_owned(), finalizers: None },
    )
}

/// Attaching the finalizer is idempotent: whatever the resource carried
/// before, it carries the one token afterwards, once, and attaching it again
/// changes nothing.
pub proof fn lemma_add_is_idempotent(
    name: Seq<char>,
    namespace: Seq<char>,
    current: Seq<Seq<char>>,
)
    ensures
        add_patch(name, namespace).merged(current) == seq![FINALIZER@],
        add_patch(name, namespace).merged(add_patch(name, namespace).merged(current))
            == add_patch(name, namespace).merged(current),
{
}

/// Clearing the finalizers leaves none, also on a resource that had none.
pub proof fn lemma_delete_leaves_none(
    name: Seq<char>,
    namespace: Seq<char>,
    current: Seq<Seq<char>>,
)
    ensures
        delete_patch(name, namespace).merged(current) == Seq::<Seq<char>>::empty(),
        delete_patch(name, namespace).merged(Seq::<Seq<char>>::empty()) == Seq::<
            Seq<char>,
        >::empty(),
{
}

/// Once the finalizer is attached, a resource that is not marked for deletion
/// is taken to be set up: the next pass does nothing for it, whether or not
/// its workload was ever created.
pub proof fn lemma_attached_finalizer_means_no_op(fox_svc: FoxServiceView, namespace: Seq<char>)
    requires
        fox_svc.deletion_timestamp is None,
    ensures
        action_for(
            FoxServiceView {
                finalizers: add_patch(fox_svc.name, namespace).merged(fox_svc.finalizers),
                ..fox_svc
            },
        ) == Action::NoOp,
{
}

} // verus!
