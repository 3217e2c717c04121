//! Reconciliation engine for the `FoxService` custom resource.
//!
//! A `FoxService` declares containers to run and ports to expose. This crate
//! builds the native objects that realise such a resource, decides what one
//! reconciliation pass has to do with it, and drives the pass as a state
//! machine. The calls to the control plane are left to the caller: the
//! library says which call is due, and the caller reports how it ended.
//!
//! - [`resource`]: the declared resource and its lifecycle metadata.
//! - [`action`]: what a pass has to do, by the lifecycle metadata.
//! - [`deployment`], [`service`]: the workload and the exposure of a resource.
//! - [`finalizer`]: the token that guards the removal of a resource.
//! - [`request`]: the calls that the caller makes for the library.
//! - [`reconciler`]: one pass, step by step.
//! - [`error`]: how a pass fails.
//! - [`kubernetes_crd`]: parts of the registration document of the kind.

pub mod action;
pub mod deployment;
pub mod error;
pub mod finalizer;
pub mod kubernetes_crd;
pub mod reconciler;
pub mod request;
pub mod resource;
pub mod service;
