//! Reconciliation core of a cluster test system: finalizer bookkeeping, the controller's
//! state machine, the provider teardown rules and the description of agent jobs.
use vstd::prelude::*;

pub mod finalizer;
pub mod provider;
pub mod model;
pub mod reconcile;
pub mod job;
pub mod duplicator;
pub mod error;

verus! {

} // verus!
