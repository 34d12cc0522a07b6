//! The stage that schedules the dependencies that a build found.

use crate::ident::{DependencyId, ModuleIdentifier};
use crate::options::Resolve;
use crate::worker_queue::WorkerQueue;
use vstd::prelude::*;

verus! {

/// The dependencies that the build of `original_module_identifier` found, to be
/// factorized each.
#[derive(Debug)]
pub struct ProcessDependenciesTask {
    pub original_module_identifier: ModuleIdentifier,
    pub dependencies: Vec<DependencyId>,
    pub resolve_options: Option<Box<Resolve>>,
}

/// The milestone "the dependencies of this module are all scheduled".
#[derive(Debug)]
pub struct ProcessDependenciesResult {
    pub module_identifier: ModuleIdentifier,
}

/// The modules whose dependencies wait to be scheduled.
pub type ProcessDependenciesQueue = WorkerQueue<ProcessDependenciesTask>;

} // verus!
