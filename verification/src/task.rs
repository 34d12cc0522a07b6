//! What a stage hands on when it is done, and how a stage fails.

use crate::add::AddTaskResult;
use crate::building::BuildTaskResult;
use crate::factorize::FactorizeTaskResult;
use crate::graph_model::GraphError;
use crate::process_dependencies::ProcessDependenciesResult;
use rspack_error::Error;
use vstd::prelude::*;

verus! {

/// The result of one stage.
pub enum TaskResult {
    Factorize(Box<FactorizeTaskResult>),
    Add(Box<AddTaskResult>),
    Build(Box<BuildTaskResult>),
    ProcessDependencies(Box<ProcessDependenciesResult>),
}

/// The hook that failed.
#[derive(Clone, Copy, Debug, PartialEq, Eq, Structural)]
pub enum Hook {
    BuildModule,
    SucceedModule,
    StillValidModule,
}

/// A failure that ends the run. A failure that the run tolerates is a
/// diagnostic in a result, never one of these.
#[derive(Debug)]
pub enum TaskError {
    /// A module factory failed and the compilation fails on the first error.
    Factorize(Error),
    /// The build of a module failed.
    Build(Error),
    /// A hook around a build failed.
    Hook(Hook, Error),
    /// The graph was asked for something that its state forbids.
    Graph(GraphError),
    /// The receiving half of the bus is gone.
    Disconnected,
}

} // verus!
