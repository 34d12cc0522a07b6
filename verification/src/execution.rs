//! Running a module while the graph is still being made.

use crate::ident::ModuleIdentifier;
use crate::worker_queue::WorkerQueue;
use rspack_error::Error;
use tokio::sync::mpsc::UnboundedSender;
use vstd::prelude::*;

verus! {

/// How a module is run at build time.
#[derive(Clone, Debug)]
pub struct BuildTimeExecutionOption {
    pub public_path: Option<String>,
    pub base_uri: Option<String>,
}

/// What running a module at build time gave.
#[derive(Debug)]
pub struct ExecuteModuleResult {
    pub id: u32,
    pub cacheable: bool,
}

/// A request to run `module` at build time; the outcome goes to `sender`.
#[derive(Clone, Debug)]
pub struct BuildTimeExecutionTask {
    pub module: ModuleIdentifier,
    pub request: String,
    pub options: BuildTimeExecutionOption,
    pub sender: UnboundedSender<Result<ExecuteModuleResult, Error>>,
}

/// The modules that wait to be run at build time.
pub type BuildTimeExecutionQueue = WorkerQueue<BuildTimeExecutionTask>;

} // verus!
