//! The module-graph construction core of a bundler: the units of work that turn
//! entry dependencies into a graph of built modules, the graph they share, and a
//! completion bus on which other parts of a compilation wait for a milestone.
//!
//! A dependency is factorized into a module (`factorize`), the module is taken
//! into the graph (`add`), built (`building`, with the memory of earlier builds
//! in `cache`), and the dependencies that its build found are scheduled
//! (`process_dependencies`); a module that nothing depends on any more is taken
//! out again (`clean`). Who drives the stages is not part of this library: each
//! stage is a function from a task and the shared state to a result.
//!
//! `module_graph` holds the graph and `graph_model` says, as mathematics, what
//! each change makes of it. `handler` holds the completion bus and `bus_model`
//! its mathematics. `module` holds the traits that a user implements: modules,
//! factories, hooks and callbacks. `laws` states what holds across several
//! steps. The stages never panic; what would be a broken invariant elsewhere is
//! a `TaskError` here.

pub mod add;
pub mod building;
pub mod bus_model;
pub mod cache;
pub mod clean;
pub mod compilation;
pub mod dependency;
pub mod diagnostic;
pub mod execution;
pub mod exports;
pub mod factorize;
pub mod graph_model;
pub mod handler;
pub mod ident;
pub mod laws;
pub mod module;
pub mod module_graph;
pub mod options;
pub mod process_dependencies;
pub mod profile;
pub mod table;
pub mod task;
pub mod wait;
pub mod worker_queue;

pub use crate::ident::{DependencyId, ModuleIdentifier};
pub use crate::add::{set_resolved_module, AddQueue, AddTask, AddTaskResult};
pub use crate::building::{BuildQueue, BuildTask, BuildTaskResult};
pub use crate::cache::{BuildModuleOccasion, Cache};
pub use crate::clean::{CleanQueue, CleanTask, CleanTaskResult};
pub use crate::compilation::{Compilation, IdentifierSet};
pub use crate::dependency::{BoxDependency, Dependency};
pub use crate::diagnostic::ModuleDiagnostic;
pub use crate::execution::{
    BuildTimeExecutionOption, BuildTimeExecutionQueue, BuildTimeExecutionTask, ExecuteModuleResult,
};
pub use crate::exports::{
    ExportInfo, ExportInfoId, ExportsInfo, ExportsInfoId, ExportsInfoRelated, UsageState,
};
pub use crate::factorize::{FactorizeQueue, FactorizeStart, FactorizeTask, FactorizeTaskResult};
pub use crate::graph_model::{GraphError, ModuleGraphConnection, ModuleIssuer};
pub use crate::handler::{
    create_queue_handle, OnTaskFinished, QueueHandleCallback, QueueHandler, QueueHandlerProcessor,
    QueueTask, Subscription,
};
pub use crate::module::{
    BoxModule, BuildContext, BuildOutput, BuildResult, CompilerContext, Module,
    ModuleCreationCallback, ModuleFactory, ModuleFactoryCreateData, ModuleFactoryResult,
    OnModuleCreated, PluginDriver, SharedModuleFactory, SharedPluginDriver,
};
pub use crate::module_graph::{ModuleGraph, ModuleGraphModule};
pub use crate::options::{CompilerOptions, Context, Resolve, ResolverFactory, SourceMapKind};
pub use crate::process_dependencies::{
    ProcessDependenciesQueue, ProcessDependenciesResult, ProcessDependenciesTask,
};
pub use crate::profile::{ModuleProfile, Stage, StageMarks};
pub use crate::task::{Hook, TaskError, TaskResult};
pub use crate::wait::{WaitTask, WaitTaskKey, WaitTaskResult};
pub use crate::worker_queue::WorkerQueue;
