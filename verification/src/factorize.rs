//! The stage that turns a dependency into a module.

use crate::dependency::{BoxDependency, Dependency};
use crate::diagnostic::{diagnostic_of, error_with_source, into_diagnostic, with_source_code};
use crate::exports::ExportsInfoRelated;
use crate::ident::{DependencyId, ModuleIdentifier};
use crate::module::{
    ModuleCreationCallback, ModuleFactoryCreateData, ModuleFactoryResult, SharedModuleFactory,
    SharedPluginDriver,
};
use crate::options::{CompilerOptions, Context, Resolve, ResolverFactory};
use crate::profile::{mark_end, mark_start, profile_ended, profile_started, ModuleProfile, Stage};
use crate::task::{TaskError, TaskResult};
use crate::worker_queue::WorkerQueue;
use rspack_error::{Diagnostic, Error};
use rustc_hash::FxHashSet;
use std::collections::HashSet;
use std::path::PathBuf;
use std::sync::Arc;
use vstd::prelude::*;

verus! {

/// A dependency to be factorized, with all that the factory needs.
pub struct FactorizeTask {
    pub module_factory: SharedModuleFactory,
    pub original_module_identifier: Option<ModuleIdentifier>,
    /// The source text of the module that holds the dependency.
    pub original_module_source: Option<String>,
    pub original_module_context: Option<Box<Context>>,
    pub issuer: Option<Box<str>>,
    pub dependency: BoxDependency,
    pub dependencies: Vec<DependencyId>,
    pub is_entry: bool,
    pub resolve_options: Option<Box<Resolve>>,
    pub resolver_factory: Arc<ResolverFactory>,
    pub loader_resolver_factory: Arc<ResolverFactory>,
    pub options: Arc<CompilerOptions>,
    pub lazy_visit_modules: HashSet<String>,
    pub plugin_driver: SharedPluginDriver,
    pub current_profile: Option<Box<ModuleProfile>>,
    pub connect_origin: bool,
    pub callback: Option<ModuleCreationCallback>,
}

/// What a factorization gave.
pub struct FactorizeTaskResult {
    pub dependency: DependencyId,
    pub original_module_identifier: Option<ModuleIdentifier>,
    /// What the factory made. `None` where the factory failed and the failure
    /// is among the diagnostics.
    pub factory_result: Option<ModuleFactoryResult>,
    pub dependencies: Vec<DependencyId>,
    pub is_entry: bool,
    pub current_profile: Option<Box<ModuleProfile>>,
    pub exports_info_related: ExportsInfoRelated,
    pub file_dependencies: FxHashSet<PathBuf>,
    pub context_dependencies: FxHashSet<PathBuf>,
    pub missing_dependencies: FxHashSet<PathBuf>,
    pub diagnostics: Vec<Diagnostic>,
    pub callback: Option<ModuleCreationCallback>,
    pub connect_origin: bool,
}

/// A factorization that has prepared what it hands to the factory and waits
/// for the factory's answer.
pub struct FactorizeStart {
    /// The factory to ask.
    pub module_factory: SharedModuleFactory,
    /// What to hand to the factory.
    pub create_data: ModuleFactoryCreateData,
    /// The result as far as it is known before the factory answers.
    pub pending: FactorizeTaskResult,
    pub original_module_source: Option<String>,
    /// Whether a failure of the factory ends the run.
    pub bail: bool,
}

/// The context from which a dependency is resolved: the one it declares, else
/// that of the module that holds it, else the root context of the compilation.
pub open spec fn effective_context(
    dependency: Dependency,
    original_module_context: Option<Box<Context>>,
    options: CompilerOptions,
) -> Context {
    match dependency.context {
        Some(declared) => declared,
        None => match original_module_context {
            Some(inherited) => *inherited,
            None => options.context,
        },
    }
}

/// The error of a factory as it is reported: with the source text of the
/// module that holds the dependency, where that is at hand.
pub open spec fn reported_error(error: Error, original_module_source: Option<String>) -> Error {
    match original_module_source {
        Some(source) => error_with_source(error, source@),
        None => error,
    }
}

impl FactorizeTaskResult {
    /// Whether this result is `pending` in everything that the factory's answer
    /// does not decide, with the end of the factory stage marked.
    pub open spec fn completes(&self, pending: FactorizeTaskResult) -> bool {
        &&& self.dependency == pending.dependency
        &&& self.original_module_identifier == pending.original_module_identifier
        &&& self.dependencies == pending.dependencies
        &&& self.is_entry == pending.is_entry
        &&& self.current_profile == profile_ended(pending.current_profile, Stage::Factory)
        &&& self.exports_info_related == pending.exports_info_related
        &&& self.callback == pending.callback
        &&& self.connect_origin == pending.connect_origin
    }

    /// Whether this result carries what `create_data` holds of paths.
    pub open spec fn holds_paths_of(&self, create_data: ModuleFactoryCreateData) -> bool {
        &&& self.file_dependencies == create_data.file_dependencies
        &&& self.context_dependencies == create_data.context_dependencies
        &&& self.missing_dependencies == create_data.missing_dependencies
    }

    /// Whether this result carries what `task` handed on, for whatever the
    /// factory answered.
    pub open spec fn continues(&self, task: FactorizeTask) -> bool {
        &&& self.dependency == task.dependency.id
        &&& self.original_module_identifier == task.original_module_identifier
        &&& self.dependencies == task.dependencies
        &&& self.is_entry == task.is_entry
        &&& self.current_profile == profile_ended(
            profile_started(task.current_profile, Stage::Factory),
            Stage::Factory,
        )
        &&& self.exports_info_related.fresh_for(task.dependency.id)
        &&& self.callback == task.callback
        &&& self.connect_origin == task.connect_origin
    }

    fn with_factory_result(self, factory_result: Option<ModuleFactoryResult>) -> (result: Self)
        ensures
            result == (FactorizeTaskResult { factory_result, ..self }),
    {
        let mut result = self;
        result.factory_result = factory_result;
        result
    }

    fn with_diagnostics(self, diagnostics: Vec<Diagnostic>) -> (result: Self)
        ensures
            result == (FactorizeTaskResult { diagnostics, ..self }),
    {
        let mut result = self;
        result.diagnostics = diagnostics;
        result
    }

    fn with_file_dependencies(self, files: FxHashSet<PathBuf>) -> (result: Self)
        ensures
            result == (FactorizeTaskResult { file_dependencies: files, ..self }),
    {
        let mut result = self;
        result.file_dependencies = files;
        result
    }

    fn with_context_dependencies(self, contexts: FxHashSet<PathBuf>) -> (result: Self)
        ensures
            result == (FactorizeTaskResult { context_dependencies: contexts, ..self }),
    {
        let mut result = self;
        result.context_dependencies = contexts;
        result
    }

    fn with_missing_dependencies(self, missing: FxHashSet<PathBuf>) -> (result: Self)
        ensures
            result == (FactorizeTaskResult { missing_dependencies: missing, ..self }),
    {
        let mut result = self;
        result.missing_dependencies = missing;
        result
    }
}

/// Whether `res` is how a factorization ends that was `pending`, whose factory
/// left `create_data` and answered `outcome`.
///
/// Where the factory made a module, the result holds it. Where it failed and
/// the compilation fails on the first error, the error is returned and there is
/// no result. Where it failed and the compilation goes on, the result holds no
/// module and the failure is the first of its diagnostics. In every result are
/// the paths and the diagnostics that the factory left in what it was handed.
pub open spec fn concluded(
    pending: FactorizeTaskResult,
    create_data: ModuleFactoryCreateData,
    outcome: Result<ModuleFactoryResult, Error>,
    original_module_source: Option<String>,
    bail: bool,
    res: Result<TaskResult, TaskError>,
) -> bool {
    match outcome {
        Ok(created) => {
            &&& res matches Ok(TaskResult::Factorize(result))
            &&& result.completes(pending)
            &&& result.holds_paths_of(create_data)
            &&& result.factory_result == Some(created)
            &&& result.diagnostics == create_data.diagnostics
        },
        Err(error) => if bail {
            &&& res matches Err(TaskError::Factorize(reported))
            &&& reported == reported_error(error, original_module_source)
        } else {
            &&& res matches Ok(TaskResult::Factorize(result))
            &&& result.completes(pending)
            &&& result.holds_paths_of(create_data)
            &&& result.factory_result is None
            &&& result.diagnostics@ == seq![
                diagnostic_of(reported_error(error, original_module_source)),
            ] + create_data.diagnostics@
        },
    }
}

impl FactorizeTask {
    /// Whether `start` is how the factorization begins: the factory is handed
    /// the dependency with its effective context and nothing found yet, and the
    /// result is as far as the task alone decides it.
    pub open spec fn begins(self, start: FactorizeStart) -> bool {
        &&& start.module_factory == self.module_factory
        &&& start.original_module_source == self.original_module_source
        &&& start.bail == self.options.bail
        &&& start.create_data.resolve_options == self.resolve_options
        &&& start.create_data.context == effective_context(
            *self.dependency,
            self.original_module_context,
            *self.options,
        )
        &&& start.create_data.dependency == self.dependency
        &&& start.create_data.issuer == self.issuer
        &&& start.create_data.issuer_identifier == self.original_module_identifier
        &&& start.create_data.file_dependencies@ == Set::<PathBuf>::empty()
        &&& start.create_data.context_dependencies@ == Set::<PathBuf>::empty()
        &&& start.create_data.missing_dependencies@ == Set::<PathBuf>::empty()
        &&& start.create_data.diagnostics@ == Seq::<Diagnostic>::empty()
        &&& start.pending.dependency == self.dependency.id
        &&& start.pending.original_module_identifier == self.original_module_identifier
        &&& start.pending.factory_result is None
        &&& start.pending.dependencies == self.dependencies
        &&& start.pending.is_entry == self.is_entry
        &&& start.pending.current_profile == profile_started(self.current_profile, Stage::Factory)
        &&& start.pending.exports_info_related.fresh_for(self.dependency.id)
        &&& start.pending.file_dependencies@ == Set::<PathBuf>::empty()
        &&& start.pending.context_dependencies@ == Set::<PathBuf>::empty()
        &&& start.pending.missing_dependencies@ == Set::<PathBuf>::empty()
        &&& start.pending.diagnostics@ == Seq::<Diagnostic>::empty()
        &&& start.pending.callback == self.callback
        &&& start.pending.connect_origin == self.connect_origin
    }

    /// Prepares a factorization: what the factory is handed, and the result as
    /// far as the task alone decides it.
    pub fn begin(self) -> (start: FactorizeStart)
        ensures
            self.begins(start),
    {
        let current_profile = mark_start(self.current_profile, Stage::Factory);
        let dependency = self.dependency;
        let dep_id = dependency.id;

        let context: Context = match dependency.get_context() {
            Some(declared) => declared.clone(),
            None => match &self.original_module_context {
                Some(inherited) => (**inherited).clone(),
                None => self.options.context.clone(),
            },
        };

        let pending = FactorizeTaskResult {
            dependency: dep_id,
            original_module_identifier: self.original_module_identifier,
            factory_result: None,
            dependencies: self.dependencies,
            is_entry: self.is_entry,
            current_profile,
            exports_info_related: ExportsInfoRelated::for_dependency(dep_id),
            file_dependencies: FxHashSet::default(),
            context_dependencies: FxHashSet::default(),
            missing_dependencies: FxHashSet::default(),
            diagnostics: Vec::new(),
            connect_origin: self.connect_origin,
            callback: self.callback,
        };

        // What holds whether the factory succeeds or fails is left by the
        // factory in what it was handed.
        let create_data = ModuleFactoryCreateData {
            resolve_options: self.resolve_options,
            context,
            dependency,
            issuer: self.issuer,
            issuer_identifier: self.original_module_identifier,
            file_dependencies: FxHashSet::default(),
            missing_dependencies: FxHashSet::default(),
            context_dependencies: FxHashSet::default(),
            diagnostics: Vec::new(),
        };

        FactorizeStart {
            module_factory: self.module_factory,
            create_data,
            pending,
            original_module_source: self.original_module_source,
            bail: self.options.bail,
        }
    }

    /// Finishes a factorization with the factory's answer, as `concluded` says.
    pub fn conclude(
        pending: FactorizeTaskResult,
        create_data: ModuleFactoryCreateData,
        outcome: Result<ModuleFactoryResult, Error>,
        original_module_source: Option<String>,
        bail: bool,
    ) -> (res: Result<TaskResult, TaskError>)
        ensures
            concluded(pending, create_data, outcome, original_module_source, bail, res),
    {
        let mut pending = pending;
        let mut create_data = create_data;
        pending.current_profile = mark_end(pending.current_profile, Stage::Factory);
        match outcome {
            Ok(created) => {
                Ok(
                    TaskResult::Factorize(
                        Box::new(
                            pending.with_factory_result(Some(created)).with_diagnostics(
                                create_data.diagnostics,
                            ).with_file_dependencies(
                                create_data.file_dependencies,
                            ).with_missing_dependencies(
                                create_data.missing_dependencies,
                            ).with_context_dependencies(create_data.context_dependencies),
                        ),
                    ),
                )
            },
            Err(error) => {
                let mut reported = error;
                // Quote the source of the module that asked, where it is at hand.
                match original_module_source {
                    Some(source) => {
                        reported = with_source_code(reported, source.as_str());
                    },
                    None => {},
                }
                if bail {
                    return Err(TaskError::Factorize(reported));
                }
                let mut diagnostics: Vec<Diagnostic> = Vec::new();
                diagnostics.push(into_diagnostic(reported));
                diagnostics.append(&mut create_data.diagnostics);
                Ok(
                    TaskResult::Factorize(
                        Box::new(
                            pending.with_factory_result(None).with_diagnostics(
                                diagnostics,
                            ).with_file_dependencies(
                                create_data.file_dependencies,
                            ).with_missing_dependencies(
                                create_data.missing_dependencies,
                            ).with_context_dependencies(create_data.context_dependencies),
                        ),
                    ),
                )
            },
        }
    }

    /// Factorizes the dependency: begins, asks the factory once, and ends with
    /// its answer as `concluded` says.
    ///
    /// Whatever the factory answers: a compilation that goes on after errors
    /// gets a result, an error is returned only where the compilation fails on
    /// the first error, and a result carries what the task handed on.
    pub fn run(self) -> (res: Result<TaskResult, TaskError>)
        ensures
            exists|
                start: FactorizeStart,
                left: ModuleFactoryCreateData,
                outcome: Result<ModuleFactoryResult, Error>,
            |
                {
                    &&& self.begins(start)
                    &&& #[trigger] start.module_factory.creates(start.create_data, left, outcome)
                    &&& concluded(
                        start.pending,
                        left,
                        outcome,
                        start.original_module_source,
                        start.bail,
                        res,
                    )
                },
            !self.options.bail ==> res is Ok,
            res matches Err(error) ==> error is Factorize,
            res matches Ok(done) ==> {
                &&& done matches TaskResult::Factorize(result)
                &&& result.continues(self)
            },
    {
        let start = self.begin();
        let ghost begun = start;
        let mut create_data = start.create_data;
        let outcome = start.module_factory.create(&mut create_data);
        let res = FactorizeTask::conclude(
            start.pending,
            create_data,
            outcome,
            start.original_module_source,
            start.bail,
        );
        assert(begun.module_factory.creates(begun.create_data, create_data, outcome));
        res
    }
}

/// The dependencies that wait to be factorized.
pub type FactorizeQueue = WorkerQueue<FactorizeTask>;

} // verus!
