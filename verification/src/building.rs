//! The stage that builds the contents of a module.

use crate::cache::{remember, replay, Cache, OccasionView};
use crate::diagnostic::{tag_diagnostics, tagged, ModuleDiagnostic};
use crate::handler::QueueHandler;
use crate::ident::ModuleIdentifier;
use crate::module::{
    share, BoxModule, BuildContext, BuildOutput, BuildOutputView, BuildResult, CompilerContext,
    SharedPluginDriver,
};
use crate::options::{CompilerOptions, Context, ResolverFactory, SourceMapKind};
use crate::profile::{mark_end, mark_start, profile_ended, profile_started, ModuleProfile, Stage};
use crate::task::{Hook, TaskError, TaskResult};
use crate::worker_queue::WorkerQueue;
use rspack_error::{Diagnostic, Error};
use std::sync::Arc;
use vstd::prelude::*;

verus! {

/// A module to be built.
pub struct BuildTask {
    pub module: BoxModule,
    pub resolver_factory: Arc<ResolverFactory>,
    pub compiler_options: Arc<CompilerOptions>,
    pub plugin_driver: SharedPluginDriver,
    pub current_profile: Option<Box<ModuleProfile>>,
    pub queue_handler: Option<QueueHandler>,
}

/// A built module.
pub struct BuildTaskResult {
    pub module: BoxModule,
    pub build_result: Box<BuildResult>,
    pub diagnostics: Vec<ModuleDiagnostic>,
    pub current_profile: Option<Box<ModuleProfile>>,
    /// Whether the result is an earlier one, found still valid.
    pub from_cache: bool,
}

impl BuildTaskResult {
    /// What the result holds of the build, as a value.
    pub open spec fn output(&self) -> BuildOutputView {
        BuildOutputView {
            dependencies: self.build_result.dependencies@,
            side_effect_free: self.build_result.side_effect_free,
            diagnostics: self.diagnostics@,
        }
    }
}

/// What the build of a module comes to, from what the build gave and what the
/// hook after it gave: a failed hook counts before a failed build.
pub open spec fn build_verdict(built: Result<BuildResult, Error>, succeeded: Result<(), Error>) -> Result<
    BuildResult,
    TaskError,
> {
    match succeeded {
        Err(error) => Err(TaskError::Hook(Hook::SucceedModule, error)),
        Ok(_) => match built {
            Ok(result) => Ok(result),
            Err(error) => Err(TaskError::Build(error)),
        },
    }
}

/// Whether `res` is how a build ends that the cache replays as `kept`, on the
/// answer `still_valid` of the hook for a still valid result: where the hook
/// succeeded, the earlier build with the task's own module, marked as from the
/// cache; where it failed, its failure.
pub open spec fn replayed(
    task: BuildTask,
    kept: BuildOutputView,
    still_valid: Result<(), Error>,
    res: Result<TaskResult, TaskError>,
) -> bool {
    match still_valid {
        Ok(_) => {
            &&& res matches Ok(TaskResult::Build(result))
            &&& result.from_cache
            &&& result.module == task.module
            &&& result.output() == kept
            &&& result.current_profile == profile_ended(
                profile_started(task.current_profile, Stage::Building),
                Stage::Building,
            )
        },
        Err(error) => res == Err::<TaskResult, TaskError>(
            TaskError::Hook(Hook::StillValidModule, error),
        ),
    }
}

/// Whether `res` is how a fresh build ends, and `now` what the cache remembers
/// after it remembered `kept`, where the build answered `built`, left the
/// module as `after`, and the hook after the build answered `succeeded`.
///
/// Where hook and build succeeded, the result hands back the module as the
/// build left it, under the identity that the task's module had, with what the
/// build gave and with every diagnostic of the module, each reported for the
/// module; the cache remembers that result. Otherwise the failure is returned,
/// the hook's before the build's, and the cache is as before.
pub open spec fn finished_anew(
    task: BuildTask,
    built: Result<BuildResult, Error>,
    after: BoxModule,
    succeeded: Result<(), Error>,
    kept: OccasionView,
    now: OccasionView,
    res: Result<TaskResult, TaskError>,
) -> bool {
    match build_verdict(built, succeeded) {
        Ok(build_result) => {
            &&& res matches Ok(TaskResult::Build(result))
            &&& !result.from_cache
            &&& result.module == after
            &&& result.module.identity() == task.module.identity()
            &&& *result.build_result == build_result
            &&& result.diagnostics@ == tagged(after.diagnostics()@, after.identity())
            &&& result.current_profile == profile_ended(
                profile_started(task.current_profile, Stage::Building),
                Stage::Building,
            )
            &&& now == remember(
                kept,
                task.module.identity(),
                task.module.fingerprint(),
                result.output(),
            )
        },
        Err(error) => res == Err::<TaskResult, TaskError>(error) && now == kept,
    }
}

/// Whether `res` is how a build ends that was not replayed, once the hook
/// before the build has left the module as `hooked`: the module's own build
/// ran on `hooked`, handed the context that the task makes for it; the hook
/// after the build ran on the module as the build left it; and the task ended
/// on their answers as `finished_anew` says.
pub open spec fn built_anew(
    task: BuildTask,
    hooked: BoxModule,
    kept: OccasionView,
    now: OccasionView,
    res: Result<TaskResult, TaskError>,
) -> bool {
    exists|
        build_context: BuildContext,
        built: Result<BuildResult, Error>,
        after: BoxModule,
        succeeded: Result<(), Error>,
    |
        #![trigger
            hooked.built(build_context, built),
            task.plugin_driver.answered(Hook::SucceedModule, after, after, succeeded),
        ]
        {
            &&& task.hands(hooked, build_context)
            &&& hooked.built(build_context, built)
            &&& task.plugin_driver.answered(Hook::SucceedModule, after, after, succeeded)
            &&& finished_anew(task, built, after, succeeded, kept, now, res)
        }
}

impl BuildTask {
    /// Whether `build_context` is what the task hands to the build of `module`:
    /// the options and the resolvers of the task, its handle into the pipeline,
    /// and the identity, the context and the kind of source map of the module.
    pub open spec fn hands(self, module: BoxModule, build_context: BuildContext) -> bool {
        &&& build_context.compiler_context.options == self.compiler_options
        &&& build_context.compiler_context.resolver_factory == self.resolver_factory
        &&& build_context.compiler_context.module == module.identity()
        &&& build_context.compiler_context.module_context == module.context()
        &&& build_context.compiler_context.module_source_map_kind == module.source_map_kind()
        &&& build_context.compiler_context.queue_handler == self.queue_handler
        &&& build_context.compiler_options == self.compiler_options
    }

    /// What is handed to the build of `module`.
    pub fn build_context(
        module: ModuleIdentifier,
        module_context: Option<Box<Context>>,
        module_source_map_kind: SourceMapKind,
        compiler_options: Arc<CompilerOptions>,
        resolver_factory: Arc<ResolverFactory>,
        queue_handler: Option<QueueHandler>,
    ) -> (build_context: BuildContext)
        ensures
            build_context.compiler_context.options == compiler_options,
            build_context.compiler_context.resolver_factory == resolver_factory,
            build_context.compiler_context.module == module,
            build_context.compiler_context.module_context == module_context,
            build_context.compiler_context.module_source_map_kind == module_source_map_kind,
            build_context.compiler_context.queue_handler == queue_handler,
            build_context.compiler_options == compiler_options,
    {
        BuildContext {
            compiler_context: CompilerContext {
                options: share(&compiler_options),
                resolver_factory,
                module,
                module_context,
                module_source_map_kind,
                queue_handler,
            },
            compiler_options,
        }
    }

    /// What the build of a module comes to, from what the build gave and what
    /// the hook after it gave.
    pub fn verdict(built: Result<BuildResult, Error>, succeeded: Result<(), Error>) -> (verdict:
        Result<BuildResult, TaskError>)
        ensures
            verdict == build_verdict(built, succeeded),
    {
        match succeeded {
            Err(error) => Err(TaskError::Hook(Hook::SucceedModule, error)),
            Ok(_) => match built {
                Ok(result) => Ok(result),
                Err(error) => Err(TaskError::Build(error)),
            },
        }
    }

    /// Finishes a fresh build: reports the module's diagnostics for `reported_for`,
    /// keeps the build under `module_identifier` with `fingerprint`, and marks
    /// the end of the building stage.
    pub fn finish_built(
        module: BoxModule,
        module_identifier: ModuleIdentifier,
        fingerprint: u64,
        build_result: BuildResult,
        module_diagnostics: Vec<Diagnostic>,
        reported_for: ModuleIdentifier,
        current_profile: Option<Box<ModuleProfile>>,
        cache: &mut Cache,
    ) -> (result: BuildTaskResult)
        ensures
            result.module == module,
            *result.build_result == build_result,
            result.diagnostics@ == tagged(module_diagnostics@, reported_for),
            result.current_profile == profile_ended(current_profile, Stage::Building),
            !result.from_cache,
            final(cache).build_module_occasion@ == remember(
                old(cache).build_module_occasion@,
                module_identifier,
                fingerprint,
                result.output(),
            ),
    {
        let diagnostics = tag_diagnostics(module_diagnostics, reported_for);
        let output = BuildOutput { build_result, diagnostics };
        cache.build_module_occasion.store(module_identifier, fingerprint, &output);
        BuildTaskResult {
            module,
            build_result: Box::new(output.build_result),
            diagnostics: output.diagnostics,
            current_profile: mark_end(current_profile, Stage::Building),
            from_cache: false,
        }
    }

    /// Finishes a build that was replayed: where the hook for a result that is
    /// still valid succeeded, the result is the earlier build, marked as such.
    pub fn finish_replayed(
        module: BoxModule,
        output: BuildOutput,
        still_valid: Result<(), Error>,
        current_profile: Option<Box<ModuleProfile>>,
    ) -> (res: Result<TaskResult, TaskError>)
        ensures
            match still_valid {
                Ok(_) => {
                    &&& res matches Ok(TaskResult::Build(result))
                    &&& result.module == module
                    &&& result.output() == output@
                    &&& result.current_profile == profile_ended(current_profile, Stage::Building)
                    &&& result.from_cache
                },
                Err(error) => res matches Err(TaskError::Hook(Hook::StillValidModule, failed))
                    && failed == error,
            },
    {
        match still_valid {
            Err(error) => Err(TaskError::Hook(Hook::StillValidModule, error)),
            Ok(_) => Ok(
                TaskResult::Build(
                    Box::new(
                        BuildTaskResult {
                            module,
                            build_result: Box::new(output.build_result),
                            diagnostics: output.diagnostics,
                            current_profile: mark_end(current_profile, Stage::Building),
                            from_cache: true,
                        },
                    ),
                ),
            ),
        }
    }

    /// Builds the module, at most once for what the cache remembers, as
    /// `replayed` and `built_anew` say.
    ///
    /// Where the cache replays a build for the module and its digest, nothing
    /// is built: the hook for a still valid result runs, and on its answer the
    /// result is the earlier build, or its failure. Otherwise the hook before
    /// the build runs, then the module's own build, handed its context, then
    /// the hook after it; a result is a fresh one, holds what the build gave
    /// and the module's diagnostics, and is remembered for the module and its
    /// digest. Where a hook or the build fails, its failure is returned and the
    /// cache is as before.
    pub fn run(self, cache: &mut Cache) -> (res: Result<TaskResult, TaskError>)
        ensures
            match replay(
                old(cache).build_module_occasion@,
                self.module.identity(),
                self.module.fingerprint(),
            ) {
                Some(kept) => {
                    &&& final(cache).build_module_occasion@ == old(cache).build_module_occasion@
                    &&& exists|still_valid: Result<(), Error>|
                        {
                            &&& #[trigger] self.plugin_driver.answered(
                                Hook::StillValidModule,
                                self.module,
                                self.module,
                                still_valid,
                            )
                            &&& replayed(self, kept, still_valid, res)
                        }
                },
                None => exists|hooked: BoxModule, before_build: Result<(), Error>|
                    {
                        &&& #[trigger] self.plugin_driver.answered(
                            Hook::BuildModule,
                            self.module,
                            hooked,
                            before_build,
                        )
                        &&& match before_build {
                            Err(error) => {
                                &&& res == Err::<TaskResult, TaskError>(
                                    TaskError::Hook(Hook::BuildModule, error),
                                )
                                &&& final(cache).build_module_occasion@ == old(
                                    cache,
                                ).build_module_occasion@
                            },
                            Ok(_) => built_anew(
                                self,
                                hooked,
                                old(cache).build_module_occasion@,
                                final(cache).build_module_occasion@,
                                res,
                            ),
                        }
                    },
            },
    {
        let current_profile = mark_start(self.current_profile, Stage::Building);
        let mut module = self.module;
        let module_identifier = module.identifier();
        let fingerprint = module.input_fingerprint();

        match cache.build_module_occasion.lookup(module_identifier, fingerprint) {
            Some(output) => {
                let still_valid = self.plugin_driver.still_valid_module(&module);
                BuildTask::finish_replayed(module, output, still_valid, current_profile)
            },
            None => {
                match self.plugin_driver.build_module(&mut module) {
                    Err(error) => {
                        return Err(TaskError::Hook(Hook::BuildModule, error));
                    },
                    Ok(_) => {},
                }
                let ghost hooked = module;
                let build_context = BuildTask::build_context(
                    module.identifier(),
                    module.get_context(),
                    module.get_source_map_kind(),
                    self.compiler_options,
                    self.resolver_factory,
                    self.queue_handler,
                );
                let ghost handed = build_context;
                let built = module.build(build_context);
                let succeeded = self.plugin_driver.succeed_module(&module);
                let ghost after = module;
                let ghost kept = cache.build_module_occasion@;
                let ghost answers = (built, succeeded);
                let res = match BuildTask::verdict(built, succeeded) {
                    Err(error) => Err(error),
                    Ok(build_result) => {
                        let module_diagnostics = module.clone_diagnostics();
                        let reported_for = module.identifier();
                        Ok(
                            TaskResult::Build(
                                Box::new(
                                    BuildTask::finish_built(
                                        module,
                                        module_identifier,
                                        fingerprint,
                                        build_result,
                                        module_diagnostics,
                                        reported_for,
                                        current_profile,
                                        cache,
                                    ),
                                ),
                            ),
                        )
                    },
                };
                proof {
                    assert(self.hands(hooked, handed));
                    assert(hooked.built(handed, answers.0));
                    assert(self.plugin_driver.answered(
                        Hook::SucceedModule,
                        after,
                        after,
                        answers.1,
                    ));
                    assert(finished_anew(
                        self,
                        answers.0,
                        after,
                        answers.1,
                        kept,
                        cache.build_module_occasion@,
                        res,
                    ));
                }
                res
            },
        }
    }
}

/// The modules that wait to be built.
pub type BuildQueue = WorkerQueue<BuildTask>;

} // verus!
