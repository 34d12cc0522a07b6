use make_queue::{
    BoxModule, BuildContext, BuildResult, BuildTask, BuildTaskResult, Cache, CompilerOptions,
    Context, Dependency, DependencyId, Hook, Module, ModuleIdentifier, ModuleProfile,
    PluginDriver, Resolve, ResolverFactory, SharedPluginDriver, SourceMapKind, StageMarks,
    TaskError, TaskResult,
};
use rspack_error::{Diagnostic, Error};
use std::sync::{Arc, Mutex};

#[derive(Default)]
struct Log {
    events: Mutex<Vec<String>>,
}

impl Log {
    fn note(&self, event: &str) {
        self.events.lock().unwrap().push(event.to_string());
    }
    fn take(&self) -> Vec<String> {
        std::mem::take(&mut *self.events.lock().unwrap())
    }
}

struct Source {
    id: u64,
    digest: u64,
    fails: bool,
    log: Arc<Log>,
}

impl Module for Source {
    fn identity(&self) -> ModuleIdentifier {
        ModuleIdentifier(self.id)
    }
    fn stands_for_issuer(&self) -> bool {
        false
    }
    fn fingerprint(&self) -> u64 {
        self.digest
    }
    fn context(&self) -> Option<Box<Context>> {
        self.get_context()
    }
    fn source_map_kind(&self) -> SourceMapKind {
        self.get_source_map_kind()
    }
    fn diagnostics(&self) -> Vec<Diagnostic> {
        self.clone_diagnostics()
    }
    fn built(&self, _build_context: BuildContext, _outcome: Result<BuildResult, Error>) -> bool {
        true
    }
    fn identifier(&self) -> ModuleIdentifier {
        ModuleIdentifier(self.id)
    }
    fn is_self_module(&self) -> bool {
        false
    }
    fn get_context(&self) -> Option<Box<Context>> {
        Some(Box::new(Context::new("/src".to_string())))
    }
    fn get_source_map_kind(&self) -> SourceMapKind {
        SourceMapKind::SourceMap
    }
    fn input_fingerprint(&self) -> u64 {
        self.digest
    }
    fn build(&mut self, build_context: BuildContext) -> Result<BuildResult, Error> {
        assert_eq!(build_context.compiler_context.module, ModuleIdentifier(self.id));
        assert_eq!(build_context.compiler_context.module_context.unwrap().path, "/src");
        assert_eq!(
            build_context.compiler_context.module_source_map_kind,
            SourceMapKind::SourceMap
        );
        assert!(build_context.compiler_context.queue_handler.is_none());
        assert_eq!(build_context.compiler_options.context.path, "/root");
        assert_eq!(build_context.compiler_context.options.context.path, "/root");
        self.log.note("build");
        if self.fails {
            return Err(Error::error("syntax error".to_string()));
        }
        Ok(BuildResult {
            dependencies: vec![Box::new(Dependency::new(
                DependencyId(31),
                "./b".to_string(),
                None,
            ))],
            side_effect_free: Some(true),
        })
    }
    fn clone_diagnostics(&self) -> Vec<Diagnostic> {
        vec![
            Diagnostic::warn("W1".to_string(), "first".to_string()),
            Diagnostic::warn("W2".to_string(), "second".to_string()),
        ]
    }
}

struct Hooks {
    failing: Option<Hook>,
    log: Arc<Log>,
}

impl Hooks {
    fn answer(&self, hook: Hook, name: &str) -> Result<(), Error> {
        self.log.note(name);
        if self.failing == Some(hook) {
            Err(Error::error(format!("{} failed", name)))
        } else {
            Ok(())
        }
    }
}

impl PluginDriver for Hooks {
    fn answered(
        &self,
        _hook: Hook,
        _before: BoxModule,
        _after: BoxModule,
        _outcome: Result<(), Error>,
    ) -> bool {
        true
    }
    fn build_module(&self, _module: &mut BoxModule) -> Result<(), Error> {
        self.answer(Hook::BuildModule, "build_module")
    }
    fn succeed_module(&self, _module: &BoxModule) -> Result<(), Error> {
        self.answer(Hook::SucceedModule, "succeed_module")
    }
    fn still_valid_module(&self, _module: &BoxModule) -> Result<(), Error> {
        self.answer(Hook::StillValidModule, "still_valid_module")
    }
}

fn task(id: u64, digest: u64, fails: bool, failing: Option<Hook>, log: &Arc<Log>) -> BuildTask {
    BuildTask {
        module: BoxModule::new(Box::new(Source { id, digest, fails, log: log.clone() })),
        resolver_factory: Arc::new(ResolverFactory {
            resolve: Resolve { prefer_relative: false, symlinks: true, fully_specified: false },
        }),
        compiler_options: Arc::new(CompilerOptions {
            context: Context::new("/root".to_string()),
            bail: false,
        }),
        plugin_driver: SharedPluginDriver::new(Box::new(Hooks { failing, log: log.clone() })),
        current_profile: Some(Box::new(ModuleProfile::new())),
        queue_handler: None,
    }
}

fn built(res: Result<TaskResult, TaskError>) -> BuildTaskResult {
    match res {
        Ok(TaskResult::Build(result)) => *result,
        Ok(_) => panic!("another stage"),
        Err(error) => panic!("{:?}", error),
    }
}

#[test]
fn a_fresh_build_runs_the_hooks_around_the_build() {
    let log = Arc::new(Log::default());
    let mut cache = Cache::new();
    let result = built(task(1, 5, false, None, &log).run(&mut cache));
    assert_eq!(log.take(), vec!["build_module", "build", "succeed_module"]);
    assert!(!result.from_cache);
    assert_eq!(result.module.identifier(), ModuleIdentifier(1));
    assert_eq!(result.build_result.dependencies.len(), 1);
    assert_eq!(result.build_result.dependencies[0].id, DependencyId(31));
    assert_eq!(result.build_result.side_effect_free, Some(true));
}

#[test]
fn diagnostics_are_reported_for_the_module() {
    let log = Arc::new(Log::default());
    let mut cache = Cache::new();
    let result = built(task(1, 5, false, None, &log).run(&mut cache));
    assert_eq!(result.diagnostics.len(), 2);
    assert_eq!(result.diagnostics[0].diagnostic.message, "first");
    assert_eq!(result.diagnostics[1].diagnostic.message, "second");
    assert_eq!(result.diagnostics[0].module_identifier, Some(ModuleIdentifier(1)));
    assert_eq!(result.diagnostics[1].module_identifier, Some(ModuleIdentifier(1)));
}

#[test]
fn second_build_comes_from_the_cache() {
    let log = Arc::new(Log::default());
    let mut cache = Cache::new();
    let first = built(task(1, 5, false, None, &log).run(&mut cache));
    log.take();
    let second = built(task(1, 5, false, None, &log).run(&mut cache));
    assert_eq!(log.take(), vec!["still_valid_module"]);
    assert!(second.from_cache);
    assert_eq!(second.module.identifier(), ModuleIdentifier(1));
    assert_eq!(second.build_result.dependencies.len(), first.build_result.dependencies.len());
    assert_eq!(second.build_result.dependencies[0].id, first.build_result.dependencies[0].id);
    assert_eq!(
        second.build_result.dependencies[0].request,
        first.build_result.dependencies[0].request
    );
    assert_eq!(second.build_result.side_effect_free, first.build_result.side_effect_free);
    assert_eq!(second.diagnostics.len(), first.diagnostics.len());
    assert_eq!(second.diagnostics[0].diagnostic.message, "first");
    assert_eq!(second.diagnostics[1].diagnostic.message, "second");
    assert_eq!(second.diagnostics[1].module_identifier, Some(ModuleIdentifier(1)));
    let third = built(task(1, 5, false, None, &log).run(&mut cache));
    assert!(third.from_cache);
}

#[test]
fn changed_inputs_are_built_again() {
    let log = Arc::new(Log::default());
    let mut cache = Cache::new();
    built(task(1, 5, false, None, &log).run(&mut cache));
    log.take();
    let changed = built(task(1, 6, false, None, &log).run(&mut cache));
    assert!(!changed.from_cache);
    assert_eq!(log.take(), vec!["build_module", "build", "succeed_module"]);
    let back = built(task(1, 5, false, None, &log).run(&mut cache));
    assert!(!back.from_cache);
    let same = built(task(1, 5, false, None, &log).run(&mut cache));
    assert!(same.from_cache);
}

#[test]
fn another_module_is_built_on_its_own() {
    let log = Arc::new(Log::default());
    let mut cache = Cache::new();
    built(task(1, 5, false, None, &log).run(&mut cache));
    let other = built(task(2, 5, false, None, &log).run(&mut cache));
    assert!(!other.from_cache);
    let first = built(task(1, 5, false, None, &log).run(&mut cache));
    assert!(first.from_cache);
}

#[test]
fn a_failed_build_is_returned_and_not_kept() {
    let log = Arc::new(Log::default());
    let mut cache = Cache::new();
    match task(1, 5, true, None, &log).run(&mut cache) {
        Err(TaskError::Build(error)) => assert_eq!(error.message, "syntax error"),
        Err(error) => panic!("{:?}", error),
        Ok(_) => panic!("a result"),
    }
    assert_eq!(log.take(), vec!["build_module", "build", "succeed_module"]);
    let again = built(task(1, 5, false, None, &log).run(&mut cache));
    assert!(!again.from_cache);
}

#[test]
fn a_failed_hook_before_the_build_ends_the_task() {
    let log = Arc::new(Log::default());
    let mut cache = Cache::new();
    match task(1, 5, false, Some(Hook::BuildModule), &log).run(&mut cache) {
        Err(TaskError::Hook(Hook::BuildModule, error)) => {
            assert_eq!(error.message, "build_module failed")
        }
        Err(error) => panic!("{:?}", error),
        Ok(_) => panic!("a result"),
    }
    assert_eq!(log.take(), vec!["build_module"]);
}

#[test]
fn a_failed_hook_after_the_build_counts_before_the_build() {
    let log = Arc::new(Log::default());
    let mut cache = Cache::new();
    match task(1, 5, true, Some(Hook::SucceedModule), &log).run(&mut cache) {
        Err(TaskError::Hook(Hook::SucceedModule, error)) => {
            assert_eq!(error.message, "succeed_module failed")
        }
        Err(error) => panic!("{:?}", error),
        Ok(_) => panic!("a result"),
    }
    let again = built(task(1, 5, false, None, &log).run(&mut cache));
    assert!(!again.from_cache);
}

#[test]
fn a_failed_hook_for_a_valid_result_ends_the_task() {
    let log = Arc::new(Log::default());
    let mut cache = Cache::new();
    built(task(1, 5, false, None, &log).run(&mut cache));
    log.take();
    match task(1, 5, false, Some(Hook::StillValidModule), &log).run(&mut cache) {
        Err(TaskError::Hook(Hook::StillValidModule, error)) => {
            assert_eq!(error.message, "still_valid_module failed")
        }
        Err(error) => panic!("{:?}", error),
        Ok(_) => panic!("a result"),
    }
    assert_eq!(log.take(), vec!["still_valid_module"]);
    let after = built(task(1, 5, false, None, &log).run(&mut cache));
    assert!(after.from_cache);
}

#[test]
fn the_profile_marks_the_building_stage() {
    let log = Arc::new(Log::default());
    let mut cache = Cache::new();
    let fresh = built(task(1, 5, false, None, &log).run(&mut cache));
    assert_eq!(
        fresh.current_profile.unwrap().building,
        StageMarks { started: true, ended: true }
    );
    let replayed = built(task(1, 5, false, None, &log).run(&mut cache));
    let profile = replayed.current_profile.unwrap();
    assert_eq!(profile.building, StageMarks { started: true, ended: true });
    assert_eq!(profile.factory, StageMarks { started: false, ended: false });
}

#[test]
fn verdict_of_build_and_hook() {
    let fine = || Ok(BuildResult { dependencies: vec![], side_effect_free: None });
    assert!(BuildTask::verdict(fine(), Ok(())).is_ok());
    assert!(matches!(
        BuildTask::verdict(Err(Error::error("b".to_string())), Ok(())),
        Err(TaskError::Build(_))
    ));
    assert!(matches!(
        BuildTask::verdict(fine(), Err(Error::error("h".to_string()))),
        Err(TaskError::Hook(Hook::SucceedModule, _))
    ));
    assert!(matches!(
        BuildTask::verdict(Err(Error::error("b".to_string())), Err(Error::error("h".to_string()))),
        Err(TaskError::Hook(Hook::SucceedModule, _))
    ));
}
