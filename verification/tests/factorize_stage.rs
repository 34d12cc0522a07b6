use make_queue::{
    BoxModule, BuildContext, BuildResult, CompilerOptions, Context, Dependency, DependencyId,
    ExportInfoId, ExportsInfoId, FactorizeTask, FactorizeTaskResult, Hook, Module, ModuleFactory,
    ModuleFactoryCreateData, ModuleFactoryResult, ModuleIdentifier, ModuleProfile, PluginDriver,
    Resolve, ResolverFactory, SharedModuleFactory, SharedPluginDriver, SourceMapKind, StageMarks,
    TaskError, TaskResult, UsageState,
};
use rspack_error::{Diagnostic, Error};
use std::collections::HashSet;
use std::path::PathBuf;
use std::sync::{Arc, Mutex};

struct Plain {
    id: u64,
}

impl Module for Plain {
    fn identity(&self) -> ModuleIdentifier {
        ModuleIdentifier(self.id)
    }
    fn stands_for_issuer(&self) -> bool {
        false
    }
    fn fingerprint(&self) -> u64 {
        0
    }
    fn context(&self) -> Option<Box<Context>> {
        self.get_context()
    }
    fn source_map_kind(&self) -> SourceMapKind {
        self.get_source_map_kind()
    }
    fn diagnostics(&self) -> Vec<Diagnostic> {
        self.clone_diagnostics()
    }
    fn built(&self, _build_context: BuildContext, _outcome: Result<BuildResult, Error>) -> bool {
        true
    }
    fn identifier(&self) -> ModuleIdentifier {
        ModuleIdentifier(self.id)
    }
    fn is_self_module(&self) -> bool {
        false
    }
    fn get_context(&self) -> Option<Box<Context>> {
        None
    }
    fn get_source_map_kind(&self) -> SourceMapKind {
        SourceMapKind::Disabled
    }
    fn input_fingerprint(&self) -> u64 {
        0
    }
    fn build(&mut self, _build_context: BuildContext) -> Result<BuildResult, Error> {
        Ok(BuildResult { dependencies: vec![], side_effect_free: None })
    }
    fn clone_diagnostics(&self) -> Vec<Diagnostic> {
        vec![]
    }
}

struct Quiet;

impl PluginDriver for Quiet {
    fn answered(
        &self,
        _hook: Hook,
        _before: BoxModule,
        _after: BoxModule,
        _outcome: Result<(), Error>,
    ) -> bool {
        true
    }
    fn build_module(&self, _module: &mut BoxModule) -> Result<(), Error> {
        Ok(())
    }
    fn succeed_module(&self, _module: &BoxModule) -> Result<(), Error> {
        Ok(())
    }
    fn still_valid_module(&self, _module: &BoxModule) -> Result<(), Error> {
        Ok(())
    }
}

/// Answers with a module or an error, and leaves a path and a warning behind
/// either way. It notes the context it was handed.
struct Scripted {
    module: Option<u64>,
    seen_context: Arc<Mutex<String>>,
}

impl ModuleFactory for Scripted {
    fn creates(
        &self,
        _handed: ModuleFactoryCreateData,
        _left: ModuleFactoryCreateData,
        _outcome: Result<ModuleFactoryResult, Error>,
    ) -> bool {
        true
    }
    fn create(&self, data: &mut ModuleFactoryCreateData) -> Result<ModuleFactoryResult, Error> {
        *self.seen_context.lock().unwrap() = data.context.path.clone();
        data.file_dependencies.insert(PathBuf::from("/src/a.js"));
        data.missing_dependencies.insert(PathBuf::from("/src/a.ts"));
        data.context_dependencies.insert(PathBuf::from("/src"));
        data.diagnostics
            .push(Diagnostic::warn("W1".to_string(), "soft warning".to_string()));
        match self.module {
            Some(id) => Ok(ModuleFactoryResult::new(BoxModule::new(Box::new(Plain { id })))),
            None => Err(Error::error("cannot resolve './missing'".to_string())),
        }
    }
}

fn task(module: Option<u64>, bail: bool, seen_context: Arc<Mutex<String>>) -> FactorizeTask {
    FactorizeTask {
        module_factory: SharedModuleFactory::new(Box::new(Scripted { module, seen_context })),
        original_module_identifier: Some(ModuleIdentifier(1)),
        original_module_source: Some("import './missing';".to_string()),
        original_module_context: Some(Box::new(Context::new("/issuer".to_string()))),
        issuer: Some("issuer.js".into()),
        dependency: Box::new(Dependency::new(DependencyId(21), "./missing".to_string(), None)),
        dependencies: vec![DependencyId(21), DependencyId(22)],
        is_entry: false,
        resolve_options: Some(Box::new(Resolve {
            prefer_relative: true,
            symlinks: false,
            fully_specified: false,
        })),
        resolver_factory: Arc::new(ResolverFactory {
            resolve: Resolve { prefer_relative: false, symlinks: true, fully_specified: false },
        }),
        loader_resolver_factory: Arc::new(ResolverFactory {
            resolve: Resolve { prefer_relative: false, symlinks: true, fully_specified: false },
        }),
        options: Arc::new(CompilerOptions { context: Context::new("/root".to_string()), bail }),
        lazy_visit_modules: HashSet::new(),
        plugin_driver: SharedPluginDriver::new(Box::new(Quiet)),
        current_profile: Some(Box::new(ModuleProfile::new())),
        connect_origin: true,
        callback: None,
    }
}

fn result_of(res: Result<TaskResult, TaskError>) -> FactorizeTaskResult {
    match res {
        Ok(TaskResult::Factorize(result)) => *result,
        Ok(_) => panic!("another stage"),
        Err(error) => panic!("{:?}", error),
    }
}

fn context() -> Arc<Mutex<String>> {
    Arc::new(Mutex::new(String::new()))
}

#[test]
fn success_gives_one_module() {
    let result = result_of(task(Some(7), false, context()).run());
    assert_eq!(result.factory_result.unwrap().module.identifier(), ModuleIdentifier(7));
    assert_eq!(result.dependency, DependencyId(21));
    assert_eq!(result.original_module_identifier, Some(ModuleIdentifier(1)));
    assert_eq!(result.dependencies, vec![DependencyId(21), DependencyId(22)]);
    assert!(!result.is_entry);
    assert!(result.connect_origin);
    assert!(result.callback.is_none());
}

#[test]
fn success_carries_what_the_factory_left() {
    let result = result_of(task(Some(7), true, context()).run());
    assert_eq!(result.diagnostics.len(), 1);
    assert_eq!(result.diagnostics[0].message, "soft warning");
    assert!(result.file_dependencies.contains(&PathBuf::from("/src/a.js")));
    assert_eq!(result.file_dependencies.len(), 1);
    assert!(result.missing_dependencies.contains(&PathBuf::from("/src/a.ts")));
    assert_eq!(result.missing_dependencies.len(), 1);
    assert!(result.context_dependencies.contains(&PathBuf::from("/src")));
    assert_eq!(result.context_dependencies.len(), 1);
}

#[test]
fn exports_info_is_made_for_every_result() {
    for module in [Some(7), None] {
        let result = result_of(task(module, false, context()).run());
        let related = result.exports_info_related;
        assert_eq!(related.exports_info.id, ExportsInfoId(21));
        assert_eq!(related.other_exports_info.id, ExportInfoId(42));
        assert_eq!(related.side_effects_info.id, ExportInfoId(43));
        assert_eq!(related.exports_info.other_exports_info, ExportInfoId(42));
        assert_eq!(related.exports_info.side_effects_only_info, ExportInfoId(43));
        assert_eq!(related.other_exports_info.name, None);
        assert_eq!(related.side_effects_info.name.as_deref(), Some("*side effects only*"));
        assert_eq!(related.other_exports_info.usage_state, UsageState::Unknown);
        assert_eq!(related.side_effects_info.usage_state, UsageState::Unknown);
    }
}

#[test]
fn tolerant_failure_becomes_the_first_diagnostic() {
    let result = result_of(task(None, false, context()).run());
    assert!(result.factory_result.is_none());
    assert_eq!(result.diagnostics.len(), 2);
    assert_eq!(result.diagnostics[0].message, "cannot resolve './missing'");
    assert_eq!(result.diagnostics[0].src.as_deref(), Some("import './missing';"));
    assert!(result.diagnostics[0].is_error());
    assert_eq!(result.diagnostics[1].message, "soft warning");
    assert_eq!(result.original_module_identifier, Some(ModuleIdentifier(1)));
    assert_eq!(result.file_dependencies.len(), 1);
    assert_eq!(result.missing_dependencies.len(), 1);
    assert_eq!(result.context_dependencies.len(), 1);
}

#[test]
fn tolerant_failure_without_source_is_reported_as_it_is() {
    let mut bare = task(None, false, context());
    bare.original_module_source = None;
    let result = result_of(bare.run());
    assert_eq!(result.diagnostics[0].message, "cannot resolve './missing'");
    assert_eq!(result.diagnostics[0].src, None);
}

#[test]
fn fail_fast_returns_the_error_and_no_result() {
    match task(None, true, context()).run() {
        Err(TaskError::Factorize(error)) => {
            assert_eq!(error.message, "cannot resolve './missing'");
            assert_eq!(error.src.as_deref(), Some("import './missing';"));
        }
        Err(error) => panic!("{:?}", error),
        Ok(_) => panic!("a result"),
    }
}

#[test]
fn the_dependency_names_the_context_first() {
    let seen = context();
    let mut own = task(Some(7), false, seen.clone());
    own.dependency = Box::new(Dependency::new(
        DependencyId(21),
        "./a".to_string(),
        Some(Context::new("/own".to_string())),
    ));
    own.run().unwrap_or_else(|error| panic!("{:?}", error));
    assert_eq!(*seen.lock().unwrap(), "/own");
}

#[test]
fn the_issuer_names_the_context_next() {
    let seen = context();
    task(Some(7), false, seen.clone()).run().unwrap_or_else(|error| panic!("{:?}", error));
    assert_eq!(*seen.lock().unwrap(), "/issuer");
}

#[test]
fn the_root_is_the_last_context() {
    let seen = context();
    let mut rootless = task(Some(7), false, seen.clone());
    rootless.original_module_context = None;
    rootless.run().unwrap_or_else(|error| panic!("{:?}", error));
    assert_eq!(*seen.lock().unwrap(), "/root");
}

#[test]
fn begin_prepares_what_the_factory_is_handed() {
    let start = task(Some(7), true, context()).begin();
    assert!(start.bail);
    assert_eq!(start.original_module_source.as_deref(), Some("import './missing';"));
    assert_eq!(start.create_data.context.path, "/issuer");
    assert_eq!(start.create_data.dependency.id, DependencyId(21));
    assert_eq!(start.create_data.issuer.as_deref(), Some("issuer.js"));
    assert_eq!(start.create_data.issuer_identifier, Some(ModuleIdentifier(1)));
    assert_eq!(
        start.create_data.resolve_options,
        Some(Box::new(Resolve { prefer_relative: true, symlinks: false, fully_specified: false }))
    );
    assert!(start.create_data.file_dependencies.is_empty());
    assert!(start.create_data.missing_dependencies.is_empty());
    assert!(start.create_data.context_dependencies.is_empty());
    assert!(start.create_data.diagnostics.is_empty());
    assert!(start.pending.factory_result.is_none());
    assert!(start.pending.diagnostics.is_empty());
    assert_eq!(
        start.pending.current_profile.unwrap().factory,
        StageMarks { started: true, ended: false }
    );
}

#[test]
fn the_profile_marks_the_factory_stage() {
    let result = result_of(task(Some(7), false, context()).run());
    let profile = result.current_profile.unwrap();
    assert_eq!(profile.factory, StageMarks { started: true, ended: true });
    assert_eq!(profile.integration, StageMarks { started: false, ended: false });
}

#[test]
fn conclude_takes_the_answer_as_it_comes() {
    let start = task(Some(7), false, context()).begin();
    let outcome = Err(Error::error("late".to_string()));
    let result = result_of(FactorizeTask::conclude(
        start.pending,
        start.create_data,
        outcome,
        None,
        false,
    ));
    assert!(result.factory_result.is_none());
    assert_eq!(result.diagnostics.len(), 1);
    assert_eq!(result.diagnostics[0].message, "late");
}
