//! What the pipeline asks of its collaborators: modules that can be built,
//! factories that make them, and the hooks that run around a build.
//!
//! The traits here are implemented by the users of this library. The pipeline is
//! proved for every behaviour of an implementation that its method contracts
//! allow.

use crate::dependency::{clone_dependencies, BoxDependency};
use crate::diagnostic::{clone_reports, ModuleDiagnostic};
use crate::handler::QueueHandler;
use crate::ident::ModuleIdentifier;
use crate::options::{CompilerOptions, Context, Resolve, ResolverFactory, SourceMapKind};
use crate::task::Hook;
use rspack_error::{Diagnostic, Error};
use rustc_hash::FxHashSet;
use std::path::PathBuf;
use std::sync::Arc;
use vstd::prelude::*;

verus! {

/// `std::path::PathBuf`: a path that a factorization depends on. Nothing is
/// read from it.
#[verifier::external_type_specification]
#[verifier::external_body]
pub struct ExPathBuf(PathBuf);

/// `Arc::clone`: one more handle to the same value.
#[verifier::external_body]
pub(crate) fn share<T>(handle: &Arc<T>) -> (other: Arc<T>)
    ensures
        other == *handle,
{
    Arc::clone(handle)
}

/// A value in a field of its own.
///
/// A boxed trait object that is put into a field of its own type is converted
/// on the way, and the verifier then no longer knows it for the same value. Put
/// into a field of any type, it is moved as it is.
pub(crate) struct Kept<T> {
    pub(crate) value: T,
}

/// `value`, kept as it is.
pub(crate) fn keep<T>(value: T) -> (kept: Kept<T>)
    ensures
        kept.value == value,
{
    Kept { value }
}

/// A unit of code that can be built, whatever its kind.
///
/// `identity`, `stands_for_issuer`, `fingerprint`, `context`, `source_map_kind`
/// and `diagnostics` are for contracts only: each says what the method of the
/// same meaning below returns, and an implementation gives both the same
/// value. `built` is for contracts too: it holds of what a build was handed and
/// what it answered, and nothing but a call of `build` makes it hold.
pub trait Module: Send + Sync {
    /// The identity that `identifier` returns.
    spec fn identity(&self) -> ModuleIdentifier;

    /// What `is_self_module` returns.
    spec fn stands_for_issuer(&self) -> bool;

    /// What `input_fingerprint` returns.
    spec fn fingerprint(&self) -> u64;

    /// What `get_context` returns.
    spec fn context(&self) -> Option<Box<Context>>;

    /// What `get_source_map_kind` returns.
    spec fn source_map_kind(&self) -> SourceMapKind;

    /// What `clone_diagnostics` returns.
    spec fn diagnostics(&self) -> Vec<Diagnostic>;

    /// That a build of the module, handed `build_context`, answered `outcome`.
    spec fn built(&self, build_context: BuildContext, outcome: Result<BuildResult, Error>) -> bool;

    /// The identity of the module.
    fn identifier(&self) -> (identifier: ModuleIdentifier)
        ensures
            identifier == self.identity(),
    ;

    /// Whether the module is the stand-in for the module that asked for it.
    fn is_self_module(&self) -> (is_self: bool)
        ensures
            is_self == self.stands_for_issuer(),
    ;

    /// The context directory of the module, where its kind has one.
    fn get_context(&self) -> (context: Option<Box<Context>>)
        ensures
            context == self.context(),
    ;

    /// The kind of source map that the module asks for.
    fn get_source_map_kind(&self) -> (kind: SourceMapKind)
        ensures
            kind == self.source_map_kind(),
    ;

    /// A digest of everything that a build of the module reads. Two builds of
    /// the same module with the same digest give the same result.
    fn input_fingerprint(&self) -> (digest: u64)
        ensures
            digest == self.fingerprint(),
    ;

    /// Builds the contents of the module. The module keeps its identity.
    fn build(&mut self, build_context: BuildContext) -> (outcome: Result<BuildResult, Error>)
        ensures
            old(self).built(build_context, outcome),
            final(self).identity() == old(self).identity(),
    ;

    /// The diagnostics that the module has collected.
    fn clone_diagnostics(&self) -> (diagnostics: Vec<Diagnostic>)
        ensures
            diagnostics@ == self.diagnostics()@,
    ;
}

/// A module of any kind, owned.
///
/// A boxed trait object picks up a conversion wherever it is handed on, and the
/// verifier then no longer knows it for the same value. Inside this struct it
/// is moved as it is.
pub struct BoxModule {
    module: Kept<Box<dyn Module>>,
}

impl BoxModule {
    /// A box that holds `module`: what holds of the module holds of the box.
    pub fn new(module: Box<dyn Module>) -> (boxed: BoxModule)
        ensures
            boxed.identity() == module.identity(),
            boxed.stands_for_issuer() == module.stands_for_issuer(),
            boxed.fingerprint() == module.fingerprint(),
            boxed.context() == module.context(),
            boxed.source_map_kind() == module.source_map_kind(),
            boxed.diagnostics() == module.diagnostics(),
            forall|build_context: BuildContext, outcome: Result<BuildResult, Error>|
                #[trigger] boxed.built(build_context, outcome) == module.built(
                    build_context,
                    outcome,
                ),
    {
        // Kept first, then put in its field: so it arrives as it was given.
        let kept = keep(module);
        BoxModule { module: kept }
    }

    /// The identity that `identifier` returns.
    pub closed spec fn identity(&self) -> ModuleIdentifier {
        self.module.value.identity()
    }

    /// What `is_self_module` returns.
    pub closed spec fn stands_for_issuer(&self) -> bool {
        self.module.value.stands_for_issuer()
    }

    /// What `input_fingerprint` returns.
    pub closed spec fn fingerprint(&self) -> u64 {
        self.module.value.fingerprint()
    }

    /// What `get_context` returns.
    pub closed spec fn context(&self) -> Option<Box<Context>> {
        self.module.value.context()
    }

    /// What `get_source_map_kind` returns.
    pub closed spec fn source_map_kind(&self) -> SourceMapKind {
        self.module.value.source_map_kind()
    }

    /// What `clone_diagnostics` returns.
    pub closed spec fn diagnostics(&self) -> Vec<Diagnostic> {
        self.module.value.diagnostics()
    }

    /// That a build of the module, handed `build_context`, answered `outcome`.
    pub closed spec fn built(
        &self,
        build_context: BuildContext,
        outcome: Result<BuildResult, Error>,
    ) -> bool {
        self.module.value.built(build_context, outcome)
    }

    /// The identity of the module.
    pub fn identifier(&self) -> (identifier: ModuleIdentifier)
        ensures
            identifier == self.identity(),
    {
        self.module.value.identifier()
    }

    /// Whether the module is the stand-in for the module that asked for it.
    pub fn is_self_module(&self) -> (is_self: bool)
        ensures
            is_self == self.stands_for_issuer(),
    {
        self.module.value.is_self_module()
    }

    /// The context directory of the module, where its kind has one.
    pub fn get_context(&self) -> (context: Option<Box<Context>>)
        ensures
            context == self.context(),
    {
        self.module.value.get_context()
    }

    /// The kind of source map that the module asks for.
    pub fn get_source_map_kind(&self) -> (kind: SourceMapKind)
        ensures
            kind == self.source_map_kind(),
    {
        self.module.value.get_source_map_kind()
    }

    /// A digest of everything that a build of the module reads.
    pub fn input_fingerprint(&self) -> (digest: u64)
        ensures
            digest == self.fingerprint(),
    {
        self.module.value.input_fingerprint()
    }

    /// Builds the contents of the module, as the module's own `build` does.
    pub fn build(&mut self, build_context: BuildContext) -> (outcome: Result<BuildResult, Error>)
        ensures
            old(self).built(build_context, outcome),
            final(self).identity() == old(self).identity(),
    {
        self.module.value.build(build_context)
    }

    /// The diagnostics that the module has collected.
    pub fn clone_diagnostics(&self) -> (diagnostics: Vec<Diagnostic>)
        ensures
            diagnostics@ == self.diagnostics()@,
    {
        self.module.value.clone_diagnostics()
    }
}

/// Called once, with the module, when a module made for a dependency has been
/// taken into the graph or found there.
pub trait OnModuleCreated: Send {
    /// That the callback was called with `module`. It is for contracts only:
    /// nothing but a call makes it hold.
    spec fn called_with(&self, module: BoxModule) -> bool;

    fn call(self: Box<Self>, module: &BoxModule)
        ensures
            self.called_with(*module),
    ;
}

/// A callback for the moment a module is taken into the graph or found there.
pub struct ModuleCreationCallback {
    callback: Kept<Box<dyn OnModuleCreated>>,
}

impl ModuleCreationCallback {
    /// A callback that holds `callback`: a call of one is a call of the other.
    pub fn new(callback: Box<dyn OnModuleCreated>) -> (boxed: ModuleCreationCallback)
        ensures
            forall|module: BoxModule|
                #[trigger] boxed.called_with(module) == callback.called_with(module),
    {
        // Kept first, then put in its field: so it arrives as it was given.
        let kept = keep(callback);
        ModuleCreationCallback { callback: kept }
    }

    /// That the callback was called with `module`.
    pub closed spec fn called_with(&self, module: BoxModule) -> bool {
        self.callback.value.called_with(module)
    }

    /// Calls the callback with `module`.
    pub fn call(self, module: &BoxModule)
        ensures
            self.called_with(*module),
    {
        self.callback.value.call(module)
    }
}

/// What a build of a module found.
pub struct BuildResult {
    /// The dependencies that the module's contents state, in their order.
    pub dependencies: Vec<BoxDependency>,
    /// Whether the module is known to be free of side effects.
    pub side_effect_free: Option<bool>,
}

impl Clone for BuildResult {
    fn clone(&self) -> (copy: BuildResult)
        ensures
            copy.dependencies@ == self.dependencies@,
            copy.side_effect_free == self.side_effect_free,
    {
        BuildResult {
            dependencies: clone_dependencies(&self.dependencies),
            side_effect_free: self.side_effect_free,
        }
    }
}

/// What a build of a module found, with the diagnostics of the module.
pub struct BuildOutput {
    pub build_result: BuildResult,
    pub diagnostics: Vec<ModuleDiagnostic>,
}

/// What a build output holds, as a value.
pub struct BuildOutputView {
    pub dependencies: Seq<BoxDependency>,
    pub side_effect_free: Option<bool>,
    pub diagnostics: Seq<ModuleDiagnostic>,
}

impl View for BuildOutput {
    type V = BuildOutputView;

    open spec fn view(&self) -> BuildOutputView {
        BuildOutputView {
            dependencies: self.build_result.dependencies@,
            side_effect_free: self.build_result.side_effect_free,
            diagnostics: self.diagnostics@,
        }
    }
}

impl Clone for BuildOutput {
    fn clone(&self) -> (copy: BuildOutput)
        ensures
            copy@ == self@,
    {
        BuildOutput {
            build_result: self.build_result.clone(),
            diagnostics: clone_reports(&self.diagnostics),
        }
    }
}

/// The hooks that run around the build of a module.
pub trait PluginDriver: Send + Sync {
    /// That `hook`, run on the module `before`, left it as `after` and answered
    /// `outcome`. It is for contracts only: nothing but a run of the hook makes
    /// it hold.
    spec fn answered(
        &self,
        hook: Hook,
        before: BoxModule,
        after: BoxModule,
        outcome: Result<(), Error>,
    ) -> bool;

    /// Runs before a module is built. The module keeps its identity.
    fn build_module(&self, module: &mut BoxModule) -> (outcome: Result<(), Error>)
        ensures
            self.answered(Hook::BuildModule, *old(module), *final(module), outcome),
            final(module).identity() == old(module).identity(),
    ;

    /// Runs after a module was built.
    fn succeed_module(&self, module: &BoxModule) -> (outcome: Result<(), Error>)
        ensures
            self.answered(Hook::SucceedModule, *module, *module, outcome),
    ;

    /// Runs in place of the other two where an earlier result is still valid.
    fn still_valid_module(&self, module: &BoxModule) -> (outcome: Result<(), Error>)
        ensures
            self.answered(Hook::StillValidModule, *module, *module, outcome),
    ;
}

/// The hooks, shared by the tasks of a compilation.
pub struct SharedPluginDriver {
    driver: Arc<Box<dyn PluginDriver>>,
}

impl SharedPluginDriver {
    /// The hooks of `driver`, to be shared: a hook of one is a hook of the other.
    pub fn new(driver: Box<dyn PluginDriver>) -> (shared: SharedPluginDriver)
        ensures
            forall|hook: Hook, before: BoxModule, after: BoxModule, outcome: Result<(), Error>|
                #[trigger] shared.answered(hook, before, after, outcome) == driver.answered(
                    hook,
                    before,
                    after,
                    outcome,
                ),
    {
        // Shared first, then put in its field: so it arrives as it was given.
        let shared = Arc::new(driver);
        SharedPluginDriver { driver: shared }
    }

    /// That `hook`, run on the module `before`, left it as `after` and answered
    /// `outcome`.
    pub closed spec fn answered(
        &self,
        hook: Hook,
        before: BoxModule,
        after: BoxModule,
        outcome: Result<(), Error>,
    ) -> bool {
        self.driver.answered(hook, before, after, outcome)
    }

    /// Runs the hook before a module is built.
    pub fn build_module(&self, module: &mut BoxModule) -> (outcome: Result<(), Error>)
        ensures
            self.answered(Hook::BuildModule, *old(module), *final(module), outcome),
            final(module).identity() == old(module).identity(),
    {
        self.driver.build_module(module)
    }

    /// Runs the hook after a module was built.
    pub fn succeed_module(&self, module: &BoxModule) -> (outcome: Result<(), Error>)
        ensures
            self.answered(Hook::SucceedModule, *module, *module, outcome),
    {
        self.driver.succeed_module(module)
    }

    /// Runs the hook that stands in place of the other two where an earlier
    /// result is still valid.
    pub fn still_valid_module(&self, module: &BoxModule) -> (outcome: Result<(), Error>)
        ensures
            self.answered(Hook::StillValidModule, *module, *module, outcome),
    {
        self.driver.still_valid_module(module)
    }
}

impl Clone for SharedPluginDriver {
    fn clone(&self) -> (other: SharedPluginDriver)
        ensures
            other == *self,
    {
        SharedPluginDriver { driver: share(&self.driver) }
    }
}

/// What a module's build may use of the compiler.
pub struct CompilerContext {
    pub options: Arc<CompilerOptions>,
    pub resolver_factory: Arc<ResolverFactory>,
    /// The module that is built.
    pub module: ModuleIdentifier,
    pub module_context: Option<Box<Context>>,
    pub module_source_map_kind: SourceMapKind,
    /// A way back into the pipeline, to add tasks and to wait for milestones.
    pub queue_handler: Option<QueueHandler>,
}

/// What is handed to the build of a module.
///
/// The hooks are not in it: they take modules, so a module that took them
/// would close a circle. A module that needs them holds them itself. Nor is
/// the cache: it could only be lent for the length of the build, to one build
/// at a time, and a build could then change what is remembered of other
/// modules. A build is told what it needs and answers with what it found.
pub struct BuildContext {
    pub compiler_context: CompilerContext,
    pub compiler_options: Arc<CompilerOptions>,
}

/// What is handed to a module factory, and what the factory leaves in it
/// whether it succeeds or fails.
pub struct ModuleFactoryCreateData {
    pub resolve_options: Option<Box<Resolve>>,
    pub context: Context,
    pub dependency: BoxDependency,
    pub issuer: Option<Box<str>>,
    pub issuer_identifier: Option<ModuleIdentifier>,
    pub file_dependencies: FxHashSet<PathBuf>,
    pub missing_dependencies: FxHashSet<PathBuf>,
    pub context_dependencies: FxHashSet<PathBuf>,
    pub diagnostics: Vec<Diagnostic>,
}

/// What a module factory made.
pub struct ModuleFactoryResult {
    pub module: BoxModule,
}

impl ModuleFactoryResult {
    pub fn new(module: BoxModule) -> (result: ModuleFactoryResult)
        ensures
            result.module == module,
    {
        ModuleFactoryResult { module }
    }
}

/// Decides which module a dependency points to, and makes it.
pub trait ModuleFactory: Send + Sync {
    /// That the factory, handed `handed`, left `left` of it and answered
    /// `outcome`. It is for contracts only: nothing but a call makes it hold.
    spec fn creates(
        &self,
        handed: ModuleFactoryCreateData,
        left: ModuleFactoryCreateData,
        outcome: Result<ModuleFactoryResult, Error>,
    ) -> bool;

    fn create(&self, data: &mut ModuleFactoryCreateData) -> (outcome: Result<
        ModuleFactoryResult,
        Error,
    >)
        ensures
            self.creates(*old(data), *final(data), outcome),
    ;
}

/// A module factory, shared by the tasks that use it.
pub struct SharedModuleFactory {
    factory: Arc<Box<dyn ModuleFactory>>,
}

impl SharedModuleFactory {
    /// The factory `factory`, to be shared: what one creates, the other creates.
    pub fn new(factory: Box<dyn ModuleFactory>) -> (shared: SharedModuleFactory)
        ensures
            forall|
                handed: ModuleFactoryCreateData,
                left: ModuleFactoryCreateData,
                outcome: Result<ModuleFactoryResult, Error>,
            |
                #[trigger] shared.creates(handed, left, outcome) == factory.creates(
                    handed,
                    left,
                    outcome,
                ),
    {
        // Shared first, then put in its field: so it arrives as it was given.
        let shared = Arc::new(factory);
        SharedModuleFactory { factory: shared }
    }

    /// That the factory, handed `handed`, left `left` of it and answered
    /// `outcome`.
    pub closed spec fn creates(
        &self,
        handed: ModuleFactoryCreateData,
        left: ModuleFactoryCreateData,
        outcome: Result<ModuleFactoryResult, Error>,
    ) -> bool {
        self.factory.creates(handed, left, outcome)
    }

    /// Asks the factory for the module that the dependency in `data` points to.
    pub fn create(&self, data: &mut ModuleFactoryCreateData) -> (outcome: Result<
        ModuleFactoryResult,
        Error,
    >)
        ensures
            self.creates(*old(data), *final(data), outcome),
    {
        self.factory.create(data)
    }
}

impl Clone for SharedModuleFactory {
    fn clone(&self) -> (other: SharedModuleFactory)
        ensures
            other == *self,
    {
        SharedModuleFactory { factory: share(&self.factory) }
    }
}

} // verus!
