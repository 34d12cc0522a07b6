//! What a compilation is configured with, as far as the pipeline reads it.

use vstd::prelude::*;

verus! {

/// A context directory: the place from which a request is resolved.
#[derive(Debug)]
pub struct Context {
    pub path: String,
}

impl View for Context {
    type V = Seq<char>;

    open spec fn view(&self) -> Seq<char> {
        self.path@
    }
}

impl Context {
    pub fn new(path: String) -> (context: Context)
        ensures
            context.path == path,
    {
        Context { path }
    }
}

impl Clone for Context {
    fn clone(&self) -> (copy: Context)
        ensures
            copy == *self,
    {
        Context { path: self.path.clone() }
    }
}

/// Overrides of how a request is resolved.
#[derive(Clone, Copy, Debug, PartialEq, Eq, Structural)]
pub struct Resolve {
    pub prefer_relative: bool,
    pub symlinks: bool,
    pub fully_specified: bool,
}

/// The kind of source map that a module asks for.
#[derive(Clone, Copy, Debug, PartialEq, Eq, Structural)]
pub enum SourceMapKind {
    Disabled,
    SourceMap,
    SimpleSourceMap,
}

/// The options of a compilation that the pipeline reads.
#[derive(Debug)]
pub struct CompilerOptions {
    /// The root context, used where neither a dependency nor its issuer names one.
    pub context: Context,
    /// Fail on the first hard error in place of reporting it and going on.
    pub bail: bool,
}

/// Makes resolvers for requests. The pipeline carries it to the stages that
/// resolve and does not look inside.
#[derive(Clone, Copy, Debug, PartialEq, Eq, Structural)]
pub struct ResolverFactory {
    pub resolve: Resolve,
}

} // verus!
