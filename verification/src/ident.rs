//! Identities of modules and dependencies.

use vstd::prelude::*;

verus! {

/// Identity of a module, stable for one compilation.
///
/// The number stands for the module's interned name: two modules are the same
/// module exactly when their numbers are equal.
#[derive(Clone, Copy, Debug, PartialEq, Eq, Structural, Hash, PartialOrd, Ord)]
pub struct ModuleIdentifier(pub u64);

/// Identity of a dependency, handed out once when the dependency is discovered.
#[derive(Clone, Copy, Debug, PartialEq, Eq, Structural, Hash, PartialOrd, Ord)]
pub struct DependencyId(pub u32);

impl ModuleIdentifier {
    /// The key under which tables file this module.
    pub open spec fn key(self) -> u64 {
        self.0
    }
}

impl DependencyId {
    /// The key under which tables file this dependency.
    pub open spec fn key(self) -> u64 {
        self.0 as u64
    }

    /// The key under which tables file this dependency.
    pub fn table_key(self) -> (k: u64)
        ensures
            k == self.key(),
    {
        self.0 as u64
    }
}

} // verus!
