//! What one can wait for: a stage of the pipeline, finished for one entity.

use crate::ident::{DependencyId, ModuleIdentifier};
use vstd::prelude::*;
use vstd::std_specs::convert::FromSpecImpl;

verus! {

/// A milestone: a stage, and the dependency or module that it is finished for.
#[derive(Debug, Copy, Clone, PartialEq, Eq, Structural)]
pub enum WaitTask {
    Factorize(DependencyId),
    Add(ModuleIdentifier),
    Build(ModuleIdentifier),
    ProcessDependencies(ModuleIdentifier),
}

/// The entity of a milestone.
#[derive(Debug, Copy, Clone, Hash, PartialEq, Eq, Structural, PartialOrd, Ord)]
pub enum WaitTaskKey {
    Dependency(DependencyId),
    Identifier(ModuleIdentifier),
}

/// What a milestone hands to those who waited for it: the module it produced.
pub type WaitTaskResult = ModuleIdentifier;

impl From<ModuleIdentifier> for WaitTaskKey {
    fn from(value: ModuleIdentifier) -> (key: Self) {
        Self::Identifier(value)
    }
}

impl FromSpecImpl<ModuleIdentifier> for WaitTaskKey {
    open spec fn obeys_from_spec() -> bool {
        true
    }

    open spec fn from_spec(value: ModuleIdentifier) -> Self {
        WaitTaskKey::Identifier(value)
    }
}

impl From<DependencyId> for WaitTaskKey {
    fn from(value: DependencyId) -> (key: Self) {
        Self::Dependency(value)
    }
}

impl FromSpecImpl<DependencyId> for WaitTaskKey {
    open spec fn obeys_from_spec() -> bool {
        true
    }

    open spec fn from_spec(value: DependencyId) -> Self {
        WaitTaskKey::Dependency(value)
    }
}

impl WaitTaskKey {
    /// The number under which a stage's tables file this entity.
    pub open spec fn code(self) -> u64 {
        match self {
            WaitTaskKey::Dependency(dependency) => dependency.key(),
            WaitTaskKey::Identifier(module) => module.key(),
        }
    }

    /// The number under which a stage's tables file this entity.
    pub fn table_code(self) -> (code: u64)
        ensures
            code == self.code(),
    {
        match self {
            WaitTaskKey::Dependency(dependency) => dependency.table_key(),
            WaitTaskKey::Identifier(module) => module.0,
        }
    }
}

impl WaitTask {
    /// The stage of the milestone, as the index of its tables.
    pub open spec fn bucket(self) -> int {
        match self {
            WaitTask::Factorize(_) => 0,
            WaitTask::Add(_) => 1,
            WaitTask::Build(_) => 2,
            WaitTask::ProcessDependencies(_) => 3,
        }
    }

    /// The entity of the milestone.
    pub open spec fn key(self) -> WaitTaskKey {
        match self {
            WaitTask::Factorize(dependency) => WaitTaskKey::Dependency(dependency),
            WaitTask::Add(module) => WaitTaskKey::Identifier(module),
            WaitTask::Build(module) => WaitTaskKey::Identifier(module),
            WaitTask::ProcessDependencies(module) => WaitTaskKey::Identifier(module),
        }
    }

    /// Two milestones that a stage's tables file in the same place are the same
    /// milestone.
    pub proof fn lemma_place_is_milestone(self, other: WaitTask)
        requires
            self.bucket() == other.bucket(),
            self.key().code() == other.key().code(),
        ensures
            self == other,
    {
    }
}

} // verus!
