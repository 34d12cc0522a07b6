//! The memory of earlier builds.
//!
//! A build is kept under the identity of its module, with the digest of what
//! the build read. It is replayed for the same module as long as the digest is
//! the same.

use crate::ident::ModuleIdentifier;
use crate::module::{BuildOutput, BuildOutputView};
use crate::table::{table_get, table_insert};
use rustc_hash::FxHashMap;
use vstd::prelude::*;

verus! {

/// A build that is kept, as a value.
pub struct CachedBuildView {
    pub fingerprint: u64,
    pub output: BuildOutputView,
}

/// What an occasion keeps, as a value: for each module, its last build.
pub type OccasionView = Map<ModuleIdentifier, CachedBuildView>;

/// The build that `kept` replays for `module` with the digest `fingerprint`,
/// if it has one.
pub open spec fn replay(kept: OccasionView, module: ModuleIdentifier, fingerprint: u64) -> Option<
    BuildOutputView,
> {
    if kept.contains_key(module) && kept[module].fingerprint == fingerprint {
        Some(kept[module].output)
    } else {
        None
    }
}

/// What is kept after `output` was built for `module` with the digest
/// `fingerprint`.
pub open spec fn remember(
    kept: OccasionView,
    module: ModuleIdentifier,
    fingerprint: u64,
    output: BuildOutputView,
) -> OccasionView {
    kept.insert(module, CachedBuildView { fingerprint, output })
}

struct CachedBuild {
    fingerprint: u64,
    output: BuildOutput,
}

/// Remembers the build of each module and replays it while it is valid.
pub struct BuildModuleOccasion {
    storage: FxHashMap<u64, CachedBuild>,
}

impl View for BuildModuleOccasion {
    type V = OccasionView;

    closed spec fn view(&self) -> OccasionView {
        Map::new(
            |module: ModuleIdentifier| self.storage@.contains_key(module.0),
            |module: ModuleIdentifier|
                CachedBuildView {
                    fingerprint: self.storage@[module.0].fingerprint,
                    output: self.storage@[module.0].output@,
                },
        )
    }
}

impl BuildModuleOccasion {
    /// An occasion that remembers nothing.
    pub fn new() -> (occasion: BuildModuleOccasion)
        ensures
            occasion@ == Map::<ModuleIdentifier, CachedBuildView>::empty(),
    {
        let occasion = BuildModuleOccasion { storage: FxHashMap::default() };
        assert(occasion@ =~= Map::<ModuleIdentifier, CachedBuildView>::empty());
        occasion
    }

    /// A copy of the build kept for `module`, if one is kept and `fingerprint`
    /// is the digest it was kept with.
    pub fn lookup(&self, module: ModuleIdentifier, fingerprint: u64) -> (replayed: Option<
        BuildOutput,
    >)
        ensures
            match replay(self@, module, fingerprint) {
                Some(kept) => replayed matches Some(output) && output@ == kept,
                None => replayed is None,
            },
    {
        match table_get(&self.storage, module.0) {
            Some(kept) => {
                if kept.fingerprint == fingerprint {
                    Some(kept.output.clone())
                } else {
                    None
                }
            },
            None => None,
        }
    }

    /// Keeps a copy of `output` as the build of `module`, in the place of an
    /// earlier one.
    pub fn store(&mut self, module: ModuleIdentifier, fingerprint: u64, output: &BuildOutput)
        ensures
            final(self)@ == remember(old(self)@, module, fingerprint, output@),
    {
        let kept = CachedBuild { fingerprint, output: output.clone() };
        table_insert(&mut self.storage, module.0, kept);
        assert(self@ =~= remember(old(self)@, module, fingerprint, output@));
    }
}

/// What a compilation remembers from one run to the next.
pub struct Cache {
    pub build_module_occasion: BuildModuleOccasion,
}

impl Cache {
    /// A cache that remembers nothing.
    pub fn new() -> (cache: Cache)
        ensures
            cache.build_module_occasion@ == Map::<ModuleIdentifier, CachedBuildView>::empty(),
    {
        Cache { build_module_occasion: BuildModuleOccasion::new() }
    }
}

} // verus!
