//! The side table of a module's exports, made when the module is factorized.

use crate::ident::DependencyId;
use vstd::prelude::*;

verus! {

/// What is known of how an export is used.
#[derive(Clone, Copy, Debug, PartialEq, Eq, Structural)]
pub enum UsageState {
    Unused,
    OnlyPropertiesUsed,
    NoInfo,
    Unknown,
    Used,
}

/// Identity of one export entry.
#[derive(Clone, Copy, Debug, PartialEq, Eq, Structural, Hash)]
pub struct ExportInfoId(pub u64);

/// Identity of the export table of one module.
#[derive(Clone, Copy, Debug, PartialEq, Eq, Structural, Hash)]
pub struct ExportsInfoId(pub u32);

/// One export entry: a named binding, or one of the two entries without a binding.
#[derive(Debug)]
pub struct ExportInfo {
    pub id: ExportInfoId,
    pub name: Option<String>,
    pub usage_state: UsageState,
}

/// The export table of one module. It always names its two standing entries.
#[derive(Clone, Copy, Debug, PartialEq, Eq, Structural)]
pub struct ExportsInfo {
    pub id: ExportsInfoId,
    pub other_exports_info: ExportInfoId,
    pub side_effects_only_info: ExportInfoId,
}

/// An export table with its two standing entries, as a factorization makes them.
#[derive(Debug)]
pub struct ExportsInfoRelated {
    pub exports_info: ExportsInfo,
    pub other_exports_info: ExportInfo,
    pub side_effects_info: ExportInfo,
}

impl ExportInfo {
    pub fn new(id: ExportInfoId, name: Option<String>, usage_state: UsageState) -> (info:
        ExportInfo)
        ensures
            info.id == id,
            info.name == name,
            info.usage_state == usage_state,
    {
        ExportInfo { id, name, usage_state }
    }
}

impl ExportsInfo {
    pub fn new(
        id: ExportsInfoId,
        other_exports_info: ExportInfoId,
        side_effects_only_info: ExportInfoId,
    ) -> (table: ExportsInfo)
        ensures
            table == (ExportsInfo { id, other_exports_info, side_effects_only_info }),
    {
        ExportsInfo { id, other_exports_info, side_effects_only_info }
    }
}

/// The identity of the entry for exports that are not named, in the table made
/// for `dependency`.
pub open spec fn other_exports_id(dependency: DependencyId) -> ExportInfoId {
    ExportInfoId((2 * dependency.0) as u64)
}

/// The identity of the entry for exports used for their side effects only, in the
/// table made for `dependency`.
pub open spec fn side_effects_id(dependency: DependencyId) -> ExportInfoId {
    ExportInfoId((2 * dependency.0 + 1) as u64)
}

impl ExportsInfoRelated {
    /// Whether this is the table that a factorization of `dependency` starts from:
    /// its identities derive from the dependency's, so that no two factorizations
    /// share one; both standing entries exist, their usage unknown; the table
    /// names them.
    pub open spec fn fresh_for(&self, dependency: DependencyId) -> bool {
        &&& self.exports_info.id == ExportsInfoId(dependency.0)
        &&& self.exports_info.other_exports_info == self.other_exports_info.id
        &&& self.exports_info.side_effects_only_info == self.side_effects_info.id
        &&& self.other_exports_info.id == other_exports_id(dependency)
        &&& self.other_exports_info.name is None
        &&& self.other_exports_info.usage_state == UsageState::Unknown
        &&& self.side_effects_info.id == side_effects_id(dependency)
        &&& self.side_effects_info.name matches Some(name)
        &&& name@ == "*side effects only*"@
        &&& self.side_effects_info.usage_state == UsageState::Unknown
    }

    /// The table that a factorization of `dependency` starts from.
    pub fn for_dependency(dependency: DependencyId) -> (related: ExportsInfoRelated)
        ensures
            related.fresh_for(dependency),
    {
        let base: u64 = dependency.0 as u64;
        let other_exports_info = ExportInfo::new(ExportInfoId(2 * base), None, UsageState::Unknown);
        let side_effects_only_info = ExportInfo::new(
            ExportInfoId(2 * base + 1),
            Some("*side effects only*".to_owned()),
            UsageState::Unknown,
        );
        let exports_info = ExportsInfo::new(
            ExportsInfoId(dependency.0),
            other_exports_info.id,
            side_effects_only_info.id,
        );
        ExportsInfoRelated {
            exports_info,
            other_exports_info,
            side_effects_info: side_effects_only_info,
        }
    }
}

} // verus!
