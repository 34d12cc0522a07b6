//! The stage that takes a module out of the graph once nothing depends on it.

use crate::compilation::Compilation;
use crate::graph_model::GraphView;
use crate::ident::ModuleIdentifier;
use crate::worker_queue::WorkerQueue;
use vstd::prelude::*;

verus! {

/// A module to be taken out of the graph, if nothing depends on it.
pub struct CleanTask {
    pub module_identifier: ModuleIdentifier,
}

/// What became of a module that was to be cleaned.
#[derive(Debug)]
pub enum CleanTaskResult {
    /// Something depends on the module: it stays.
    ModuleIsUsed { module_identifier: ModuleIdentifier },
    /// The module is not in the graph, or no longer. The modules it depended
    /// on may have lost their last dependent.
    ModuleIsCleaned {
        module_identifier: ModuleIdentifier,
        dependent_module_identifiers: Vec<ModuleIdentifier>,
    },
}

/// Whether something depends on `module`: the module is in the graph and a
/// connection ends at it.
pub open spec fn is_used(graph: GraphView, module: ModuleIdentifier) -> bool {
    graph.has_module(module) && graph.modules[module].incoming.len() > 0
}

/// The modules that may have lost a dependent when `module` was cleaned: those
/// it depended on while it was in the graph.
pub open spec fn dependents(graph: GraphView, module: ModuleIdentifier) -> Seq<ModuleIdentifier> {
    if graph.has_module(module) {
        graph.depended_modules(module)
    } else {
        Seq::empty()
    }
}

impl CleanTask {
    /// Takes the module out of the graph, unless something depends on it.
    ///
    /// A module that is used stays, and nothing changes. A module that is not
    /// used leaves the graph with its connections, and the modules that it
    /// depended on are returned as they were before it left. A module that is
    /// not in the graph counts as cleaned, with no such module.
    pub fn run(self, compilation: &mut Compilation) -> (result: CleanTaskResult)
        ensures
            final(compilation).entry_module_identifiers == old(compilation).entry_module_identifiers,
            final(compilation).module_graph@.wf(),
            is_used(old(compilation).module_graph@, self.module_identifier) ==> {
                &&& result matches CleanTaskResult::ModuleIsUsed { module_identifier }
                &&& module_identifier == self.module_identifier
                &&& final(compilation).module_graph@ == old(compilation).module_graph@
            },
            !is_used(old(compilation).module_graph@, self.module_identifier) ==> {
                &&& result matches CleanTaskResult::ModuleIsCleaned {
                    module_identifier,
                    dependent_module_identifiers,
                }
                &&& module_identifier == self.module_identifier
                &&& dependent_module_identifiers@ == dependents(
                    old(compilation).module_graph@,
                    self.module_identifier,
                )
                &&& final(compilation).module_graph@ == old(
                    compilation,
                ).module_graph@.revoke_module(self.module_identifier)
                &&& !final(compilation).module_graph@.has_module(self.module_identifier)
            },
    {
        let module_identifier = self.module_identifier;
        let used = match compilation.module_graph.module_graph_module_by_identifier(
            &module_identifier,
        ) {
            Some(mgm) => mgm.incoming_connections().len() > 0,
            None => {
                return CleanTaskResult::ModuleIsCleaned {
                    module_identifier,
                    dependent_module_identifiers: Vec::new(),
                };
            },
        };

        if used {
            return CleanTaskResult::ModuleIsUsed { module_identifier };
        }

        let dependent_module_identifiers: Vec<ModuleIdentifier> =
            match compilation.module_graph.get_module_all_depended_modules(&module_identifier) {
            Some(modules) => modules,
            None => Vec::new(),
        };
        compilation.module_graph.revoke_module(&module_identifier);
        CleanTaskResult::ModuleIsCleaned { module_identifier, dependent_module_identifiers }
    }
}

/// The modules that wait to be cleaned.
pub type CleanQueue = WorkerQueue<CleanTask>;

} // verus!
