//! The stage that takes a module into the graph.

use crate::compilation::Compilation;
use crate::graph_model::{GraphError, GraphView, NodeView};
use crate::ident::{DependencyId, ModuleIdentifier};
use crate::laws::law_add_keeps_graph;
use crate::module::{BoxModule, ModuleCreationCallback};
use crate::module_graph::{ModuleGraph, ModuleGraphModule};
use crate::profile::{mark_end, mark_start, profile_ended, profile_started, ModuleProfile, Stage};
use crate::task::{TaskError, TaskResult};
use crate::worker_queue::WorkerQueue;
use vstd::prelude::*;

verus! {

/// A module to be taken into the graph, with the dependencies that asked for it.
pub struct AddTask {
    pub original_module_identifier: Option<ModuleIdentifier>,
    pub module: BoxModule,
    pub module_graph_module: Box<ModuleGraphModule>,
    pub dependencies: Vec<DependencyId>,
    pub is_entry: bool,
    pub current_profile: Option<Box<ModuleProfile>>,
    pub connect_origin: bool,
    pub callback: Option<ModuleCreationCallback>,
}

/// What became of a module that was offered to the graph.
pub enum AddTaskResult {
    /// The graph had the module, or the module stands for its issuer: nothing
    /// is to be built.
    ModuleReused { module: BoxModule },
    /// The module is new in the graph and goes on to be built.
    ModuleAdded { module: BoxModule, current_profile: Option<Box<ModuleProfile>> },
}

/// What an add task asks for, as a value.
pub struct AddView {
    pub original_module_identifier: Option<ModuleIdentifier>,
    /// The identity of the module.
    pub module: ModuleIdentifier,
    /// Whether the module stands for the module that asked for it.
    pub stands_for_issuer: bool,
    /// The node offered for the module.
    pub node: NodeView,
    pub dependencies: Seq<DependencyId>,
    pub is_entry: bool,
    pub connect_origin: bool,
}

impl AddView {
    /// Whether the node that the task offers is the node of its module.
    pub open spec fn wf(self) -> bool {
        self.node.module_identifier == self.module
    }
}

impl View for AddTask {
    type V = AddView;

    open spec fn view(&self) -> AddView {
        AddView {
            original_module_identifier: self.original_module_identifier,
            module: self.module.identity(),
            stands_for_issuer: self.module.stands_for_issuer(),
            node: self.module_graph_module@,
            dependencies: self.dependencies@,
            is_entry: self.is_entry,
            connect_origin: self.connect_origin,
        }
    }
}

/// How an add task ends.
pub enum AddVerdict {
    /// The module was in the graph, or stands for its issuer.
    Reused,
    /// The module is new in the graph.
    Added,
    /// The graph refused an edge.
    Failed(GraphError),
}

/// What an add task makes of the graph and of the set of entries, and how it ends.
pub struct Integration {
    pub graph: GraphView,
    pub entries: Set<ModuleIdentifier>,
    pub verdict: AddVerdict,
}

/// The graph with the edges of `task` resolved to `target`, and how that ends:
/// as `done` where every edge could be resolved.
pub open spec fn connected(
    graph: GraphView,
    entries: Set<ModuleIdentifier>,
    task: AddView,
    target: ModuleIdentifier,
    done: AddVerdict,
) -> Integration {
    Integration {
        graph: graph.resolve_all(task.original_module_identifier, task.dependencies, target),
        entries,
        verdict: match graph.resolve_all_error(
            task.original_module_identifier,
            task.dependencies,
            target,
        ) {
            Some(error) => AddVerdict::Failed(error),
            None => done,
        },
    }
}

/// What an add task makes of the graph and of the set of entries.
///
/// A module that stands for its issuer never becomes a node where edges are to
/// be connected: they go to the issuer. A module that the graph holds is never
/// taken in again, whether or not edges are to be connected: the edges of the
/// task go to the node that is there, and the module is reused. Any other
/// module is offered to the graph, its edges are connected if they are to be,
/// and it is noted as an entry if it is one. An edge that the graph refuses
/// ends the task where it stands.
pub open spec fn integrate(graph: GraphView, entries: Set<ModuleIdentifier>, task: AddView) -> Integration {
    if task.stands_for_issuer && task.connect_origin {
        match task.node.issuer.module() {
            Some(issuer) => connected(graph, entries, task, issuer, AddVerdict::Reused),
            None => Integration {
                graph,
                entries,
                verdict: AddVerdict::Failed(GraphError::MissingIssuer(task.module)),
            },
        }
    } else if graph.has_module(task.module) {
        connected(graph, entries, task, task.module, AddVerdict::Reused)
    } else {
        let offered = graph.add_module(task.node);
        let linked = if task.connect_origin {
            connected(offered, entries, task, task.module, AddVerdict::Added)
        } else {
            Integration { graph: offered, entries, verdict: AddVerdict::Added }
        };
        match linked.verdict {
            AddVerdict::Failed(_) => linked,
            _ => Integration {
                entries: if task.is_entry {
                    entries.insert(task.module)
                } else {
                    entries
                },
                ..linked
            },
        }
    }
}

impl AddTask {
    /// Takes the module into the graph of `compilation`, as `integrate` says.
    ///
    /// A module that was taken in is handed on to be built, with the end of
    /// its integration marked; a module that was reused is handed back. Either
    /// way the callback of the task is called with the module, unless the
    /// module stands for its issuer and edges are to be connected. An edge that
    /// the graph refuses is returned as the error, and the graph keeps the
    /// edges that were resolved before it.
    pub fn run(self, compilation: &mut Compilation) -> (res: Result<TaskResult, TaskError>)
        ensures
            final(compilation).module_graph@ == integrate(
                old(compilation).module_graph@,
                old(compilation).entry_module_identifiers@,
                self@,
            ).graph,
            final(compilation).module_graph@.wf(),
            final(compilation).entry_module_identifiers@ == integrate(
                old(compilation).module_graph@,
                old(compilation).entry_module_identifiers@,
                self@,
            ).entries,
            match integrate(
                old(compilation).module_graph@,
                old(compilation).entry_module_identifiers@,
                self@,
            ).verdict {
                AddVerdict::Reused => {
                    &&& res matches Ok(TaskResult::Add(result))
                    &&& *result matches AddTaskResult::ModuleReused { module }
                    &&& module == self.module
                },
                AddVerdict::Added => {
                    &&& res matches Ok(TaskResult::Add(result))
                    &&& *result matches AddTaskResult::ModuleAdded { module, current_profile }
                    &&& module == self.module
                    &&& current_profile == profile_ended(
                        profile_started(self.current_profile, Stage::Integration),
                        Stage::Integration,
                    )
                },
                AddVerdict::Failed(error) => res matches Err(TaskError::Graph(refused))
                    && refused == error,
            },
            res is Ok && !(self.module.stands_for_issuer() && self.connect_origin)
                ==> (self.callback matches Some(callback) ==> callback.called_with(self.module)),
    {
        let current_profile = mark_start(self.current_profile, Stage::Integration);
        let module_identifier = self.module.identifier();
        let has_module = compilation.module_graph.has_module(&module_identifier);
        proof {
            law_add_keeps_graph(
                compilation.module_graph@,
                compilation.entry_module_identifiers@,
                self@,
            );
        }

        if self.module.is_self_module() && self.connect_origin {
            let issuer = match self.module_graph_module.get_issuer().identifier() {
                Some(issuer) => issuer,
                None => {
                    return Err(TaskError::Graph(GraphError::MissingIssuer(module_identifier)));
                },
            };

            match set_resolved_module(
                &mut compilation.module_graph,
                self.original_module_identifier,
                self.dependencies,
                issuer,
            ) {
                Err(error) => {
                    return Err(TaskError::Graph(error));
                },
                Ok(_) => {},
            }

            return Ok(
                TaskResult::Add(Box::new(AddTaskResult::ModuleReused { module: self.module })),
            );
        }

        if has_module {
            match set_resolved_module(
                &mut compilation.module_graph,
                self.original_module_identifier,
                self.dependencies,
                module_identifier,
            ) {
                Err(error) => {
                    return Err(TaskError::Graph(error));
                },
                Ok(_) => {},
            }

            match self.callback {
                Some(callback) => {
                    callback.call(&self.module);
                },
                None => {},
            }

            return Ok(
                TaskResult::Add(Box::new(AddTaskResult::ModuleReused { module: self.module })),
            );
        }

        compilation.module_graph.add_module_graph_module(*self.module_graph_module);

        if self.connect_origin {
            match set_resolved_module(
                &mut compilation.module_graph,
                self.original_module_identifier,
                self.dependencies,
                module_identifier,
            ) {
                Err(error) => {
                    return Err(TaskError::Graph(error));
                },
                Ok(_) => {},
            }
        }

        if self.is_entry {
            compilation.entry_module_identifiers.insert(module_identifier);
        }

        let current_profile = mark_end(current_profile, Stage::Integration);

        match self.callback {
            Some(callback) => {
                callback.call(&self.module);
            },
            None => {},
        }

        Ok(
            TaskResult::Add(
                Box::new(AddTaskResult::ModuleAdded { module: self.module, current_profile }),
            ),
        )
    }
}

/// Resolves the edge of each of `dependencies`, in their order, from
/// `original_module_identifier` to `module_identifier`. It stops at the first
/// edge that the graph refuses and returns why; the edges before it stay
/// resolved.
pub fn set_resolved_module(
    module_graph: &mut ModuleGraph,
    original_module_identifier: Option<ModuleIdentifier>,
    dependencies: Vec<DependencyId>,
    module_identifier: ModuleIdentifier,
) -> (outcome: Result<(), GraphError>)
    ensures
        final(module_graph)@ == old(module_graph)@.resolve_all(
            original_module_identifier,
            dependencies@,
            module_identifier,
        ),
        match old(module_graph)@.resolve_all_error(
            original_module_identifier,
            dependencies@,
            module_identifier,
        ) {
            Some(error) => outcome == Err::<(), GraphError>(error),
            None => outcome is Ok,
        },
{
    let mut i: usize = 0;
    assert(dependencies@.skip(0) == dependencies@);
    while i < dependencies.len()
        invariant
            i <= dependencies.len(),
            module_graph@.resolve_all(
                original_module_identifier,
                dependencies@.skip(i as int),
                module_identifier,
            ) == old(module_graph)@.resolve_all(
                original_module_identifier,
                dependencies@,
                module_identifier,
            ),
            module_graph@.resolve_all_error(
                original_module_identifier,
                dependencies@.skip(i as int),
                module_identifier,
            ) == old(module_graph)@.resolve_all_error(
                original_module_identifier,
                dependencies@,
                module_identifier,
            ),
        decreases dependencies.len() - i,
    {
        proof {
            let rest = dependencies@.skip(i as int);
            assert(rest[0] == dependencies@[i as int]);
            assert(rest.skip(1) == dependencies@.skip(i + 1));
        }
        match module_graph.set_resolved_module(
            original_module_identifier,
            dependencies[i],
            module_identifier,
        ) {
            Err(error) => {
                return Err(error);
            },
            Ok(_) => {},
        }
        i += 1;
    }
    Ok(())
}

/// The modules that wait to be taken into the graph.
pub type AddQueue = WorkerQueue<AddTask>;

} // verus!
