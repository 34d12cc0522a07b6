//! The module graph as a mathematical value, and what each change makes of it.
//!
//! A graph holds nodes by module identity, the dependencies that were announced
//! to it, and at most one connection per dependency. A connection runs from the
//! module that holds the dependency (none, for an entry) to the module that the
//! dependency resolved to. Each node lists the connections that end at it and
//! those that start from it.

use crate::dependency::Dependency;
use crate::ident::{DependencyId, ModuleIdentifier};
use vstd::prelude::*;

verus! {

/// Who first caused a module to be made.
#[derive(Clone, Copy, Debug, PartialEq, Eq, Structural)]
pub enum ModuleIssuer {
    /// Not decided yet.
    Unset,
    /// Nobody: the module is an entry.
    Entry,
    /// The module that asked for it.
    Module(ModuleIdentifier),
}

/// A resolved edge: `dependency_id`, held by `original_module_identifier`,
/// resolved to `module_identifier`.
#[derive(Clone, Copy, Debug, PartialEq, Eq, Structural)]
pub struct ModuleGraphConnection {
    pub original_module_identifier: Option<ModuleIdentifier>,
    pub dependency_id: DependencyId,
    pub module_identifier: ModuleIdentifier,
}

/// Why the graph refused a change. Each is a fault of the caller's bookkeeping,
/// never of the user's input.
#[derive(Clone, Copy, Debug, PartialEq, Eq, Structural)]
pub enum GraphError {
    /// An edge was to be resolved for a dependency that was never announced.
    UnknownDependency(DependencyId),
    /// An edge was to start from a module that is not in the graph.
    UnknownOriginModule(ModuleIdentifier),
    /// An edge was to end at a module that is not in the graph.
    UnknownModule(ModuleIdentifier),
    /// A module that stands for its issuer names no issuer.
    MissingIssuer(ModuleIdentifier),
}

/// A node of the graph, as a value.
pub struct NodeView {
    pub module_identifier: ModuleIdentifier,
    pub issuer: ModuleIssuer,
    /// The connections that end at this module, oldest first.
    pub incoming: Seq<DependencyId>,
    /// The connections that start from this module, oldest first.
    pub outgoing: Seq<DependencyId>,
}

/// A module graph, as a value.
#[verifier::ext_equal]
pub struct GraphView {
    pub modules: Map<ModuleIdentifier, NodeView>,
    pub dependencies: Map<DependencyId, Dependency>,
    pub connections: Map<DependencyId, ModuleGraphConnection>,
}

/// `list` without `dependency`.
pub open spec fn without(list: Seq<DependencyId>, dependency: DependencyId) -> Seq<DependencyId>
    decreases list.len(),
{
    if list.len() == 0 {
        list
    } else if list.last() == dependency {
        without(list.drop_last(), dependency)
    } else {
        without(list.drop_last(), dependency).push(list.last())
    }
}

/// What is left in a list after one dependency was taken out of it.
pub proof fn lemma_without_contains(list: Seq<DependencyId>, dependency: DependencyId)
    ensures
        forall|other: DependencyId|
            without(list, dependency).contains(other) <==> (list.contains(other) && other
                != dependency),
        without(list, dependency).len() <= list.len(),
        !list.contains(dependency) ==> without(list, dependency) == list,
    decreases list.len(),
{
    if list.len() > 0 {
        let front = list.drop_last();
        lemma_without_contains(front, dependency);
        assert(list == front.push(list.last()));
        assert forall|other: DependencyId|
            without(list, dependency).contains(other) <==> (list.contains(other) && other
                != dependency) by {
            if list.contains(other) {
                let i = choose|i: int| 0 <= i < list.len() && list[i] == other;
                if i < front.len() {
                    assert(front[i] == other);
                }
            }
            if front.contains(other) {
                let i = choose|i: int| 0 <= i < front.len() && front[i] == other;
                assert(list[i] == other);
            }
            if list.last() != dependency {
                let shorter = without(front, dependency);
                let kept = shorter.push(list.last());
                if kept.contains(other) {
                    let i = choose|i: int| 0 <= i < kept.len() && kept[i] == other;
                    if i < shorter.len() {
                        assert(shorter[i] == other);
                    }
                }
                if shorter.contains(other) {
                    let i = choose|i: int| 0 <= i < shorter.len() && shorter[i] == other;
                    assert(kept[i] == other);
                }
                assert(kept[shorter.len() as int] == list.last());
            }
            assert(list[list.len() - 1] == list.last());
        }
        if !list.contains(dependency) {
            assert(list[list.len() - 1] == list.last());
            assert(!front.contains(dependency)) by {
                if front.contains(dependency) {
                    let i = choose|i: int| 0 <= i < front.len() && front[i] == dependency;
                    assert(list[i] == dependency);
                }
            }
        }
    }
}

impl NodeView {
    /// The node as it enters a graph: with no connection.
    pub open spec fn detached(self) -> NodeView {
        NodeView { incoming: Seq::empty(), outgoing: Seq::empty(), ..self }
    }
}

impl GraphView {
    /// The graph that holds nothing.
    pub open spec fn empty() -> GraphView {
        GraphView { modules: Map::empty(), dependencies: Map::empty(), connections: Map::empty() }
    }

    pub open spec fn has_module(self, module: ModuleIdentifier) -> bool {
        self.modules.contains_key(module)
    }

    /// Whether `dependency` is resolved, and to `module`.
    pub open spec fn resolves_to(self, dependency: DependencyId, module: ModuleIdentifier) -> bool {
        self.connections.contains_key(dependency) && self.connections[dependency].module_identifier
            == module
    }

    /// Whether what the connection of `dependency` says is what the nodes at
    /// its two ends say.
    pub open spec fn connection_agrees(self, dependency: DependencyId) -> bool {
        let connection = self.connections[dependency];
        &&& connection.dependency_id == dependency
        &&& self.modules.contains_key(connection.module_identifier)
        &&& self.modules[connection.module_identifier].incoming.contains(dependency)
        &&& connection.original_module_identifier matches Some(origin) ==> {
            &&& self.modules.contains_key(origin)
            &&& self.modules[origin].outgoing.contains(dependency)
        }
    }

    /// Whether what the node of `module` lists are connections that end at it
    /// and connections that start from it.
    pub open spec fn node_agrees(self, module: ModuleIdentifier) -> bool {
        let node = self.modules[module];
        &&& node.module_identifier == module
        &&& forall|dependency: DependencyId| #[trigger]
            node.incoming.contains(dependency) ==> self.connections.contains_key(dependency)
                && self.connections[dependency].module_identifier == module
        &&& forall|dependency: DependencyId| #[trigger]
            node.outgoing.contains(dependency) ==> self.connections.contains_key(dependency)
                && self.connections[dependency].original_module_identifier == Some(module)
    }

    /// The invariant of a module graph: a node is filed under its own identity,
    /// and nodes and connections tell the same edges.
    pub open spec fn wf(self) -> bool {
        &&& forall|dependency: DependencyId| #[trigger]
            self.connections.contains_key(dependency) ==> self.connection_agrees(dependency)
        &&& forall|module: ModuleIdentifier| #[trigger]
            self.modules.contains_key(module) ==> self.node_agrees(module)
    }

    /// The graph after a node was offered to it: a module that is already
    /// there stays as it is, a new one enters without connections.
    pub open spec fn add_module(self, node: NodeView) -> GraphView {
        if self.modules.contains_key(node.module_identifier) {
            self
        } else {
            GraphView {
                modules: self.modules.insert(node.module_identifier, node.detached()),
                ..self
            }
        }
    }

    /// The graph after `dependency` was announced to it.
    pub open spec fn add_dependency(self, dependency: Dependency) -> GraphView {
        GraphView { dependencies: self.dependencies.insert(dependency.id, dependency), ..self }
    }

    /// The graph with `dependency` taken off the incoming list of `module`.
    pub open spec fn drop_incoming(self, module: ModuleIdentifier, dependency: DependencyId) -> GraphView {
        if self.modules.contains_key(module) {
            let node = self.modules[module];
            GraphView {
                modules: self.modules.insert(
                    module,
                    NodeView { incoming: without(node.incoming, dependency), ..node },
                ),
                ..self
            }
        } else {
            self
        }
    }

    /// The graph with `dependency` taken off the outgoing list of `module`.
    pub open spec fn drop_outgoing(self, module: ModuleIdentifier, dependency: DependencyId) -> GraphView {
        if self.modules.contains_key(module) {
            let node = self.modules[module];
            GraphView {
                modules: self.modules.insert(
                    module,
                    NodeView { outgoing: without(node.outgoing, dependency), ..node },
                ),
                ..self
            }
        } else {
            self
        }
    }

    /// The graph with `dependency` put at the end of the incoming list of `module`.
    pub open spec fn push_incoming(self, module: ModuleIdentifier, dependency: DependencyId) -> GraphView {
        if self.modules.contains_key(module) {
            let node = self.modules[module];
            GraphView {
                modules: self.modules.insert(
                    module,
                    NodeView { incoming: node.incoming.push(dependency), ..node },
                ),
                ..self
            }
        } else {
            self
        }
    }

    /// The graph with `dependency` put at the end of the outgoing list of `module`.
    pub open spec fn push_outgoing(self, module: ModuleIdentifier, dependency: DependencyId) -> GraphView {
        if self.modules.contains_key(module) {
            let node = self.modules[module];
            GraphView {
                modules: self.modules.insert(
                    module,
                    NodeView { outgoing: node.outgoing.push(dependency), ..node },
                ),
                ..self
            }
        } else {
            self
        }
    }

    /// The graph without the connection of `dependency`, if it had one.
    pub open spec fn disconnect(self, dependency: DependencyId) -> GraphView {
        if self.connections.contains_key(dependency) {
            let connection = self.connections[dependency];
            let unfiled = GraphView { connections: self.connections.remove(dependency), ..self };
            let unheard = unfiled.drop_incoming(connection.module_identifier, dependency);
            match connection.original_module_identifier {
                Some(origin) => unheard.drop_outgoing(origin, dependency),
                None => unheard,
            }
        } else {
            self
        }
    }

    /// The graph with a connection for `dependency`, which had none, from
    /// `origin` to `target`.
    pub open spec fn connect(
        self,
        origin: Option<ModuleIdentifier>,
        dependency: DependencyId,
        target: ModuleIdentifier,
    ) -> GraphView {
        let filed = GraphView {
            connections: self.connections.insert(
                dependency,
                ModuleGraphConnection {
                    original_module_identifier: origin,
                    dependency_id: dependency,
                    module_identifier: target,
                },
            ),
            ..self
        };
        let heard = filed.push_incoming(target, dependency);
        match origin {
            Some(module) => heard.push_outgoing(module, dependency),
            None => heard,
        }
    }

    /// Why the edge of `dependency` from `origin` to `target` cannot be
    /// resolved, if it cannot: the dependency is looked at first, then the
    /// origin, then the target.
    pub open spec fn resolve_error(
        self,
        origin: Option<ModuleIdentifier>,
        dependency: DependencyId,
        target: ModuleIdentifier,
    ) -> Option<GraphError> {
        if !self.dependencies.contains_key(dependency) {
            Some(GraphError::UnknownDependency(dependency))
        } else if origin is Some && !self.modules.contains_key(origin->0) {
            Some(GraphError::UnknownOriginModule(origin->0))
        } else if !self.modules.contains_key(target) {
            Some(GraphError::UnknownModule(target))
        } else {
            None
        }
    }

    /// The graph after the edge of `dependency` was resolved: an earlier
    /// connection of the same dependency is gone, the new one is at the end of
    /// the lists of its two nodes. Where the edge cannot be resolved, the graph
    /// is as before.
    pub open spec fn set_resolved_module(
        self,
        origin: Option<ModuleIdentifier>,
        dependency: DependencyId,
        target: ModuleIdentifier,
    ) -> GraphView {
        if self.resolve_error(origin, dependency, target) is Some {
            self
        } else {
            self.disconnect(dependency).connect(origin, dependency, target)
        }
    }

    /// The graph after every connection of `dependencies` was taken out, in
    /// their order.
    pub open spec fn disconnect_all(self, dependencies: Seq<DependencyId>) -> GraphView
        decreases dependencies.len(),
    {
        if dependencies.len() == 0 {
            self
        } else {
            self.disconnect(dependencies[0]).disconnect_all(dependencies.skip(1))
        }
    }

    /// The graph after the edges of `dependencies` were resolved in their
    /// order, each from `origin` to `target`, up to the first that cannot be.
    pub open spec fn resolve_all(
        self,
        origin: Option<ModuleIdentifier>,
        dependencies: Seq<DependencyId>,
        target: ModuleIdentifier,
    ) -> GraphView
        decreases dependencies.len(),
    {
        if dependencies.len() == 0 {
            self
        } else if self.resolve_error(origin, dependencies[0], target) is Some {
            self
        } else {
            self.set_resolved_module(origin, dependencies[0], target).resolve_all(
                origin,
                dependencies.skip(1),
                target,
            )
        }
    }

    /// Why the first of `dependencies` that cannot be resolved from `origin` to
    /// `target` cannot be; `None` where all of them can.
    pub open spec fn resolve_all_error(
        self,
        origin: Option<ModuleIdentifier>,
        dependencies: Seq<DependencyId>,
        target: ModuleIdentifier,
    ) -> Option<GraphError>
        decreases dependencies.len(),
    {
        if dependencies.len() == 0 {
            None
        } else if self.resolve_error(origin, dependencies[0], target) is Some {
            self.resolve_error(origin, dependencies[0], target)
        } else {
            self.set_resolved_module(origin, dependencies[0], target).resolve_all_error(
                origin,
                dependencies.skip(1),
                target,
            )
        }
    }

    /// The modules that `module` depends on: where each of its outgoing
    /// connections ends, in the order of its list.
    pub open spec fn depended_modules(self, module: ModuleIdentifier) -> Seq<ModuleIdentifier> {
        let outgoing = self.modules[module].outgoing;
        Seq::new(outgoing.len(), |i: int| self.connections[outgoing[i]].module_identifier)
    }

    /// The graph without `module`: its connections are taken out, the outgoing
    /// ones first, then the incoming ones, then the node itself.
    pub open spec fn revoke_module(self, module: ModuleIdentifier) -> GraphView {
        if self.modules.contains_key(module) {
            let node = self.modules[module];
            let loose = self.disconnect_all(node.outgoing).disconnect_all(node.incoming);
            GraphView { modules: loose.modules.remove(module), ..loose }
        } else {
            self
        }
    }
}

/// A module that enters the graph leaves the graph well formed.
pub proof fn lemma_add_module_wf(graph: GraphView, node: NodeView)
    requires
        graph.wf(),
    ensures
        graph.add_module(node).wf(),
{
    let after = graph.add_module(node);
    if !graph.modules.contains_key(node.module_identifier) {
        assert forall|dependency: DependencyId| #[trigger]
            after.connections.contains_key(dependency) implies after.connection_agrees(
            dependency,
        ) by {
            assert(graph.connection_agrees(dependency));
        }
        assert forall|module: ModuleIdentifier| #[trigger]
            after.modules.contains_key(module) implies after.node_agrees(module) by {
            if module != node.module_identifier {
                assert(graph.node_agrees(module));
            }
        }
    }
}

/// What taking a connection out makes of each node: the dependency is off both
/// of its lists, and nothing else has changed.
pub proof fn lemma_disconnect_nodes(graph: GraphView, dependency: DependencyId)
    requires
        graph.wf(),
    ensures
        graph.disconnect(dependency).modules.dom() == graph.modules.dom(),
        graph.disconnect(dependency).dependencies == graph.dependencies,
        graph.disconnect(dependency).connections == graph.connections.remove(dependency),
        forall|module: ModuleIdentifier| #[trigger]
            graph.modules.contains_key(module) ==> {
                let before = graph.modules[module];
                let after = graph.disconnect(dependency).modules[module];
                &&& after.module_identifier == before.module_identifier
                &&& after.issuer == before.issuer
                &&& after.incoming == without(before.incoming, dependency)
                &&& after.outgoing == without(before.outgoing, dependency)
            },
{
    let after = graph.disconnect(dependency);
    assert(after.modules.dom() =~= graph.modules.dom()) by {
        if graph.connections.contains_key(dependency) {
            assert(graph.connection_agrees(dependency));
        }
    }
    assert(after.connections =~= graph.connections.remove(dependency));
    assert forall|module: ModuleIdentifier| #[trigger]
        graph.modules.contains_key(module) implies {
        let before = graph.modules[module];
        let node = after.modules[module];
        &&& node.module_identifier == before.module_identifier
        &&& node.issuer == before.issuer
        &&& node.incoming == without(before.incoming, dependency)
        &&& node.outgoing == without(before.outgoing, dependency)
    } by {
        let before = graph.modules[module];
        assert(graph.node_agrees(module));
        lemma_without_contains(before.incoming, dependency);
        lemma_without_contains(before.outgoing, dependency);
        if graph.connections.contains_key(dependency) {
            let connection = graph.connections[dependency];
            assert(graph.connection_agrees(dependency));
            if connection.module_identifier != module {
                assert(!before.incoming.contains(dependency));
            }
            if connection.original_module_identifier != Some(module) {
                assert(!before.outgoing.contains(dependency));
            }
        } else {
            assert(!before.incoming.contains(dependency));
            assert(!before.outgoing.contains(dependency));
        }
    }
}

/// Taking a connection out leaves the graph well formed.
pub proof fn lemma_disconnect(graph: GraphView, dependency: DependencyId)
    requires
        graph.wf(),
    ensures
        graph.disconnect(dependency).wf(),
{
    let after = graph.disconnect(dependency);
    lemma_disconnect_nodes(graph, dependency);
    assert forall|other: DependencyId| #[trigger]
        after.connections.contains_key(other) implies after.connection_agrees(other) by {
        assert(graph.connections.contains_key(other) && other != dependency);
        assert(graph.connection_agrees(other));
        let kept = graph.connections[other];
        assert(graph.modules.contains_key(kept.module_identifier));
        lemma_without_contains(graph.modules[kept.module_identifier].incoming, dependency);
        if kept.original_module_identifier is Some {
            let origin = kept.original_module_identifier->0;
            assert(graph.modules.contains_key(origin));
            lemma_without_contains(graph.modules[origin].outgoing, dependency);
        }
    }
    assert forall|module: ModuleIdentifier| #[trigger]
        after.modules.contains_key(module) implies after.node_agrees(module) by {
        assert(graph.modules.dom().contains(module));
        assert(graph.modules.contains_key(module));
        assert(graph.node_agrees(module));
        let before = graph.modules[module];
        let node = after.modules[module];
        lemma_without_contains(before.incoming, dependency);
        lemma_without_contains(before.outgoing, dependency);
        assert forall|other: DependencyId| #[trigger]
            node.incoming.contains(other) implies after.connections.contains_key(other)
            && after.connections[other].module_identifier == module by {
            assert(before.incoming.contains(other) && other != dependency);
        }
        assert forall|other: DependencyId| #[trigger]
            node.outgoing.contains(other) implies after.connections.contains_key(other)
            && after.connections[other].original_module_identifier == Some(module) by {
            assert(before.outgoing.contains(other) && other != dependency);
        }
    }
}

/// A new connection between modules of the graph leaves the graph well formed.
pub proof fn lemma_connect(
    graph: GraphView,
    origin: Option<ModuleIdentifier>,
    dependency: DependencyId,
    target: ModuleIdentifier,
)
    requires
        graph.wf(),
        !graph.connections.contains_key(dependency),
        graph.modules.contains_key(target),
        origin matches Some(module) ==> graph.modules.contains_key(module),
    ensures
        graph.connect(origin, dependency, target).wf(),
        graph.connect(origin, dependency, target).modules.dom() == graph.modules.dom(),
        graph.connect(origin, dependency, target).dependencies == graph.dependencies,
        graph.connect(origin, dependency, target).connections == graph.connections.insert(
            dependency,
            ModuleGraphConnection {
                original_module_identifier: origin,
                dependency_id: dependency,
                module_identifier: target,
            },
        ),
{
    let after = graph.connect(origin, dependency, target);
    assert(after.modules.dom() =~= graph.modules.dom());
    assert forall|module: ModuleIdentifier| #[trigger]
        graph.modules.contains_key(module) implies {
        let before = graph.modules[module];
        let node = after.modules[module];
        &&& node.module_identifier == before.module_identifier
        &&& node.incoming == (if module == target {
            before.incoming.push(dependency)
        } else {
            before.incoming
        })
        &&& node.outgoing == (if origin == Some(module) {
            before.outgoing.push(dependency)
        } else {
            before.outgoing
        })
    } by {}
    assert forall|other: DependencyId| #[trigger]
        after.connections.contains_key(other) implies after.connection_agrees(other) by {
        if other != dependency {
            assert(graph.connection_agrees(other));
            let kept = graph.connections[other];
            let end = graph.modules[kept.module_identifier];
            let i = choose|i: int| 0 <= i < end.incoming.len() && end.incoming[i] == other;
            assert(after.modules[kept.module_identifier].incoming[i] == other);
            if kept.original_module_identifier is Some {
                let start = graph.modules[kept.original_module_identifier->0];
                let j = choose|j: int| 0 <= j < start.outgoing.len() && start.outgoing[j] == other;
                assert(after.modules[kept.original_module_identifier->0].outgoing[j] == other);
            }
        } else {
            let end = graph.modules[target];
            assert(after.modules[target].incoming[end.incoming.len() as int] == dependency);
            if origin is Some {
                let start = graph.modules[origin->0];
                assert(after.modules[origin->0].outgoing[start.outgoing.len() as int]
                    == dependency);
            }
        }
    }
    assert forall|module: ModuleIdentifier| #[trigger]
        after.modules.contains_key(module) implies after.node_agrees(module) by {
        assert(graph.node_agrees(module));
        let before = graph.modules[module];
        let node = after.modules[module];
        assert forall|other: DependencyId| #[trigger]
            node.incoming.contains(other) implies after.connections.contains_key(other)
            && after.connections[other].module_identifier == module by {
            let i = choose|i: int| 0 <= i < node.incoming.len() && node.incoming[i] == other;
            if i < before.incoming.len() {
                assert(before.incoming[i] == other);
                assert(before.incoming.contains(other));
            }
        }
        assert forall|other: DependencyId| #[trigger]
            node.outgoing.contains(other) implies after.connections.contains_key(other)
            && after.connections[other].original_module_identifier == Some(module) by {
            let i = choose|i: int| 0 <= i < node.outgoing.len() && node.outgoing[i] == other;
            if i < before.outgoing.len() {
                assert(before.outgoing[i] == other);
                assert(before.outgoing.contains(other));
            }
        }
    }
}

/// Resolving an edge leaves the graph well formed. Where it succeeds the
/// dependency resolves to the target, every other dependency resolves as
/// before, and the modules are the same.
pub proof fn lemma_set_resolved_module(
    graph: GraphView,
    origin: Option<ModuleIdentifier>,
    dependency: DependencyId,
    target: ModuleIdentifier,
)
    requires
        graph.wf(),
    ensures
        graph.set_resolved_module(origin, dependency, target).wf(),
        graph.set_resolved_module(origin, dependency, target).modules.dom() == graph.modules.dom(),
        graph.set_resolved_module(origin, dependency, target).dependencies == graph.dependencies,
        graph.resolve_error(origin, dependency, target) is None ==> graph.set_resolved_module(
            origin,
            dependency,
            target,
        ).connections == graph.connections.insert(
            dependency,
            ModuleGraphConnection {
                original_module_identifier: origin,
                dependency_id: dependency,
                module_identifier: target,
            },
        ),
{
    if graph.resolve_error(origin, dependency, target) is None {
        lemma_disconnect(graph, dependency);
        lemma_disconnect_nodes(graph, dependency);
        let loose = graph.disconnect(dependency);
        assert(loose.modules.contains_key(target)) by {
            assert(graph.modules.dom().contains(target));
        }
        if origin is Some {
            assert(loose.modules.contains_key(origin->0)) by {
                assert(graph.modules.dom().contains(origin->0));
            }
        }
        lemma_connect(loose, origin, dependency, target);
        let connection = ModuleGraphConnection {
            original_module_identifier: origin,
            dependency_id: dependency,
            module_identifier: target,
        };
        assert(loose.connections.insert(dependency, connection) =~= graph.connections.insert(
            dependency,
            connection,
        ));
    }
}

/// Taking several connections out leaves the graph well formed, with the same
/// modules, without those connections and with no connection that was not there.
pub proof fn lemma_disconnect_all(graph: GraphView, dependencies: Seq<DependencyId>)
    requires
        graph.wf(),
    ensures
        graph.disconnect_all(dependencies).wf(),
        graph.disconnect_all(dependencies).modules.dom() == graph.modules.dom(),
        graph.disconnect_all(dependencies).dependencies == graph.dependencies,
        forall|other: DependencyId| #[trigger]
            graph.disconnect_all(dependencies).connections.contains_key(other) ==> {
                &&& graph.connections.contains_key(other)
                &&& !dependencies.contains(other)
                &&& graph.disconnect_all(dependencies).connections[other]
                    == graph.connections[other]
            },
        forall|other: DependencyId| #[trigger]
            graph.connections.contains_key(other) && !dependencies.contains(other)
                ==> graph.disconnect_all(dependencies).connections.contains_key(other),
        forall|module: ModuleIdentifier| #[trigger]
            graph.modules.contains_key(module) ==> graph.disconnect_all(
                dependencies,
            ).modules[module].module_identifier == graph.modules[module].module_identifier
                && graph.disconnect_all(dependencies).modules[module].issuer
                == graph.modules[module].issuer,
    decreases dependencies.len(),
{
    if dependencies.len() > 0 {
        let first = dependencies[0];
        let rest = dependencies.skip(1);
        lemma_disconnect(graph, first);
        lemma_disconnect_nodes(graph, first);
        let next = graph.disconnect(first);
        lemma_disconnect_all(next, rest);
        let after = graph.disconnect_all(dependencies);
        assert(after == next.disconnect_all(rest));
        assert forall|other: DependencyId| #[trigger]
            after.connections.contains_key(other) implies {
            &&& graph.connections.contains_key(other)
            &&& !dependencies.contains(other)
            &&& after.connections[other] == graph.connections[other]
        } by {
            assert(next.connections.contains_key(other));
            assert(!rest.contains(other));
            if dependencies.contains(other) {
                let i = choose|i: int| 0 <= i < dependencies.len() && dependencies[i] == other;
                if i > 0 {
                    assert(rest[i - 1] == other);
                }
            }
        }
        assert forall|other: DependencyId| #[trigger]
            graph.connections.contains_key(other) && !dependencies.contains(
                other,
            ) implies after.connections.contains_key(other) by {
            assert(dependencies[0] == first);
            assert(other != first);
            assert(next.connections.contains_key(other));
            if rest.contains(other) {
                let i = choose|i: int| 0 <= i < rest.len() && rest[i] == other;
                assert(dependencies[i + 1] == other);
            }
        }
        assert forall|module: ModuleIdentifier| #[trigger]
            graph.modules.contains_key(module) implies after.modules[module].module_identifier
            == graph.modules[module].module_identifier && after.modules[module].issuer
            == graph.modules[module].issuer by {
            assert(next.modules.dom().contains(module));
            assert(next.modules.contains_key(module));
        }
    }
}

/// Taking a module out leaves the graph well formed and without the module;
/// the other modules stay, and so does every connection that did not touch it.
pub proof fn lemma_revoke_module(graph: GraphView, module: ModuleIdentifier)
    requires
        graph.wf(),
    ensures
        graph.revoke_module(module).wf(),
        !graph.revoke_module(module).modules.contains_key(module),
        forall|other: ModuleIdentifier|
            other != module ==> (graph.revoke_module(module).modules.contains_key(other)
                <==> graph.modules.contains_key(other)),
        graph.revoke_module(module).dependencies == graph.dependencies,
        forall|dependency: DependencyId| #[trigger]
            graph.revoke_module(module).connections.contains_key(dependency) ==> {
                &&& graph.connections.contains_key(dependency)
                &&& graph.connections[dependency].module_identifier != module
                &&& graph.connections[dependency].original_module_identifier != Some(module)
                &&& graph.revoke_module(module).connections[dependency]
                    == graph.connections[dependency]
            },
        forall|dependency: DependencyId| #[trigger]
            graph.connections.contains_key(dependency)
                && graph.connections[dependency].module_identifier != module
                && graph.connections[dependency].original_module_identifier != Some(module)
                ==> graph.revoke_module(module).connections.contains_key(dependency),
{
    if graph.modules.contains_key(module) {
        let node = graph.modules[module];
        assert(graph.node_agrees(module));
        lemma_disconnect_all(graph, node.outgoing);
        let halfway = graph.disconnect_all(node.outgoing);
        lemma_disconnect_all(halfway, node.incoming);
        let loose = halfway.disconnect_all(node.incoming);
        let after = graph.revoke_module(module);
        assert(after.connections == loose.connections);
        assert(halfway.modules.dom().contains(module));
        assert(loose.modules.dom().contains(module));
        assert forall|dependency: DependencyId| #[trigger]
            after.connections.contains_key(dependency) implies {
            &&& graph.connections.contains_key(dependency)
            &&& graph.connections[dependency].module_identifier != module
            &&& graph.connections[dependency].original_module_identifier != Some(module)
            &&& after.connections[dependency] == graph.connections[dependency]
        } by {
            assert(loose.connections.contains_key(dependency));
            assert(halfway.connections.contains_key(dependency));
            assert(graph.connection_agrees(dependency));
        }
        assert forall|dependency: DependencyId| #[trigger]
            graph.connections.contains_key(dependency)
                && graph.connections[dependency].module_identifier != module
                && graph.connections[dependency].original_module_identifier != Some(
                module,
            ) implies after.connections.contains_key(dependency) by {
            assert(halfway.connections.contains_key(dependency));
        }
        assert forall|dependency: DependencyId| #[trigger]
            after.connections.contains_key(dependency) implies after.connection_agrees(
            dependency,
        ) by {
            assert(loose.connections.contains_key(dependency));
            assert(loose.connection_agrees(dependency));
        }
        assert forall|other: ModuleIdentifier| #[trigger]
            after.modules.contains_key(other) implies after.node_agrees(other) by {
            assert(loose.modules.contains_key(other));
            assert(loose.node_agrees(other));
        }
        assert forall|other: ModuleIdentifier| other != module implies (
        after.modules.contains_key(other) <==> graph.modules.contains_key(other)) by {
            assert(loose.modules.dom().contains(other) <==> graph.modules.dom().contains(other));
        }
    } else {
        assert forall|dependency: DependencyId| #[trigger]
            graph.connections.contains_key(dependency) implies
            graph.connections[dependency].module_identifier != module
            && graph.connections[dependency].original_module_identifier != Some(module) by {
            assert(graph.connection_agrees(dependency));
        }
    }
}

/// Resolving several edges to one module leaves the graph well formed, with
/// the same modules and announced dependencies. Where all of them can be
/// resolved, each resolves to the module afterwards, and every other dependency
/// resolves as before.
pub proof fn lemma_resolve_all(
    graph: GraphView,
    origin: Option<ModuleIdentifier>,
    dependencies: Seq<DependencyId>,
    target: ModuleIdentifier,
)
    requires
        graph.wf(),
    ensures
        graph.resolve_all(origin, dependencies, target).wf(),
        graph.resolve_all(origin, dependencies, target).modules.dom() == graph.modules.dom(),
        graph.resolve_all(origin, dependencies, target).dependencies == graph.dependencies,
        forall|other: DependencyId|
            !dependencies.contains(other) ==> {
                &&& #[trigger] graph.resolve_all(
                    origin,
                    dependencies,
                    target,
                ).connections.contains_key(other) == graph.connections.contains_key(other)
                &&& graph.connections.contains_key(other) ==> graph.resolve_all(
                    origin,
                    dependencies,
                    target,
                ).connections[other] == graph.connections[other]
            },
        graph.resolve_all_error(origin, dependencies, target) is None ==> forall|
            dependency: DependencyId,
        | #[trigger]
            dependencies.contains(dependency) ==> graph.resolve_all(
                origin,
                dependencies,
                target,
            ).resolves_to(dependency, target),
    decreases dependencies.len(),
{
    if dependencies.len() > 0 && graph.resolve_error(origin, dependencies[0], target) is None {
        let first = dependencies[0];
        let rest = dependencies.skip(1);
        lemma_set_resolved_module(graph, origin, first, target);
        let next = graph.set_resolved_module(origin, first, target);
        lemma_resolve_all(next, origin, rest, target);
        let after = graph.resolve_all(origin, dependencies, target);
        assert(after == next.resolve_all(origin, rest, target));
        assert forall|other: DependencyId| !dependencies.contains(other) implies {
            &&& #[trigger] after.connections.contains_key(other)
                == graph.connections.contains_key(other)
            &&& graph.connections.contains_key(other) ==> after.connections[other]
                == graph.connections[other]
        } by {
            assert(other != first);
            if rest.contains(other) {
                let i = choose|i: int| 0 <= i < rest.len() && rest[i] == other;
                assert(dependencies[i + 1] == other);
            }
        }
        if graph.resolve_all_error(origin, dependencies, target) is None {
            assert forall|dependency: DependencyId| #[trigger]
                dependencies.contains(dependency) implies after.resolves_to(
                dependency,
                target,
            ) by {
                let i = choose|i: int|
                    0 <= i < dependencies.len() && dependencies[i] == dependency;
                assert(next.resolve_all_error(origin, rest, target) is None);
                if rest.contains(dependency) {
                    assert(next.resolve_all(origin, rest, target).resolves_to(dependency, target));
                } else {
                    if i > 0 {
                        assert(rest[i - 1] == dependency);
                    }
                    assert(dependency == first);
                    assert(next.connections.contains_key(first));
                    assert(next.connections[first].module_identifier == target);
                    assert(after.connections.contains_key(first)
                        == next.connections.contains_key(first));
                }
            }
        }
    }
}

} // verus!
