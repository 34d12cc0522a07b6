//! The module graph that the stages of one compilation share.
//!
//! Only the stages that integrate and clean change it, one at a time. Its
//! invariant is a type invariant: every graph that a caller can hold is well
//! formed, and no function here asks for it.

use crate::dependency::{BoxDependency, Dependency};
use crate::graph_model::{
    lemma_add_module_wf, lemma_disconnect, lemma_revoke_module, lemma_set_resolved_module,
    without, GraphError, GraphView, ModuleGraphConnection, ModuleIssuer, NodeView,
};
use crate::ident::{DependencyId, ModuleIdentifier};
use crate::table::{table_contains, table_get, table_insert, table_len, table_remove};
use rustc_hash::FxHashMap;
use vstd::prelude::*;
use vstd::relations::injective_on;
use vstd::set_lib::lemma_map_size;

verus! {

impl ModuleIssuer {
    /// The issuer that `identifier` names: a module, or nobody.
    pub fn from_identifier(identifier: Option<ModuleIdentifier>) -> (issuer: ModuleIssuer)
        ensures
            issuer == (match identifier {
                Some(module) => ModuleIssuer::Module(module),
                None => ModuleIssuer::Entry,
            }),
    {
        match identifier {
            Some(module) => ModuleIssuer::Module(module),
            None => ModuleIssuer::Entry,
        }
    }

    /// The module that issued, where one did.
    pub open spec fn module(self) -> Option<ModuleIdentifier> {
        match self {
            ModuleIssuer::Module(module) => Some(module),
            _ => None,
        }
    }

    /// The module that issued, where one did.
    pub fn identifier(&self) -> (identifier: Option<ModuleIdentifier>)
        ensures
            identifier == self.module(),
    {
        match self {
            ModuleIssuer::Module(module) => Some(*module),
            _ => None,
        }
    }
}

/// A node of the module graph: a module's identity, who issued it, and the
/// connections that end at it and start from it.
#[derive(Debug)]
pub struct ModuleGraphModule {
    module_identifier: ModuleIdentifier,
    issuer: ModuleIssuer,
    incoming_connections: Vec<DependencyId>,
    outgoing_connections: Vec<DependencyId>,
}

impl View for ModuleGraphModule {
    type V = NodeView;

    closed spec fn view(&self) -> NodeView {
        NodeView {
            module_identifier: self.module_identifier,
            issuer: self.issuer,
            incoming: self.incoming_connections@,
            outgoing: self.outgoing_connections@,
        }
    }
}

impl ModuleGraphModule {
    /// A node for `module_identifier`, with no connection and no issuer decided.
    pub fn new(module_identifier: ModuleIdentifier) -> (node: ModuleGraphModule)
        ensures
            node@ == (NodeView {
                module_identifier,
                issuer: ModuleIssuer::Unset,
                incoming: Seq::empty(),
                outgoing: Seq::empty(),
            }),
    {
        ModuleGraphModule {
            module_identifier,
            issuer: ModuleIssuer::Unset,
            incoming_connections: Vec::new(),
            outgoing_connections: Vec::new(),
        }
    }

    pub fn module_identifier(&self) -> (identifier: ModuleIdentifier)
        ensures
            identifier == self@.module_identifier,
    {
        self.module_identifier
    }

    pub fn get_issuer(&self) -> (issuer: &ModuleIssuer)
        ensures
            *issuer == self@.issuer,
    {
        &self.issuer
    }

    /// Decides the issuer, unless it was decided before.
    pub fn set_issuer_if_unset(&mut self, issuer: Option<ModuleIdentifier>)
        ensures
            final(self)@ == (NodeView {
                issuer: if old(self)@.issuer == ModuleIssuer::Unset {
                    match issuer {
                        Some(module) => ModuleIssuer::Module(module),
                        None => ModuleIssuer::Entry,
                    }
                } else {
                    old(self)@.issuer
                },
                ..old(self)@
            }),
    {
        if self.issuer == ModuleIssuer::Unset {
            self.issuer = ModuleIssuer::from_identifier(issuer);
        }
    }

    /// The connections that end at this module, oldest first.
    pub fn incoming_connections(&self) -> (incoming: &Vec<DependencyId>)
        ensures
            incoming@ == self@.incoming,
    {
        &self.incoming_connections
    }

    /// The connections that start from this module, oldest first.
    pub fn outgoing_connections(&self) -> (outgoing: &Vec<DependencyId>)
        ensures
            outgoing@ == self@.outgoing,
    {
        &self.outgoing_connections
    }
}

/// `list` without `dependency`.
fn vec_without(list: &Vec<DependencyId>, dependency: DependencyId) -> (kept: Vec<DependencyId>)
    ensures
        kept@ == without(list@, dependency),
{
    let mut kept: Vec<DependencyId> = Vec::new();
    let mut i: usize = 0;
    while i < list.len()
        invariant
            i <= list.len(),
            kept@ == without(list@.subrange(0, i as int), dependency),
        decreases list.len() - i,
    {
        proof {
            let next = list@.subrange(0, i + 1);
            assert(next.drop_last() == list@.subrange(0, i as int));
            assert(next.last() == list@[i as int]);
        }
        if list[i] != dependency {
            kept.push(list[i]);
        }
        i += 1;
    }
    assert(list@.subrange(0, list@.len() as int) == list@);
    kept
}

/// A copy of `list`.
fn copy_ids(list: &Vec<DependencyId>) -> (copy: Vec<DependencyId>)
    ensures
        copy@ == list@,
{
    let mut copy: Vec<DependencyId> = Vec::new();
    let mut i: usize = 0;
    while i < list.len()
        invariant
            i <= list.len(),
            copy@ == list@.subrange(0, i as int),
        decreases list.len() - i,
    {
        copy.push(list[i]);
        assert(list@.subrange(0, i + 1) == list@.subrange(0, i as int).push(list@[i as int]));
        i += 1;
    }
    assert(list@.subrange(0, list@.len() as int) == list@);
    copy
}

/// The three tables of a graph. They carry no invariant of their own: the
/// graph that owns them does.
struct GraphTables {
    modules: FxHashMap<u64, ModuleGraphModule>,
    dependencies: FxHashMap<u64, Dependency>,
    connections: FxHashMap<u64, ModuleGraphConnection>,
}

impl View for GraphTables {
    type V = GraphView;

    closed spec fn view(&self) -> GraphView {
        GraphView {
            modules: Map::new(
                |module: ModuleIdentifier| self.modules@.contains_key(module.0),
                |module: ModuleIdentifier| self.modules@[module.0]@,
            ),
            dependencies: Map::new(
                |dependency: DependencyId| self.dependencies@.contains_key(dependency.key()),
                |dependency: DependencyId| self.dependencies@[dependency.key()],
            ),
            connections: Map::new(
                |dependency: DependencyId| self.connections@.contains_key(dependency.key()),
                |dependency: DependencyId| self.connections@[dependency.key()],
            ),
        }
    }
}

impl GraphTables {
    /// Whether the tables can be counted: the modules and the connections are
    /// finitely many, and every key of a connection is the number of a
    /// dependency's identity.
    spec fn countable(&self) -> bool {
        &&& self.modules@.dom().finite()
        &&& self.connections@.dom().finite()
        &&& forall|key: u64| #[trigger] self.connections@.contains_key(key) ==> key <= u32::MAX
    }

    fn new() -> (tables: GraphTables)
        ensures
            tables@ == GraphView::empty(),
            tables.countable(),
    {
        let tables = GraphTables {
            modules: FxHashMap::default(),
            dependencies: FxHashMap::default(),
            connections: FxHashMap::default(),
        };
        assert(tables@ =~= GraphView::empty());
        tables
    }

    /// Files `node` under `module`, in the place of what was filed there.
    fn put_node(&mut self, module: ModuleIdentifier, node: ModuleGraphModule)
        ensures
            old(self).countable() ==> final(self).countable(),
            final(self)@ == (GraphView {
                modules: old(self)@.modules.insert(module, node@),
                ..old(self)@
            }),
    {
        let ghost filed = node@;
        table_insert(&mut self.modules, module.0, node);
        assert(self@.modules =~= old(self)@.modules.insert(module, filed));
        assert(self@.dependencies =~= old(self)@.dependencies);
        assert(self@.connections =~= old(self)@.connections);
    }

    /// Takes the node of `module` out of its table, if there is one.
    fn take_node(&mut self, module: ModuleIdentifier) -> (node: Option<ModuleGraphModule>)
        ensures
            old(self).countable() ==> final(self).countable(),
            final(self)@ == (GraphView {
                modules: old(self)@.modules.remove(module),
                ..old(self)@
            }),
            node matches Some(found) ==> old(self)@.modules.contains_key(module) && found@
                == old(self)@.modules[module],
            node is None <==> !old(self)@.modules.contains_key(module),
    {
        let node = table_remove(&mut self.modules, module.0);
        assert(self@.modules =~= old(self)@.modules.remove(module));
        assert(self@.dependencies =~= old(self)@.dependencies);
        assert(self@.connections =~= old(self)@.connections);
        node
    }

    fn drop_incoming(&mut self, module: ModuleIdentifier, dependency: DependencyId)
        ensures
            old(self).countable() ==> final(self).countable(),
            final(self)@ == old(self)@.drop_incoming(module, dependency),
    {
        match self.take_node(module) {
            Some(node) => {
                let mut node = node;
                node.incoming_connections = vec_without(&node.incoming_connections, dependency);
                self.put_node(module, node);
                assert(self@.modules =~= old(self)@.drop_incoming(module, dependency).modules);
            },
            None => {
                assert(self@.modules =~= old(self)@.modules);
            },
        }
    }

    fn drop_outgoing(&mut self, module: ModuleIdentifier, dependency: DependencyId)
        ensures
            old(self).countable() ==> final(self).countable(),
            final(self)@ == old(self)@.drop_outgoing(module, dependency),
    {
        match self.take_node(module) {
            Some(node) => {
                let mut node = node;
                node.outgoing_connections = vec_without(&node.outgoing_connections, dependency);
                self.put_node(module, node);
                assert(self@.modules =~= old(self)@.drop_outgoing(module, dependency).modules);
            },
            None => {
                assert(self@.modules =~= old(self)@.modules);
            },
        }
    }

    fn push_incoming(&mut self, module: ModuleIdentifier, dependency: DependencyId)
        ensures
            old(self).countable() ==> final(self).countable(),
            final(self)@ == old(self)@.push_incoming(module, dependency),
    {
        match self.take_node(module) {
            Some(node) => {
                let mut node = node;
                node.incoming_connections.push(dependency);
                self.put_node(module, node);
                assert(self@.modules =~= old(self)@.push_incoming(module, dependency).modules);
            },
            None => {
                assert(self@.modules =~= old(self)@.modules);
            },
        }
    }

    fn push_outgoing(&mut self, module: ModuleIdentifier, dependency: DependencyId)
        ensures
            old(self).countable() ==> final(self).countable(),
            final(self)@ == old(self)@.push_outgoing(module, dependency),
    {
        match self.take_node(module) {
            Some(node) => {
                let mut node = node;
                node.outgoing_connections.push(dependency);
                self.put_node(module, node);
                assert(self@.modules =~= old(self)@.push_outgoing(module, dependency).modules);
            },
            None => {
                assert(self@.modules =~= old(self)@.modules);
            },
        }
    }

    fn disconnect(&mut self, dependency: DependencyId)
        ensures
            old(self).countable() ==> final(self).countable(),
            final(self)@ == old(self)@.disconnect(dependency),
    {
        match table_remove(&mut self.connections, dependency.table_key()) {
            Some(connection) => {
                assert(self@.connections =~= old(self)@.connections.remove(dependency));
                assert(self@.modules =~= old(self)@.modules);
                assert(self@.dependencies =~= old(self)@.dependencies);
                self.drop_incoming(connection.module_identifier, dependency);
                match connection.original_module_identifier {
                    Some(origin) => {
                        self.drop_outgoing(origin, dependency);
                    },
                    None => {},
                }
            },
            None => {
                assert(self@.connections =~= old(self)@.connections);
                assert(self@.modules =~= old(self)@.modules);
                assert(self@.dependencies =~= old(self)@.dependencies);
            },
        }
    }

    fn connect(
        &mut self,
        origin: Option<ModuleIdentifier>,
        dependency: DependencyId,
        target: ModuleIdentifier,
    )
        ensures
            old(self).countable() ==> final(self).countable(),
            final(self)@ == old(self)@.connect(origin, dependency, target),
    {
        let connection = ModuleGraphConnection {
            original_module_identifier: origin,
            dependency_id: dependency,
            module_identifier: target,
        };
        table_insert(&mut self.connections, dependency.table_key(), connection);
        assert(self@.connections =~= old(self)@.connections.insert(dependency, connection));
        assert(self@.modules =~= old(self)@.modules);
        assert(self@.dependencies =~= old(self)@.dependencies);
        self.push_incoming(target, dependency);
        match origin {
            Some(module) => {
                self.push_outgoing(module, dependency);
            },
            None => {},
        }
    }

    fn disconnect_all(&mut self, dependencies: &Vec<DependencyId>)
        ensures
            old(self).countable() ==> final(self).countable(),
            final(self)@ == old(self)@.disconnect_all(dependencies@),
    {
        let mut i: usize = 0;
        assert(dependencies@.skip(0) == dependencies@);
        while i < dependencies.len()
            invariant
                i <= dependencies.len(),
                old(self).countable() ==> self.countable(),
                self@.disconnect_all(dependencies@.skip(i as int)) == old(self)@.disconnect_all(
                    dependencies@,
                ),
            decreases dependencies.len() - i,
        {
            proof {
                let rest = dependencies@.skip(i as int);
                assert(rest[0] == dependencies@[i as int]);
                assert(rest.skip(1) == dependencies@.skip(i + 1));
            }
            self.disconnect(dependencies[i]);
            i += 1;
        }
    }

    fn has_module(&self, module: ModuleIdentifier) -> (found: bool)
        ensures
            found == self@.modules.contains_key(module),
    {
        table_contains(&self.modules, module.0)
    }

    fn has_dependency(&self, dependency: DependencyId) -> (found: bool)
        ensures
            found == self@.dependencies.contains_key(dependency),
    {
        table_contains(&self.dependencies, dependency.table_key())
    }

    fn resolve_error(
        &self,
        origin: Option<ModuleIdentifier>,
        dependency: DependencyId,
        target: ModuleIdentifier,
    ) -> (error: Option<GraphError>)
        ensures
            error == self@.resolve_error(origin, dependency, target),
    {
        if !self.has_dependency(dependency) {
            return Some(GraphError::UnknownDependency(dependency));
        }
        match origin {
            Some(module) => {
                if !self.has_module(module) {
                    return Some(GraphError::UnknownOriginModule(module));
                }
            },
            None => {},
        }
        if !self.has_module(target) {
            return Some(GraphError::UnknownModule(target));
        }
        None
    }
}

/// The module graph of one compilation.
pub struct ModuleGraph {
    tables: GraphTables,
}

impl View for ModuleGraph {
    type V = GraphView;

    closed spec fn view(&self) -> GraphView {
        self.tables@
    }
}

impl ModuleGraph {
    #[verifier::type_invariant]
    spec fn well_formed(&self) -> bool {
        self.tables@.wf() && self.tables.countable()
    }

    /// A graph that holds nothing.
    pub fn new() -> (graph: ModuleGraph)
        ensures
            graph@ == GraphView::empty(),
            graph@.wf(),
    {
        ModuleGraph { tables: GraphTables::new() }
    }

    /// Whether `module` is in the graph.
    pub fn has_module(&self, module: &ModuleIdentifier) -> (found: bool)
        ensures
            found == self@.has_module(*module),
            self@.wf(),
    {
        proof {
            use_type_invariant(self);
        }
        self.tables.has_module(*module)
    }

    /// The node of `module`, if the graph has one.
    pub fn module_graph_module_by_identifier(&self, module: &ModuleIdentifier) -> (node: Option<
        &ModuleGraphModule,
    >)
        ensures
            self@.wf(),
            node matches Some(found) ==> self@.has_module(*module) && found@
                == self@.modules[*module] && found@.module_identifier == *module,
            node is None <==> !self@.has_module(*module),
    {
        proof {
            use_type_invariant(self);
        }
        let node = table_get(&self.tables.modules, module.0);
        proof {
            if node is Some {
                assert(self@.modules.contains_key(*module));
                assert(self@.node_agrees(*module));
            }
        }
        node
    }

    /// The dependency that was announced under `dependency`, if one was.
    pub fn dependency_by_id(&self, dependency: &DependencyId) -> (found: Option<&Dependency>)
        ensures
            found matches Some(announced) ==> self@.dependencies.contains_key(*dependency)
                && *announced == self@.dependencies[*dependency],
            found is None <==> !self@.dependencies.contains_key(*dependency),
    {
        table_get(&self.tables.dependencies, dependency.table_key())
    }

    /// The connection of `dependency`, if it is resolved.
    pub fn connection_by_dependency(&self, dependency: &DependencyId) -> (found: Option<
        &ModuleGraphConnection,
    >)
        ensures
            found matches Some(connection) ==> self@.connections.contains_key(*dependency)
                && *connection == self@.connections[*dependency],
            found is None <==> !self@.connections.contains_key(*dependency),
    {
        table_get(&self.tables.connections, dependency.table_key())
    }

    /// The module that `dependency` resolved to, if it is resolved.
    pub fn module_identifier_by_dependency_id(&self, dependency: &DependencyId) -> (found: Option<
        ModuleIdentifier,
    >)
        ensures
            found matches Some(module) ==> self@.resolves_to(*dependency, module),
            found is None <==> !self@.connections.contains_key(*dependency),
    {
        match self.connection_by_dependency(dependency) {
            Some(connection) => Some(connection.module_identifier),
            None => None,
        }
    }

    /// How many modules the graph holds.
    pub fn module_count(&self) -> (count: usize)
        ensures
            self@.modules.dom().finite(),
            count == self@.modules.len(),
    {
        proof {
            use_type_invariant(self);
            let keys = self.tables.modules@.dom();
            let named = |key: u64| ModuleIdentifier(key);
            assert(keys.map(named) =~= self@.modules.dom()) by {
                assert forall|module: ModuleIdentifier|
                    keys.map(named).contains(module) <==> self@.modules.dom().contains(
                        module,
                    ) by {
                    if self@.modules.dom().contains(module) {
                        assert(keys.contains(module.0) && module == named(module.0));
                    }
                }
            }
            lemma_map_size(keys, self@.modules.dom(), named);
        }
        table_len(&self.tables.modules)
    }

    /// How many dependencies are resolved.
    pub fn connection_count(&self) -> (count: usize)
        ensures
            self@.connections.dom().finite(),
            count == self@.connections.len(),
    {
        proof {
            use_type_invariant(self);
            let keys = self.tables.connections@.dom();
            let named = |key: u64| DependencyId(key as u32);
            assert(keys.map(named) =~= self@.connections.dom()) by {
                assert forall|dependency: DependencyId|
                    keys.map(named).contains(dependency) <==> self@.connections.dom().contains(
                        dependency,
                    ) by {
                    if self@.connections.dom().contains(dependency) {
                        assert(keys.contains(dependency.key()) && dependency == named(
                            dependency.key(),
                        ));
                    }
                    if keys.map(named).contains(dependency) {
                        let key = choose|key: u64| keys.contains(key) && dependency == named(key);
                        assert(self.tables.connections@.contains_key(key));
                        assert(dependency.key() == key);
                    }
                }
            }
            assert(injective_on(named, keys)) by {
                assert forall|one: u64, other: u64|
                    keys.contains(one) && keys.contains(other) && #[trigger] named(one)
                        == #[trigger] named(other) implies one == other by {
                    assert(self.tables.connections@.contains_key(one));
                    assert(self.tables.connections@.contains_key(other));
                }
            }
            lemma_map_size(keys, self@.connections.dom(), named);
        }
        table_len(&self.tables.connections)
    }

    /// Offers a node to the graph. A module that is already there stays as it
    /// is; a new one enters without connections, whatever the node lists.
    pub fn add_module_graph_module(&mut self, module_graph_module: ModuleGraphModule)
        ensures
            final(self)@ == old(self)@.add_module(module_graph_module@),
            final(self)@.wf(),
    {
        proof {
            use_type_invariant(&*self);
            lemma_add_module_wf(self@, module_graph_module@);
        }
        if !self.tables.has_module(module_graph_module.module_identifier) {
            let mut tables = GraphTables::new();
            std::mem::swap(&mut self.tables, &mut tables);
            let mut node = module_graph_module;
            node.incoming_connections = Vec::new();
            node.outgoing_connections = Vec::new();
            assert(node@ == module_graph_module@.detached());
            tables.put_node(node.module_identifier, node);
            self.tables = tables;
        }
    }

    /// Announces a dependency to the graph, in the place of one of the same
    /// identity.
    pub fn add_dependency(&mut self, dependency: BoxDependency)
        ensures
            final(self)@ == old(self)@.add_dependency(*dependency),
            final(self)@.wf(),
    {
        proof {
            use_type_invariant(&*self);
        }
        let mut tables = GraphTables::new();
        std::mem::swap(&mut self.tables, &mut tables);
        let ghost before = tables@;
        let announced: Dependency = *dependency;
        let key = announced.id.table_key();
        table_insert(&mut tables.dependencies, key, announced);
        proof {
            assert(tables@.dependencies =~= before.dependencies.insert(announced.id, announced));
            assert(tables@.modules =~= before.modules);
            assert(tables@.connections =~= before.connections);
            assert(tables@ == before.add_dependency(announced));
            assert forall|other: DependencyId| #[trigger]
                tables@.connections.contains_key(other) implies tables@.connection_agrees(
                other,
            ) by {
                assert(before.connection_agrees(other));
            }
            assert forall|module: ModuleIdentifier| #[trigger]
                tables@.modules.contains_key(module) implies tables@.node_agrees(module) by {
                assert(before.node_agrees(module));
            }
        }
        self.tables = tables;
    }

    /// Resolves the edge of `dependency`, held by `original_module_identifier`,
    /// to `module_identifier`.
    ///
    /// It fails, and leaves the graph as it is, where the dependency was never
    /// announced or one of the two modules is not in the graph.
    pub fn set_resolved_module(
        &mut self,
        original_module_identifier: Option<ModuleIdentifier>,
        dependency: DependencyId,
        module_identifier: ModuleIdentifier,
    ) -> (outcome: Result<(), GraphError>)
        ensures
            final(self)@.wf(),
            final(self)@ == old(self)@.set_resolved_module(
                original_module_identifier,
                dependency,
                module_identifier,
            ),
            match old(self)@.resolve_error(original_module_identifier, dependency, module_identifier) {
                Some(error) => outcome == Err::<(), GraphError>(error),
                None => outcome is Ok,
            },
    {
        proof {
            use_type_invariant(&*self);
            lemma_set_resolved_module(
                self@,
                original_module_identifier,
                dependency,
                module_identifier,
            );
        }
        match self.tables.resolve_error(original_module_identifier, dependency, module_identifier) {
            Some(error) => Err(error),
            None => {
                let mut tables = GraphTables::new();
                std::mem::swap(&mut self.tables, &mut tables);
                tables.disconnect(dependency);
                tables.connect(original_module_identifier, dependency, module_identifier);
                self.tables = tables;
                Ok(())
            },
        }
    }

    /// Takes the connection of `dependency` out of the graph, if it has one.
    pub fn revoke_connection(&mut self, dependency: &DependencyId)
        ensures
            final(self)@ == old(self)@.disconnect(*dependency),
            final(self)@.wf(),
    {
        proof {
            use_type_invariant(&*self);
            lemma_disconnect(self@, *dependency);
        }
        let mut tables = GraphTables::new();
        std::mem::swap(&mut self.tables, &mut tables);
        tables.disconnect(*dependency);
        self.tables = tables;
    }

    /// The modules that `module` depends on: where each of its outgoing
    /// connections ends, in the order of its list. `None` where the module is
    /// not in the graph.
    pub fn get_module_all_depended_modules(&self, module: &ModuleIdentifier) -> (depended: Option<
        Vec<ModuleIdentifier>,
    >)
        ensures
            depended matches Some(modules) ==> self@.has_module(*module) && modules@
                == self@.depended_modules(*module),
            depended is None <==> !self@.has_module(*module),
    {
        proof {
            use_type_invariant(self);
        }
        match table_get(&self.tables.modules, module.0) {
            Some(node) => {
                assert(self@.modules.contains_key(*module));
                assert(self@.node_agrees(*module));
                let outgoing = &node.outgoing_connections;
                let ghost expected = self@.depended_modules(*module);
                let mut modules: Vec<ModuleIdentifier> = Vec::new();
                let mut i: usize = 0;
                while i < outgoing.len()
                    invariant
                        i <= outgoing.len(),
                        outgoing@ == self@.modules[*module].outgoing,
                        self@.modules.contains_key(*module),
                        self@.node_agrees(*module),
                        expected == self@.depended_modules(*module),
                        modules@ == expected.subrange(0, i as int),
                    decreases outgoing.len() - i,
                {
                    let dependency = outgoing[i];
                    assert(self@.modules[*module].outgoing.contains(dependency));
                    match table_get(&self.tables.connections, dependency.table_key()) {
                        Some(connection) => {
                            modules.push(connection.module_identifier);
                        },
                        None => {
                            assert(false);
                        },
                    }
                    assert(expected.subrange(0, i + 1) == expected.subrange(0, i as int).push(
                        expected[i as int],
                    ));
                    i += 1;
                }
                assert(expected.subrange(0, expected.len() as int) == expected);
                Some(modules)
            },
            None => None,
        }
    }

    /// Takes `module` out of the graph with every connection that touches it.
    pub fn revoke_module(&mut self, module: &ModuleIdentifier)
        ensures
            final(self)@ == old(self)@.revoke_module(*module),
            final(self)@.wf(),
    {
        proof {
            use_type_invariant(&*self);
            lemma_revoke_module(self@, *module);
        }
        let lists = match table_get(&self.tables.modules, module.0) {
            Some(node) => Some(
                (copy_ids(&node.outgoing_connections), copy_ids(&node.incoming_connections)),
            ),
            None => None,
        };
        match lists {
            Some((outgoing, incoming)) => {
                let mut tables = GraphTables::new();
                std::mem::swap(&mut self.tables, &mut tables);
                tables.disconnect_all(&outgoing);
                tables.disconnect_all(&incoming);
                tables.take_node(*module);
                self.tables = tables;
            },
            None => {},
        }
    }
}

} // verus!
