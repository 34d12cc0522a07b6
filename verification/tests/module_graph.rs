use make_queue::{
    Dependency, DependencyId, GraphError, ModuleGraph, ModuleGraphConnection, ModuleGraphModule,
    ModuleIdentifier, ModuleIssuer,
};

fn announce(graph: &mut ModuleGraph, id: u32) -> DependencyId {
    let dependency = DependencyId(id);
    graph.add_dependency(Box::new(Dependency::new(dependency, format!("./dep{}", id), None)));
    dependency
}

fn graph_of(modules: &[u64]) -> ModuleGraph {
    let mut graph = ModuleGraph::new();
    for module in modules {
        graph.add_module_graph_module(ModuleGraphModule::new(ModuleIdentifier(*module)));
    }
    graph
}

#[test]
fn new_graph_is_empty() {
    let graph = ModuleGraph::new();
    assert_eq!(graph.module_count(), 0);
    assert_eq!(graph.connection_count(), 0);
    assert!(!graph.has_module(&ModuleIdentifier(0)));
    assert!(graph.module_graph_module_by_identifier(&ModuleIdentifier(0)).is_none());
    assert!(graph.dependency_by_id(&DependencyId(0)).is_none());
    assert!(graph.get_module_all_depended_modules(&ModuleIdentifier(0)).is_none());
}

#[test]
fn a_module_enters_once() {
    let mut graph = graph_of(&[1]);
    let mut again = ModuleGraphModule::new(ModuleIdentifier(1));
    again.set_issuer_if_unset(Some(ModuleIdentifier(9)));
    graph.add_module_graph_module(again);
    assert_eq!(graph.module_count(), 1);
    let node = graph.module_graph_module_by_identifier(&ModuleIdentifier(1)).unwrap();
    assert_eq!(*node.get_issuer(), ModuleIssuer::Unset);
    assert_eq!(node.module_identifier(), ModuleIdentifier(1));
}

#[test]
fn issuer_is_decided_once() {
    let mut node = ModuleGraphModule::new(ModuleIdentifier(1));
    assert_eq!(node.get_issuer().identifier(), None);
    node.set_issuer_if_unset(None);
    assert_eq!(*node.get_issuer(), ModuleIssuer::Entry);
    node.set_issuer_if_unset(Some(ModuleIdentifier(2)));
    assert_eq!(*node.get_issuer(), ModuleIssuer::Entry);
    let mut other = ModuleGraphModule::new(ModuleIdentifier(3));
    other.set_issuer_if_unset(Some(ModuleIdentifier(2)));
    assert_eq!(other.get_issuer().identifier(), Some(ModuleIdentifier(2)));
}

#[test]
fn dependency_is_found_after_it_was_announced() {
    let mut graph = ModuleGraph::new();
    let dependency = announce(&mut graph, 4);
    let found = graph.dependency_by_id(&dependency).unwrap();
    assert_eq!(found.id, dependency);
    assert_eq!(found.request, "./dep4");
    assert!(graph.dependency_by_id(&DependencyId(5)).is_none());
}

#[test]
fn resolving_connects_both_ends() {
    let mut graph = graph_of(&[1, 2]);
    let dependency = announce(&mut graph, 10);
    assert_eq!(
        graph.set_resolved_module(Some(ModuleIdentifier(1)), dependency, ModuleIdentifier(2)),
        Ok(())
    );
    assert_eq!(
        graph.connection_by_dependency(&dependency),
        Some(&ModuleGraphConnection {
            original_module_identifier: Some(ModuleIdentifier(1)),
            dependency_id: dependency,
            module_identifier: ModuleIdentifier(2),
        })
    );
    assert_eq!(graph.module_identifier_by_dependency_id(&dependency), Some(ModuleIdentifier(2)));
    let target = graph.module_graph_module_by_identifier(&ModuleIdentifier(2)).unwrap();
    assert_eq!(target.incoming_connections(), &vec![dependency]);
    assert!(target.outgoing_connections().is_empty());
    let origin = graph.module_graph_module_by_identifier(&ModuleIdentifier(1)).unwrap();
    assert_eq!(origin.outgoing_connections(), &vec![dependency]);
    assert!(origin.incoming_connections().is_empty());
    assert_eq!(graph.connection_count(), 1);
}

#[test]
fn resolving_for_an_entry_has_no_origin() {
    let mut graph = graph_of(&[1]);
    let dependency = announce(&mut graph, 10);
    assert_eq!(graph.set_resolved_module(None, dependency, ModuleIdentifier(1)), Ok(()));
    let node = graph.module_graph_module_by_identifier(&ModuleIdentifier(1)).unwrap();
    assert_eq!(node.incoming_connections(), &vec![dependency]);
    assert!(node.outgoing_connections().is_empty());
}

#[test]
fn unknown_dependency_is_refused() {
    let mut graph = graph_of(&[1, 2]);
    assert_eq!(
        graph.set_resolved_module(Some(ModuleIdentifier(1)), DependencyId(3), ModuleIdentifier(2)),
        Err(GraphError::UnknownDependency(DependencyId(3)))
    );
    assert_eq!(graph.connection_count(), 0);
}

#[test]
fn unknown_origin_is_refused() {
    let mut graph = graph_of(&[2]);
    let dependency = announce(&mut graph, 3);
    assert_eq!(
        graph.set_resolved_module(Some(ModuleIdentifier(1)), dependency, ModuleIdentifier(2)),
        Err(GraphError::UnknownOriginModule(ModuleIdentifier(1)))
    );
    assert!(graph
        .module_graph_module_by_identifier(&ModuleIdentifier(2))
        .unwrap()
        .incoming_connections()
        .is_empty());
}

#[test]
fn unknown_target_is_refused() {
    let mut graph = graph_of(&[1]);
    let dependency = announce(&mut graph, 3);
    assert_eq!(
        graph.set_resolved_module(Some(ModuleIdentifier(1)), dependency, ModuleIdentifier(2)),
        Err(GraphError::UnknownModule(ModuleIdentifier(2)))
    );
    assert!(graph
        .module_graph_module_by_identifier(&ModuleIdentifier(1))
        .unwrap()
        .outgoing_connections()
        .is_empty());
}

#[test]
fn the_dependency_is_looked_at_before_the_modules() {
    let mut graph = ModuleGraph::new();
    assert_eq!(
        graph.set_resolved_module(Some(ModuleIdentifier(1)), DependencyId(3), ModuleIdentifier(2)),
        Err(GraphError::UnknownDependency(DependencyId(3)))
    );
    let dependency = announce(&mut graph, 3);
    assert_eq!(
        graph.set_resolved_module(Some(ModuleIdentifier(1)), dependency, ModuleIdentifier(2)),
        Err(GraphError::UnknownOriginModule(ModuleIdentifier(1)))
    );
}

#[test]
fn resolving_again_moves_the_edge() {
    let mut graph = graph_of(&[1, 2, 3]);
    let dependency = announce(&mut graph, 10);
    graph
        .set_resolved_module(Some(ModuleIdentifier(1)), dependency, ModuleIdentifier(2))
        .unwrap();
    graph
        .set_resolved_module(Some(ModuleIdentifier(1)), dependency, ModuleIdentifier(3))
        .unwrap();
    assert_eq!(graph.connection_count(), 1);
    assert_eq!(graph.module_identifier_by_dependency_id(&dependency), Some(ModuleIdentifier(3)));
    assert!(graph
        .module_graph_module_by_identifier(&ModuleIdentifier(2))
        .unwrap()
        .incoming_connections()
        .is_empty());
    assert_eq!(
        graph
            .module_graph_module_by_identifier(&ModuleIdentifier(3))
            .unwrap()
            .incoming_connections(),
        &vec![dependency]
    );
    assert_eq!(
        graph
            .module_graph_module_by_identifier(&ModuleIdentifier(1))
            .unwrap()
            .outgoing_connections(),
        &vec![dependency]
    );
}

#[test]
fn connections_are_listed_oldest_first() {
    let mut graph = graph_of(&[1, 2, 3]);
    let to_three = announce(&mut graph, 30);
    let to_two = announce(&mut graph, 20);
    graph.set_resolved_module(Some(ModuleIdentifier(1)), to_three, ModuleIdentifier(3)).unwrap();
    graph.set_resolved_module(Some(ModuleIdentifier(1)), to_two, ModuleIdentifier(2)).unwrap();
    assert_eq!(
        graph.get_module_all_depended_modules(&ModuleIdentifier(1)),
        Some(vec![ModuleIdentifier(3), ModuleIdentifier(2)])
    );
    assert_eq!(graph.get_module_all_depended_modules(&ModuleIdentifier(2)), Some(vec![]));
}

#[test]
fn a_module_may_depend_on_itself() {
    let mut graph = graph_of(&[1]);
    let dependency = announce(&mut graph, 1);
    graph.set_resolved_module(Some(ModuleIdentifier(1)), dependency, ModuleIdentifier(1)).unwrap();
    let node = graph.module_graph_module_by_identifier(&ModuleIdentifier(1)).unwrap();
    assert_eq!(node.incoming_connections(), &vec![dependency]);
    assert_eq!(node.outgoing_connections(), &vec![dependency]);
    graph.revoke_module(&ModuleIdentifier(1));
    assert_eq!(graph.module_count(), 0);
    assert_eq!(graph.connection_count(), 0);
}

#[test]
fn revoking_a_connection_disconnects_both_ends() {
    let mut graph = graph_of(&[1, 2]);
    let first = announce(&mut graph, 10);
    let second = announce(&mut graph, 11);
    graph.set_resolved_module(Some(ModuleIdentifier(1)), first, ModuleIdentifier(2)).unwrap();
    graph.set_resolved_module(Some(ModuleIdentifier(1)), second, ModuleIdentifier(2)).unwrap();
    graph.revoke_connection(&first);
    assert_eq!(graph.connection_count(), 1);
    assert!(graph.connection_by_dependency(&first).is_none());
    assert_eq!(
        graph
            .module_graph_module_by_identifier(&ModuleIdentifier(2))
            .unwrap()
            .incoming_connections(),
        &vec![second]
    );
    assert_eq!(
        graph
            .module_graph_module_by_identifier(&ModuleIdentifier(1))
            .unwrap()
            .outgoing_connections(),
        &vec![second]
    );
    graph.revoke_connection(&first);
    assert_eq!(graph.connection_count(), 1);
    assert!(graph.dependency_by_id(&first).is_some());
}

#[test]
fn revoking_a_module_takes_its_connections() {
    let mut graph = graph_of(&[1, 2, 3]);
    let into = announce(&mut graph, 10);
    let out = announce(&mut graph, 11);
    let apart = announce(&mut graph, 12);
    graph.set_resolved_module(Some(ModuleIdentifier(1)), into, ModuleIdentifier(2)).unwrap();
    graph.set_resolved_module(Some(ModuleIdentifier(2)), out, ModuleIdentifier(3)).unwrap();
    graph.set_resolved_module(Some(ModuleIdentifier(1)), apart, ModuleIdentifier(3)).unwrap();
    graph.revoke_module(&ModuleIdentifier(2));
    assert_eq!(graph.module_count(), 2);
    assert!(!graph.has_module(&ModuleIdentifier(2)));
    assert_eq!(graph.connection_count(), 1);
    assert_eq!(graph.module_identifier_by_dependency_id(&apart), Some(ModuleIdentifier(3)));
    assert_eq!(
        graph
            .module_graph_module_by_identifier(&ModuleIdentifier(1))
            .unwrap()
            .outgoing_connections(),
        &vec![apart]
    );
    assert_eq!(
        graph
            .module_graph_module_by_identifier(&ModuleIdentifier(3))
            .unwrap()
            .incoming_connections(),
        &vec![apart]
    );
    graph.revoke_module(&ModuleIdentifier(2));
    assert_eq!(graph.module_count(), 2);
}
