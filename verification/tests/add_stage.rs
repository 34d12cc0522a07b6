use make_queue::{
    set_resolved_module, AddTask, AddTaskResult, BoxModule, BuildContext, BuildResult,
    Compilation, Context, Dependency, DependencyId, GraphError, Module, ModuleCreationCallback,
    ModuleGraph, ModuleGraphModule, ModuleIdentifier, ModuleProfile, OnModuleCreated,
    SourceMapKind, StageMarks, TaskError, TaskResult,
};
use rspack_error::{Diagnostic, Error};
use std::sync::{Arc, Mutex};

struct Plain {
    id: u64,
    stand_in: bool,
}

impl Module for Plain {
    fn identity(&self) -> ModuleIdentifier {
        ModuleIdentifier(self.id)
    }
    fn stands_for_issuer(&self) -> bool {
        self.stand_in
    }
    fn fingerprint(&self) -> u64 {
        0
    }
    fn context(&self) -> Option<Box<Context>> {
        self.get_context()
    }
    fn source_map_kind(&self) -> SourceMapKind {
        self.get_source_map_kind()
    }
    fn diagnostics(&self) -> Vec<Diagnostic> {
        self.clone_diagnostics()
    }
    fn built(&self, _build_context: BuildContext, _outcome: Result<BuildResult, Error>) -> bool {
        true
    }
    fn identifier(&self) -> ModuleIdentifier {
        ModuleIdentifier(self.id)
    }
    fn is_self_module(&self) -> bool {
        self.stand_in
    }
    fn get_context(&self) -> Option<Box<Context>> {
        None
    }
    fn get_source_map_kind(&self) -> SourceMapKind {
        SourceMapKind::Disabled
    }
    fn input_fingerprint(&self) -> u64 {
        0
    }
    fn build(&mut self, _build_context: BuildContext) -> Result<BuildResult, Error> {
        Ok(BuildResult { dependencies: vec![], side_effect_free: None })
    }
    fn clone_diagnostics(&self) -> Vec<Diagnostic> {
        vec![]
    }
}

struct Note {
    seen: Arc<Mutex<u64>>,
}

impl OnModuleCreated for Note {
    fn called_with(&self, _module: BoxModule) -> bool {
        true
    }
    fn call(self: Box<Self>, module: &BoxModule) {
        *self.seen.lock().unwrap() = module.identifier().0;
    }
}

fn module(id: u64) -> BoxModule {
    BoxModule::new(Box::new(Plain { id, stand_in: false }))
}

fn task(id: u64, origin: Option<u64>, dependencies: &[u32]) -> AddTask {
    AddTask {
        original_module_identifier: origin.map(ModuleIdentifier),
        module: module(id),
        module_graph_module: Box::new(ModuleGraphModule::new(ModuleIdentifier(id))),
        dependencies: dependencies.iter().map(|d| DependencyId(*d)).collect(),
        is_entry: false,
        current_profile: None,
        connect_origin: true,
        callback: None,
    }
}

fn announce(compilation: &mut Compilation, ids: &[u32]) {
    for id in ids {
        compilation
            .module_graph
            .add_dependency(Box::new(Dependency::new(DependencyId(*id), String::new(), None)));
    }
}

fn added(res: Result<TaskResult, TaskError>) -> (BoxModule, Option<Box<ModuleProfile>>) {
    match res {
        Ok(TaskResult::Add(result)) => match *result {
            AddTaskResult::ModuleAdded { module, current_profile } => (module, current_profile),
            AddTaskResult::ModuleReused { .. } => panic!("reused"),
        },
        Ok(_) => panic!("another stage"),
        Err(error) => panic!("{:?}", error),
    }
}

fn reused(res: Result<TaskResult, TaskError>) -> BoxModule {
    match res {
        Ok(TaskResult::Add(result)) => match *result {
            AddTaskResult::ModuleReused { module } => module,
            AddTaskResult::ModuleAdded { .. } => panic!("added"),
        },
        Ok(_) => panic!("another stage"),
        Err(error) => panic!("{:?}", error),
    }
}

fn refused(res: Result<TaskResult, TaskError>) -> GraphError {
    match res {
        Err(TaskError::Graph(error)) => error,
        Err(error) => panic!("{:?}", error),
        Ok(_) => panic!("no error"),
    }
}

#[test]
fn an_entry_module_is_added() {
    let mut compilation = Compilation::new();
    announce(&mut compilation, &[1]);
    let mut entry = task(10, None, &[1]);
    entry.is_entry = true;
    let (module, profile) = added(entry.run(&mut compilation));
    assert_eq!(module.identifier(), ModuleIdentifier(10));
    assert!(profile.is_none());
    assert!(compilation.module_graph.has_module(&ModuleIdentifier(10)));
    assert_eq!(
        compilation.module_graph.module_identifier_by_dependency_id(&DependencyId(1)),
        Some(ModuleIdentifier(10))
    );
    assert!(compilation.entry_module_identifiers.contains(&ModuleIdentifier(10)));
    assert_eq!(compilation.entry_module_identifiers.len(), 1);
}

#[test]
fn a_module_that_is_no_entry_is_not_noted_as_one() {
    let mut compilation = Compilation::new();
    announce(&mut compilation, &[1]);
    added(task(10, None, &[1]).run(&mut compilation));
    assert_eq!(compilation.entry_module_identifiers.len(), 0);
}

#[test]
fn second_add_reuses_the_node() {
    let mut compilation = Compilation::new();
    announce(&mut compilation, &[1, 2, 3]);
    added(task(10, None, &[1]).run(&mut compilation));
    added(task(20, Some(10), &[2]).run(&mut compilation));
    let module = reused(task(20, None, &[3]).run(&mut compilation));
    assert_eq!(module.identifier(), ModuleIdentifier(20));
    assert_eq!(compilation.module_graph.module_count(), 2);
    assert_eq!(
        compilation.module_graph.module_identifier_by_dependency_id(&DependencyId(2)),
        Some(ModuleIdentifier(20))
    );
    assert_eq!(
        compilation.module_graph.module_identifier_by_dependency_id(&DependencyId(3)),
        Some(ModuleIdentifier(20))
    );
    assert_eq!(
        compilation
            .module_graph
            .module_graph_module_by_identifier(&ModuleIdentifier(20))
            .unwrap()
            .incoming_connections(),
        &vec![DependencyId(2), DependencyId(3)]
    );
}

#[test]
fn a_reused_entry_is_not_noted_again() {
    let mut compilation = Compilation::new();
    announce(&mut compilation, &[1, 2]);
    added(task(10, None, &[1]).run(&mut compilation));
    let mut again = task(10, None, &[2]);
    again.is_entry = true;
    reused(again.run(&mut compilation));
    assert_eq!(compilation.entry_module_identifiers.len(), 0);
}

#[test]
fn without_connecting_no_edge_is_resolved() {
    let mut compilation = Compilation::new();
    announce(&mut compilation, &[1]);
    let mut loose = task(10, None, &[1]);
    loose.connect_origin = false;
    added(loose.run(&mut compilation));
    assert!(compilation.module_graph.has_module(&ModuleIdentifier(10)));
    assert_eq!(compilation.module_graph.connection_count(), 0);
}

#[test]
fn a_held_module_offered_without_connecting_is_reused() {
    let seen = Arc::new(Mutex::new(0));
    let mut compilation = Compilation::new();
    announce(&mut compilation, &[1, 2]);
    added(task(10, None, &[1]).run(&mut compilation));
    let mut again = task(10, None, &[2]);
    again.connect_origin = false;
    again.is_entry = true;
    again.callback = Some(ModuleCreationCallback::new(Box::new(Note { seen: seen.clone() })));
    let module = reused(again.run(&mut compilation));
    assert_eq!(module.identifier(), ModuleIdentifier(10));
    assert_eq!(compilation.module_graph.module_count(), 1);
    assert_eq!(
        compilation.module_graph.module_identifier_by_dependency_id(&DependencyId(2)),
        Some(ModuleIdentifier(10))
    );
    assert_eq!(
        compilation
            .module_graph
            .module_graph_module_by_identifier(&ModuleIdentifier(10))
            .unwrap()
            .incoming_connections(),
        &vec![DependencyId(1), DependencyId(2)]
    );
    assert_eq!(compilation.entry_module_identifiers.len(), 0);
    assert_eq!(*seen.lock().unwrap(), 10);
}

#[test]
fn a_held_stand_in_offered_without_connecting_is_reused() {
    let mut compilation = Compilation::new();
    let stand_in = |connect_origin: bool| AddTask {
        original_module_identifier: None,
        module: BoxModule::new(Box::new(Plain { id: 99, stand_in: true })),
        module_graph_module: Box::new(ModuleGraphModule::new(ModuleIdentifier(99))),
        dependencies: vec![],
        is_entry: false,
        current_profile: None,
        connect_origin,
        callback: None,
    };
    added(stand_in(false).run(&mut compilation));
    reused(stand_in(false).run(&mut compilation));
    assert_eq!(compilation.module_graph.module_count(), 1);
}

#[test]
fn a_stand_in_resolves_to_its_issuer() {
    let mut compilation = Compilation::new();
    announce(&mut compilation, &[1, 2]);
    added(task(10, None, &[1]).run(&mut compilation));
    let mut node = ModuleGraphModule::new(ModuleIdentifier(99));
    node.set_issuer_if_unset(Some(ModuleIdentifier(10)));
    let stand_in = AddTask {
        original_module_identifier: Some(ModuleIdentifier(10)),
        module: BoxModule::new(Box::new(Plain { id: 99, stand_in: true })),
        module_graph_module: Box::new(node),
        dependencies: vec![DependencyId(2)],
        is_entry: false,
        current_profile: None,
        connect_origin: true,
        callback: None,
    };
    let module = reused(stand_in.run(&mut compilation));
    assert_eq!(module.identifier(), ModuleIdentifier(99));
    assert!(!compilation.module_graph.has_module(&ModuleIdentifier(99)));
    assert_eq!(compilation.module_graph.module_count(), 1);
    assert_eq!(
        compilation.module_graph.module_identifier_by_dependency_id(&DependencyId(2)),
        Some(ModuleIdentifier(10))
    );
}

#[test]
fn a_stand_in_without_issuer_is_refused() {
    let mut compilation = Compilation::new();
    announce(&mut compilation, &[1]);
    let stand_in = AddTask {
        original_module_identifier: None,
        module: BoxModule::new(Box::new(Plain { id: 99, stand_in: true })),
        module_graph_module: Box::new(ModuleGraphModule::new(ModuleIdentifier(99))),
        dependencies: vec![DependencyId(1)],
        is_entry: false,
        current_profile: None,
        connect_origin: true,
        callback: None,
    };
    assert_eq!(
        refused(stand_in.run(&mut compilation)),
        GraphError::MissingIssuer(ModuleIdentifier(99))
    );
    assert_eq!(compilation.module_graph.connection_count(), 0);
}

#[test]
fn an_unknown_dependency_ends_the_task() {
    let mut compilation = Compilation::new();
    announce(&mut compilation, &[1]);
    let mut entry = task(10, None, &[1, 7, 2]);
    entry.is_entry = true;
    assert_eq!(
        refused(entry.run(&mut compilation)),
        GraphError::UnknownDependency(DependencyId(7))
    );
    assert!(compilation.module_graph.has_module(&ModuleIdentifier(10)));
    assert_eq!(compilation.module_graph.connection_count(), 1);
    assert_eq!(compilation.entry_module_identifiers.len(), 0);
}

#[test]
fn an_unknown_origin_ends_the_task() {
    let mut compilation = Compilation::new();
    announce(&mut compilation, &[1]);
    assert_eq!(
        refused(task(10, Some(5), &[1]).run(&mut compilation)),
        GraphError::UnknownOriginModule(ModuleIdentifier(5))
    );
}

#[test]
fn a_node_of_another_module_ends_the_task() {
    let mut compilation = Compilation::new();
    announce(&mut compilation, &[1]);
    let mut odd = task(10, None, &[1]);
    odd.module_graph_module = Box::new(ModuleGraphModule::new(ModuleIdentifier(11)));
    assert_eq!(
        refused(odd.run(&mut compilation)),
        GraphError::UnknownModule(ModuleIdentifier(10))
    );
    assert!(compilation.module_graph.has_module(&ModuleIdentifier(11)));
}

#[test]
fn the_callback_sees_the_module() {
    let seen = Arc::new(Mutex::new(0));
    let mut compilation = Compilation::new();
    announce(&mut compilation, &[1, 2]);
    let mut first = task(10, None, &[1]);
    first.callback = Some(ModuleCreationCallback::new(Box::new(Note { seen: seen.clone() })));
    added(first.run(&mut compilation));
    assert_eq!(*seen.lock().unwrap(), 10);
    *seen.lock().unwrap() = 0;
    let mut second = task(10, None, &[2]);
    second.callback = Some(ModuleCreationCallback::new(Box::new(Note { seen: seen.clone() })));
    reused(second.run(&mut compilation));
    assert_eq!(*seen.lock().unwrap(), 10);
}

#[test]
fn the_callback_is_not_called_for_a_stand_in_or_a_refused_edge() {
    let seen = Arc::new(Mutex::new(0));
    let mut compilation = Compilation::new();
    announce(&mut compilation, &[1, 2]);
    added(task(10, None, &[1]).run(&mut compilation));
    let mut node = ModuleGraphModule::new(ModuleIdentifier(99));
    node.set_issuer_if_unset(Some(ModuleIdentifier(10)));
    let stand_in = AddTask {
        original_module_identifier: Some(ModuleIdentifier(10)),
        module: BoxModule::new(Box::new(Plain { id: 99, stand_in: true })),
        module_graph_module: Box::new(node),
        dependencies: vec![DependencyId(2)],
        is_entry: false,
        current_profile: None,
        connect_origin: true,
        callback: Some(ModuleCreationCallback::new(Box::new(Note { seen: seen.clone() }))),
    };
    reused(stand_in.run(&mut compilation));
    assert_eq!(*seen.lock().unwrap(), 0);
    let mut unknown = task(20, None, &[7]);
    unknown.callback = Some(ModuleCreationCallback::new(Box::new(Note { seen: seen.clone() })));
    refused(unknown.run(&mut compilation));
    assert_eq!(*seen.lock().unwrap(), 0);
}

#[test]
fn the_profile_marks_the_integration() {
    let mut compilation = Compilation::new();
    announce(&mut compilation, &[1]);
    let mut profiled = task(10, None, &[1]);
    profiled.current_profile = Some(Box::new(ModuleProfile::new()));
    let (_, profile) = added(profiled.run(&mut compilation));
    let profile = profile.unwrap();
    assert_eq!(profile.integration, StageMarks { started: true, ended: true });
    assert_eq!(profile.factory, StageMarks { started: false, ended: false });
    assert_eq!(profile.building, StageMarks { started: false, ended: false });
}

#[test]
fn edges_are_resolved_in_order_up_to_the_first_refusal() {
    let mut graph = ModuleGraph::new();
    graph.add_module_graph_module(ModuleGraphModule::new(ModuleIdentifier(1)));
    for id in [1u32, 2, 4] {
        graph.add_dependency(Box::new(Dependency::new(DependencyId(id), String::new(), None)));
    }
    let outcome = set_resolved_module(
        &mut graph,
        None,
        vec![DependencyId(1), DependencyId(2), DependencyId(3), DependencyId(4)],
        ModuleIdentifier(1),
    );
    assert_eq!(outcome, Err(GraphError::UnknownDependency(DependencyId(3))));
    assert_eq!(
        graph.module_graph_module_by_identifier(&ModuleIdentifier(1)).unwrap().incoming_connections(),
        &vec![DependencyId(1), DependencyId(2)]
    );
    assert_eq!(set_resolved_module(&mut graph, None, vec![], ModuleIdentifier(9)), Ok(()));
}
