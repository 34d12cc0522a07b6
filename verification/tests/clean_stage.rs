use make_queue::{
    CleanTask, CleanTaskResult, Compilation, Dependency, DependencyId, ModuleGraphModule,
    ModuleIdentifier,
};

fn compilation_of(modules: &[u64], edges: &[(u32, u64, u64)]) -> Compilation {
    let mut compilation = Compilation::new();
    for module in modules {
        compilation
            .module_graph
            .add_module_graph_module(ModuleGraphModule::new(ModuleIdentifier(*module)));
    }
    for (dependency, origin, target) in edges {
        compilation.module_graph.add_dependency(Box::new(Dependency::new(
            DependencyId(*dependency),
            String::new(),
            None,
        )));
        compilation
            .module_graph
            .set_resolved_module(
                Some(ModuleIdentifier(*origin)),
                DependencyId(*dependency),
                ModuleIdentifier(*target),
            )
            .unwrap();
    }
    compilation
}

fn clean(compilation: &mut Compilation, module: u64) -> CleanTaskResult {
    CleanTask { module_identifier: ModuleIdentifier(module) }.run(compilation)
}

#[test]
fn a_used_module_stays() {
    let mut compilation = compilation_of(&[1, 2], &[(10, 1, 2)]);
    match clean(&mut compilation, 2) {
        CleanTaskResult::ModuleIsUsed { module_identifier } => {
            assert_eq!(module_identifier, ModuleIdentifier(2))
        }
        other => panic!("{:?}", other),
    }
    assert_eq!(compilation.module_graph.module_count(), 2);
    assert_eq!(compilation.module_graph.connection_count(), 1);
    assert!(compilation.module_graph.has_module(&ModuleIdentifier(2)));
}

#[test]
fn an_unused_module_is_cleaned_with_its_dependents() {
    let mut compilation = compilation_of(&[1, 2, 3], &[(10, 1, 2), (11, 1, 3), (12, 2, 3)]);
    match clean(&mut compilation, 1) {
        CleanTaskResult::ModuleIsCleaned { module_identifier, dependent_module_identifiers } => {
            assert_eq!(module_identifier, ModuleIdentifier(1));
            assert_eq!(dependent_module_identifiers, vec![ModuleIdentifier(2), ModuleIdentifier(3)]);
        }
        other => panic!("{:?}", other),
    }
    assert!(!compilation.module_graph.has_module(&ModuleIdentifier(1)));
    assert_eq!(compilation.module_graph.module_count(), 2);
    assert_eq!(compilation.module_graph.connection_count(), 1);
    assert!(compilation
        .module_graph
        .module_graph_module_by_identifier(&ModuleIdentifier(2))
        .unwrap()
        .incoming_connections()
        .is_empty());
}

#[test]
fn cleaning_twice_names_no_module() {
    let mut compilation = compilation_of(&[1, 2], &[(10, 1, 2)]);
    clean(&mut compilation, 1);
    match clean(&mut compilation, 1) {
        CleanTaskResult::ModuleIsCleaned { module_identifier, dependent_module_identifiers } => {
            assert_eq!(module_identifier, ModuleIdentifier(1));
            assert!(dependent_module_identifiers.is_empty());
        }
        other => panic!("{:?}", other),
    }
    assert_eq!(compilation.module_graph.module_count(), 1);
}

#[test]
fn a_module_that_never_was_counts_as_cleaned() {
    let mut compilation = Compilation::new();
    match clean(&mut compilation, 5) {
        CleanTaskResult::ModuleIsCleaned { module_identifier, dependent_module_identifiers } => {
            assert_eq!(module_identifier, ModuleIdentifier(5));
            assert!(dependent_module_identifiers.is_empty());
        }
        other => panic!("{:?}", other),
    }
}

#[test]
fn cleaning_cascades_one_hop_at_a_time() {
    let mut compilation = compilation_of(&[1, 2, 3], &[(10, 1, 2), (11, 2, 3)]);
    let mut next = vec![ModuleIdentifier(1)];
    let mut cleaned = vec![];
    while let Some(module) = next.pop() {
        match (CleanTask { module_identifier: module }).run(&mut compilation) {
            CleanTaskResult::ModuleIsCleaned { module_identifier, dependent_module_identifiers } => {
                cleaned.push(module_identifier);
                next.extend(dependent_module_identifiers);
            }
            CleanTaskResult::ModuleIsUsed { .. } => {}
        }
    }
    assert_eq!(cleaned, vec![ModuleIdentifier(1), ModuleIdentifier(2), ModuleIdentifier(3)]);
    assert_eq!(compilation.module_graph.module_count(), 0);
    assert_eq!(compilation.module_graph.connection_count(), 0);
}

#[test]
fn cleaning_leaves_the_entries() {
    let mut compilation = compilation_of(&[1], &[]);
    compilation.entry_module_identifiers.insert(ModuleIdentifier(1));
    clean(&mut compilation, 1);
    assert!(compilation.entry_module_identifiers.contains(&ModuleIdentifier(1)));
}
