use make_queue::{DependencyId, ModuleIdentifier, QueueHandlerProcessor, WaitTask, WaitTaskKey};

#[test]
fn bucket_and_key_of_each_stage() {
    let dependency = DependencyId(7);
    let module = ModuleIdentifier(9);
    assert_eq!(
        QueueHandlerProcessor::get_bucket_and_key(WaitTask::Factorize(dependency)),
        (0, WaitTaskKey::Dependency(dependency))
    );
    assert_eq!(
        QueueHandlerProcessor::get_bucket_and_key(WaitTask::Add(module)),
        (1, WaitTaskKey::Identifier(module))
    );
    assert_eq!(
        QueueHandlerProcessor::get_bucket_and_key(WaitTask::Build(module)),
        (2, WaitTaskKey::Identifier(module))
    );
    assert_eq!(
        QueueHandlerProcessor::get_bucket_and_key(WaitTask::ProcessDependencies(module)),
        (3, WaitTaskKey::Identifier(module))
    );
}

#[test]
fn key_from_module_identifier() {
    let key: WaitTaskKey = ModuleIdentifier(5).into();
    assert_eq!(key, WaitTaskKey::Identifier(ModuleIdentifier(5)));
    assert_eq!(key.table_code(), 5);
}

#[test]
fn key_from_dependency_id() {
    let key: WaitTaskKey = DependencyId(5).into();
    assert_eq!(key, WaitTaskKey::Dependency(DependencyId(5)));
    assert_eq!(key.table_code(), 5);
}

#[test]
fn keys_of_the_largest_identities() {
    assert_eq!(WaitTaskKey::from(DependencyId(u32::MAX)).table_code(), 4294967295);
    assert_eq!(
        WaitTaskKey::from(ModuleIdentifier(u64::MAX)).table_code(),
        18446744073709551615
    );
}

#[test]
fn same_entity_in_two_stages_is_two_milestones() {
    let module = ModuleIdentifier(1);
    let (add_bucket, add_key) = QueueHandlerProcessor::get_bucket_and_key(WaitTask::Add(module));
    let (build_bucket, build_key) =
        QueueHandlerProcessor::get_bucket_and_key(WaitTask::Build(module));
    assert_eq!(add_key, build_key);
    assert_ne!(add_bucket, build_bucket);
}
