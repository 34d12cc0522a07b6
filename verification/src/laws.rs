//! What holds of the pipeline across several steps.
//!
//! Each law is stated over the values that the contracts of the stages speak
//! of, so that it holds of every run that goes through those stages.

use crate::add::{integrate, AddView};
use crate::bus_model::BusView;
use crate::cache::{remember, replay, OccasionView};
use crate::clean::{dependents, is_used};
use crate::graph_model::{lemma_add_module_wf, lemma_resolve_all, lemma_revoke_module, GraphView};
use crate::handler::QueueHandleCallback;
use crate::ident::{DependencyId, ModuleIdentifier};
use crate::module::BuildOutputView;
use crate::wait::{WaitTask, WaitTaskResult};
use vstd::prelude::*;

verus! {

/// Every add task leaves the graph well formed, whatever it asks for.
pub proof fn law_add_keeps_graph(graph: GraphView, entries: Set<ModuleIdentifier>, task: AddView)
    requires
        graph.wf(),
    ensures
        integrate(graph, entries, task).graph.wf(),
{
    if task.stands_for_issuer && task.connect_origin {
        if task.node.issuer.module() is Some {
            lemma_resolve_all(
                graph,
                task.original_module_identifier,
                task.dependencies,
                task.node.issuer.module()->0,
            );
        }
    } else if graph.has_module(task.module) {
        lemma_resolve_all(graph, task.original_module_identifier, task.dependencies, task.module);
    } else {
        lemma_add_module_wf(graph, task.node);
        lemma_resolve_all(
            graph.add_module(task.node),
            task.original_module_identifier,
            task.dependencies,
            task.module,
        );
    }
}

/// A module that the graph holds is never taken in again: unless it stands for
/// its issuer and edges are to be connected, the task reuses it or fails on an
/// edge, the graph holds the modules it held, and no entry is noted.
pub proof fn law_held_module_is_reused(
    graph: GraphView,
    entries: Set<ModuleIdentifier>,
    task: AddView,
)
    requires
        graph.wf(),
        graph.has_module(task.module),
        !(task.stands_for_issuer && task.connect_origin),
    ensures
        !(integrate(graph, entries, task).verdict is Added),
        integrate(graph, entries, task).verdict is Reused <==> graph.resolve_all_error(
            task.original_module_identifier,
            task.dependencies,
            task.module,
        ) is None,
        integrate(graph, entries, task).graph.modules.dom() == graph.modules.dom(),
        integrate(graph, entries, task).entries == entries,
{
    lemma_resolve_all(graph, task.original_module_identifier, task.dependencies, task.module);
}

/// A module that was added, and is offered again for other dependencies, is
/// reused, whether or not the second task asks for its edges to be connected:
/// the graph gets no second node, and the dependencies of both tasks resolve
/// to the one node.
pub proof fn law_second_add_reuses(
    graph: GraphView,
    entries: Set<ModuleIdentifier>,
    first: AddView,
    second: AddView,
)
    requires
        graph.wf(),
        first.wf(),
        second.module == first.module,
        second.stands_for_issuer == first.stands_for_issuer,
        first.connect_origin,
        forall|dependency: DependencyId|
            first.dependencies.contains(dependency) ==> !second.dependencies.contains(dependency),
        integrate(graph, entries, first).verdict is Added,
        !(integrate(
            integrate(graph, entries, first).graph,
            integrate(graph, entries, first).entries,
            second,
        ).verdict is Failed),
    ensures
        ({
            let once = integrate(graph, entries, first);
            let twice = integrate(once.graph, once.entries, second);
            &&& twice.verdict is Reused
            &&& twice.graph.wf()
            &&& twice.graph.has_module(first.module)
            &&& twice.graph.modules.dom() == once.graph.modules.dom()
            &&& forall|dependency: DependencyId|
                first.dependencies.contains(dependency) ==> twice.graph.resolves_to(
                    dependency,
                    first.module,
                )
            &&& forall|dependency: DependencyId|
                second.dependencies.contains(dependency) ==> twice.graph.resolves_to(
                    dependency,
                    first.module,
                )
        }),
{
    let module = first.module;
    let once = integrate(graph, entries, first);
    let twice = integrate(once.graph, once.entries, second);
    let offered = graph.add_module(first.node);
    lemma_add_module_wf(graph, first.node);
    lemma_resolve_all(offered, first.original_module_identifier, first.dependencies, module);
    assert(offered.modules.contains_key(module));
    assert(once.graph.modules.dom().contains(module));
    assert(once.graph.has_module(module));
    lemma_resolve_all(once.graph, second.original_module_identifier, second.dependencies, module);
    assert forall|dependency: DependencyId|
        first.dependencies.contains(dependency) implies twice.graph.resolves_to(
        dependency,
        module,
    ) by {
        assert(once.graph.resolves_to(dependency, module));
        assert(!second.dependencies.contains(dependency));
        assert(twice.graph.connections.contains_key(dependency)
            == once.graph.connections.contains_key(dependency));
    }
    assert forall|dependency: DependencyId|
        second.dependencies.contains(dependency) implies twice.graph.resolves_to(
        dependency,
        module,
    ) by {}
    assert(twice.graph.modules.dom().contains(module));
}

/// A module that nothing depends on is gone after it was cleaned, and cleaning
/// it once more changes nothing and names no module.
pub proof fn law_clean_is_idempotent(graph: GraphView, module: ModuleIdentifier)
    requires
        graph.wf(),
    ensures
        ({
            let cleaned = graph.revoke_module(module);
            &&& cleaned.wf()
            &&& !cleaned.has_module(module)
            &&& !is_used(cleaned, module)
            &&& dependents(cleaned, module) == Seq::<ModuleIdentifier>::empty()
            &&& cleaned.revoke_module(module) == cleaned
        }),
{
    lemma_revoke_module(graph, module);
}

/// Cleaning a module touches no other module's place in the graph, and no edge
/// between other modules.
pub proof fn law_clean_spares_the_rest(
    graph: GraphView,
    module: ModuleIdentifier,
    other: ModuleIdentifier,
    dependency: DependencyId,
)
    requires
        graph.wf(),
        other != module,
    ensures
        graph.revoke_module(module).has_module(other) == graph.has_module(other),
        graph.connections.contains_key(dependency)
            && graph.connections[dependency].module_identifier != module
            && graph.connections[dependency].original_module_identifier != Some(module)
            ==> graph.revoke_module(module).connections.contains_key(dependency)
            && graph.revoke_module(module).connections[dependency]
            == graph.connections[dependency],
{
    lemma_revoke_module(graph, module);
}

/// Who subscribes to a milestone that is reached is called at once, with the
/// result that was kept, and does not wait: no later completion calls it again.
pub proof fn law_wait_after_completion(
    bus: BusView,
    task: WaitTask,
    result: WaitTaskResult,
    callback: QueueHandleCallback,
)
    ensures
        bus.completed(task, result).answer(task) == Some(result),
        bus.completed(task, result).subscribed(task, callback) == bus.completed(task, result),
        bus.completed(task, result).due(task) == Seq::<QueueHandleCallback>::empty(),
{
    assert(bus.completed(task, result).waiting[task].reverse() =~= Seq::<
        QueueHandleCallback,
    >::empty());
}

/// Who subscribes to a milestone that is not reached is not called then. The
/// completion of the milestone calls it once, before those that waited longer,
/// and leaves nobody waiting: a second completion calls nobody.
pub proof fn law_wait_before_completion(
    bus: BusView,
    task: WaitTask,
    callback: QueueHandleCallback,
    result: WaitTaskResult,
    again: WaitTaskResult,
)
    requires
        bus.answer(task) is None,
    ensures
        bus.subscribed(task, callback).answer(task) is None,
        bus.subscribed(task, callback).due(task) == seq![callback] + bus.due(task),
        bus.subscribed(task, callback).completed(task, result).due(task) == Seq::<
            QueueHandleCallback,
        >::empty(),
        bus.subscribed(task, callback).completed(task, result).completed(task, again).due(task)
            == Seq::<QueueHandleCallback>::empty(),
{
    let waiting = bus.waiting[task];
    assert(waiting.push(callback).reverse() =~= seq![callback] + waiting.reverse());
    assert(Seq::<QueueHandleCallback>::empty().reverse() =~= Seq::<QueueHandleCallback>::empty());
}

/// A subscription or a completion for one milestone leaves every other
/// milestone as it was: what is reached, and who waits.
pub proof fn law_milestones_are_apart(
    bus: BusView,
    task: WaitTask,
    other: WaitTask,
    callback: QueueHandleCallback,
    result: WaitTaskResult,
)
    requires
        other != task,
    ensures
        bus.subscribed(task, callback).answer(other) == bus.answer(other),
        bus.subscribed(task, callback).due(other) == bus.due(other),
        bus.completed(task, result).answer(other) == bus.answer(other),
        bus.completed(task, result).due(other) == bus.due(other),
{
}

/// A milestone that is reached stays reached, whoever subscribes and whatever
/// is completed afterwards; only a completion of the same milestone changes
/// the result that is kept for it.
pub proof fn law_reached_stays_reached(
    bus: BusView,
    task: WaitTask,
    other: WaitTask,
    callback: QueueHandleCallback,
    result: WaitTaskResult,
)
    requires
        bus.answer(task) is Some,
    ensures
        bus.subscribed(other, callback).answer(task) == bus.answer(task),
        bus.completed(other, result).answer(task) is Some,
        other != task ==> bus.completed(other, result).answer(task) == bus.answer(task),
{
}

/// A build that was made is replayed for the same module as long as the
/// digest of its inputs is the same: the build after a first one comes from
/// the cache, equal to the first.
pub proof fn law_build_is_memoized(
    kept: OccasionView,
    module: ModuleIdentifier,
    fingerprint: u64,
    built: BuildOutputView,
)
    ensures
        replay(remember(kept, module, fingerprint, built), module, fingerprint) == Some(built),
{
}

/// A build that is kept for one module, or with one digest, is no build of
/// another module, and none for another digest.
pub proof fn law_build_memory_is_keyed(
    kept: OccasionView,
    module: ModuleIdentifier,
    fingerprint: u64,
    built: BuildOutputView,
    other: ModuleIdentifier,
    changed: u64,
)
    ensures
        other != module ==> replay(remember(kept, module, fingerprint, built), other, changed)
            == replay(kept, other, changed),
        changed != fingerprint ==> replay(
            remember(kept, module, fingerprint, built),
            module,
            changed,
        ) is None,
{
}

} // verus!
