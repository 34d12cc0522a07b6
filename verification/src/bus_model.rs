//! The completion bus as a mathematical value: which milestones are reached,
//! and who waits for which.

use crate::compilation::Compilation;
use crate::handler::QueueHandleCallback;
use crate::wait::{WaitTask, WaitTaskResult};
use vstd::prelude::*;

verus! {

/// The state of a completion bus, as a value.
#[verifier::ext_equal]
pub struct BusView {
    /// The milestones that are reached, each with its result.
    pub finished: Map<WaitTask, WaitTaskResult>,
    /// For every milestone, the callbacks that wait for it, oldest first.
    pub waiting: Map<WaitTask, Seq<QueueHandleCallback>>,
}

impl BusView {
    /// The bus on which nothing is reached and nobody waits.
    pub open spec fn empty() -> BusView {
        BusView {
            finished: Map::empty(),
            waiting: Map::new(
                |task: WaitTask| true,
                |task: WaitTask| Seq::<QueueHandleCallback>::empty(),
            ),
        }
    }

    /// The result of `task`, where it is reached.
    pub open spec fn answer(self, task: WaitTask) -> Option<WaitTaskResult> {
        if self.finished.contains_key(task) {
            Some(self.finished[task])
        } else {
            None
        }
    }

    /// The bus after `callback` subscribed to `task`: it waits, unless the
    /// milestone is reached, in which case it is called at once and never waits.
    pub open spec fn subscribed(self, task: WaitTask, callback: QueueHandleCallback) -> BusView {
        if self.finished.contains_key(task) {
            self
        } else {
            BusView { waiting: self.waiting.insert(task, self.waiting[task].push(callback)), ..self }
        }
    }

    /// The callbacks that the completion of `task` calls, in the order in
    /// which it calls them: the last to subscribe first.
    pub open spec fn due(self, task: WaitTask) -> Seq<QueueHandleCallback> {
        self.waiting[task].reverse()
    }

    /// The bus after `task` was completed with `result`: the milestone is
    /// reached, and nobody waits for it any more.
    pub open spec fn completed(self, task: WaitTask, result: WaitTaskResult) -> BusView {
        BusView {
            finished: self.finished.insert(task, result),
            waiting: self.waiting.insert(task, Seq::empty()),
        }
    }

    /// Whether this bus is `earlier` after some tasks and subscriptions came
    /// in and no milestone was completed: the same milestones are reached,
    /// nobody stopped waiting, and nobody began to wait for a reached milestone.
    pub open spec fn extends(self, earlier: BusView) -> bool {
        &&& self.finished == earlier.finished
        &&& forall|task: WaitTask| #[trigger]
            earlier.waiting[task].is_prefix_of(self.waiting[task])
        &&& forall|task: WaitTask| #[trigger]
            self.finished.contains_key(task) ==> self.waiting[task] == earlier.waiting[task]
    }
}

/// Whether calling `callbacks` one after the other, each with `result`, makes
/// `after` of `before`.
pub open spec fn fired_in_turn(
    callbacks: Seq<QueueHandleCallback>,
    result: WaitTaskResult,
    before: Compilation,
    after: Compilation,
) -> bool
    decreases callbacks.len(),
{
    if callbacks.len() == 0 {
        before == after
    } else {
        exists|between: Compilation|
            fired_in_turn(callbacks.drop_last(), result, before, between)
                && #[trigger] callbacks.last().fires(result, between, after)
    }
}

/// Whether `longer` begins with `shorter`, for two queues or two lists of waiters.
pub open spec fn grown_from<T>(longer: Seq<T>, shorter: Seq<T>) -> bool {
    shorter.is_prefix_of(longer)
}

/// A list that grew from a list that grew from a third grew from the third.
pub proof fn lemma_grown_twice<T>(first: Seq<T>, second: Seq<T>, third: Seq<T>)
    requires
        grown_from(second, first),
        grown_from(third, second),
    ensures
        grown_from(third, first),
{
    assert(first =~= third.subrange(0, first.len() as int)) by {
        assert(second =~= third.subrange(0, second.len() as int));
        assert(first =~= second.subrange(0, first.len() as int));
    }
}

/// A list with one more at its end grew from the list.
pub proof fn lemma_grown_by_one<T>(list: Seq<T>, last: T)
    ensures
        grown_from(list.push(last), list),
{
    assert(list =~= list.push(last).subrange(0, list.len() as int));
}

/// A list grew from itself.
pub proof fn lemma_grown_by_none<T>(list: Seq<T>)
    ensures
        grown_from(list, list),
{
    assert(list =~= list.subrange(0, list.len() as int));
}

} // verus!
