//! The completion bus: a channel into the pipeline, on which tasks are added
//! and milestones are waited for.
//!
//! A `QueueHandler` sends; the one `QueueHandlerProcessor` receives, hands tasks
//! to the queues of their stages, and keeps, for each stage, what is reached
//! and who waits. What is in the channel depends on every holder of a handler,
//! so nothing is said of it: the processor is proved for every message.

use crate::add::{AddQueue, AddTask};
use crate::building::{BuildQueue, BuildTask};
use crate::bus_model::{
    fired_in_turn, grown_from, lemma_grown_by_none, lemma_grown_by_one, lemma_grown_twice,
    BusView,
};
use crate::compilation::Compilation;
use crate::execution::{BuildTimeExecutionQueue, BuildTimeExecutionTask};
use crate::factorize::{FactorizeQueue, FactorizeTask};
use crate::module::{keep, Kept};
use crate::process_dependencies::{ProcessDependenciesQueue, ProcessDependenciesTask};
use crate::table::{table_get, table_insert, table_remove};
use crate::task::TaskError;
use crate::wait::{WaitTask, WaitTaskKey, WaitTaskResult};
use rustc_hash::FxHashMap;
use tokio::sync::mpsc::{unbounded_channel, UnboundedReceiver, UnboundedSender};
use vstd::prelude::*;

verus! {

/// Called once, with the result of a milestone and the compilation, when the
/// milestone that it waits for is reached.
pub trait OnTaskFinished: Send + Sync {
    /// That a call with `result` made `after` of `before`. It is for contracts
    /// only: nothing but a call makes it hold.
    spec fn fires(&self, result: WaitTaskResult, before: Compilation, after: Compilation) -> bool;

    fn call(self: Box<Self>, result: WaitTaskResult, compilation: &mut Compilation)
        ensures
            self.fires(result, *old(compilation), *final(compilation)),
    ;
}

/// A callback that waits for a milestone.
pub struct QueueHandleCallback {
    callback: Kept<Box<dyn OnTaskFinished>>,
}

impl QueueHandleCallback {
    /// A callback that holds `callback`: a call of one is a call of the other.
    pub fn new(callback: Box<dyn OnTaskFinished>) -> (boxed: QueueHandleCallback)
        ensures
            forall|result: WaitTaskResult, before: Compilation, after: Compilation|
                #[trigger] boxed.fires(result, before, after) == callback.fires(
                    result,
                    before,
                    after,
                ),
    {
        // Kept first, then put in its field: so it arrives as it was given.
        let kept = keep(callback);
        QueueHandleCallback { callback: kept }
    }

    /// That a call with `result` made `after` of `before`.
    pub closed spec fn fires(
        &self,
        result: WaitTaskResult,
        before: Compilation,
        after: Compilation,
    ) -> bool {
        self.callback.value.fires(result, before, after)
    }

    /// Calls the callback with `result` and the compilation.
    pub fn call(self, result: WaitTaskResult, compilation: &mut Compilation)
        ensures
            self.fires(result, *old(compilation), *final(compilation)),
    {
        self.callback.value.call(result, compilation)
    }
}

/// A callback with the milestone that it waits for.
pub struct Subscription {
    pub task: WaitTask,
    pub callback: QueueHandleCallback,
}

impl Subscription {
    pub fn new(task: WaitTask, callback: QueueHandleCallback) -> (subscription: Subscription)
        ensures
            subscription.task == task,
            subscription.callback == callback,
    {
        Subscription { task, callback }
    }
}

/// What can be sent into the pipeline.
pub enum QueueTask {
    Factorize(Box<FactorizeTask>),
    Add(Box<AddTask>),
    Build(Box<BuildTask>),
    ProcessDependencies(Box<ProcessDependenciesTask>),
    BuildTimeExecution(Box<BuildTimeExecutionTask>),
    Subscription(Box<Subscription>),
}

/// `tokio::sync::mpsc::UnboundedSender`: the sending half of a channel. Nothing
/// is read from it.
#[verifier::external_type_specification]
#[verifier::external_body]
#[verifier::reject_recursive_types(T)]
pub struct ExUnboundedSender<T>(UnboundedSender<T>);

/// `<UnboundedSender<T> as Clone>::clone`: one more sender into the same
/// channel. Nothing is said of it.
pub assume_specification<T>[ <UnboundedSender<T> as Clone>::clone ](
    sender: &UnboundedSender<T>,
) -> (other: UnboundedSender<T>)
;

/// `tokio::sync::mpsc::UnboundedReceiver`: the receiving half of a channel.
/// Nothing is read from it.
#[verifier::external_type_specification]
#[verifier::external_body]
#[verifier::reject_recursive_types(T)]
pub struct ExUnboundedReceiver<T>(UnboundedReceiver<T>);

/// `UnboundedReceiver::try_recv`: the oldest message in the channel, or
/// nothing where the channel is empty or closed. Which it is depends on what
/// the senders did, so nothing is said of it.
#[verifier::external_body]
fn try_receive(receiver: &mut UnboundedReceiver<QueueTask>) -> (message: Option<QueueTask>) {
    receiver.try_recv().ok()
}

/// A handle into the pipeline: it adds tasks and subscribes to milestones.
///
/// It holds the sending half of the channel. A task may carry a handle, and the
/// channel carries tasks, so the sender is kept out of the verifier's sight.
#[verifier::external_body]
pub struct QueueHandler {
    sender: UnboundedSender<QueueTask>,
}

impl Clone for QueueHandler {
    /// `UnboundedSender::clone`: one more handle into the same channel.
    #[verifier::external_body]
    fn clone(&self) -> (other: QueueHandler) {
        QueueHandler { sender: self.sender.clone() }
    }
}

/// `tokio::sync::mpsc::unbounded_channel`: a new channel, its sending half in
/// a handler.
#[verifier::external_body]
fn open_channel() -> (halves: (QueueHandler, UnboundedReceiver<QueueTask>)) {
    let (sender, receiver) = unbounded_channel();
    (QueueHandler { sender }, receiver)
}

impl QueueHandler {
    /// `UnboundedSender::send`: puts the message in the channel, or hands it
    /// back where the receiving half is closed or gone.
    #[verifier::external_body]
    fn send(&self, message: QueueTask) -> (outcome: Result<(), QueueTask>)
        ensures
            outcome matches Err(returned) ==> returned == message,
    {
        match self.sender.send(message) {
            Ok(_) => Ok(()),
            Err(error) => Err(error.0),
        }
    }

    /// Sends a task into the pipeline. It fails only where the processor is gone.
    pub fn add_task(&self, task: QueueTask) -> (res: Result<(), TaskError>)
        ensures
            res matches Err(error) ==> error is Disconnected,
    {
        match self.send(task) {
            Ok(_) => Ok(()),
            Err(_) => Err(TaskError::Disconnected),
        }
    }

    /// Subscribes `callback` to the milestone `wait_task`. Nothing is reported
    /// back: where the processor is gone, the callback is dropped uncalled.
    pub fn wait_for(&self, wait_task: WaitTask, callback: QueueHandleCallback) {
        let subscription = Subscription::new(wait_task, callback);
        let _ = self.send(QueueTask::Subscription(Box::new(subscription)));
    }
}

/// The most messages that one call of `try_process` takes from the channel. It
/// bounds the pass where senders never stop sending.
pub const DRAIN_LIMIT: usize = usize::MAX;

/// The callbacks that `table` files under `code`.
pub open spec fn waiting_in(table: Map<u64, Vec<QueueHandleCallback>>, code: u64) -> Seq<
    QueueHandleCallback,
> {
    if table.contains_key(code) {
        table[code]@
    } else {
        Seq::empty()
    }
}

/// What a pass over the channel works on, as a value: the bus, the
/// compilation, and the queue of each stage.
pub struct Desk {
    pub bus: BusView,
    pub compilation: Compilation,
    pub factorize_queue: Seq<FactorizeTask>,
    pub add_queue: Seq<AddTask>,
    pub build_queue: Seq<BuildTask>,
    pub process_dependencies_queue: Seq<ProcessDependenciesTask>,
    pub buildtime_execution_queue: Seq<BuildTimeExecutionTask>,
}

/// Whether taking `message` makes `after` of `before`: a task is at the end
/// of the queue of its stage; the callback of a subscription waits, or was
/// called with the result that is kept for its milestone; nothing else changed.
pub open spec fn took(message: QueueTask, before: Desk, after: Desk) -> bool {
    &&& after.factorize_queue == (match message {
        QueueTask::Factorize(sent) => before.factorize_queue.push(*sent),
        _ => before.factorize_queue,
    })
    &&& after.add_queue == (match message {
        QueueTask::Add(sent) => before.add_queue.push(*sent),
        _ => before.add_queue,
    })
    &&& after.build_queue == (match message {
        QueueTask::Build(sent) => before.build_queue.push(*sent),
        _ => before.build_queue,
    })
    &&& after.process_dependencies_queue == (match message {
        QueueTask::ProcessDependencies(sent) => before.process_dependencies_queue.push(*sent),
        _ => before.process_dependencies_queue,
    })
    &&& after.buildtime_execution_queue == (match message {
        QueueTask::BuildTimeExecution(sent) => before.buildtime_execution_queue.push(*sent),
        _ => before.buildtime_execution_queue,
    })
    &&& match message {
        QueueTask::Subscription(subscription) => {
            &&& after.bus == before.bus.subscribed(subscription.task, subscription.callback)
            &&& match before.bus.answer(subscription.task) {
                Some(result) => subscription.callback.fires(
                    result,
                    before.compilation,
                    after.compilation,
                ),
                None => after.compilation == before.compilation,
            }
        },
        _ => after.bus == before.bus && after.compilation == before.compilation,
    }
}

/// Whether taking `messages` one after the other makes `after` of `before`.
pub open spec fn took_all(messages: Seq<QueueTask>, before: Desk, after: Desk) -> bool
    decreases messages.len(),
{
    if messages.len() == 0 {
        before == after
    } else {
        exists|between: Desk|
            took_all(messages.drop_last(), before, between) && #[trigger] took(
                messages.last(),
                between,
                after,
            )
    }
}

/// The receiving end of the bus: it takes what the handlers sent, and keeps
/// for each stage what is reached and who waits.
pub struct QueueHandlerProcessor {
    receiver: UnboundedReceiver<QueueTask>,
    callbacks: [FxHashMap<u64, Vec<QueueHandleCallback>>; 4],
    finished: [FxHashMap<u64, WaitTaskResult>; 4],
}

impl View for QueueHandlerProcessor {
    type V = BusView;

    closed spec fn view(&self) -> BusView {
        BusView {
            finished: Map::new(
                |task: WaitTask| self.finished[task.bucket()]@.contains_key(task.key().code()),
                |task: WaitTask| self.finished[task.bucket()]@[task.key().code()],
            ),
            waiting: Map::new(
                |task: WaitTask| true,
                |task: WaitTask| waiting_in(self.callbacks[task.bucket()]@, task.key().code()),
            ),
        }
    }
}

impl QueueHandlerProcessor {
    /// The stage of a milestone, as the index of its tables, and its entity.
    pub fn get_bucket_and_key(task: WaitTask) -> (place: (usize, WaitTaskKey))
        ensures
            place.0 == task.bucket(),
            place.1 == task.key(),
    {
        let (bucket, key) = match task {
            WaitTask::Factorize(dep_id) => (0, WaitTaskKey::from(dep_id)),
            WaitTask::Add(m) => (1, WaitTaskKey::from(m)),
            WaitTask::Build(m) => (2, WaitTaskKey::from(m)),
            WaitTask::ProcessDependencies(m) => (3, WaitTaskKey::from(m)),
        };

        (bucket, key)
    }

    /// A change of what the tables file in the place of one milestone leaves
    /// every other milestone as it was: what is kept for it, and who waits.
    proof fn lemma_other_milestones_stay(
        before: QueueHandlerProcessor,
        after: QueueHandlerProcessor,
        task: WaitTask,
    )
        requires
            forall|bucket: int|
                0 <= bucket < 4 && bucket != task.bucket() ==> after.callbacks[bucket]
                    == before.callbacks[bucket] && after.finished[bucket]
                    == before.finished[bucket],
            after.callbacks[task.bucket()]@.remove(task.key().code())
                == before.callbacks[task.bucket()]@.remove(task.key().code()),
            after.finished[task.bucket()]@.remove(task.key().code())
                == before.finished[task.bucket()]@.remove(task.key().code()),
        ensures
            forall|other: WaitTask|
                other != task ==> #[trigger] after@.waiting[other] == before@.waiting[other],
            forall|other: WaitTask|
                other != task ==> (#[trigger] after@.finished.contains_key(other))
                    == before@.finished.contains_key(other),
            forall|other: WaitTask|
                other != task && before@.finished.contains_key(other)
                    ==> #[trigger] after@.finished[other] == before@.finished[other],
    {
        assert forall|other: WaitTask| other != task implies #[trigger] after@.waiting[other]
            == before@.waiting[other] by {
            Self::lemma_other_place(before, after, task, other);
        }
        assert forall|other: WaitTask| other != task implies (
        #[trigger] after@.finished.contains_key(other)) == before@.finished.contains_key(
            other,
        ) by {
            Self::lemma_other_place(before, after, task, other);
        }
        assert forall|other: WaitTask|
            other != task && before@.finished.contains_key(
                other,
            ) implies #[trigger] after@.finished[other] == before@.finished[other] by {
            Self::lemma_other_place(before, after, task, other);
        }
    }

    /// The same of one other milestone.
    proof fn lemma_other_place(
        before: QueueHandlerProcessor,
        after: QueueHandlerProcessor,
        task: WaitTask,
        other: WaitTask,
    )
        requires
            other != task,
            forall|bucket: int|
                0 <= bucket < 4 && bucket != task.bucket() ==> after.callbacks[bucket]
                    == before.callbacks[bucket] && after.finished[bucket]
                    == before.finished[bucket],
            after.callbacks[task.bucket()]@.remove(task.key().code())
                == before.callbacks[task.bucket()]@.remove(task.key().code()),
            after.finished[task.bucket()]@.remove(task.key().code())
                == before.finished[task.bucket()]@.remove(task.key().code()),
        ensures
            after@.waiting[other] == before@.waiting[other],
            after@.finished.contains_key(other) == before@.finished.contains_key(other),
            before@.finished.contains_key(other) ==> after@.finished[other]
                == before@.finished[other],
    {
        if other.bucket() == task.bucket() && other.key().code() == task.key().code() {
            other.lemma_place_is_milestone(task);
        }
        assert(0 <= other.bucket() < 4);
        if other.bucket() != task.bucket() {
            assert(after.callbacks[other.bucket()] == before.callbacks[other.bucket()]);
            assert(after.finished[other.bucket()] == before.finished[other.bucket()]);
        } else {
            let code = other.key().code();
            let theirs = task.key().code();
            assert(after.callbacks[task.bucket()]@.remove(theirs).contains_key(code)
                == after.callbacks[task.bucket()]@.contains_key(code));
            assert(before.callbacks[task.bucket()]@.remove(theirs).contains_key(code)
                == before.callbacks[task.bucket()]@.contains_key(code));
            assert(after.callbacks[task.bucket()]@.remove(theirs)[code]
                == after.callbacks[task.bucket()]@[code]);
            assert(before.callbacks[task.bucket()]@.remove(theirs)[code]
                == before.callbacks[task.bucket()]@[code]);
            assert(after.finished[task.bucket()]@.remove(theirs).contains_key(code)
                == after.finished[task.bucket()]@.contains_key(code));
            assert(before.finished[task.bucket()]@.remove(theirs).contains_key(code)
                == before.finished[task.bucket()]@.contains_key(code));
            assert(after.finished[task.bucket()]@.remove(theirs)[code]
                == after.finished[task.bucket()]@[code]);
            assert(before.finished[task.bucket()]@.remove(theirs)[code]
                == before.finished[task.bucket()]@[code]);
        }
    }

    /// The result that is kept for `task`, where the milestone is reached.
    pub fn finished_result(&self, task: WaitTask) -> (result: Option<WaitTaskResult>)
        ensures
            result == self@.answer(task),
    {
        let (bucket, key) = Self::get_bucket_and_key(task);
        match table_get(&self.finished[bucket], key.table_code()) {
            Some(module) => Some(*module),
            None => None,
        }
    }

    /// How many callbacks wait for `task`.
    pub fn waiting_count(&self, task: WaitTask) -> (count: usize)
        ensures
            count == self@.waiting[task].len(),
    {
        let (bucket, key) = Self::get_bucket_and_key(task);
        match table_get(&self.callbacks[bucket], key.table_code()) {
            Some(waiting) => waiting.len(),
            None => 0,
        }
    }

    /// Takes a subscription: where its milestone is reached, the callback is
    /// called at once with the result that was kept; otherwise it waits, behind
    /// those that wait already.
    pub fn subscribe(&mut self, subscription: Subscription, compilation: &mut Compilation)
        ensures
            final(self)@ == old(self)@.subscribed(subscription.task, subscription.callback),
            match old(self)@.answer(subscription.task) {
                Some(result) => subscription.callback.fires(
                    result,
                    *old(compilation),
                    *final(compilation),
                ),
                None => *final(compilation) == *old(compilation),
            },
    {
        let Subscription { task, callback } = subscription;
        let (bucket, key) = Self::get_bucket_and_key(task);
        let code = key.table_code();

        match self.finished_result(task) {
            Some(module) => {
                callback.call(module, compilation);
                assert(self@ =~= old(self)@.subscribed(task, callback));
            },
            None => {
                let mut waiting = match table_remove(&mut self.callbacks[bucket], code) {
                    Some(waiting) => waiting,
                    None => Vec::new(),
                };
                waiting.push(callback);
                table_insert(&mut self.callbacks[bucket], code, waiting);
                proof {
                    let expected = old(self)@.subscribed(task, callback);
                    assert(self.callbacks[task.bucket()]@.remove(code) =~= old(
                        self,
                    ).callbacks[task.bucket()]@.remove(code));
                    Self::lemma_other_milestones_stay(*old(self), *self, task);
                    assert(self@.waiting =~= expected.waiting);
                    assert(self@.finished =~= expected.finished);
                }
            },
        }
    }

    /// Takes one message, as `took` says: a task goes to the end of the queue
    /// of its stage, a subscription is taken as `subscribe` says. Nothing else
    /// changes.
    pub fn process_task(
        &mut self,
        task: QueueTask,
        compilation: &mut Compilation,
        factorize_queue: &mut FactorizeQueue,
        add_queue: &mut AddQueue,
        build_queue: &mut BuildQueue,
        process_dependencies_queue: &mut ProcessDependenciesQueue,
        buildtime_execution_queue: &mut BuildTimeExecutionQueue,
    )
        ensures
            final(factorize_queue)@ == (match task {
                QueueTask::Factorize(sent) => old(factorize_queue)@.push(*sent),
                _ => old(factorize_queue)@,
            }),
            final(add_queue)@ == (match task {
                QueueTask::Add(sent) => old(add_queue)@.push(*sent),
                _ => old(add_queue)@,
            }),
            final(build_queue)@ == (match task {
                QueueTask::Build(sent) => old(build_queue)@.push(*sent),
                _ => old(build_queue)@,
            }),
            final(process_dependencies_queue)@ == (match task {
                QueueTask::ProcessDependencies(sent) => old(process_dependencies_queue)@.push(
                    *sent,
                ),
                _ => old(process_dependencies_queue)@,
            }),
            final(buildtime_execution_queue)@ == (match task {
                QueueTask::BuildTimeExecution(sent) => old(buildtime_execution_queue)@.push(
                    *sent,
                ),
                _ => old(buildtime_execution_queue)@,
            }),
            match task {
                QueueTask::Subscription(subscription) => {
                    &&& final(self)@ == old(self)@.subscribed(
                        subscription.task,
                        subscription.callback,
                    )
                    &&& match old(self)@.answer(subscription.task) {
                        Some(result) => subscription.callback.fires(
                            result,
                            *old(compilation),
                            *final(compilation),
                        ),
                        None => *final(compilation) == *old(compilation),
                    }
                },
                _ => final(self)@ == old(self)@ && *final(compilation) == *old(compilation),
            },
            took(
                task,
                (Desk {
                    bus: old(self)@,
                    compilation: *old(compilation),
                    factorize_queue: old(factorize_queue)@,
                    add_queue: old(add_queue)@,
                    build_queue: old(build_queue)@,
                    process_dependencies_queue: old(process_dependencies_queue)@,
                    buildtime_execution_queue: old(buildtime_execution_queue)@,
                }),
                (Desk {
                    bus: final(self)@,
                    compilation: *final(compilation),
                    factorize_queue: final(factorize_queue)@,
                    add_queue: final(add_queue)@,
                    build_queue: final(build_queue)@,
                    process_dependencies_queue: final(process_dependencies_queue)@,
                    buildtime_execution_queue: final(buildtime_execution_queue)@,
                }),
            ),
    {
        match task {
            QueueTask::Factorize(task) => {
                factorize_queue.add_task(*task);
            },
            QueueTask::Add(task) => {
                add_queue.add_task(*task);
            },
            QueueTask::Build(task) => {
                build_queue.add_task(*task);
            },
            QueueTask::ProcessDependencies(task) => {
                process_dependencies_queue.add_task(*task);
            },
            QueueTask::BuildTimeExecution(task) => {
                buildtime_execution_queue.add_task(*task);
            },
            QueueTask::Subscription(subscription) => {
                self.subscribe(*subscription, compilation);
            },
        }
    }

    /// Takes the messages that are in the channel, one after the other as
    /// `process_task` says, until the channel is empty or `DRAIN_LIMIT`
    /// messages were taken. What a callback sends while it is called is taken
    /// in the same pass.
    ///
    /// What was in the channel is for the senders to say; for some messages,
    /// the bus, the compilation and the queues are what taking those messages
    /// in turn makes of them. So whatever was sent: no milestone is completed
    /// by this, nobody stops waiting, nobody begins to wait for a milestone
    /// that is reached, and every queue keeps what it held, in its order,
    /// before what is new.
    pub fn try_process(
        &mut self,
        compilation: &mut Compilation,
        factorize_queue: &mut FactorizeQueue,
        add_queue: &mut AddQueue,
        build_queue: &mut BuildQueue,
        process_dependencies_queue: &mut ProcessDependenciesQueue,
        buildtime_execution_queue: &mut BuildTimeExecutionQueue,
    )
        ensures
            exists|messages: Seq<QueueTask>| #[trigger]
                took_all(
                    messages,
                    (Desk {
                        bus: old(self)@,
                        compilation: *old(compilation),
                        factorize_queue: old(factorize_queue)@,
                        add_queue: old(add_queue)@,
                        build_queue: old(build_queue)@,
                        process_dependencies_queue: old(process_dependencies_queue)@,
                        buildtime_execution_queue: old(buildtime_execution_queue)@,
                    }),
                    (Desk {
                        bus: final(self)@,
                        compilation: *final(compilation),
                        factorize_queue: final(factorize_queue)@,
                        add_queue: final(add_queue)@,
                        build_queue: final(build_queue)@,
                        process_dependencies_queue: final(process_dependencies_queue)@,
                        buildtime_execution_queue: final(buildtime_execution_queue)@,
                    }),
                ),
            final(self)@.extends(old(self)@),
            grown_from(final(factorize_queue)@, old(factorize_queue)@),
            grown_from(final(add_queue)@, old(add_queue)@),
            grown_from(final(build_queue)@, old(build_queue)@),
            grown_from(final(process_dependencies_queue)@, old(process_dependencies_queue)@),
            grown_from(final(buildtime_execution_queue)@, old(buildtime_execution_queue)@),
    {
        let mut left: usize = DRAIN_LIMIT;
        let mut open = true;
        let ghost start = Desk {
            bus: self@,
            compilation: *compilation,
            factorize_queue: factorize_queue@,
            add_queue: add_queue@,
            build_queue: build_queue@,
            process_dependencies_queue: process_dependencies_queue@,
            buildtime_execution_queue: buildtime_execution_queue@,
        };
        let ghost mut taken: Seq<QueueTask> = Seq::empty();
        proof {
            let bus = self@;
            assert forall|task: WaitTask| #[trigger]
                bus.waiting[task].is_prefix_of(bus.waiting[task]) by {
                lemma_grown_by_none(bus.waiting[task]);
            }
            lemma_grown_by_none(factorize_queue@);
            lemma_grown_by_none(add_queue@);
            lemma_grown_by_none(build_queue@);
            lemma_grown_by_none(process_dependencies_queue@);
            lemma_grown_by_none(buildtime_execution_queue@);
        }
        while open && left > 0
            invariant
                took_all(
                    taken,
                    start,
                    (Desk {
                        bus: self@,
                        compilation: *compilation,
                        factorize_queue: factorize_queue@,
                        add_queue: add_queue@,
                        build_queue: build_queue@,
                        process_dependencies_queue: process_dependencies_queue@,
                        buildtime_execution_queue: buildtime_execution_queue@,
                    }),
                ),
                start == (Desk {
                    bus: old(self)@,
                    compilation: *old(compilation),
                    factorize_queue: old(factorize_queue)@,
                    add_queue: old(add_queue)@,
                    build_queue: old(build_queue)@,
                    process_dependencies_queue: old(process_dependencies_queue)@,
                    buildtime_execution_queue: old(buildtime_execution_queue)@,
                }),
                self@.extends(old(self)@),
                grown_from(factorize_queue@, old(factorize_queue)@),
                grown_from(add_queue@, old(add_queue)@),
                grown_from(build_queue@, old(build_queue)@),
                grown_from(process_dependencies_queue@, old(process_dependencies_queue)@),
                grown_from(buildtime_execution_queue@, old(buildtime_execution_queue)@),
            decreases left,
        {
            left -= 1;
            match try_receive(&mut self.receiver) {
                Some(task) => {
                    let ghost message = task;
                    let ghost before = Desk {
                        bus: self@,
                        compilation: *compilation,
                        factorize_queue: factorize_queue@,
                        add_queue: add_queue@,
                        build_queue: build_queue@,
                        process_dependencies_queue: process_dependencies_queue@,
                        buildtime_execution_queue: buildtime_execution_queue@,
                    };
                    let ghost bus = self@;
                    let ghost factorize = factorize_queue@;
                    let ghost add = add_queue@;
                    let ghost build = build_queue@;
                    let ghost process = process_dependencies_queue@;
                    let ghost execution = buildtime_execution_queue@;
                    self.process_task(
                        task,
                        compilation,
                        factorize_queue,
                        add_queue,
                        build_queue,
                        process_dependencies_queue,
                        buildtime_execution_queue,
                    );
                    proof {
                        let after = Desk {
                            bus: self@,
                            compilation: *compilation,
                            factorize_queue: factorize_queue@,
                            add_queue: add_queue@,
                            build_queue: build_queue@,
                            process_dependencies_queue: process_dependencies_queue@,
                            buildtime_execution_queue: buildtime_execution_queue@,
                        };
                        assert(took(message, before, after));
                        assert(taken.push(message).drop_last() =~= taken);
                        assert(taken.push(message).last() == message);
                        taken = taken.push(message);
                        let earlier = old(self)@;
                        let later = self@;
                        assert forall|milestone: WaitTask| #[trigger]
                            earlier.waiting[milestone].is_prefix_of(later.waiting[milestone]) by {
                            assert(earlier.waiting[milestone].is_prefix_of(
                                bus.waiting[milestone],
                            ));
                            lemma_grown_by_none(bus.waiting[milestone]);
                            match message {
                                QueueTask::Subscription(subscription) => {
                                    lemma_grown_by_one(
                                        bus.waiting[milestone],
                                        subscription.callback,
                                    );
                                },
                                _ => {},
                            }
                            lemma_grown_twice(
                                earlier.waiting[milestone],
                                bus.waiting[milestone],
                                later.waiting[milestone],
                            );
                        }
                        assert forall|milestone: WaitTask| #[trigger]
                            later.finished.contains_key(milestone) implies later.waiting[milestone]
                            == earlier.waiting[milestone] by {
                            assert(bus.finished.contains_key(milestone));
                        }
                        match message {
                            QueueTask::Factorize(sent) => {
                                lemma_grown_by_one(factorize, *sent);
                            },
                            QueueTask::Add(sent) => {
                                lemma_grown_by_one(add, *sent);
                            },
                            QueueTask::Build(sent) => {
                                lemma_grown_by_one(build, *sent);
                            },
                            QueueTask::ProcessDependencies(sent) => {
                                lemma_grown_by_one(process, *sent);
                            },
                            QueueTask::BuildTimeExecution(sent) => {
                                lemma_grown_by_one(execution, *sent);
                            },
                            QueueTask::Subscription(_) => {},
                        }
                        lemma_grown_by_none(factorize);
                        lemma_grown_by_none(add);
                        lemma_grown_by_none(build);
                        lemma_grown_by_none(process);
                        lemma_grown_by_none(execution);
                        lemma_grown_twice(old(factorize_queue)@, factorize, factorize_queue@);
                        lemma_grown_twice(old(add_queue)@, add, add_queue@);
                        lemma_grown_twice(old(build_queue)@, build, build_queue@);
                        lemma_grown_twice(
                            old(process_dependencies_queue)@,
                            process,
                            process_dependencies_queue@,
                        );
                        lemma_grown_twice(
                            old(buildtime_execution_queue)@,
                            execution,
                            buildtime_execution_queue@,
                        );
                    }
                },
                None => {
                    open = false;
                },
            }
        }
    }

    /// Completes a milestone: keeps its result, in the place of an earlier one,
    /// and calls everyone who waits for it, the last to subscribe first, each
    /// once. Afterwards nobody waits for it.
    pub fn complete_task(
        &mut self,
        task: WaitTask,
        task_result: WaitTaskResult,
        compilation: &mut Compilation,
    )
        ensures
            final(self)@ == old(self)@.completed(task, task_result),
            fired_in_turn(
                old(self)@.due(task),
                task_result,
                *old(compilation),
                *final(compilation),
            ),
    {
        let (bucket, key) = Self::get_bucket_and_key(task);
        let code = key.table_code();
        table_insert(&mut self.finished[bucket], code, task_result);
        let waiting = match table_remove(&mut self.callbacks[bucket], code) {
            Some(waiting) => waiting,
            None => Vec::new(),
        };
        proof {
            let expected = old(self)@.completed(task, task_result);
            assert(self.callbacks[task.bucket()]@.remove(code) =~= old(
                self,
            ).callbacks[task.bucket()]@.remove(code));
            assert(self.finished[task.bucket()]@.remove(code) =~= old(
                self,
            ).finished[task.bucket()]@.remove(code));
            Self::lemma_other_milestones_stay(*old(self), *self, task);
            assert(self@.waiting =~= expected.waiting);
            assert(self@.finished =~= expected.finished);
            assert(waiting@ == old(self)@.waiting[task]);
        }
        let ghost all = waiting@;
        let ghost due = all.reverse();
        let mut callbacks = waiting;
        assert(due.subrange(0, 0) =~= Seq::<QueueHandleCallback>::empty());
        while callbacks.len() > 0
            invariant
                due == all.reverse(),
                callbacks@.len() <= all.len(),
                callbacks@ == all.subrange(0, callbacks@.len() as int),
                fired_in_turn(
                    due.subrange(0, all.len() - callbacks@.len()),
                    task_result,
                    *old(compilation),
                    *compilation,
                ),
            decreases callbacks.len(),
        {
            let ghost before = *compilation;
            let ghost fired = due.subrange(0, all.len() - callbacks@.len());
            let cb = callbacks.pop().unwrap();
            cb.call(task_result, compilation);
            proof {
                let more = due.subrange(0, all.len() - callbacks@.len());
                assert(more.drop_last() =~= fired);
                assert(more.last() == cb);
                assert(fired_in_turn(more.drop_last(), task_result, *old(compilation), before));
                assert(more.last().fires(task_result, before, *compilation));
                assert(callbacks@ =~= all.subrange(0, callbacks@.len() as int));
            }
        }
        assert(due.subrange(0, all.len() as int) =~= due);
    }
}

/// Opens a completion bus: a handler to send with, and the processor that
/// receives. On the new bus nothing is reached and nobody waits.
pub fn create_queue_handle() -> (bus: (QueueHandler, QueueHandlerProcessor))
    ensures
        bus.1@ == BusView::empty(),
{
    let (handler, rx) = open_channel();
    let processor = QueueHandlerProcessor {
        receiver: rx,
        callbacks: [
            FxHashMap::default(),
            FxHashMap::default(),
            FxHashMap::default(),
            FxHashMap::default(),
        ],
        finished: [
            FxHashMap::default(),
            FxHashMap::default(),
            FxHashMap::default(),
            FxHashMap::default(),
        ],
    };
    assert(processor@.finished =~= BusView::empty().finished);
    assert(processor@.waiting =~= BusView::empty().waiting);
    (handler, processor)
}

} // verus!
