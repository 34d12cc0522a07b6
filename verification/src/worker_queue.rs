//! A queue of tasks of one stage, first in, first out.

use std::collections::VecDeque;
use vstd::prelude::*;

verus! {

/// The tasks of one stage that wait to be run, oldest first.
pub struct WorkerQueue<T> {
    inner: VecDeque<T>,
}

impl<T> View for WorkerQueue<T> {
    type V = Seq<T>;

    closed spec fn view(&self) -> Seq<T> {
        self.inner@
    }
}

impl<T> WorkerQueue<T> {
    /// A queue in which nothing waits.
    pub fn new() -> (queue: WorkerQueue<T>)
        ensures
            queue@ == Seq::<T>::empty(),
    {
        WorkerQueue { inner: VecDeque::new() }
    }

    /// Puts `task` behind the tasks that wait.
    pub fn add_task(&mut self, task: T)
        ensures
            final(self)@ == old(self)@.push(task),
    {
        self.inner.push_back(task);
    }

    /// Takes the task that has waited longest, if one waits.
    pub fn get_task(&mut self) -> (task: Option<T>)
        ensures
            old(self)@.len() == 0 ==> task is None && final(self)@ == old(self)@,
            old(self)@.len() > 0 ==> task == Some(old(self)@[0]) && final(self)@ == old(
                self,
            )@.skip(1),
    {
        let task = self.inner.pop_front();
        proof {
            if old(self)@.len() > 0 {
                assert(self.inner@ =~= old(self)@.skip(1));
            }
        }
        task
    }

    /// Whether nothing waits.
    pub fn is_empty(&self) -> (empty: bool)
        ensures
            empty == (self@.len() == 0),
    {
        self.inner.len() == 0
    }

    /// How many tasks wait.
    pub fn len(&self) -> (count: usize)
        ensures
            count == self@.len(),
    {
        self.inner.len()
    }
}

} // verus!
