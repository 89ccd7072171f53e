//! The table of tasks in flight, and the one-poll-per-notification protocol.
//!
//! A submitted task gets a handle and a slot in the table, and a first
//! notification. Each notification for a handle takes the slot out of the
//! table, polls the task once and puts the slot back only if the task is not
//! finished. While a task is being polled its slot is out of the table, so a
//! notification that arrives then finds nothing to poll.
use futures::executor::NotifyHandle;
use std::collections::HashMap;
use vstd::prelude::*;

use crate::poll::Polled;

verus! {

/// A submitted task: a boxed future with unit outcome, paired by
/// `futures::executor::spawn` with the task state that lets it be polled from
/// where it last stopped.
///
/// The boxed future is a trait object of `futures::Future`, a type that
/// Verus cannot express, so the whole slot is opaque to it: the contracts
/// speak of a slot as a value and never of what is inside.
#[verifier::external_body]
pub struct TaskSlot {
    pub inner: futures::executor::Spawn<Box<dyn futures::Future<Item = (), Error = ()>>>,
}

/// Polls the task in `slot` once with `Spawn::poll_future_notify`. While the
/// future runs, the task handles it obtains route their notifications to
/// `notify` with `id`.
///
/// The report depends on the future alone, so nothing is claimed of it. The
/// future is the submitter's code: a panic in it passes through.
#[verifier::external_body]
fn poll_slot(slot: &mut TaskSlot, notify: &NotifyHandle, id: usize) -> (polled: Polled<(), ()>) {
    match slot.inner.poll_future_notify(notify, id) {
        Ok(futures::Async::Ready(())) => Polled::Ready(()),
        Ok(futures::Async::NotReady) => Polled::NotReady,
        Err(()) => Polled::Failed(()),
    }
}

/// How a notification for a handle ended.
#[derive(Clone, Copy, Debug, PartialEq, Eq)]
pub enum Invoked {
    /// No task was in the table under the handle: nothing was polled.
    Stale,
    /// The task was polled and finished successfully; its slot is gone.
    Completed,
    /// The task was polled and is not finished; its slot is back in the table.
    Suspended,
    /// The task was polled and failed; its slot is gone.
    Failed,
}

impl Invoked {
    /// How a notification ends whose poll reported `polled`.
    pub open spec fn of(polled: Polled<(), ()>) -> Invoked {
        match polled {
            Polled::Ready(_) => Invoked::Completed,
            Polled::NotReady => Invoked::Suspended,
            Polled::Failed(_) => Invoked::Failed,
        }
    }
}

/// The mathematical state of an executor: the handle that the next submitted
/// task gets, and the tasks in the table by handle.
pub struct ExecutorState {
    pub next_id: usize,
    pub slots: Map<usize, TaskSlot>,
}

impl ExecutorState {
    /// The state of a new executor.
    pub open spec fn empty() -> Self {
        ExecutorState { next_id: 0, slots: Map::empty() }
    }

    /// The handle after `id`. Handles count up and start over after the
    /// largest.
    pub open spec fn successor(id: usize) -> usize {
        if id == usize::MAX {
            0
        } else {
            (id + 1) as usize
        }
    }

    /// The state after `task` was submitted: it stands in the table under the
    /// handle `self.next_id`.
    pub open spec fn submit(self, task: TaskSlot) -> Self {
        ExecutorState {
            next_id: Self::successor(self.next_id),
            slots: self.slots.insert(self.next_id, task),
        }
    }

    /// The slot that a notification for `id` takes out to poll it, if any.
    pub open spec fn taken(self, id: usize) -> Option<TaskSlot> {
        if self.slots.contains_key(id) {
            Some(self.slots[id])
        } else {
            None
        }
    }

    /// The state while the task of `id` is out of the table.
    pub open spec fn begin_poll(self, id: usize) -> Self {
        ExecutorState { next_id: self.next_id, slots: self.slots.remove(id) }
    }

    /// The state after the poll of the task of `id` reported `polled` and
    /// left the task as `slot`.
    pub open spec fn finish_poll(self, id: usize, slot: TaskSlot, polled: Polled<(), ()>) -> Self {
        if polled is NotReady {
            ExecutorState { next_id: self.next_id, slots: self.slots.insert(id, slot) }
        } else {
            self
        }
    }

    /// Every handle in the table was given out before `next_id`.
    pub open spec fn handles_below_next(self) -> bool {
        forall|id: usize| self.slots.contains_key(id) ==> id < self.next_id
    }
}

/// An executor for futures with unit outcome, to be driven by an event loop.
///
/// Usage:
/// 1) Create with [`GtkEventLoopAsyncExecutor::new`].
/// 2) Use [`GtkEventLoopAsyncExecutor::spawn`] to launch a task.
/// 3) For each notification that the event loop delivers, call
///    [`GtkEventLoopAsyncExecutor::invoke`], or its two halves around a poll
///    of your own.
///
/// The tasks need not be `Send`, so the executor is not: it stays on the
/// thread that made it, and every change of the table happens there.
pub struct GtkEventLoopAsyncExecutor {
    next_id: usize,
    spawns: HashMap<usize, TaskSlot>,
}

impl View for GtkEventLoopAsyncExecutor {
    type V = ExecutorState;

    closed spec fn view(&self) -> ExecutorState {
        ExecutorState { next_id: self.next_id, slots: self.spawns@ }
    }
}

impl GtkEventLoopAsyncExecutor {
    /// Instantiates a new executor, with no task and the first handle 0.
    pub fn new() -> (executor: Self)
        ensures
            executor@ == ExecutorState::empty(),
    {
        GtkEventLoopAsyncExecutor { next_id: 0, spawns: HashMap::new() }
    }

    /// The number of tasks in the table.
    pub fn len(&self) -> (n: usize)
        ensures
            n == self@.slots.len(),
    {
        self.spawns.len()
    }

    /// Tells whether the table holds no task.
    pub fn is_empty(&self) -> (b: bool)
        ensures
            b == (self@.slots.len() == 0),
            b == (self@.slots == Map::<usize, TaskSlot>::empty()),
    {
        proof {
            if self@.slots.len() == 0 {
                assert(self@.slots =~= Map::<usize, TaskSlot>::empty());
            }
        }
        self.spawns.len() == 0
    }

    /// Tells whether a task stands in the table under `id`.
    pub fn contains(&self, id: usize) -> (b: bool)
        ensures
            b == self@.slots.contains_key(id),
    {
        self.spawns.contains_key(&id)
    }

    /// The handle that the next submitted task gets.
    pub fn next_handle(&self) -> (id: usize)
        ensures
            id == self@.next_id,
    {
        self.next_id
    }

    /// Puts `task` in the table under a fresh handle and returns the handle.
    /// The caller has to send the first notification for it;
    /// [`GtkEventLoopAsyncExecutor::spawn`] does.
    pub fn submit(&mut self, task: TaskSlot) -> (id: usize)
        ensures
            id == old(self)@.next_id,
            final(self)@ == old(self)@.submit(task),
    {
        let id: usize = self.next_id;
        self.next_id = id.wrapping_add(1);
        self.spawns.insert(id, task);
        id
    }

    /// Executes the specified task: puts it in the table under a fresh handle
    /// and sends `notify` a first notification for that handle, so that the
    /// event loop polls the task without waiting for anything else.
    pub fn spawn(&mut self, task: TaskSlot, notify: &NotifyHandle)
        ensures
            final(self)@ == old(self)@.submit(task),
    {
        let id = self.submit(task);
        notify.notify(id);
    }

    /// First half of a notification for `id`: takes the slot of `id` out of
    /// the table, to be polled. `None` means that the notification is stale,
    /// and then nothing has changed.
    pub fn begin_poll(&mut self, id: usize) -> (slot: Option<TaskSlot>)
        ensures
            slot == old(self)@.taken(id),
            final(self)@ == old(self)@.begin_poll(id),
            slot is None ==> final(self)@ == old(self)@,
            !final(self)@.slots.contains_key(id),
    {
        let slot = self.spawns.remove(&id);
        proof {
            if slot is None {
                assert(self.spawns@ =~= old(self).spawns@);
            }
        }
        slot
    }

    /// Second half of a notification for `id`: `polled` is what the poll of
    /// `slot` reported. A task that is not finished goes back into the table
    /// under `id`; a finished or failed one is dropped.
    pub fn finish_poll(&mut self, id: usize, slot: TaskSlot, polled: Polled<(), ()>) -> (invoked:
        Invoked)
        ensures
            invoked == Invoked::of(polled),
            final(self)@ == old(self)@.finish_poll(id, slot, polled),
    {
        match polled {
            Polled::Ready(_) => Invoked::Completed,
            Polled::NotReady => {
                self.spawns.insert(id, slot);
                Invoked::Suspended
            },
            Polled::Failed(_) => Invoked::Failed,
        }
    }

    /// Handles one notification for `id`. If no task stands in the table
    /// under `id`, the notification is stale and nothing changes. Otherwise
    /// the task is polled once, with its notifications routed to `notify`
    /// under `id`, and stays in the table only if it is not finished.
    ///
    /// What the poll reports is up to the task;
    /// [`GtkEventLoopAsyncExecutor::finish_poll`] says what follows from each
    /// report. Whatever it is, no other task is touched and no handle is
    /// given out.
    pub fn invoke(&mut self, id: usize, notify: &NotifyHandle) -> (invoked: Invoked)
        ensures
            invoked is Stale <==> !old(self)@.slots.contains_key(id),
            invoked is Stale ==> final(self)@ == old(self)@,
            invoked is Completed || invoked is Failed ==> final(self)@ == old(self)@.begin_poll(id),
            invoked is Suspended ==> final(self)@.slots.contains_key(id),
            final(self)@.next_id == old(self)@.next_id,
            forall|other: usize|
                other != id ==> final(self)@.taken(other) == old(self)@.taken(other),
    {
        match self.begin_poll(id) {
            None => Invoked::Stale,
            Some(mut slot) => {
                let polled = poll_slot(&mut slot, notify, id);
                self.finish_poll(id, slot, polled)
            },
        }
    }
}

/// At most one poll per task is in flight. While the task of `id` is out of
/// the table for its poll, a further notification for `id` takes nothing out
/// and changes nothing, however many of them arrive.
pub proof fn lemma_one_poll_in_flight(executor: ExecutorState, id: usize)
    ensures
        executor.begin_poll(id).taken(id) is None,
        executor.begin_poll(id).begin_poll(id) == executor.begin_poll(id),
{
    assert(executor.slots.remove(id).remove(id) =~= executor.slots.remove(id));
}

/// A stale notification changes nothing: for a handle that is not in the
/// table, nothing is taken out to be polled and the state stays as it was.
pub proof fn lemma_stale_notification(executor: ExecutorState, id: usize)
    requires
        !executor.slots.contains_key(id),
    ensures
        executor.taken(id) is None,
        executor.begin_poll(id) == executor,
{
    assert(executor.slots.remove(id) =~= executor.slots);
}

/// A poll touches one slot. Taking the task of `id` out and finishing its
/// poll leaves every other task in the table as it was, and the task of `id`
/// in the table exactly if it is not finished.
pub proof fn lemma_poll_is_local(
    executor: ExecutorState,
    id: usize,
    slot: TaskSlot,
    polled: Polled<(), ()>,
    other: usize,
)
    requires
        other != id,
    ensures
        ({
            let after = executor.begin_poll(id).finish_poll(id, slot, polled);
            &&& after.next_id == executor.next_id
            &&& after.taken(other) == executor.taken(other)
            &&& after.slots.contains_key(id) <==> polled is NotReady
            &&& polled is NotReady ==> after.taken(id) == Some(slot)
        }),
{
}

/// Handles are fresh. As long as every handle in the table lies below the
/// next one and the handles have not run out, a submitted task gets a handle
/// that no task in the table has, and both conditions on the table hold
/// again afterwards. Polls keep them as well.
pub proof fn lemma_handles_are_fresh(
    executor: ExecutorState,
    task: TaskSlot,
    id: usize,
    polled: Polled<(), ()>,
)
    requires
        executor.handles_below_next(),
    ensures
        ExecutorState::empty().handles_below_next(),
        !executor.slots.contains_key(executor.next_id),
        executor.next_id < usize::MAX ==> executor.submit(task).handles_below_next(),
        executor.next_id < usize::MAX ==> executor.submit(task).next_id == executor.next_id + 1,
        executor.begin_poll(id).handles_below_next(),
        executor.slots.contains_key(id) ==> executor.begin_poll(id).finish_poll(
            id,
            task,
            polled,
        ).handles_below_next(),
{
}

} // verus!
