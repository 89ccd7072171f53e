//! A write-once cell with many waiters.
//!
//! A [`Promise`] starts out pending. Tasks that poll it while it is pending
//! leave their handle in the waiter list. One call of `resolve` or `reject`
//! settles it and notifies every waiter. The first poll after that takes the
//! outcome out; from then on the cell is consumed.
use futures::task::Task;
use vstd::prelude::*;

use crate::poll::Polled;

verus! {

/// Where a cell stands in its life.
pub enum Phase<T, E> {
    /// Not settled yet.
    Pending,
    /// Settled with this outcome, which no poll has taken yet.
    Settled(Result<T, E>),
    /// Settled, and the outcome has been handed to a poll.
    Consumed,
}

/// The mathematical state of a cell: its phase, and the tasks that wait for
/// it in the order in which they registered.
pub struct CellState<T, E> {
    pub phase: Phase<T, E>,
    pub waiters: Seq<Task>,
}

impl<T, E> CellState<T, E> {
    /// The state of a new cell.
    pub open spec fn empty() -> Self {
        CellState { phase: Phase::Pending, waiters: Seq::empty() }
    }

    /// Tasks wait only on a pending cell: a settled cell holds no waiter that
    /// nobody would ever notify.
    pub open spec fn wf(self) -> bool {
        self.phase is Pending || self.waiters.len() == 0
    }

    /// The tasks that a settlement in this state has to notify.
    pub open spec fn woken(self) -> Seq<Task> {
        self.waiters
    }

    /// The state after a settlement with `outcome`.
    pub open spec fn settle(self, outcome: Result<T, E>) -> Self {
        CellState { phase: Phase::Settled(outcome), waiters: Seq::empty() }
    }

    /// What a poll in this state reports.
    pub open spec fn polled(self) -> Polled<T, E> {
        match self.phase {
            Phase::Settled(outcome) => Polled::of(outcome),
            _ => Polled::NotReady,
        }
    }

    /// The state after a poll by `task`.
    pub open spec fn poll(self, task: Task) -> Self {
        match self.phase {
            Phase::Pending => CellState { phase: Phase::Pending, waiters: self.waiters.push(task) },
            Phase::Settled(_) => CellState { phase: Phase::Consumed, waiters: self.waiters },
            Phase::Consumed => self,
        }
    }
}

/// A future value that callback code settles once with [`Promise::resolve`] or
/// [`Promise::reject`], and that tasks obtain with [`Promise::poll`].
#[derive(Debug)]
pub struct Promise<T, E> {
    result: Option<Result<T, E>>,
    consumed: bool,
    waiting_tasks: Vec<Task>,
}

impl<T, E> View for Promise<T, E> {
    type V = CellState<T, E>;

    closed spec fn view(&self) -> CellState<T, E> {
        CellState {
            phase: match self.result {
                Some(outcome) => Phase::Settled(outcome),
                None => if self.consumed {
                    Phase::Consumed
                } else {
                    Phase::Pending
                },
            },
            waiters: self.waiting_tasks@,
        }
    }
}

/// Notifies every task of `tasks`, first to last.
fn notify_all(tasks: &Vec<Task>) {
    let n: usize = tasks.len();
    let mut i: usize = 0;
    while i < n
        invariant
            n == tasks@.len(),
            i <= n,
        decreases n - i,
    {
        tasks[i].notify();
        i += 1;
    }
}

impl<T, E> Promise<T, E> {
    /// Construct a new promise: pending, with no waiters.
    pub fn new() -> (promise: Promise<T, E>)
        ensures
            promise@ == CellState::<T, E>::empty(),
            promise@.wf(),
    {
        Promise { result: None, consumed: false, waiting_tasks: Vec::new() }
    }

    /// Tells whether the cell has been settled, consumed or not.
    pub fn is_settled(&self) -> (b: bool)
        ensures
            b == !(self@.phase is Pending),
    {
        self.consumed || self.result.is_some()
    }

    /// Tells whether the outcome has been handed to a poll.
    pub fn is_consumed(&self) -> (b: bool)
        ensures
            b == (self@.phase is Consumed),
    {
        self.consumed && self.result.is_none()
    }

    /// The number of tasks that wait for the cell.
    pub fn waiting(&self) -> (n: usize)
        ensures
            n == self@.waiters.len(),
    {
        self.waiting_tasks.len()
    }

    /// Settles the cell with `outcome` and hands out the tasks that waited for
    /// it, in the order in which they registered. The caller has to notify
    /// each of them; [`Promise::resolve`] and [`Promise::reject`] do.
    ///
    /// A cell is settled once: settling one that is not pending is a contract
    /// violation.
    pub fn settle(&mut self, outcome: Result<T, E>) -> (woken: Vec<Task>)
        requires
            old(self)@.phase is Pending,
        ensures
            final(self)@ == old(self)@.settle(outcome),
            final(self)@.wf(),
            woken@ == old(self)@.woken(),
    {
        let mut woken: Vec<Task> = Vec::new();
        std::mem::swap(&mut self.waiting_tasks, &mut woken);
        self.result = Some(outcome);
        woken
    }

    /// Complete the promise with the specified value and notify the tasks that
    /// wait for it. Once this method is called, no further calls to
    /// `resolve()` or `reject()` may be made.
    pub fn resolve(&mut self, result: T)
        requires
            old(self)@.phase is Pending,
        ensures
            final(self)@ == old(self)@.settle(Ok(result)),
            final(self)@.wf(),
    {
        let woken = self.settle(Ok(result));
        notify_all(&woken);
    }

    /// Complete the promise with the specified error and notify the tasks that
    /// wait for it. Once this method is called, no further calls to
    /// `resolve()` or `reject()` may be made.
    pub fn reject(&mut self, error: E)
        requires
            old(self)@.phase is Pending,
        ensures
            final(self)@ == old(self)@.settle(Err(error)),
            final(self)@.wf(),
    {
        let woken = self.settle(Err(error));
        notify_all(&woken);
    }

    /// One poll on behalf of `task`, the handle of the task that is polling.
    ///
    /// A settled cell hands its outcome out and becomes consumed. A pending
    /// cell keeps `task` to notify it on settlement and reports `NotReady`.
    /// Polling a consumed cell is a contract violation.
    pub fn poll(&mut self, task: Task) -> (polled: Polled<T, E>)
        requires
            !(old(self)@.phase is Consumed),
        ensures
            polled == old(self)@.polled(),
            final(self)@ == old(self)@.poll(task),
            old(self)@.wf() ==> final(self)@.wf(),
    {
        match self.result.take() {
            Some(outcome) => {
                self.consumed = true;
                match outcome {
                    Ok(value) => Polled::Ready(value),
                    Err(error) => Polled::Failed(error),
                }
            },
            None => {
                self.waiting_tasks.push(task);
                Polled::NotReady
            },
        }
    }
}

/// Settlement is seen exactly once. Whatever a pending cell held, a
/// settlement notifies the tasks that waited, the first poll after it reports
/// the settled outcome, and that poll consumes it: the cell is left consumed
/// and without waiters, so that no further poll is allowed and the outcome
/// cannot be handed out a second time.
pub proof fn lemma_settlement_seen_once<T, E>(
    cell: CellState<T, E>,
    outcome: Result<T, E>,
    task: Task,
)
    requires
        cell.phase is Pending,
    ensures
        cell.woken() == cell.waiters,
        cell.settle(outcome).phase == Phase::Settled(outcome),
        cell.settle(outcome).polled() == Polled::of(outcome),
        !(cell.settle(outcome).polled() is NotReady),
        cell.settle(outcome).poll(task).phase is Consumed,
        cell.settle(outcome).poll(task).waiters.len() == 0,
{
}

/// A poll and a settlement of a pending cell, in either order. If the poll
/// comes first, it reports `NotReady` and registers the polling task behind
/// the tasks that wait already, so that the settlement that follows notifies
/// it. If the settlement comes first, the poll reports the outcome and
/// registers nothing.
pub proof fn lemma_poll_and_settle_in_either_order<T, E>(
    cell: CellState<T, E>,
    outcome: Result<T, E>,
    task: Task,
)
    requires
        cell.phase is Pending,
    ensures
        cell.polled() is NotReady,
        cell.poll(task).phase is Pending,
        cell.poll(task).woken() == cell.woken().push(task),
        cell.poll(task).woken().contains(task),
        cell.settle(outcome).polled() == Polled::of(outcome),
        cell.settle(outcome).poll(task).waiters.len() == 0,
{
    let waiters = cell.waiters.push(task);
    assert(waiters[waiters.len() - 1] == task);
}

/// Every step keeps a cell well formed.
pub proof fn lemma_steps_keep_wf<T, E>(cell: CellState<T, E>, outcome: Result<T, E>, task: Task)
    requires
        cell.wf(),
    ensures
        CellState::<T, E>::empty().wf(),
        cell.settle(outcome).wf(),
        cell.poll(task).wf(),
{
}

} // verus!
