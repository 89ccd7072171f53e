//! The life of a cell as a sequence of polls and settlements, and the proof
//! that every task that was told to wait is notified.
//!
//! Polls and settlements of one cell are atomic steps: the embedding program
//! makes each of them under the lock that guards the cell. Whatever the
//! threads do, the cell sees some sequence of them, and the law is proved of
//! every sequence.
use futures::task::Task;
use vstd::prelude::*;

use crate::promise::CellState;

verus! {

/// One step in the life of a cell.
pub enum CellEvent<T, E> {
    /// A poll on behalf of the task.
    Poll(Task),
    /// A settlement with the outcome.
    Settle(Result<T, E>),
}

/// A cell, the tasks that a poll of it has told to wait, and the tasks that
/// its settlement has notified, each in order.
pub struct Wakeups<T, E> {
    pub cell: CellState<T, E>,
    pub parked: Seq<Task>,
    pub notified: Seq<Task>,
}

impl<T, E> Wakeups<T, E> {
    /// A new cell: nobody waits, nobody was notified.
    pub open spec fn start() -> Self {
        Wakeups { cell: CellState::empty(), parked: Seq::empty(), notified: Seq::empty() }
    }

    /// True when the contracts of the cell allow `event` now: a cell is
    /// settled once, and is not polled after it handed its outcome out.
    pub open spec fn permits(self, event: CellEvent<T, E>) -> bool {
        match event {
            CellEvent::Poll(_) => !(self.cell.phase is Consumed),
            CellEvent::Settle(_) => self.cell.phase is Pending,
        }
    }

    /// The life after `event`. A poll that reports `NotReady` parks its task;
    /// a settlement notifies the tasks that it finds waiting.
    pub open spec fn step(self, event: CellEvent<T, E>) -> Self {
        match event {
            CellEvent::Poll(task) => Wakeups {
                cell: self.cell.poll(task),
                parked: if self.cell.polled() is NotReady {
                    self.parked.push(task)
                } else {
                    self.parked
                },
                notified: self.notified,
            },
            CellEvent::Settle(outcome) => Wakeups {
                cell: self.cell.settle(outcome),
                parked: self.parked,
                notified: self.notified + self.cell.woken(),
            },
        }
    }

    /// The life after `events`, from a new cell.
    pub open spec fn after(events: Seq<CellEvent<T, E>>) -> Self
        decreases events.len(),
    {
        if events.len() == 0 {
            Self::start()
        } else {
            Self::after(events.drop_last()).step(events.last())
        }
    }

    /// True when each of `events` is permitted at its turn.
    pub open spec fn permitted(events: Seq<CellEvent<T, E>>) -> bool
        decreases events.len(),
    {
        events.len() > 0 ==> Self::permitted(events.drop_last()) && Self::after(
            events.drop_last(),
        ).permits(events.last())
    }

    /// While the cell is pending, the parked tasks are its waiters and nobody
    /// was notified. Once it is settled, the parked tasks are the notified
    /// ones and nobody waits.
    pub open spec fn inv(self) -> bool {
        if self.cell.phase is Pending {
            self.cell.waiters == self.parked && self.notified.len() == 0
        } else {
            self.notified == self.parked && self.cell.waiters.len() == 0
        }
    }
}

/// A permitted step keeps the invariant of a life.
pub proof fn lemma_step_keeps_inv<T, E>(life: Wakeups<T, E>, event: CellEvent<T, E>)
    requires
        life.inv(),
        life.permits(event),
    ensures
        life.step(event).inv(),
{
    if event is Settle {
        assert(life.notified + life.cell.woken() =~= life.parked);
    }
}

/// No wakeup is lost, in any interleaving. After every permitted sequence of
/// polls and settlements, a task that was told to wait is still registered
/// with the pending cell, or the cell is settled and the task has been
/// notified. A settled cell has notified exactly the tasks that were told to
/// wait, in their order, and holds no waiter.
pub proof fn lemma_no_wakeup_lost<T, E>(events: Seq<CellEvent<T, E>>)
    requires
        Wakeups::<T, E>::permitted(events),
    ensures
        Wakeups::<T, E>::after(events).inv(),
        Wakeups::<T, E>::after(events).cell.wf(),
        !(Wakeups::<T, E>::after(events).cell.phase is Pending) ==> Wakeups::<T, E>::after(
            events,
        ).notified == Wakeups::<T, E>::after(events).parked,
    decreases events.len(),
{
    if events.len() > 0 {
        lemma_no_wakeup_lost::<T, E>(events.drop_last());
        lemma_step_keeps_inv(Wakeups::<T, E>::after(events.drop_last()), events.last());
    }
}

} // verus!
