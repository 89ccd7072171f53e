//! The life of an executor as a sequence of events, and the proof that no
//! handle has two polls in flight.
//!
//! An embedding program that lets tasks submit further tasks during their
//! poll drives the executor in halves: `begin_poll`, the poll itself, then
//! `finish_poll`, with other events in between. A [`Run`] keeps track of the
//! polls that have begun and not finished.
use vstd::prelude::*;

use crate::executor::{ExecutorState, TaskSlot};
use crate::poll::Polled;

verus! {

/// One event in the life of an executor.
pub enum Event {
    /// A task is submitted.
    Submit(TaskSlot),
    /// A notification for a handle arrives.
    Notify(usize),
    /// The poll in flight for a handle ends: it reported the `Polled` and
    /// left the task as the `TaskSlot`.
    Finish(usize, TaskSlot, Polled<(), ()>),
}

/// An executor, and the handles whose tasks are out of the table because a
/// poll of them is in flight.
pub struct Run {
    pub executor: ExecutorState,
    pub polling: Set<usize>,
}

impl Run {
    /// A new executor, with no poll in flight.
    pub open spec fn start() -> Run {
        Run { executor: ExecutorState::empty(), polling: Set::empty() }
    }

    /// True when `event` begins a poll: it is a notification for a handle
    /// that has a task in the table.
    pub open spec fn begins_poll(self, event: Event) -> bool {
        event matches Event::Notify(id) && self.executor.taken(id) is Some
    }

    /// The run after `event`. A notification for a handle without a task in
    /// the table, and the end of a poll that is not in flight, change nothing.
    pub open spec fn step(self, event: Event) -> Run {
        match event {
            Event::Submit(task) => Run {
                executor: self.executor.submit(task),
                polling: self.polling,
            },
            Event::Notify(id) => if self.executor.taken(id) is Some {
                Run { executor: self.executor.begin_poll(id), polling: self.polling.insert(id) }
            } else {
                self
            },
            Event::Finish(id, slot, polled) => if self.polling.contains(id) {
                Run {
                    executor: self.executor.finish_poll(id, slot, polled),
                    polling: self.polling.remove(id),
                }
            } else {
                self
            },
        }
    }

    /// The run after `events`, from a new executor.
    pub open spec fn after(events: Seq<Event>) -> Run
        decreases events.len(),
    {
        if events.len() == 0 {
            Run::start()
        } else {
            Run::after(events.drop_last()).step(events.last())
        }
    }

    /// No handle is both in the table and being polled.
    pub open spec fn exclusive(self) -> bool {
        forall|id: usize| self.polling.contains(id) ==> !self.executor.slots.contains_key(id)
    }

    /// Exclusive, and every handle in the table or being polled was given
    /// out before the next one.
    pub open spec fn inv(self) -> bool {
        &&& self.exclusive()
        &&& self.executor.handles_below_next()
        &&& forall|id: usize| self.polling.contains(id) ==> id < self.executor.next_id
    }
}

/// The number of submissions among `events`.
pub open spec fn submissions(events: Seq<Event>) -> nat
    decreases events.len(),
{
    if events.len() == 0 {
        0
    } else {
        submissions(events.drop_last()) + if events.last() is Submit {
            1nat
        } else {
            0nat
        }
    }
}

/// One event keeps the invariant of a run, unless it is the submission that
/// uses up the last handle.
pub proof fn lemma_step_keeps_inv(run: Run, event: Event)
    requires
        run.inv(),
        event is Submit ==> run.executor.next_id < usize::MAX,
    ensures
        run.step(event).inv(),
        run.step(event).executor.next_id == run.executor.next_id + if event is Submit {
            1int
        } else {
            0int
        },
{
}

/// As long as the handles have not run out, the next handle is the number of
/// submissions so far, and the invariant of a run holds.
pub proof fn lemma_run_inv(events: Seq<Event>)
    requires
        submissions(events) <= usize::MAX,
    ensures
        Run::after(events).inv(),
        Run::after(events).executor.next_id == submissions(events),
    decreases events.len(),
{
    if events.len() > 0 {
        lemma_run_inv(events.drop_last());
        lemma_step_keeps_inv(Run::after(events.drop_last()), events.last());
    }
}

/// At most one poll per handle is in flight. After any sequence of
/// submissions, notifications and ends of polls in which the handles have not
/// run out, a handle that is being polled has no task in the table. So a
/// notification for it, from wherever it comes and however often, begins no
/// second poll and changes nothing; and an event that does begin a poll is
/// for a handle that has none in flight.
pub proof fn lemma_one_poll_per_handle(events: Seq<Event>, event: Event)
    requires
        submissions(events) <= usize::MAX,
    ensures
        Run::after(events).exclusive(),
        forall|id: usize| #[trigger]
            Run::after(events).polling.contains(id) ==> Run::after(events).step(Event::Notify(id))
                == Run::after(events),
        Run::after(events).begins_poll(event) ==> (event matches Event::Notify(id)
            && !Run::after(events).polling.contains(id) && Run::after(events).step(
            event,
        ).polling.contains(id)),
{
    lemma_run_inv(events);
}

} // verus!
