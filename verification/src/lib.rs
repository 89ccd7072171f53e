//! Building blocks for running futures on a single-threaded event loop:
//!
//! * [`GtkEventLoopAsyncExecutor`] keeps the table of tasks in flight and polls
//!   one task per notification.
//! * [`Promise`] is a write-once cell that tasks wait on and that callback code
//!   settles.
//!
//! Both are plain owned state machines. Every step is a `&mut` method whose
//! contract is stated over the type's view, so that the laws of the protocol
//! (one poll in flight per task, no lost wakeup, single consumption) are
//! theorems about those views. Sharing a value between clones or threads is
//! left to the embedding program, which wraps it in the lock of its choice
//! and calls these methods under it.
pub mod executor;
pub mod notify;
pub mod poll;
pub mod promise;
pub mod run;
pub mod wakeups;

pub use executor::{ExecutorState, GtkEventLoopAsyncExecutor, Invoked, TaskSlot};
pub use poll::Polled;
pub use promise::{CellState, Phase, Promise};
pub use run::{Event, Run};
pub use wakeups::{CellEvent, Wakeups};
