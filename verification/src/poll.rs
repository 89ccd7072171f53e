use vstd::prelude::*;

verus! {

/// What one poll of a cooperative computation reports.
#[derive(Debug, PartialEq, Eq)]
pub enum Polled<T, E> {
    /// The computation finished with a value.
    Ready(T),
    /// The computation cannot make progress yet. It has arranged to be
    /// notified and wants to be polled again after that.
    NotReady,
    /// The computation finished with an error.
    Failed(E),
}

impl<T, E> Polled<T, E> {
    /// The report of a poll that finds `outcome` ready.
    pub open spec fn of(outcome: Result<T, E>) -> Self {
        match outcome {
            Ok(value) => Polled::Ready(value),
            Err(error) => Polled::Failed(error),
        }
    }
}

} // verus!
