//! The handles of the `futures` crate through which notifications travel.
//!
//! Both types are opaque here: a value is carried around and handed back to
//! `futures`, nothing is known of what is inside. Their `notify` methods end
//! in code that the embedding program supplies, so neither gets a
//! postcondition.
use vstd::prelude::*;

verus! {

/// `futures::task::Task`: the handle by which a suspended task asks to be
/// polled again.
#[verifier::external_type_specification]
#[verifier::external_body]
pub struct ExTask(futures::task::Task);

/// `futures::executor::NotifyHandle`: the sink that receives the
/// notifications of the tasks polled with it.
#[verifier::external_type_specification]
#[verifier::external_body]
pub struct ExNotifyHandle(futures::executor::NotifyHandle);

/// `Task::notify` asks the task's executor to poll the task again. It forwards
/// to the `Notify` implementation that the task was polled with; nothing is
/// claimed of what that implementation does.
pub assume_specification[ futures::task::Task::notify ](task: &futures::task::Task);

/// `NotifyHandle::notify` hands `id` to the `Notify` implementation behind
/// the handle; nothing is claimed of what that implementation does.
pub assume_specification[ futures::executor::NotifyHandle::notify ](
    handle: &futures::executor::NotifyHandle,
    id: usize,
);

} // verus!
