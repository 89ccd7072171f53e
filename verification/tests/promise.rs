use std::sync::{Arc, Mutex};

use futures::executor::{Notify, NotifyHandle};
use futures::task::Task;
use futures::{Async, Future};
use gtk_future_executor::{Polled, Promise};

/// Records the ids it is notified with, in order.
struct Recorder {
    ids: Mutex<Vec<usize>>,
}

impl Notify for Recorder {
    fn notify(&self, id: usize) {
        self.ids.lock().unwrap().push(id);
    }
}

fn recorder() -> Arc<Recorder> {
    Arc::new(Recorder { ids: Mutex::new(Vec::new()) })
}

fn seen(recorder: &Arc<Recorder>) -> Vec<usize> {
    recorder.ids.lock().unwrap().clone()
}

/// A future that hands out the handle of the task that polls it.
struct CurrentTask;

impl Future for CurrentTask {
    type Item = Task;
    type Error = ();

    fn poll(&mut self) -> Result<Async<Task>, ()> {
        Ok(Async::Ready(futures::task::current()))
    }
}

/// A task handle whose notifications reach `recorder` under `id`.
fn task(recorder: &Arc<Recorder>, id: usize) -> Task {
    let handle = NotifyHandle::from(recorder.clone());
    match futures::executor::spawn(CurrentTask).poll_future_notify(&handle, id) {
        Ok(Async::Ready(task)) => task,
        _ => unreachable!(),
    }
}

#[test]
fn new_promise_is_pending_without_waiters() {
    let promise: Promise<i32, String> = Promise::new();
    assert!(!promise.is_settled());
    assert!(!promise.is_consumed());
    assert_eq!(promise.waiting(), 0);
}

#[test]
fn poll_of_pending_promise_registers_the_task() {
    let rec = recorder();
    let mut promise: Promise<i32, String> = Promise::new();
    assert_eq!(promise.poll(task(&rec, 1)), Polled::NotReady);
    assert_eq!(promise.waiting(), 1);
    assert_eq!(promise.poll(task(&rec, 2)), Polled::NotReady);
    assert_eq!(promise.waiting(), 2);
    assert!(!promise.is_settled());
    assert_eq!(seen(&rec), Vec::<usize>::new());
}

#[test]
fn resolve_notifies_every_waiter_in_registration_order() {
    let rec = recorder();
    let mut promise: Promise<i32, String> = Promise::new();
    assert_eq!(promise.poll(task(&rec, 7)), Polled::NotReady);
    assert_eq!(promise.poll(task(&rec, 3)), Polled::NotReady);
    assert_eq!(promise.poll(task(&rec, 9)), Polled::NotReady);
    promise.resolve(42);
    assert_eq!(seen(&rec), vec![7, 3, 9]);
    assert_eq!(promise.waiting(), 0);
    assert!(promise.is_settled());
    assert!(!promise.is_consumed());
}

#[test]
fn reject_notifies_every_waiter_in_registration_order() {
    let rec = recorder();
    let mut promise: Promise<i32, String> = Promise::new();
    assert_eq!(promise.poll(task(&rec, 5)), Polled::NotReady);
    assert_eq!(promise.poll(task(&rec, 6)), Polled::NotReady);
    promise.reject("closed".to_string());
    assert_eq!(seen(&rec), vec![5, 6]);
    assert_eq!(promise.waiting(), 0);
    assert!(promise.is_settled());
}

#[test]
fn resolve_without_waiters_notifies_nobody() {
    let rec = recorder();
    let mut promise: Promise<i32, String> = Promise::new();
    promise.resolve(1);
    assert!(promise.is_settled());
    assert_eq!(seen(&rec), Vec::<usize>::new());
    assert_eq!(promise.poll(task(&rec, 0)), Polled::Ready(1));
}

#[test]
fn first_poll_after_resolve_takes_the_value() {
    let rec = recorder();
    let mut promise: Promise<i32, String> = Promise::new();
    promise.resolve(42);
    assert_eq!(promise.poll(task(&rec, 1)), Polled::Ready(42));
    assert!(promise.is_settled());
    assert!(promise.is_consumed());
    assert_eq!(promise.waiting(), 0);
    assert_eq!(seen(&rec), Vec::<usize>::new());
}

#[test]
fn first_poll_after_reject_takes_the_error() {
    let rec = recorder();
    let mut promise: Promise<i32, String> = Promise::new();
    promise.reject("no".to_string());
    assert!(!promise.is_consumed());
    assert_eq!(promise.poll(task(&rec, 1)), Polled::Failed("no".to_string()));
    assert!(promise.is_consumed());
    assert_eq!(promise.waiting(), 0);
}

#[test]
fn settle_hands_out_the_waiters_and_leaves_notifying_to_the_caller() {
    let rec = recorder();
    let mut promise: Promise<i32, String> = Promise::new();
    assert_eq!(promise.poll(task(&rec, 4)), Polled::NotReady);
    assert_eq!(promise.poll(task(&rec, 8)), Polled::NotReady);
    let woken = promise.settle(Ok(10));
    assert_eq!(woken.len(), 2);
    assert_eq!(promise.waiting(), 0);
    assert!(promise.is_settled());
    assert_eq!(seen(&rec), Vec::<usize>::new());
    woken[0].notify();
    assert_eq!(seen(&rec), vec![4]);
    woken[1].notify();
    assert_eq!(seen(&rec), vec![4, 8]);
    assert_eq!(promise.poll(task(&rec, 4)), Polled::Ready(10));
}

#[test]
fn settle_with_an_error_is_what_reject_does() {
    let rec = recorder();
    let mut promise: Promise<i32, String> = Promise::new();
    let woken = promise.settle(Err("e".to_string()));
    assert_eq!(woken.len(), 0);
    assert_eq!(promise.poll(task(&rec, 1)), Polled::Failed("e".to_string()));
}

#[test]
fn waiter_registered_before_settlement_is_notified() {
    let rec = recorder();
    let mut promise: Promise<i32, String> = Promise::new();
    assert_eq!(promise.poll(task(&rec, 11)), Polled::NotReady);
    promise.resolve(5);
    assert_eq!(seen(&rec), vec![11]);
    assert_eq!(promise.poll(task(&rec, 11)), Polled::Ready(5));
    assert_eq!(promise.waiting(), 0);
}

#[test]
fn poll_after_settlement_sees_the_value_and_leaves_no_waiter() {
    let rec = recorder();
    let mut promise: Promise<i32, String> = Promise::new();
    promise.resolve(5);
    assert_eq!(promise.poll(task(&rec, 11)), Polled::Ready(5));
    assert_eq!(promise.waiting(), 0);
    assert_eq!(seen(&rec), Vec::<usize>::new());
}

#[test]
fn promise_with_unit_outcome() {
    let rec = recorder();
    let mut promise: Promise<(), ()> = Promise::new();
    assert_eq!(promise.poll(task(&rec, 2)), Polled::NotReady);
    promise.resolve(());
    assert_eq!(seen(&rec), vec![2]);
    assert_eq!(promise.poll(task(&rec, 2)), Polled::Ready(()));
    assert!(promise.is_consumed());
}

#[test]
fn resolve_under_a_lock_shared_with_the_waiter() {
    let rec = recorder();
    let shared: Arc<Mutex<Promise<i32, String>>> = Arc::new(Mutex::new(Promise::new()));
    let other = shared.clone();
    assert_eq!(shared.lock().unwrap().poll(task(&rec, 21)), Polled::NotReady);
    {
        let mut cell = other.lock().unwrap();
        assert!(!cell.is_settled());
        cell.resolve(42);
    }
    assert_eq!(seen(&rec), vec![21]);
    let mut cell = shared.lock().unwrap();
    assert!(!cell.is_consumed());
    assert_eq!(cell.poll(task(&rec, 21)), Polled::Ready(42));
    assert!(cell.is_consumed());
}
