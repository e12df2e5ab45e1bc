use shmem_utils::channel::{
    after_lock_attempt, before_lock_attempt, receive_after_blocking_wait, PatientLock,
    atomic_checked_sub, checked_decrement, decremented_value, destroys_channel, receive_after_wait,
    receive_once, send_after_blocking_wait, send_after_wait, send_once, wake_on_destroy,
    before_message_wait, TryReceiveError, TrySendError, WaitingError,
};
use shmem_utils::condvar::{after_timed_wake_up, before_wait, WaitStep};
use shmem_utils::fixed_queue::{keeps_queue, BoundedQueue};
use shmem_utils::pagesize::{pagesize_from_sysconf, Error};
use shmem_utils::process_rc::PerProcessReferences;

use std::sync::atomic::{AtomicUsize, Ordering};

#[test]
fn bounded_queue_check() {
    let mut slots: Vec<Option<usize>> = (0..1024).map(|_| None).collect();
    let mut queue = BoundedQueue::with_capacity(&mut slots);
    assert_eq!(queue.push_front(105324), Ok(true));
    assert_eq!(queue.pop_front(), (Some(105324), false));
    assert_eq!(queue.push_back(100500), Ok(true));
    assert_eq!(queue.pop_back(), (Some(100500), false));
    assert_eq!(queue.pop_back(), (None, false));
}

#[test]
fn bounded_queue_refuses_when_full() {
    let mut slots: Vec<Option<u8>> = (0..2).map(|_| None).collect();
    let mut queue = BoundedQueue::with_capacity(&mut slots);
    assert_eq!(queue.push_back(1), Ok(true));
    assert_eq!(queue.push_back(2), Ok(false));
    assert_eq!(queue.remaining_capacity(), 0);
    assert_eq!(queue.push_back(3), Err(3));
    assert_eq!(queue.push_front(4), Err(4));
    assert_eq!(queue.pop_front(), (Some(1), true));
    assert_eq!(queue.push_front(5), Ok(false));
    assert_eq!(queue.pop_front(), (Some(5), true));
    assert_eq!(queue.pop_front(), (Some(2), false));
    assert!(queue.is_empty());
}

#[test]
fn queue_keeps_fifo_order() {
    let mut slots: Vec<Option<u32>> = (0..8).map(|_| None).collect();
    let mut queue = BoundedQueue::with_capacity(&mut slots);
    for i in 0..8 {
        assert!(queue.push_back(i).is_ok());
    }
    for i in 0..8 {
        assert_eq!(queue.pop_front().0, Some(i));
    }
}

#[test]
fn keeping_the_queue() {
    assert!(keeps_queue(true, 10, 10));
    assert!(!keeps_queue(true, 10, 11));
    assert!(!keeps_queue(false, 10, 10));
}

#[test]
fn checked_sub_of_counters() {
    let counter = AtomicUsize::new(2);
    assert_eq!(atomic_checked_sub(&counter), 1);
    assert_eq!(atomic_checked_sub(&counter), 0);
    assert_eq!(atomic_checked_sub(&counter), 0);
    assert_eq!(counter.load(Ordering::SeqCst), 0);
    assert_eq!(checked_decrement(0), None);
    assert_eq!(checked_decrement(5), Some(4));
    assert_eq!(decremented_value(Ok(5)), 4);
    assert_eq!(decremented_value(Err(0)), 0);
}

#[test]
fn sending_once() {
    let mut slots: Vec<Option<i32>> = (0..1).map(|_| None).collect();
    let mut queue = BoundedQueue::with_capacity(&mut slots);
    assert_eq!(send_once(&mut queue, 1, 0, false), Err(TrySendError::NoReceivers(1)));
    assert_eq!(send_once(&mut queue, 1, 1, true), Err(TrySendError::NoReceivers(1)));
    assert_eq!(send_once(&mut queue, 1, 1, false), Ok(()));
    assert_eq!(send_once(&mut queue, 2, 1, false), Err(TrySendError::TimedOut(2)));
    assert_eq!(queue.len(), 1);
}

#[test]
fn receiving_once() {
    let mut slots: Vec<Option<i32>> = (0..2).map(|_| None).collect();
    let mut queue = BoundedQueue::with_capacity(&mut slots);
    assert_eq!(receive_once(&mut queue, 1, false), Err(TryReceiveError::TimedOut));
    assert_eq!(receive_once(&mut queue, 0, false), Err(TryReceiveError::NoSenders));
    assert_eq!(receive_once(&mut queue, 1, true), Err(TryReceiveError::NoSenders));
    assert!(queue.push_back(7).is_ok());
    assert_eq!(receive_once(&mut queue, 0, true), Ok(7));
}

#[test]
fn after_waiting() {
    let mut slots: Vec<Option<i32>> = (0..1).map(|_| None).collect();
    let mut queue = BoundedQueue::with_capacity(&mut slots);
    assert_eq!(send_after_wait(&mut queue, 3, false, 1, false), Err(TrySendError::TimedOut(3)));
    assert_eq!(send_after_wait(&mut queue, 3, true, 0, false), Err(TrySendError::NoReceivers(3)));
    assert_eq!(send_after_wait(&mut queue, 3, true, 1, false), Ok(()));
    assert_eq!(receive_after_wait(&mut queue, false, 1, false), Err(TryReceiveError::TimedOut));
    assert_eq!(receive_after_wait(&mut queue, true, 1, true), Err(TryReceiveError::NoSenders));
    assert_eq!(receive_after_wait(&mut queue, true, 1, false), Ok(3));
    assert_eq!(send_after_blocking_wait(&mut queue, 4, 0, false), Err(4));
    assert_eq!(send_after_blocking_wait(&mut queue, 4, 2, false), Ok(()));
}

#[test]
fn destroying_a_channel() {
    let mut refs = PerProcessReferences::with_pid(5);
    refs.increase_in(5);
    assert!(!destroys_channel(4, 5, &mut refs));
    assert_eq!(refs.counter, 2);
    assert!(!destroys_channel(5, 5, &mut refs));
    assert!(destroys_channel(5, 5, &mut refs));
    assert_eq!(wake_on_destroy(0, 3), (false, true));
    assert_eq!(wake_on_destroy(2, 0), (true, false));
}

#[test]
fn timed_waits() {
    assert_eq!(before_wait(true), WaitStep::Ready);
    assert_eq!(before_wait(false), WaitStep::WaitAgain);
    assert_eq!(after_timed_wake_up(true, true), WaitStep::Ready);
    assert_eq!(after_timed_wake_up(true, false), WaitStep::TimedOut);
    assert_eq!(after_timed_wake_up(false, false), WaitStep::WaitAgain);
}

#[test]
fn page_size() {
    assert_eq!(pagesize_from_sysconf(Some(4096)), Ok(4096));
    assert_eq!(pagesize_from_sysconf(None), Err(Error::IncorrectPageSize { size: None }));
    assert_eq!(
        pagesize_from_sysconf(Some(-1)),
        Err(Error::IncorrectPageSize { size: Some(-1) })
    );
}

#[test]
fn ring_wraps_around() {
    let mut slots: Vec<Option<u32>> = (0..3).map(|_| None).collect();
    let mut queue = BoundedQueue::with_capacity(&mut slots);
    assert_eq!(queue.push_back(1), Ok(true));
    assert_eq!(queue.push_back(2), Ok(false));
    assert_eq!(queue.pop_front(), (Some(1), false));
    assert_eq!(queue.push_back(3), Ok(false));
    assert_eq!(queue.push_back(4), Ok(false));
    assert_eq!(queue.push_back(5), Err(5));
    assert_eq!(queue.pop_front(), (Some(2), true));
    assert_eq!(queue.push_front(9), Ok(false));
    assert_eq!(queue.pop_back(), (Some(4), true));
    assert_eq!(queue.pop_front(), (Some(9), false));
    assert_eq!(queue.pop_front(), (Some(3), false));
    assert_eq!(queue.pop_back(), (None, false));
}

#[test]
fn empty_ring() {
    let mut slots: Vec<Option<u8>> = Vec::new();
    let mut queue = BoundedQueue::with_capacity(&mut slots);
    assert_eq!(queue.push_back(1), Err(1));
    assert_eq!(queue.push_front(2), Err(2));
    assert_eq!(queue.pop_front(), (None, false));
}

#[test]
fn patient_locking() {
    assert_eq!(before_lock_attempt(true), PatientLock::Abandon);
    assert_eq!(before_lock_attempt(false), PatientLock::Attempt);
    assert_eq!(after_lock_attempt(true), PatientLock::Locked);
    assert_eq!(after_lock_attempt(false), PatientLock::Attempt);
}

#[test]
fn receiving_after_a_blocking_wait() {
    let mut slots: Vec<Option<i32>> = (0..2).map(|_| None).collect();
    let mut queue = BoundedQueue::with_capacity(&mut slots);
    assert_eq!(receive_after_blocking_wait(&mut queue, 1, false), (None, false));
    assert!(queue.push_back(6).is_ok());
    assert!(queue.push_back(7).is_ok());
    assert_eq!(receive_after_blocking_wait(&mut queue, 0, false), (None, false));
    assert_eq!(receive_after_blocking_wait(&mut queue, 2, true), (None, false));
    assert_eq!(receive_after_blocking_wait(&mut queue, 1, false), (Some(6), true));
    assert_eq!(receive_after_blocking_wait(&mut queue, 1, false), (Some(7), true));
}

#[test]
fn message_wait_on_a_dropped_channel() {
    assert_eq!(before_message_wait(true), Err(WaitingError::QueueDropped));
    assert_eq!(before_message_wait(false), Ok(()));
}
