//! Communication channel: what its operations decide, under the lock of its queue.

use crate::fixed_queue::BoundedQueue;
use crate::process_rc::{decreased, DecreaseResult, PerProcessReferences};
use std::sync::atomic::AtomicUsize;
use vstd::prelude::*;

verus! {

/// An error of an attempt to send an item, which comes back with it.
#[derive(Debug, Clone, Copy, PartialEq, Eq, Structural)]
pub enum TrySendError<T> {
    /// Time out reached while trying to send a message.
    TimedOut(T),
    /// No receivers available.
    NoReceivers(T),
}

/// An error of an attempt to receive an item.
#[derive(Debug, Clone, Copy, PartialEq, Eq, Structural)]
pub enum TryReceiveError {
    /// Time out reached while trying to receive a message.
    TimedOut,
    /// No senders available.
    NoSenders,
}

/// An error of waiting for a message.
#[derive(Debug, Clone, Copy, PartialEq, Eq, Structural)]
pub enum WaitingError {
    /// The channel is being destroyed.
    QueueDropped,
    /// The time ran out.
    TimeoutReached,
}

/// `x - 1`, or nothing for zero.
pub fn checked_decrement(x: usize) -> (r: Option<usize>)
    ensures
        x == 0 ==> r is None,
        x > 0 ==> r == Some((x - 1) as usize),
{
    if x == 0 {
        None
    } else {
        Some(x - 1)
    }
}

/// Atomically decrements `variable` unless it is zero (`AtomicUsize::fetch_update` with
/// [`checked_decrement`]), and returns the value it held: `Ok` when it was decremented,
/// `Err` when it was zero. The value depends on the other users of the counter, so no
/// more is stated of it.
#[verifier::external_body]
fn fetch_checked_decrement(variable: &AtomicUsize) -> (r: Result<usize, usize>)
    ensures
        r matches Ok(previous) ==> previous > 0,
        r matches Err(previous) ==> previous == 0,
{
    variable.fetch_update(std::sync::atomic::Ordering::SeqCst, std::sync::atomic::Ordering::Relaxed, |x| checked_decrement(x))
}

/// The value a counter holds after an attempt to decrement it that returned `outcome`:
/// one less than before, or zero when it already was.
pub fn decremented_value(outcome: Result<usize, usize>) -> (r: usize)
    requires
        outcome matches Ok(previous) ==> previous > 0,
    ensures
        outcome matches Ok(previous) ==> r == previous - 1,
        outcome is Err ==> r == 0,
{
    match outcome {
        Ok(previous) => previous - 1,
        Err(_) => 0,
    }
}

/// Decrements the counter unless it is zero, and returns its new value (zero when it
/// already was zero, which means the channel is being destroyed).
pub fn atomic_checked_sub(variable: &AtomicUsize) -> (r: usize)
    ensures
        r < usize::MAX,
{
    decremented_value(fetch_checked_decrement(variable))
}

/// A receiver can stop waiting: there is an item, no sender is left, or the channel is
/// being destroyed.
pub open spec fn receive_ready(queue_len: nat, senders: usize, dropping: bool) -> bool {
    queue_len > 0 || senders == 0 || dropping
}

/// A sender can stop waiting: there is room, no receiver is left, or the channel is being
/// destroyed.
pub open spec fn send_ready(room: int, receivers: usize, dropping: bool) -> bool {
    room != 0 || receivers == 0 || dropping
}

/// Whether a receiver waiting on `queue` can stop waiting.
pub fn can_receive<T>(queue: &BoundedQueue<'_, T>, senders: usize, dropping: bool) -> (r: bool)
    ensures
        r == receive_ready(queue@.len(), senders, dropping),
        r == (queue@.len() > 0 || senders == 0 || dropping),
{
    !queue.is_empty() || senders == 0 || dropping
}

/// Whether a sender waiting on `queue` can stop waiting.
pub fn can_send<T>(queue: &BoundedQueue<'_, T>, receivers: usize, dropping: bool) -> (r: bool)
    requires
        queue.wf(),
    ensures
        r == send_ready(queue.cap() - queue@.len(), receivers, dropping),
        r == (queue@.len() < queue.cap() || receivers == 0 || dropping),
{
    queue.remaining_capacity() != 0 || receivers == 0 || dropping
}

/// A receiver stops waiting exactly when an item is there, no sender is left, or the
/// channel is being destroyed: it is kept waiting only on an empty queue that some sender
/// may still fill.
pub proof fn law_receive_ready(queue_len: nat, senders: usize, dropping: bool)
    ensures
        queue_len > 0 ==> receive_ready(queue_len, senders, dropping),
        senders == 0 ==> receive_ready(queue_len, senders, dropping),
        dropping ==> receive_ready(queue_len, senders, dropping),
        queue_len == 0 && senders > 0 && !dropping ==> !receive_ready(queue_len, senders, dropping),
{
}

/// A sender stops waiting exactly when a slot is free, no receiver is left, or the channel
/// is being destroyed: it is kept waiting only on a full queue that some receiver may still
/// empty.
pub proof fn law_send_ready(len: nat, cap: nat, receivers: usize, dropping: bool)
    requires
        len <= cap,
    ensures
        len < cap ==> send_ready(cap - len, receivers, dropping),
        receivers == 0 ==> send_ready(cap - len, receivers, dropping),
        dropping ==> send_ready(cap - len, receivers, dropping),
        len == cap && receivers > 0 && !dropping ==> !send_ready(cap - len, receivers, dropping),
{
}

/// Whether a task waiting for a message can stop waiting: there is an item, or the
/// channel is being destroyed.
pub fn message_ready<T>(queue: &BoundedQueue<'_, T>, dropping: bool) -> (r: bool)
    ensures
        r == (queue@.len() > 0 || dropping),
{
    !queue.is_empty() || dropping
}

/// Pops the oldest item of the queue, if any. Those waiting for room are then to be
/// notified.
pub fn pop<T>(queue: &mut BoundedQueue<'_, T>) -> (r: Option<T>)
    requires
        old(queue).wf(),
    ensures
        final(queue).wf(),
        final(queue).cap() == old(queue).cap(),
        old(queue)@.len() == 0 ==> r is None && final(queue)@ == old(queue)@,
        old(queue)@.len() > 0 ==> r == Some(old(queue)@[0]) && final(queue)@ == old(queue)@.drop_first(),
{
    let (item, _) = queue.pop_front();
    item
}

/// Sends without waiting, once the queue is locked: refused when the queue is full, then
/// when no receiver is left or the channel is being destroyed; otherwise the item is
/// pushed to the back.
pub fn send_once<T>(queue: &mut BoundedQueue<'_, T>, item: T, receivers: usize, dropping: bool) -> (r: Result<(), TrySendError<T>>)
    requires
        old(queue).wf(),
    ensures
        final(queue).wf(),
        final(queue).cap() == old(queue).cap(),
        old(queue)@.len() == old(queue).cap() ==> r == Err::<(), TrySendError<T>>(TrySendError::TimedOut(item)),
        old(queue)@.len() < old(queue).cap() && (receivers == 0 || dropping) ==> r == Err::<(), TrySendError<T>>(
            TrySendError::NoReceivers(item),
        ),
        (r is Err) ==> final(queue)@ == old(queue)@,
        (r is Ok) <==> old(queue)@.len() < old(queue).cap() && receivers != 0 && !dropping,
        (r is Ok) ==> final(queue)@ == old(queue)@.push(item),
{
    if queue.remaining_capacity() == 0 {
        Err(TrySendError::TimedOut(item))
    } else if receivers == 0 || dropping {
        Err(TrySendError::NoReceivers(item))
    } else {
        match queue.push_back(item) {
            Ok(_) => Ok(()),
            Err(item) => Err(TrySendError::TimedOut(item)),
        }
    }
}

/// Sends once a wait for room ended: refused when the wait timed out, then when no
/// receiver is left or the channel is being destroyed; otherwise the item is pushed to the
/// back, unless the queue is still full, which is reported as a time out.
pub fn send_after_wait<T>(queue: &mut BoundedQueue<'_, T>, item: T, wait_ok: bool, receivers: usize, dropping: bool) -> (r: Result<(), TrySendError<T>>)
    requires
        old(queue).wf(),
    ensures
        final(queue).wf(),
        final(queue).cap() == old(queue).cap(),
        !wait_ok ==> r == Err::<(), TrySendError<T>>(TrySendError::TimedOut(item)),
        wait_ok && (receivers == 0 || dropping) ==> r == Err::<(), TrySendError<T>>(TrySendError::NoReceivers(item)),
        wait_ok && receivers != 0 && !dropping && old(queue)@.len() == old(queue).cap() ==> r == Err::<
            (),
            TrySendError<T>,
        >(TrySendError::TimedOut(item)),
        (r is Err) ==> final(queue)@ == old(queue)@,
        (r is Ok) <==> wait_ok && receivers != 0 && !dropping && old(queue)@.len() < old(queue).cap(),
        (r is Ok) ==> final(queue)@ == old(queue)@.push(item),
{
    if !wait_ok {
        return Err(TrySendError::TimedOut(item));
    }
    if receivers == 0 || dropping {
        return Err(TrySendError::NoReceivers(item));
    }
    match queue.push_back(item) {
        Ok(_) => Ok(()),
        Err(item) => Err(TrySendError::TimedOut(item)),
    }
}

/// Receives without waiting, once the queue is locked: the oldest item if there is one;
/// otherwise no sender left, or the channel being destroyed, is reported as such, and
/// anything else as a time out.
pub fn receive_once<T>(queue: &mut BoundedQueue<'_, T>, senders: usize, dropping: bool) -> (r: Result<T, TryReceiveError>)
    requires
        old(queue).wf(),
    ensures
        final(queue).wf(),
        final(queue).cap() == old(queue).cap(),
        old(queue)@.len() > 0 ==> r == Ok::<T, TryReceiveError>(old(queue)@[0]) && final(queue)@ == old(queue)@.drop_first(),
        old(queue)@.len() == 0 ==> final(queue)@ == old(queue)@ && r == Err::<T, TryReceiveError>(
            if senders == 0 || dropping { TryReceiveError::NoSenders } else { TryReceiveError::TimedOut },
        ),
{
    if let Some(item) = pop(queue) {
        Ok(item)
    } else if senders == 0 || dropping {
        Err(TryReceiveError::NoSenders)
    } else {
        Err(TryReceiveError::TimedOut)
    }
}

/// Receives once a wait for an item ended: a time out when the wait timed out, then no
/// sender left, or the channel being destroyed, is reported as such; otherwise the oldest
/// item, or a time out when the queue is still empty.
pub fn receive_after_wait<T>(queue: &mut BoundedQueue<'_, T>, wait_ok: bool, senders: usize, dropping: bool) -> (r: Result<T, TryReceiveError>)
    requires
        old(queue).wf(),
    ensures
        final(queue).wf(),
        final(queue).cap() == old(queue).cap(),
        !wait_ok ==> r == Err::<T, TryReceiveError>(TryReceiveError::TimedOut),
        wait_ok && (senders == 0 || dropping) ==> r == Err::<T, TryReceiveError>(TryReceiveError::NoSenders),
        wait_ok && senders != 0 && !dropping && old(queue)@.len() == 0 ==> r == Err::<T, TryReceiveError>(
            TryReceiveError::TimedOut,
        ),
        (r is Err) ==> final(queue)@ == old(queue)@,
        (r is Ok) <==> wait_ok && senders != 0 && !dropping && old(queue)@.len() > 0,
        (r is Ok) ==> r == Ok::<T, TryReceiveError>(old(queue)@[0]) && final(queue)@ == old(queue)@.drop_first(),
{
    if !wait_ok {
        Err(TryReceiveError::TimedOut)
    } else if senders == 0 || dropping {
        Err(TryReceiveError::NoSenders)
    } else {
        match pop(queue) {
            Some(item) => Ok(item),
            None => Err(TryReceiveError::TimedOut),
        }
    }
}

/// Sends once a wait without time limit for room ended: the item comes back when no
/// receiver is left or the channel is being destroyed, or when the queue is still full;
/// otherwise it is pushed to the back.
pub fn send_after_blocking_wait<T>(queue: &mut BoundedQueue<'_, T>, item: T, receivers: usize, dropping: bool) -> (r: Result<(), T>)
    requires
        old(queue).wf(),
    ensures
        final(queue).wf(),
        final(queue).cap() == old(queue).cap(),
        (receivers == 0 || dropping || old(queue)@.len() == old(queue).cap()) ==> r == Err::<(), T>(item)
            && final(queue)@ == old(queue)@,
        !(receivers == 0 || dropping || old(queue)@.len() == old(queue).cap()) ==> (r is Ok)
            && final(queue)@ == old(queue)@.push(item),
{
    match send_after_wait(queue, item, true, receivers, dropping) {
        Ok(()) => Ok(()),
        Err(TrySendError::TimedOut(item)) => Err(item),
        Err(TrySendError::NoReceivers(item)) => Err(item),
    }
}

/// The outcome of waiting for a message, once the lock was obtained: a time out when the
/// wait timed out.
pub fn message_wait_outcome(wait_ok: bool) -> (r: Result<(), WaitingError>)
    ensures
        wait_ok ==> r is Ok,
        !wait_ok ==> r == Err::<(), WaitingError>(WaitingError::TimeoutReached),
{
    if wait_ok {
        Ok(())
    } else {
        Err(WaitingError::TimeoutReached)
    }
}

/// Whether dropping a channel handle in process `current_pid` destroys the channel: only
/// in the process that created it, when the handle was the last one there. The handle's
/// reference is dropped from the counter in that process only.
pub fn destroys_channel(creator_pid: i32, current_pid: i32, references: &mut PerProcessReferences) -> (r: bool)
    ensures
        creator_pid != current_pid ==> !r && *final(references) == *old(references),
        creator_pid == current_pid ==> (*final(references), if r {
            DecreaseResult::YouAreTheLastOne
        } else {
            DecreaseResult::MoveAlong
        }) == decreased(*old(references), current_pid),
{
    if creator_pid != current_pid {
        return false;
    }
    match references.decrease(current_pid) {
        DecreaseResult::MoveAlong => false,
        DecreaseResult::YouAreTheLastOne => true,
    }
}

/// Which waiting sides a channel that is being destroyed wakes up: receivers when some were
/// registered, senders when some were.
pub fn wake_on_destroy(receivers: usize, senders: usize) -> (r: (bool, bool))
    ensures
        r == (receivers != 0, senders != 0),
{
    (receivers != 0, senders != 0)
}

/// The next step of locking a channel's queue patiently: give up, (re)try to lock for a
/// while, or go on with the lock.
#[derive(Debug, Clone, Copy, PartialEq, Eq, Structural)]
pub enum PatientLock {
    /// The channel is being destroyed: give up.
    Abandon,
    /// Try to lock, for a limited time.
    Attempt,
    /// The lock is held.
    Locked,
}

/// Before each attempt to lock: a channel that is being destroyed is given up.
pub fn before_lock_attempt(dropping: bool) -> (r: PatientLock)
    ensures
        r == (if dropping { PatientLock::Abandon } else { PatientLock::Attempt }),
{
    if dropping {
        PatientLock::Abandon
    } else {
        PatientLock::Attempt
    }
}

/// After an attempt to lock: go on when the lock was obtained, and otherwise check again
/// before the next attempt.
pub fn after_lock_attempt(acquired: bool) -> (r: PatientLock)
    ensures
        r == (if acquired { PatientLock::Locked } else { PatientLock::Attempt }),
{
    if acquired {
        PatientLock::Locked
    } else {
        PatientLock::Attempt
    }
}

/// Receives once a wait without time limit for an item ended: nothing when no sender is
/// left or the channel is being destroyed; otherwise the oldest item if there is one (those
/// waiting for room are then to be notified), and nothing when the queue is empty.
pub fn receive_after_blocking_wait<T>(queue: &mut BoundedQueue<'_, T>, senders: usize, dropping: bool) -> (r: (Option<T>, bool))
    requires
        old(queue).wf(),
    ensures
        final(queue).wf(),
        final(queue).cap() == old(queue).cap(),
        r.1 == (r.0 is Some),
        (senders == 0 || dropping || old(queue)@.len() == 0) ==> r.0 is None && final(queue)@ == old(queue)@,
        !(senders == 0 || dropping) && old(queue)@.len() > 0 ==> r.0 == Some(old(queue)@[0]) && final(queue)@
            == old(queue)@.drop_first(),
{
    if senders == 0 || dropping {
        return (None, false);
    }
    let item = pop(queue);
    let received = item.is_some();
    (item, received)
}

/// Before waiting for a message: a channel that is being destroyed is reported as such.
pub fn before_message_wait(dropping: bool) -> (r: Result<(), WaitingError>)
    ensures
        dropping ==> r == Err::<(), WaitingError>(WaitingError::QueueDropped),
        !dropping ==> r is Ok,
{
    if dropping {
        Err(WaitingError::QueueDropped)
    } else {
        Ok(())
    }
}

} // verus!
