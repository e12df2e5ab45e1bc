//! Fixed queue: a double-ended queue that never holds more than its capacity.

pub use crate::shmem_safe::ShmemSafe;
use vstd::prelude::*;

verus! {

/// Position in the ring of slots of the `i`-th item of a queue whose first item is at
/// `head`, in a ring of `cap` slots (`i < cap`).
pub open spec fn slot_index(head: int, i: int, cap: int) -> int {
    if head + i < cap {
        head + i
    } else {
        head + i - cap
    }
}

/// A double-ended queue with a capacity fixed at creation: a ring of slots that its creator
/// provides (for instance in shared memory), one slot per item it can hold.
pub struct BoundedQueue<'a, T> {
    slots: &'a mut [Option<T>],
    head: usize,
    len: usize,
    capacity: usize,
}

impl<'a, T> View for BoundedQueue<'a, T> {
    type V = Seq<T>;

    closed spec fn view(&self) -> Seq<T> {
        Seq::new(
            self.len as nat,
            |i: int| self.slots@[slot_index(self.head as int, i, self.capacity as int)]->Some_0,
        )
    }
}

impl<'a, T> BoundedQueue<'a, T> {
    /// The number of items the queue can hold.
    pub closed spec fn cap(&self) -> nat {
        self.capacity as nat
    }

    /// The ring is consistent: the items in use sit in occupied slots of the ring.
    pub closed spec fn ring_ok(&self) -> bool {
        &&& self.slots@.len() == self.capacity
        &&& self.len <= self.capacity
        &&& (self.capacity == 0 ==> self.head == 0)
        &&& (self.capacity > 0 ==> self.head < self.capacity)
        &&& forall|i: int|
            0 <= i < self.len ==> (#[trigger] self.slots@[slot_index(
                self.head as int,
                i,
                self.capacity as int,
            )]) is Some
    }

    /// The queue holds no more items than its capacity.
    pub open spec fn wf(&self) -> bool {
        &&& self.ring_ok()
        &&& self@.len() <= self.cap()
    }

    /// Creates an empty queue that holds its items in `slots`, one item per slot.
    pub fn with_capacity(slots: &'a mut [Option<T>]) -> (r: Self)
        ensures
            r.wf(),
            r@ == Seq::<T>::empty(),
            r.cap() == old(slots)@.len(),
    {
        let capacity = slots.len();
        let q = BoundedQueue { slots, head: 0, len: 0, capacity };
        assert(q@ =~= Seq::<T>::empty());
        q
    }

    /// Number of items in the queue.
    pub fn len(&self) -> (r: usize)
        ensures
            r == self@.len(),
    {
        self.len
    }

    /// Whether the queue holds no item.
    pub fn is_empty(&self) -> (r: bool)
        ensures
            r == (self@.len() == 0),
    {
        self.len == 0
    }

    /// Number of items that can still be pushed.
    pub fn remaining_capacity(&self) -> (r: usize)
        requires
            self.wf(),
        ensures
            r == self.cap() - self@.len(),
    {
        self.capacity - self.len
    }

    /// Pushes an item to the back of the queue unless it is full, in which case the item
    /// comes back. On success, tells whether the queue was empty before: those waiting for
    /// an item are then to be notified.
    pub fn push_back(&mut self, item: T) -> (r: Result<bool, T>)
        requires
            old(self).wf(),
        ensures
            final(self).wf(),
            final(self).cap() == old(self).cap(),
            old(self)@.len() == old(self).cap() ==> r == Err::<bool, T>(item) && final(self)@ == old(self)@,
            old(self)@.len() < old(self).cap() ==> r == Ok::<bool, T>(old(self)@.len() == 0) && final(self)@
                == old(self)@.push(item),
    {
        if self.capacity - self.len == 0 {
            return Err(item);
        }
        let ghost old_view = self@;
        let ghost old_slots = self.slots@;
        let was_empty = self.len == 0;
        let idx = if self.len < self.capacity - self.head {
            self.head + self.len
        } else {
            self.len - (self.capacity - self.head)
        };
        assert(idx == slot_index(self.head as int, self.len as int, self.capacity as int));
        self.slots[idx] = Some(item);
        self.len = self.len + 1;
        proof {
            let cap = self.capacity as int;
            let head = self.head as int;
            assert forall|i: int| 0 <= i < self.len implies (#[trigger] self.slots@[slot_index(head, i, cap)]) is Some by {
                if i < self.len - 1 {
                    assert(slot_index(head, i, cap) != idx);
                    assert(old_slots[slot_index(head, i, cap)] is Some);
                }
            }
            assert forall|i: int| 0 <= i < self@.len() implies #[trigger] self@[i] == old_view.push(item)[i] by {
                if i < old_view.len() {
                    assert(slot_index(head, i, cap) != idx);
                }
            }
            assert(self@ =~= old_view.push(item));
        }
        Ok(was_empty)
    }

    /// Pushes an item to the front of the queue unless it is full, in which case the item
    /// comes back. On success, tells whether the queue was empty before.
    pub fn push_front(&mut self, item: T) -> (r: Result<bool, T>)
        requires
            old(self).wf(),
        ensures
            final(self).wf(),
            final(self).cap() == old(self).cap(),
            old(self)@.len() == old(self).cap() ==> r == Err::<bool, T>(item) && final(self)@ == old(self)@,
            old(self)@.len() < old(self).cap() ==> r == Ok::<bool, T>(old(self)@.len() == 0) && final(self)@
                == seq![item] + old(self)@,
    {
        if self.capacity - self.len == 0 {
            return Err(item);
        }
        let ghost old_view = self@;
        let ghost old_slots = self.slots@;
        let ghost old_head = self.head as int;
        let was_empty = self.len == 0;
        let new_head = if self.head == 0 {
            self.capacity - 1
        } else {
            self.head - 1
        };
        self.slots[new_head] = Some(item);
        self.head = new_head;
        self.len = self.len + 1;
        proof {
            let cap = self.capacity as int;
            let head = self.head as int;
            assert forall|i: int| 0 <= i < self.len implies (#[trigger] self.slots@[slot_index(head, i, cap)]) is Some by {
                if i > 0 {
                    assert(slot_index(head, i, cap) == slot_index(old_head, i - 1, cap));
                    assert(slot_index(head, i, cap) != new_head);
                    assert(old_slots[slot_index(old_head, i - 1, cap)] is Some);
                }
            }
            assert forall|i: int| 0 <= i < self@.len() implies #[trigger] self@[i] == (seq![item] + old_view)[i] by {
                if i > 0 {
                    assert(slot_index(head, i, cap) == slot_index(old_head, i - 1, cap));
                    assert(slot_index(head, i, cap) != new_head);
                }
            }
            assert(self@ =~= seq![item] + old_view);
        }
        Ok(was_empty)
    }

    /// Takes the item out of slot `idx`, leaving the slot empty.
    fn take_slot(&mut self, idx: usize) -> (r: Option<T>)
        requires
            idx < old(self).slots@.len(),
        ensures
            r == old(self).slots@[idx as int],
            final(self).slots@ == old(self).slots@.update(idx as int, None),
            final(self).head == old(self).head,
            final(self).len == old(self).len,
            final(self).capacity == old(self).capacity,
    {
        let mut out: Option<T> = None;
        std::mem::swap(&mut self.slots[idx], &mut out);
        out
    }

    /// Pops an item from the back of the queue, if there is one, and tells whether the
    /// queue was full before: those waiting for space are then to be notified.
    pub fn pop_back(&mut self) -> (r: (Option<T>, bool))
        requires
            old(self).wf(),
        ensures
            final(self).wf(),
            final(self).cap() == old(self).cap(),
            old(self)@.len() == 0 ==> r == (None::<T>, false) && final(self)@ == old(self)@,
            old(self)@.len() > 0 ==> r == (Some(old(self)@.last()), old(self)@.len() == old(self).cap())
                && final(self)@ == old(self)@.drop_last(),
    {
        if self.len == 0 {
            return (None, false);
        }
        let ghost old_view = self@;
        let ghost old_slots = self.slots@;
        let was_full = self.len == self.capacity;
        let last = self.len - 1;
        let idx = if last < self.capacity - self.head {
            self.head + last
        } else {
            last - (self.capacity - self.head)
        };
        assert(idx == slot_index(self.head as int, last as int, self.capacity as int));
        let item = self.take_slot(idx);
        self.len = last;
        proof {
            let cap = self.capacity as int;
            let head = self.head as int;
            assert(old_slots[idx as int] is Some);
            assert(old_view[last as int] == old_slots[idx as int]->Some_0);
            assert forall|i: int| 0 <= i < self.len implies (#[trigger] self.slots@[slot_index(head, i, cap)]) is Some by {
                assert(slot_index(head, i, cap) != idx);
                assert(old_slots[slot_index(head, i, cap)] is Some);
            }
            assert forall|i: int| 0 <= i < self@.len() implies #[trigger] self@[i] == old_view.drop_last()[i] by {
                assert(slot_index(head, i, cap) != idx);
            }
            assert(self@ =~= old_view.drop_last());
        }
        match item {
            Some(item) => (Some(item), was_full),
            None => (None, false),
        }
    }

    /// Pops an item from the front of the queue, if there is one, and tells whether the
    /// queue was full before.
    pub fn pop_front(&mut self) -> (r: (Option<T>, bool))
        requires
            old(self).wf(),
        ensures
            final(self).wf(),
            final(self).cap() == old(self).cap(),
            old(self)@.len() == 0 ==> r == (None::<T>, false) && final(self)@ == old(self)@,
            old(self)@.len() > 0 ==> r == (Some(old(self)@[0]), old(self)@.len() == old(self).cap())
                && final(self)@ == old(self)@.drop_first(),
    {
        if self.len == 0 {
            return (None, false);
        }
        let ghost old_view = self@;
        let ghost old_slots = self.slots@;
        let ghost old_head = self.head as int;
        let was_full = self.len == self.capacity;
        let idx = self.head;
        assert(idx == slot_index(self.head as int, 0, self.capacity as int));
        let item = self.take_slot(idx);
        self.head = if self.head + 1 == self.capacity {
            0
        } else {
            self.head + 1
        };
        self.len = self.len - 1;
        proof {
            let cap = self.capacity as int;
            let head = self.head as int;
            assert(old_slots[idx as int] is Some);
            assert forall|i: int| 0 <= i < self.len implies (#[trigger] self.slots@[slot_index(head, i, cap)]) is Some by {
                assert(slot_index(head, i, cap) == slot_index(old_head, i + 1, cap));
                assert(slot_index(head, i, cap) != idx);
                assert(old_slots[slot_index(old_head, i + 1, cap)] is Some);
            }
            assert forall|i: int| 0 <= i < self@.len() implies #[trigger] self@[i] == old_view.drop_first()[i] by {
                assert(slot_index(head, i, cap) == slot_index(old_head, i + 1, cap));
                assert(slot_index(head, i, cap) != idx);
            }
            assert(self@ =~= old_view.drop_first());
        }
        match item {
            Some(item) => (Some(item), was_full),
            None => (None, false),
        }
    }
}

/// Items pushed to the back come out of the front in the order they went in: after pushing
/// `item` to the back of a non-empty queue, the front item is unchanged, and popping it
/// leaves the rest followed by `item`.
pub proof fn law_fifo<T>(items: Seq<T>, item: T)
    requires
        items.len() > 0,
    ensures
        items.push(item)[0] == items[0],
        items.push(item).drop_first() == items.drop_first().push(item),
{
    assert(items.push(item).drop_first() =~= items.drop_first().push(item));
}

/// Popping from the end an item was just pushed to gives the item back and restores the
/// queue, at either end.
pub proof fn law_pop_undoes_push<T>(items: Seq<T>, item: T)
    ensures
        items.push(item).last() == item,
        items.push(item).drop_last() == items,
        (seq![item] + items)[0] == item,
        (seq![item] + items).drop_first() == items,
{
    assert(items.push(item).drop_last() =~= items);
    assert((seq![item] + items).drop_first() =~= items);
}

/// Whether the process that holds a queue keeps it from being freed: only the handle that
/// created the queue, in the process that created it, frees it.
pub fn keeps_queue(owner: bool, creator_pid: i32, this_pid: i32) -> (r: bool)
    ensures
        r == (owner && creator_pid == this_pid),
{
    owner && creator_pid == this_pid
}

} // verus!
