use crate::allocator::free_chunk::FreeSpace;
use superslice::Ext;
use vstd::prelude::*;

verus! {

/// Lexicographic order of two ordering keys.
pub open spec fn key_le(a: (usize, usize), b: (usize, usize)) -> bool {
    a.0 < b.0 || (a.0 == b.0 && a.1 <= b.1)
}

/// `s` is ordered by the ordering keys of its items, smallest first.
pub open spec fn sorted(s: Seq<FreeSpace>) -> bool {
    forall|i: int, j: int| 0 <= i < j < s.len() ==> key_le(#[trigger] s[i].key(), #[trigger] s[j].key())
}

/// Index of the first item of the sorted slice whose key is greater than `key`
/// (`superslice::Ext::upper_bound_by_key`).
#[verifier::external_body]
fn upper_bound_by_key(items: &[FreeSpace], key: (usize, usize)) -> (r: usize)
    requires
        sorted(items@),
    ensures
        r <= items@.len(),
        forall|j: int| 0 <= j < r ==> key_le(#[trigger] items@[j].key(), key),
        forall|j: int| r <= j < items@.len() ==> !key_le(#[trigger] items@[j].key(), key),
{
    items.upper_bound_by_key(&key, |item| item.sort_key())
}

/// Error returned when the storage given to a sorted vector cannot hold its capacity.
#[derive(Debug, Clone, Copy, PartialEq, Eq, Structural)]
pub enum RawVecError {
    /// The storage is too small for the requested capacity.
    Allocation,
}

/// A sorted vector with a capacity fixed at creation, kept in storage that its creator
/// provides (for instance in shared memory).
pub struct FixesSortedVec<'a> {
    items: &'a mut [FreeSpace],
    len: usize,
    capacity: usize,
}

impl<'a> View for FixesSortedVec<'a> {
    type V = Seq<FreeSpace>;

    closed spec fn view(&self) -> Seq<FreeSpace> {
        self.items@.subrange(0, self.len as int)
    }
}

impl<'a> FixesSortedVec<'a> {
    /// The number of items the vector was made to hold.
    pub closed spec fn cap(&self) -> nat {
        self.capacity as nat
    }

    /// The items in use and the capacity fit in the storage.
    #[verifier::type_invariant]
    closed spec fn storage_ok(&self) -> bool {
        self.len <= self.capacity <= self.items@.len()
    }

    /// The items are sorted and within the capacity.
    pub open spec fn wf(&self) -> bool {
        &&& sorted(self@)
        &&& self@.len() <= self.cap()
    }

    /// Creates an empty vector able to hold `capacity` items in `storage`; fails when the
    /// storage holds fewer than `capacity` items.
    pub fn new(capacity: usize, storage: &'a mut [FreeSpace]) -> (r: Result<Self, RawVecError>)
        ensures
            (r is Ok) <==> old(storage)@.len() >= capacity,
            r matches Ok(v) ==> v.wf() && v@.len() == 0 && v.cap() == capacity,
            r matches Err(e) ==> e == RawVecError::Allocation,
    {
        if storage.len() < capacity {
            return Err(RawVecError::Allocation);
        }
        let v = FixesSortedVec { items: storage, len: 0, capacity };
        assert(v@ =~= Seq::<FreeSpace>::empty());
        Ok(v)
    }

    /// Number of items.
    pub fn len(&self) -> (r: usize)
        ensures
            r == self@.len(),
    {
        proof {
            use_type_invariant(self);
        }
        self.len
    }

    /// Whether there are no items.
    pub fn is_empty(&self) -> (r: bool)
        ensures
            r == (self@.len() == 0),
    {
        proof {
            use_type_invariant(self);
        }
        self.len == 0
    }

    /// The items, smallest first.
    pub fn as_slice(&self) -> (r: &[FreeSpace])
        ensures
            r@ == self@,
    {
        proof {
            use_type_invariant(self);
        }
        &self.items[0..self.len]
    }

    /// The item at `index`.
    pub fn get(&self, index: usize) -> (r: FreeSpace)
        requires
            index < self@.len(),
        ensures
            r == self@[index as int],
    {
        proof {
            use_type_invariant(self);
        }
        self.items[index]
    }

    /// Inserts `item` after every item whose key is not greater than its own.
    pub fn push(&mut self, item: FreeSpace)
        requires
            old(self).wf(),
            old(self)@.len() < old(self).cap(),
        ensures
            final(self).wf(),
            final(self).cap() == old(self).cap(),
            exists|i: int|
                #![trigger old(self)@.insert(i, item)]
                {
                    &&& 0 <= i <= old(self)@.len()
                    &&& final(self)@ == old(self)@.insert(i, item)
                    &&& forall|j: int| 0 <= j < i ==> key_le(#[trigger] old(self)@[j].key(), item.key())
                    &&& forall|j: int|
                        i <= j < old(self)@.len() ==> !key_le(#[trigger] old(self)@[j].key(), item.key())
                },
    {
        proof {
            use_type_invariant(&*self);
        }
        let idx = upper_bound_by_key(self.as_slice(), item.sort_key());
        let ghost old_view = self@;
        let ghost old_items = self.items@;
        let len = self.len;
        let mut j = len;
        while j > idx
            invariant
                idx <= j <= len,
                len == self.len,
                len < self.capacity <= self.items@.len(),
                self.capacity == old(self).capacity,
                old_items.len() == self.items@.len(),
                forall|k: int| 0 <= k <= j ==> #[trigger] self.items@[k] == old_items[k],
                forall|k: int| j < k <= len ==> #[trigger] self.items@[k] == old_items[k - 1],
            decreases j,
        {
            let moved = self.items[j - 1];
            self.items[j] = moved;
            j = j - 1;
        }
        self.items[idx] = item;
        self.len = len + 1;
        proof {
            let s = self@;
            assert(s =~= old_view.insert(idx as int, item));
            assert forall|i: int, j: int| 0 <= i < j < s.len() implies key_le(
                #[trigger] s[i].key(),
                #[trigger] s[j].key(),
            ) by {
                if j < idx {
                    assert(s[i] == old_view[i] && s[j] == old_view[j]);
                } else if j == idx {
                    assert(s[i] == old_view[i]);
                } else if i < idx {
                    assert(s[i] == old_view[i] && s[j] == old_view[j - 1]);
                    assert(key_le(old_view[i].key(), old_view[j - 1].key()));
                } else if i == idx {
                    assert(s[j] == old_view[j - 1]);
                    assert(!key_le(old_view[j - 1].key(), item.key()));
                } else {
                    assert(s[i] == old_view[i - 1] && s[j] == old_view[j - 1]);
                }
            }
        }
    }

    /// Removes and returns the item at `index`.
    pub fn pop(&mut self, index: usize) -> (r: FreeSpace)
        requires
            old(self).wf(),
            index < old(self)@.len(),
        ensures
            final(self).wf(),
            final(self).cap() == old(self).cap(),
            r == old(self)@[index as int],
            final(self)@ == old(self)@.remove(index as int),
    {
        proof {
            use_type_invariant(&*self);
        }
        let ghost old_view = self@;
        let ghost old_items = self.items@;
        let r = self.items[index];
        let len = self.len;
        let mut j = index;
        while j + 1 < len
            invariant
                index <= j < len,
                len == self.len,
                len <= self.capacity <= self.items@.len(),
                self.capacity == old(self).capacity,
                old_items.len() == self.items@.len(),
                forall|k: int| 0 <= k < j ==> #[trigger] self.items@[k] == old_items[if k < index { k } else { k + 1 }],
                forall|k: int| j <= k < len ==> #[trigger] self.items@[k] == old_items[k],
            decreases len - j,
        {
            let moved = self.items[j + 1];
            self.items[j] = moved;
            j = j + 1;
        }
        self.len = len - 1;
        proof {
            let s = self@;
            assert forall|k: int| 0 <= k < s.len() implies #[trigger] s[k] == old_view.remove(index as int)[k] by {
                if k < index {
                } else {
                    assert(self.items@[k] == old_items[k + 1]);
                }
            }
            assert(s =~= old_view.remove(index as int));
            assert forall|i: int, j: int| 0 <= i < j < s.len() implies key_le(
                #[trigger] s[i].key(),
                #[trigger] s[j].key(),
            ) by {
                let oi = if i < index { i } else { i + 1 };
                let oj = if j < index { j } else { j + 1 };
                assert(s[i] == old_view[oi] && s[j] == old_view[oj]);
            }
        }
        r
    }
}

} // verus!
