pub mod sorted_vec;

use crate::allocator::free_chunk::{merged, run, FreeSpace, RelativeBeginning, CHUNK_SIZE};
use sorted_vec::{key_le, sorted, FixesSortedVec, RawVecError};
use superslice::Ext;
use vstd::prelude::*;
use vstd::set_lib::{lemma_int_range, lemma_len_subset, set_int_range};

verus! {

/// The chunks that a run covers.
pub open spec fn units(r: FreeSpace) -> Set<int> {
    set_int_range(r.start(), r.end())
}

/// Two runs share no chunk.
pub open spec fn disjoint_runs(a: FreeSpace, b: FreeSpace) -> bool {
    a.end() <= b.start() || b.end() <= a.start()
}

/// Two runs share no chunk and do not touch either.
pub open spec fn separated(a: FreeSpace, b: FreeSpace) -> bool {
    a.end() < b.start() || b.end() < a.start()
}

/// Every run is non-empty and ends by `max`, and any two runs are apart.
pub open spec fn runs_wf(s: Seq<FreeSpace>, max: int) -> bool {
    &&& forall|i: int| 0 <= i < s.len() ==> #[trigger] s[i].len() > 0 && s[i].end() <= max
    &&& forall|i: int, j: int|
        0 <= i < s.len() && 0 <= j < s.len() && i != j ==> separated(#[trigger] s[i], #[trigger] s[j])
}

/// Chunk `u` belongs to one of the runs of `s`.
pub open spec fn covered(s: Seq<FreeSpace>, u: int) -> bool {
    exists|i: int| 0 <= i < s.len() && (#[trigger] s[i]).covers(u)
}

/// The chunks that the runs of `s` cover.
pub open spec fn free_set(s: Seq<FreeSpace>) -> Set<int> {
    Set::new(|u: int| covered(s, u))
}

/// The number of chunks that hold `size` bytes.
pub open spec fn required_chunks(size: usize) -> int {
    if size % CHUNK_SIZE == 0 {
        (size / CHUNK_SIZE) as int
    } else {
        (size / CHUNK_SIZE) as int + 1
    }
}

/// The chunks that hold `size` bytes are the fewest that do: they hold all of them, and one
/// chunk fewer would not.
pub proof fn law_required_chunks(size: usize)
    ensures
        required_chunks(size) * CHUNK_SIZE >= size,
        required_chunks(size) >= 0,
        size > 0 ==> (required_chunks(size) - 1) * CHUNK_SIZE < size,
        size == 0 ==> required_chunks(size) == 0,
{
    vstd::arithmetic::div_mod::lemma_fundamental_div_mod(size as int, CHUNK_SIZE as int);
}

/// The run of chunks given back by `Chunks::return_back(shift, size)`.
pub open spec fn returned_run(shift: usize, size: usize) -> FreeSpace {
    run((shift / CHUNK_SIZE) as int, required_chunks(size))
}

/// The run of `s` that begins at `start` holds at least `required` chunks, and is the
/// smallest such run (the first by size, then position).
pub open spec fn best_fit(s: Seq<FreeSpace>, start: int, required: int) -> bool {
    exists|i: int|
        #![trigger s[i]]
        {
            &&& 0 <= i < s.len()
            &&& s[i].start() == start
            &&& s[i].len() >= required
            &&& forall|j: int| 0 <= j < s.len() && (#[trigger] s[j]).len() >= required ==> key_le(s[i].key(), s[j].key())
        }
}

/// Two runs of the list differ, and the first does not end where the second begins.
pub open spec fn pair_ok(left: FreeSpace, right: FreeSpace) -> bool {
    left != right && left.end() != right.start()
}

/// What `Chunks::self_check` checks of the list of runs.
pub open spec fn self_check_holds(s: Seq<FreeSpace>) -> bool {
    &&& forall|k: int| 0 <= k && k + 1 < s.len() ==> (#[trigger] s[k]).len() <= s[k + 1].len()
    &&& forall|a: int, b: int| 0 <= a < b < s.len() ==> pair_ok(#[trigger] s[a], #[trigger] s[b])
}

proof fn lemma_units(r: FreeSpace)
    requires
        r.len() >= 0,
    ensures
        units(r).finite(),
        units(r).len() == r.len(),
{
    lemma_int_range(r.start(), r.end());
}

/// Removing a run from the sequence removes exactly its chunks from the covered set.
proof fn lemma_free_set_remove(s: Seq<FreeSpace>, i: int)
    requires
        0 <= i < s.len(),
    ensures
        free_set(s) =~= free_set(s.remove(i)) + units(s[i]),
{
    let t = s.remove(i);
    assert forall|u: int| free_set(s).contains(u) implies (free_set(t) + units(s[i])).contains(u) by {
        let k = choose|k: int| 0 <= k < s.len() && (#[trigger] s[k]).covers(u);
        if k < i {
            assert(t[k] == s[k]);
        } else if k > i {
            assert(t[k - 1] == s[k]);
        }
    }
    assert forall|u: int| (free_set(t) + units(s[i])).contains(u) implies free_set(s).contains(u) by {
        if free_set(t).contains(u) {
            let k = choose|k: int| 0 <= k < t.len() && (#[trigger] t[k]).covers(u);
            if k < i {
                assert(s[k] == t[k]);
            } else {
                assert(s[k + 1] == t[k]);
            }
        } else {
            assert(s[i].covers(u));
        }
    }
}

/// Inserting a run adds exactly its chunks to the covered set.
proof fn lemma_free_set_insert(s: Seq<FreeSpace>, i: int, x: FreeSpace)
    requires
        0 <= i <= s.len(),
    ensures
        free_set(s.insert(i, x)) =~= free_set(s) + units(x),
{
    let t = s.insert(i, x);
    assert(t.remove(i) =~= s);
    lemma_free_set_remove(t, i);
}

/// Apart runs of a sequence cover at least as many chunks as there are runs.
proof fn lemma_free_set_len(s: Seq<FreeSpace>, max: int)
    requires
        runs_wf(s, max),
        forall|i: int| 0 <= i < s.len() ==> 0 <= (#[trigger] s[i]).start(),
    ensures
        free_set(s).finite(),
        free_set(s).len() >= s.len(),
        free_set(s).subset_of(set_int_range(0, max)),
    decreases s.len(),
{
    if s.len() == 0 {
        assert(free_set(s) =~= Set::empty());
    } else {
        let n = s.len() - 1;
        let p = s.remove(n);
        assert(p =~= s.drop_last());
        assert forall|i: int| 0 <= i < p.len() implies #[trigger] p[i].len() > 0 && p[i].end() <= max by {
            assert(p[i] == s[i]);
        }
        assert forall|i: int, j: int|
            0 <= i < p.len() && 0 <= j < p.len() && i != j implies separated(#[trigger] p[i], #[trigger] p[j]) by {
            assert(p[i] == s[i] && p[j] == s[j]);
        }
        assert forall|i: int| 0 <= i < p.len() implies 0 <= (#[trigger] p[i]).start() by {
            assert(p[i] == s[i]);
        }
        lemma_free_set_len(p, max);
        lemma_free_set_remove(s, n);
        lemma_units(s[n]);
        assert(free_set(p).disjoint(units(s[n]))) by {
            assert forall|u: int| free_set(p).contains(u) implies !units(s[n]).contains(u) by {
                let k = choose|k: int| 0 <= k < p.len() && (#[trigger] p[k]).covers(u);
                assert(p[k] == s[k]);
                assert(separated(s[k], s[n]));
            }
        }
        vstd::set_lib::lemma_set_disjoint_lens(free_set(p), units(s[n]));
        assert forall|u: int| free_set(s).contains(u) implies set_int_range(0, max).contains(u) by {
            let k = choose|k: int| 0 <= k < s.len() && (#[trigger] s[k]).covers(u);
        }
    }
}

/// Apart runs that leave room for one more non-empty run are fewer than `max`.
proof fn lemma_room_for_one_more(s: Seq<FreeSpace>, x: FreeSpace, max: int)
    requires
        runs_wf(s, max),
        forall|i: int| 0 <= i < s.len() ==> 0 <= (#[trigger] s[i]).start(),
        0 <= x.start(),
        0 < x.len(),
        x.end() <= max,
        forall|i: int| 0 <= i < s.len() ==> disjoint_runs(#[trigger] s[i], x),
    ensures
        s.len() < max,
{
    lemma_free_set_len(s, max);
    lemma_units(x);
    lemma_int_range(0, max);
    assert(free_set(s).disjoint(units(x))) by {
        assert forall|u: int| free_set(s).contains(u) implies !units(x).contains(u) by {
            let k = choose|k: int| 0 <= k < s.len() && (#[trigger] s[k]).covers(u);
            assert(disjoint_runs(s[k], x));
        }
    }
    vstd::set_lib::lemma_set_disjoint_lens(free_set(s), units(x));
    assert((free_set(s) + units(x)).subset_of(set_int_range(0, max)));
    lemma_len_subset(free_set(s) + units(x), set_int_range(0, max));
}

/// Index of the first run of the slice, ordered by size, that holds at least `count`
/// chunks (`superslice::Ext::lower_bound_by_key`).
#[verifier::external_body]
fn lower_bound_by_count(items: &[FreeSpace], count: usize) -> (r: usize)
    requires
        forall|i: int, j: int| 0 <= i < j < items@.len() ==> #[trigger] items@[i].len() <= #[trigger] items@[j].len(),
    ensures
        r <= items@.len(),
        forall|j: int| 0 <= j < r ==> (#[trigger] items@[j]).len() < count,
        forall|j: int| r <= j < items@.len() ==> (#[trigger] items@[j]).len() >= count,
{
    items.lower_bound_by_key(&count, |item| item.count())
}

/// Free chunks manager.
pub struct Chunks<'a> {
    /// Sorted list of free chunks.
    free_chunks: FixesSortedVec<'a>,
}

impl<'a> View for Chunks<'a> {
    type V = Seq<FreeSpace>;

    closed spec fn view(&self) -> Seq<FreeSpace> {
        self.free_chunks@
    }
}

impl<'a> Chunks<'a> {
    /// Size of a single memory chunk.
    pub const CHUNK_SIZE: usize = CHUNK_SIZE;

    /// Number of chunks of the managed memory.
    pub closed spec fn max_chunks(&self) -> nat {
        self.free_chunks.cap()
    }

    /// The chunks that are free.
    pub open spec fn free(&self) -> Set<int> {
        free_set(self@)
    }

    /// The free runs are sorted by size and then position, each non-empty and within the
    /// managed memory, and no two of them overlap or touch (they are merged as far as
    /// possible).
    pub closed spec fn wf(&self) -> bool {
        &&& self.free_chunks.wf()
        &&& runs_wf(self@, self.max_chunks() as int)
        &&& self.max_chunks() * CHUNK_SIZE <= usize::MAX
    }

    /// The sequence view of a well-formed manager is sorted and made of apart runs.
    pub proof fn lemma_wf(&self)
        requires
            self.wf(),
        ensures
            sorted(self@),
            runs_wf(self@, self.max_chunks() as int),
            self.max_chunks() * CHUNK_SIZE <= usize::MAX,
            self.free().finite(),
            self.free().subset_of(set_int_range(0, self.max_chunks() as int)),
    {
        lemma_free_set_len(self@, self.max_chunks() as int);
    }

    /// Initializes a new chunks manager of `max_chunks` chunks, all free, which keeps its
    /// list of free runs in `storage`; fails when the storage cannot hold `max_chunks` runs.
    pub fn new(max_chunks: usize, storage: &'a mut [FreeSpace]) -> (r: Result<Self, RawVecError>)
        requires
            0 < max_chunks,
            max_chunks * CHUNK_SIZE <= usize::MAX,
        ensures
            (r is Ok) <==> old(storage)@.len() >= max_chunks,
            r matches Ok(c) ==> {
                &&& c.wf()
                &&& c.max_chunks() == max_chunks
                &&& c@ == seq![run(0, max_chunks as int)]
                &&& c.free() == set_int_range(0, max_chunks as int)
            },
            r matches Err(e) ==> e == RawVecError::Allocation,
    {
        let mut free_chunks = FixesSortedVec::new(max_chunks, storage)?;
        let whole = FreeSpace::new(RelativeBeginning::zero(), max_chunks);
        free_chunks.push(whole);
        proof {
            assert(free_chunks@ =~= seq![whole]);
            assert(whole == run(0, max_chunks as int));
            assert forall|u: int| #[trigger] free_set(free_chunks@).contains(u) <==> set_int_range(0, max_chunks as int).contains(u) by {
                if set_int_range(0, max_chunks as int).contains(u) {
                    assert(free_chunks@[0].covers(u));
                }
            }
            assert(free_set(free_chunks@) =~= set_int_range(0, max_chunks as int));
        }
        Ok(Self { free_chunks })
    }

    /// The sorted list of free runs.
    pub fn free_chunks(&self) -> (r: &FixesSortedVec<'a>)
        ensures
            r@ == self@,
    {
        &self.free_chunks
    }

    /// Extracts free space of a given size in bytes, if possible.
    ///
    /// The space is cut from the beginning of the smallest free run that is large enough,
    /// and the rest of that run stays free. If there is no enough contiguous free space
    /// available, returns `None` and nothing changes.
    pub fn get(&mut self, size: usize) -> (r: Option<FreeSpace>)
        requires
            old(self).wf(),
        ensures
            final(self).wf(),
            final(self).max_chunks() == old(self).max_chunks(),
            r is None <==> forall|i: int| 0 <= i < old(self)@.len() ==> (#[trigger] old(self)@[i]).len() < required_chunks(size),
            r is None ==> final(self)@ == old(self)@,
            r matches Some(space) ==> {
                &&& space.len() == required_chunks(size)
                &&& units(space).subset_of(old(self).free())
                &&& final(self).free() == old(self).free().difference(units(space))
                &&& best_fit(old(self)@, space.start(), required_chunks(size))
            },
    {
        proof {
            self.lemma_wf();
        }
        let required_chunks = if size % CHUNK_SIZE == 0 {
            size / CHUNK_SIZE
        } else {
            (size / CHUNK_SIZE) + 1
        };
        let ghost old_runs = self@;
        let ghost max = self.max_chunks() as int;
        proof {
            assert forall|i: int, j: int| 0 <= i < j < old_runs.len() implies #[trigger] old_runs[i].len() <= #[trigger] old_runs[j].len() by {
                assert(key_le(old_runs[i].key(), old_runs[j].key()));
            }
        }
        let idx = lower_bound_by_count(self.free_chunks.as_slice(), required_chunks);
        if idx >= self.free_chunks.len() {
            return None;
        }
        let space = self.free_chunks.pop(idx);
        proof {
            lemma_free_set_remove(old_runs, idx as int);
            let rest = self@;
            assert forall|i: int| 0 <= i < rest.len() implies #[trigger] rest[i].len() > 0 && rest[i].end() <= max by {
                let oi = if i < idx { i } else { i + 1 };
                assert(rest[i] == old_runs[oi]);
            }
            assert forall|i: int, j: int| 0 <= i < rest.len() && 0 <= j < rest.len() && i != j implies separated(#[trigger] rest[i], #[trigger] rest[j]) by {
                let oi = if i < idx { i } else { i + 1 };
                let oj = if j < idx { j } else { j + 1 };
                assert(rest[i] == old_runs[oi] && rest[j] == old_runs[oj]);
            }
            assert forall|i: int| 0 <= i < rest.len() implies disjoint_runs(#[trigger] rest[i], space) by {
                let oi = if i < idx { i } else { i + 1 };
                assert(rest[i] == old_runs[oi]);
                assert(separated(old_runs[oi], old_runs[idx as int]));
            }
            assert(free_set(rest).disjoint(units(space))) by {
                assert forall|u: int| free_set(rest).contains(u) implies !units(space).contains(u) by {
                    let k = choose|k: int| 0 <= k < rest.len() && (#[trigger] rest[k]).covers(u);
                    assert(disjoint_runs(rest[k], space));
                }
            }
            assert(free_set(rest) =~= free_set(old_runs).difference(units(space)));
            assert forall|j: int| 0 <= j < old_runs.len() && (#[trigger] old_runs[j]).len() >= required_chunks implies key_le(old_runs[idx as int].key(), old_runs[j].key()) by {
                if j < idx {
                } else if j > idx {
                    assert(key_le(old_runs[idx as int].key(), old_runs[j].key()));
                }
            }
        }
        let (space, unused) = space.split(required_chunks);
        match unused {
            Some(unused) => {
                proof {
                    let rest = self@;
                    assert forall|i: int| 0 <= i < rest.len() implies disjoint_runs(#[trigger] rest[i], unused) by {
                        let oi = if i < idx { i } else { i + 1 };
                        assert(rest[i] == old_runs[oi]);
                        assert(separated(old_runs[oi], old_runs[idx as int]));
                    }
                    assert(units(old_runs[idx as int]) =~= units(space) + units(unused));
                }
                self.insert_chunk_and_merge(unused);
                proof {
                    assert(self.free() =~= free_set(old_runs).difference(units(space)));
                }
            },
            None => {},
        }
        Some(space)
    }

    /// Adds a run to the free list, merging it with the free runs it touches.
    fn insert_chunk_and_merge(&mut self, chunk: FreeSpace)
        requires
            old(self).free_chunks.wf(),
            runs_wf(old(self)@, old(self).max_chunks() as int),
            old(self).max_chunks() * CHUNK_SIZE <= usize::MAX,
            chunk.len() > 0,
            chunk.end() <= old(self).max_chunks(),
            forall|i: int| 0 <= i < old(self)@.len() ==> disjoint_runs(#[trigger] old(self)@[i], chunk),
        ensures
            final(self).wf(),
            final(self).max_chunks() == old(self).max_chunks(),
            final(self).free() == old(self).free() + units(chunk),
    {
        let ghost max = self.max_chunks() as int;
        let ghost target = self.free() + units(chunk);
        if self.free_chunks.is_empty() {
            // 1. If there are no chunks.
            self.free_chunks.push(chunk);
            proof {
                let s = self@;
                assert(s =~= seq![chunk]);
                lemma_free_set_insert(Seq::empty(), 0, chunk);
                assert(Seq::<FreeSpace>::empty().insert(0, chunk) =~= s);
                assert(free_set(Seq::<FreeSpace>::empty()) =~= Set::empty());
                assert(self.free() =~= target);
            }
            return;
        }
        // 2. Check if we can merge anything.
        let mut chunk = chunk;
        loop
            invariant
                self.free_chunks.wf(),
                self.max_chunks() == max,
                runs_wf(self@, max),
                max * CHUNK_SIZE <= usize::MAX,
                chunk.len() > 0,
                chunk.end() <= max,
                forall|i: int| 0 <= i < self@.len() ==> disjoint_runs(#[trigger] self@[i], chunk),
                self.free() + units(chunk) == target,
            ensures
                self.free_chunks.wf(),
                self.max_chunks() == max,
                runs_wf(self@, max),
                chunk.len() > 0,
                chunk.end() <= max,
                forall|i: int| 0 <= i < self@.len() ==> separated(#[trigger] self@[i], chunk),
                self.free() + units(chunk) == target,
            decreases self@.len(),
        {
            match self.find_and_merge(chunk) {
                Some((id, merged_chunk)) => {
                    let ghost before = self@;
                    let absorbed = self.free_chunks.pop(id);
                    proof {
                        let rest = self@;
                        lemma_free_set_remove(before, id as int);
                        assert forall|i: int| 0 <= i < rest.len() implies #[trigger] rest[i].len() > 0 && rest[i].end() <= max by {
                            let oi = if i < id { i } else { i + 1 };
                            assert(rest[i] == before[oi]);
                        }
                        assert forall|i: int, j: int| 0 <= i < rest.len() && 0 <= j < rest.len() && i != j implies separated(#[trigger] rest[i], #[trigger] rest[j]) by {
                            let oi = if i < id { i } else { i + 1 };
                            let oj = if j < id { j } else { j + 1 };
                            assert(rest[i] == before[oi] && rest[j] == before[oj]);
                        }
                        assert forall|i: int| 0 <= i < rest.len() implies disjoint_runs(#[trigger] rest[i], merged_chunk) by {
                            let oi = if i < id { i } else { i + 1 };
                            assert(rest[i] == before[oi]);
                            assert(separated(before[oi], absorbed));
                            assert(disjoint_runs(before[oi], chunk));
                        }
                        assert(units(merged_chunk) =~= units(absorbed) + units(chunk));
                        assert(free_set(rest) + units(merged_chunk) =~= free_set(before) + units(chunk));
                    }
                    chunk = merged_chunk;
                },
                None => {
                    proof {
                        assert forall|i: int| 0 <= i < self@.len() implies separated(#[trigger] self@[i], chunk) by {
                            assert(merged(self@[i], chunk) is None);
                            assert(disjoint_runs(self@[i], chunk));
                        }
                    }
                    break;
                },
            }
        }
        proof {
            assert forall|i: int| 0 <= i < self@.len() implies 0 <= (#[trigger] self@[i]).start() by {}
            lemma_room_for_one_more(self@, chunk, max);
        }
        // 3. Push the chunk to the sorted vector.
        let ghost before = self@;
        self.free_chunks.push(chunk);
        proof {
            let i = choose|i: int| #![trigger before.insert(i, chunk)] {
                &&& 0 <= i <= before.len()
                &&& self@ == before.insert(i, chunk)
                &&& forall|j: int| 0 <= j < i ==> key_le(#[trigger] before[j].key(), chunk.key())
                &&& forall|j: int| i <= j < before.len() ==> !key_le(#[trigger] before[j].key(), chunk.key())
            };
            let s = self@;
            lemma_free_set_insert(before, i, chunk);
            assert forall|k: int| 0 <= k < s.len() implies #[trigger] s[k].len() > 0 && s[k].end() <= max by {
                if k < i {
                    assert(s[k] == before[k]);
                } else if k > i {
                    assert(s[k] == before[k - 1]);
                }
            }
            assert forall|a: int, b: int| 0 <= a < s.len() && 0 <= b < s.len() && a != b implies separated(#[trigger] s[a], #[trigger] s[b]) by {
                let oa = if a < i { a } else { a - 1 };
                let ob = if b < i { b } else { b - 1 };
                if a == i {
                    assert(s[b] == before[ob]);
                    assert(separated(before[ob], chunk));
                } else if b == i {
                    assert(s[a] == before[oa]);
                    assert(separated(before[oa], chunk));
                } else {
                    assert(s[a] == before[oa] && s[b] == before[ob]);
                }
            }
        }
    }

    /// Finds the first free run that touches `chunk`, and the run that joins them.
    fn find_and_merge(&self, chunk: FreeSpace) -> (r: Option<(usize, FreeSpace)>)
        requires
            runs_wf(self@, self.max_chunks() as int),
            self.max_chunks() * CHUNK_SIZE <= usize::MAX,
            chunk.fits(),
        ensures
            r is None ==> forall|i: int| 0 <= i < self@.len() ==> merged(#[trigger] self@[i], chunk) is None,
            r matches Some((id, m)) ==> {
                &&& id < self@.len()
                &&& merged(self@[id as int], chunk) == Some(m)
                &&& forall|j: int| 0 <= j < id ==> merged(#[trigger] self@[j], chunk) is None
            },
    {
        let items = self.free_chunks.as_slice();
        let mut id: usize = 0;
        while id < items.len()
            invariant
                items@ == self@,
                runs_wf(self@, self.max_chunks() as int),
                self.max_chunks() * CHUNK_SIZE <= usize::MAX,
                chunk.fits(),
                id <= items@.len(),
                forall|j: int| 0 <= j < id ==> merged(#[trigger] self@[j], chunk) is None,
            decreases items@.len() - id,
        {
            let existing_chunk = items[id];
            assert(existing_chunk == self@[id as int]);
            if let Some(m) = existing_chunk.merge(chunk) {
                return Some((id, m));
            }
            id = id + 1;
        }
        None
    }

    /// Returns how much space is available in one piece, in bytes: the size of the largest
    /// free run.
    pub fn free_space(&self) -> (r: usize)
        requires
            self.wf(),
        ensures
            self@.len() == 0 ==> r == 0,
            self@.len() > 0 ==> r == self@.last().len() * CHUNK_SIZE,
            forall|i: int| 0 <= i < self@.len() ==> (#[trigger] self@[i]).len() * CHUNK_SIZE <= r,
    {
        proof {
            self.lemma_wf();
            assert forall|i: int| 0 <= i < self@.len() implies (#[trigger] self@[i]).len() * CHUNK_SIZE <= self@.last().len() * CHUNK_SIZE by {
                if i < self@.len() - 1 {
                    assert(key_le(self@[i].key(), self@[self@.len() - 1].key()));
                }
            }
        }
        let n = self.free_chunks.len();
        if n == 0 {
            0
        } else {
            self.free_chunks.get(n - 1).count() * CHUNK_SIZE
        }
    }

    /// Checks the sorted list of free runs: sizes never decrease along it, and no run
    /// equals or directly precedes a later one.
    pub fn self_check(&self) -> (r: bool)
        ensures
            r == self_check_holds(self@),
            self.wf() ==> r,
    {
        proof {
            if self.wf() {
                self.lemma_wf();
                let s = self@;
                assert forall|k: int| 0 <= k && k + 1 < s.len() implies (#[trigger] s[k]).len() <= s[k + 1].len() by {
                    assert(key_le(s[k].key(), s[k + 1].key()));
                }
                assert forall|a: int, b: int| 0 <= a < b < s.len() implies pair_ok(#[trigger] s[a], #[trigger] s[b]) by {
                    assert(separated(s[a], s[b]));
                }
            }
        }
        let items = self.free_chunks.as_slice();
        let n = items.len();
        let last = if n == 0 { 0 } else { n - 1 };
        let mut idx: usize = 0;
        while idx < last
            invariant
                items@ == self@,
                self.wf() ==> self_check_holds(self@),
                n == items@.len(),
                last == if n == 0 { 0 } else { n - 1 },
                idx <= last,
                forall|k: int| 0 <= k < idx && k + 1 < n ==> (#[trigger] self@[k]).len() <= self@[k + 1].len(),
            decreases last - idx,
        {
            if items[idx].count() > items[idx + 1].count() {
                return false;
            }
            idx = idx + 1;
        }
        let mut i: usize = 0;
        while i < n
            invariant
                items@ == self@,
                self.wf() ==> self_check_holds(self@),
                n == items@.len(),
                i <= n,
                forall|k: int| 0 <= k && k + 1 < n ==> (#[trigger] self@[k]).len() <= self@[k + 1].len(),
                forall|a: int, b: int| 0 <= a < i && a < b < n ==> pair_ok(#[trigger] self@[a], #[trigger] self@[b]),
            decreases n - i,
        {
            let mut j: usize = i + 1;
            while j < n
                invariant
                    items@ == self@,
                    self.wf() ==> self_check_holds(self@),
                    n == items@.len(),
                    i < n,
                    i < j <= n,
                    forall|k: int| 0 <= k && k + 1 < n ==> (#[trigger] self@[k]).len() <= self@[k + 1].len(),
                    forall|a: int, b: int| 0 <= a < i && a < b < n ==> pair_ok(#[trigger] self@[a], #[trigger] self@[b]),
                    forall|b: int| i < b < j ==> pair_ok(self@[i as int], #[trigger] self@[b]),
                decreases n - j,
            {
                let left = items[i];
                let right = items[j];
                if left == right {
                    return false;
                }
                if left.relative_beginning.0 as u128 + left.count as u128 == right.relative_beginning.0 as u128 {
                    return false;
                }
                j = j + 1;
            }
            i = i + 1;
        }
        true
    }

    /// Returns free space of `size` (in bytes) back, which begins at `shift` (in bytes).
    ///
    /// The space must be one that `get` handed out: it lies within the managed memory and
    /// none of it is free. The list has room for one run per chunk of the memory, so a run
    /// past its end could find the list full, and `get` would later hand out memory that
    /// lies outside the buffer.
    pub fn return_back(&mut self, shift: usize, size: usize)
        requires
            old(self).wf(),
            shift % CHUNK_SIZE == 0,
            size > 0,
            returned_run(shift, size).end() <= old(self).max_chunks(),
            units(returned_run(shift, size)).disjoint(old(self).free()),
        ensures
            final(self).wf(),
            final(self).max_chunks() == old(self).max_chunks(),
            final(self).free() == old(self).free() + units(returned_run(shift, size)),
    {
        proof {
            self.lemma_wf();
        }
        let count = if size % CHUNK_SIZE == 0 {
            size / CHUNK_SIZE
        } else {
            (size / CHUNK_SIZE) + 1
        };
        let shift = RelativeBeginning::from_bytes(shift);
        let chunk = FreeSpace::new(shift, count);
        proof {
            assert(chunk == run(shift.pos(), required_chunks(size)));
            assert forall|i: int| 0 <= i < self@.len() implies disjoint_runs(#[trigger] self@[i], chunk) by {
                let s = self@[i];
                if !disjoint_runs(s, chunk) {
                    let u = if s.start() <= chunk.start() { chunk.start() } else { s.start() };
                    assert(s.covers(u));
                    assert(self.free().contains(u));
                    assert(units(chunk).contains(u));
                }
            }
        }
        self.insert_chunk_and_merge(chunk)
    }
}

/// A run of an apart sequence is a maximal interval of the chunks the sequence covers: the
/// chunks just before and just after it are not covered.
proof fn lemma_run_is_maximal(s: Seq<FreeSpace>, max: int, k: int)
    requires
        runs_wf(s, max),
        0 <= k < s.len(),
    ensures
        !covered(s, s[k].start() - 1),
        !covered(s, s[k].end()),
        forall|u: int| s[k].covers(u) ==> covered(s, u),
{
    if covered(s, s[k].start() - 1) {
        let i = choose|i: int| 0 <= i < s.len() && (#[trigger] s[i]).covers(s[k].start() - 1);
        assert(i != k);
        assert(separated(s[i], s[k]));
    }
    if covered(s, s[k].end()) {
        let i = choose|i: int| 0 <= i < s.len() && (#[trigger] s[i]).covers(s[k].end());
        assert(i != k);
        assert(separated(s[i], s[k]));
    }
    assert forall|u: int| s[k].covers(u) implies covered(s, u) by {
        assert(s[k].covers(u));
    }
}

/// Two apart sequences that cover the same chunks hold the same runs.
proof fn lemma_same_runs(s: Seq<FreeSpace>, t: Seq<FreeSpace>, max_s: int, max_t: int, k: int)
    requires
        runs_wf(s, max_s),
        runs_wf(t, max_t),
        free_set(s) == free_set(t),
        0 <= k < s.len(),
    ensures
        t.contains(s[k]),
{
    let r = s[k];
    lemma_run_is_maximal(s, max_s, k);
    assert(free_set(s).contains(r.start()));
    assert(free_set(t).contains(r.start()));
    let j = choose|j: int| 0 <= j < t.len() && (#[trigger] t[j]).covers(r.start());
    let q = t[j];
    lemma_run_is_maximal(t, max_t, j);
    if q.start() < r.start() {
        assert(q.covers(r.start() - 1));
        assert(free_set(t).contains(r.start() - 1));
        assert(free_set(s).contains(r.start() - 1));
    }
    if q.end() < r.end() {
        assert(r.covers(q.end()));
        assert(free_set(s).contains(q.end()));
        assert(free_set(t).contains(q.end()));
    }
    if q.end() > r.end() {
        assert(q.covers(r.end()));
        assert(free_set(t).contains(r.end()));
        assert(free_set(s).contains(r.end()));
    }
    assert(q == r);
}

/// The ordering keys of a sorted sequence of apart runs strictly increase.
pub open spec fn strictly_sorted(s: Seq<FreeSpace>) -> bool {
    forall|i: int, j: int| 0 <= i < j < s.len() ==> #[trigger] s[i].key() != #[trigger] s[j].key()
        && key_le(s[i].key(), s[j].key())
}

proof fn lemma_strictly_sorted(s: Seq<FreeSpace>, max: int)
    requires
        sorted(s),
        runs_wf(s, max),
    ensures
        strictly_sorted(s),
{
    assert forall|i: int, j: int| 0 <= i < j < s.len() implies #[trigger] s[i].key() != #[trigger] s[j].key()
        && key_le(s[i].key(), s[j].key()) by {
        assert(separated(s[i], s[j]));
        assert(key_le(s[i].key(), s[j].key()));
    }
}

/// Two strictly sorted sequences with the same items are equal.
proof fn lemma_sorted_unique(s: Seq<FreeSpace>, t: Seq<FreeSpace>)
    requires
        strictly_sorted(s),
        strictly_sorted(t),
        forall|x: FreeSpace| s.contains(x) <==> t.contains(x),
    ensures
        s == t,
    decreases s.len(),
{
    if s.len() == 0 {
        if t.len() > 0 {
            assert(t.contains(t[0]));
        }
        assert(s =~= t);
    } else {
        assert(s.contains(s[0]));
        let j = choose|j: int| 0 <= j < t.len() && t[j] == s[0];
        assert(t.contains(t[0]));
        let i = choose|i: int| 0 <= i < s.len() && s[i] == t[0];
        if j > 0 {
            assert(t[0].key() != t[j].key() && key_le(t[0].key(), t[j].key()));
            if i > 0 {
                assert(key_le(s[0].key(), s[i].key()));
            }
            assert(false);
        }
        let s1 = s.drop_first();
        let t1 = t.drop_first();
        assert forall|x: FreeSpace| s1.contains(x) <==> t1.contains(x) by {
            if s1.contains(x) {
                let a = choose|a: int| 0 <= a < s1.len() && s1[a] == x;
                assert(s[a + 1] == x);
                assert(s[0].key() != s[a + 1].key());
                assert(t.contains(x));
                let b = choose|b: int| 0 <= b < t.len() && t[b] == x;
                assert(b != 0);
                assert(t1[b - 1] == x);
            }
            if t1.contains(x) {
                let a = choose|a: int| 0 <= a < t1.len() && t1[a] == x;
                assert(t[a + 1] == x);
                assert(t[0].key() != t[a + 1].key());
                assert(s.contains(x));
                let b = choose|b: int| 0 <= b < s.len() && s[b] == x;
                assert(b != 0);
                assert(s1[b - 1] == x);
            }
        }
        assert forall|a: int, b: int| 0 <= a < b < s1.len() implies #[trigger] s1[a].key() != #[trigger] s1[b].key()
            && key_le(s1[a].key(), s1[b].key()) by {
            assert(s1[a] == s[a + 1] && s1[b] == s[b + 1]);
        }
        assert forall|a: int, b: int| 0 <= a < b < t1.len() implies #[trigger] t1[a].key() != #[trigger] t1[b].key()
            && key_le(t1[a].key(), t1[b].key()) by {
            assert(t1[a] == t[a + 1] && t1[b] == t[b + 1]);
        }
        lemma_sorted_unique(s1, t1);
        assert(s =~= seq![s[0]] + s1);
        assert(t =~= seq![t[0]] + t1);
    }
}

/// The free chunks determine the free list: two well-formed managers with the same free
/// chunks hold the same list of runs.
pub proof fn law_free_list_is_canonical(a: Chunks, b: Chunks)
    requires
        a.wf(),
        b.wf(),
        a.free() == b.free(),
    ensures
        a@ == b@,
{
    a.lemma_wf();
    b.lemma_wf();
    let s = a@;
    let t = b@;
    let ms = a.max_chunks() as int;
    let mt = b.max_chunks() as int;
    assert forall|x: FreeSpace| s.contains(x) <==> t.contains(x) by {
        if s.contains(x) {
            let k = choose|k: int| 0 <= k < s.len() && s[k] == x;
            lemma_same_runs(s, t, ms, mt, k);
        }
        if t.contains(x) {
            let k = choose|k: int| 0 <= k < t.len() && t[k] == x;
            lemma_same_runs(t, s, mt, ms, k);
        }
    }
    lemma_strictly_sorted(s, ms);
    lemma_strictly_sorted(t, mt);
    lemma_sorted_unique(s, t);
}

/// What `Chunks::get` hands out is handed out once: two runs obtained one after the other,
/// with no `return_back` between them, share no chunk.
pub proof fn law_successive_gets_do_not_overlap(
    before: Chunks,
    first: FreeSpace,
    between: Chunks,
    second: FreeSpace,
    after: Chunks,
)
    requires
        units(first).subset_of(before.free()),
        between.free() == before.free().difference(units(first)),
        units(second).subset_of(between.free()),
        after.free() == between.free().difference(units(second)),
    ensures
        units(first).disjoint(units(second)),
        units(first).disjoint(after.free()),
        units(second).disjoint(after.free()),
{
}

/// What `Chunks::get` hands out can be given back with `Chunks::return_back`, at the byte
/// offset and with the byte size of the run: the call's requirements then hold, and giving
/// it back restores exactly the free chunks there were before `get`.
pub proof fn law_get_then_return_back(
    before: Chunks,
    after_get: Chunks,
    space: FreeSpace,
    after_return: Chunks,
)
    requires
        before.wf(),
        after_get.max_chunks() == before.max_chunks(),
        space.len() > 0,
        units(space).subset_of(before.free()),
        after_get.free() == before.free().difference(units(space)),
        after_return.free() == after_get.free() + units(
            returned_run((space.start() * CHUNK_SIZE) as usize, (space.len() * CHUNK_SIZE) as usize),
        ),
    ensures
        space.end() * CHUNK_SIZE <= usize::MAX,
        ((space.start() * CHUNK_SIZE) as usize) % CHUNK_SIZE == 0,
        returned_run((space.start() * CHUNK_SIZE) as usize, (space.len() * CHUNK_SIZE) as usize) == space,
        returned_run((space.start() * CHUNK_SIZE) as usize, (space.len() * CHUNK_SIZE) as usize).end()
            <= after_get.max_chunks(),
        units(space).disjoint(after_get.free()),
        after_return.free() == before.free(),
        after_return.wf() ==> after_return@ == before@,
{
    before.lemma_wf();
    assert(units(space).contains(space.start()));
    assert(units(space).contains(space.end() - 1));
    assert(set_int_range(0, before.max_chunks() as int).contains(space.end() - 1));
    let shift = (space.start() * CHUNK_SIZE) as usize;
    let size = (space.len() * CHUNK_SIZE) as usize;
    assert(shift / CHUNK_SIZE == space.start());
    assert(size % CHUNK_SIZE == 0 && size / CHUNK_SIZE == space.len());
    assert(returned_run(shift, size) == space);
    assert(after_return.free() =~= before.free());
    if after_return.wf() {
        law_free_list_is_canonical(after_return, before);
    }
}

} // verus!
