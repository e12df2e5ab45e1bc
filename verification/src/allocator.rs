pub mod chunks;
pub mod free_chunk;

use chunks::{best_fit, required_chunks, returned_run, units, Chunks};
use chunks::sorted_vec::RawVecError;
use free_chunk::{FreeSpace, CHUNK_SIZE};
use vstd::prelude::*;

verus! {

/// A request that an allocator could not serve: the size and alignment asked for.
#[derive(Debug, Clone, Copy, PartialEq, Eq, Structural)]
pub struct AllocError {
    pub size: usize,
    pub align: usize,
}

/// A block handed out by an allocator: its address and its usable size in bytes.
#[derive(Debug, Clone, Copy, PartialEq, Eq, Structural)]
pub struct Excess(pub usize, pub usize);

/// Shared memory allocator initialization error.
#[derive(Debug, Clone, Copy, PartialEq, Eq, Structural)]
pub enum InitializationError {
    /// Zero bytes capacity is not supported.
    ZeroCapacity,
    /// Unaligned capacity.
    UnalignedCapacity { capacity: usize },
    /// Unable to initialize internal vector with `chunks` chunks.
    InternalVector { chunks: usize, source: RawVecError },
    /// Unable to initialize internal buffer.
    InternalBuffer { source: AllocError },
    /// Unable to initialize a memory buffer.
    MemoryBuffer { source: AllocError },
}

/// Whether the allocator can serve a block of `size` bytes aligned to `align`: blocks of
/// zero size, or with no alignment, always; others when `align` divides the alignment of
/// the chunks.
pub open spec fn alignment_supported(size: usize, align: usize) -> bool {
    align == 0 || size == 0 || ShmemAlloc::ALIGNMENT % align == 0
}

/// An address aligned to `ALIGNMENT` is aligned to every alignment that divides it.
proof fn lemma_aligned(ptr: int, align: usize)
    requires
        ptr >= 0,
        ptr % (CHUNK_SIZE as int) == 0,
        align != 0,
        ShmemAlloc::ALIGNMENT % align == 0,
    ensures
        ptr % (align as int) == 0,
{
    let q = ptr / 8;
    assert(ptr == 8 * q);
    if align > 8 {
        vstd::arithmetic::div_mod::lemma_small_mod(8, align as nat);
    }
    assert(align <= 8);
    if align == 1 {
    } else if align == 2 {
        assert((8 * q) % 2 == 0);
    } else if align == 4 {
        assert((8 * q) % 4 == 0);
    } else if align == 8 {
    } else {
        assert(align == 3 || align == 5 || align == 6 || align == 7);
        assert(8usize % align != 0);
    }
}

/// What `ShmemAlloc::usable_size` reports for a block of `size` bytes.
pub open spec fn usable_bytes(size: usize) -> int {
    if size % CHUNK_SIZE == 0 {
        size as int
    } else {
        (size / CHUNK_SIZE) * (CHUNK_SIZE + 1)
    }
}

/// A block whose size is a whole number of chunks is usable to its last byte; no block is
/// reported smaller than the whole chunks it asked for.
pub proof fn law_usable_bytes(size: usize)
    ensures
        size % CHUNK_SIZE == 0 ==> usable_bytes(size) == size,
        usable_bytes(size) >= size - size % CHUNK_SIZE,
{
    vstd::arithmetic::div_mod::lemma_fundamental_div_mod(size as int, CHUNK_SIZE as int);
}

/// The alignments served are 1, 2, 4 and 8, and no alignment at all; a block of zero bytes
/// is served whatever its alignment.
pub proof fn law_alignment_supported(size: usize, align: usize)
    ensures
        alignment_supported(0, align),
        alignment_supported(size, 0),
        align == 1 || align == 2 || align == 4 || align == 8 ==> alignment_supported(size, align),
        size != 0 && align != 0 && !(align == 1 || align == 2 || align == 4 || align == 8) ==> !alignment_supported(
            size,
            align,
        ),
{
    if align > 8 {
        vstd::arithmetic::div_mod::lemma_small_mod(8, align as nat);
    } else if align == 1 {
        assert(8usize % 1 == 0);
    } else if align == 2 {
        assert(8usize % 2 == 0);
    } else if align == 4 {
        assert(8usize % 4 == 0);
    } else if align == 8 {
        assert(8usize % 8 == 0);
    } else if align == 3 {
        assert(8usize % 3 != 0);
    } else if align == 5 {
        assert(8usize % 5 != 0);
    } else if align == 6 {
        assert(8usize % 6 != 0);
    } else if align == 7 {
        assert(8usize % 7 != 0);
    }
}

/// Shared memory allocator with a fixed capacity: the address of its memory buffer and the
/// buffer's size. Its free chunks are kept in a [`Chunks`] manager of `capacity / ALIGNMENT`
/// chunks, which the callers keep under a lock and hand to each call.
#[derive(Debug, Clone, Copy, PartialEq, Eq, Structural)]
pub struct ShmemAlloc {
    memory_buffer: usize,
    capacity: usize,
}

impl ShmemAlloc {
    /// Alignment of the allocated memory chunks.
    pub const ALIGNMENT: usize = 8;

    /// Address of the memory buffer.
    pub closed spec fn base(self) -> int {
        self.memory_buffer as int
    }

    /// Size of the memory buffer in bytes.
    pub closed spec fn size(self) -> int {
        self.capacity as int
    }

    /// The buffer lies within the address space, at a non-null address aligned to
    /// `ALIGNMENT`, and `chunks` manages its chunks.
    pub open spec fn manages(self, chunks: Chunks) -> bool {
        &&& self.base() > 0
        &&& self.base() % (CHUNK_SIZE as int) == 0
        &&& chunks.wf()
        &&& chunks.max_chunks() * CHUNK_SIZE == self.size()
        &&& self.base() + self.size() <= usize::MAX
    }

    /// Checks the capacity requested of a new allocator and creates the manager of its
    /// free chunks, all of them free, keeping its list of free runs in `storage`.
    ///
    /// Fails if `capacity` is zero, if it is not divisible by `ShmemAlloc::ALIGNMENT`, or
    /// if `storage` cannot hold one run per chunk.
    pub fn initial_chunks<'a>(capacity: usize, storage: &'a mut [FreeSpace]) -> (r: Result<Chunks<'a>, InitializationError>)
        ensures
            capacity == 0 ==> r == Err::<Chunks<'a>, InitializationError>(InitializationError::ZeroCapacity),
            capacity != 0 && capacity % Self::ALIGNMENT != 0 ==> r == Err::<Chunks<'a>, InitializationError>(
                (InitializationError::UnalignedCapacity { capacity }),
            ),
            capacity != 0 && capacity % Self::ALIGNMENT == 0 ==> ((r is Ok) <==> old(storage)@.len() >= capacity
                / Self::ALIGNMENT),
            capacity != 0 && capacity % Self::ALIGNMENT == 0 ==> match r {
                Ok(c) => c.wf() && c.max_chunks() == capacity / Self::ALIGNMENT && c.free()
                    == vstd::set_lib::set_int_range(0, (capacity / Self::ALIGNMENT) as int),
                Err(e) => e == (InitializationError::InternalVector {
                    chunks: capacity / Self::ALIGNMENT,
                    source: RawVecError::Allocation,
                }),
            },
    {
        if capacity == 0 {
            return Err(InitializationError::ZeroCapacity);
        }
        if capacity % Self::ALIGNMENT != 0 {
            return Err(InitializationError::UnalignedCapacity { capacity });
        }
        let max_chunks_count = capacity / Self::ALIGNMENT;
        match Chunks::new(max_chunks_count, storage) {
            Ok(chunks) => Ok(chunks),
            Err(source) => Err(InitializationError::InternalVector { chunks: max_chunks_count, source }),
        }
    }

    /// The allocator of the buffer of `capacity` bytes at address `memory_buffer`, a non-null
    /// address aligned to `ALIGNMENT`.
    pub fn from_buffer(memory_buffer: usize, capacity: usize) -> (r: Self)
        requires
            memory_buffer != 0,
            memory_buffer % Self::ALIGNMENT == 0,
        ensures
            r.base() == memory_buffer,
            r.size() == capacity,
    {
        ShmemAlloc { memory_buffer, capacity }
    }

    /// Address of the memory buffer.
    pub fn memory_buffer(&self) -> (r: usize)
        ensures
            r == self.base(),
    {
        self.memory_buffer
    }

    /// Checks that blocks of `size` bytes aligned to `align` can be served.
    pub fn check_alignment(size: usize, align: usize) -> (r: Result<(), AllocError>)
        ensures
            (r is Ok) <==> alignment_supported(size, align),
            r matches Err(e) ==> e == (AllocError { size, align }),
    {
        if align == 0 || size == 0 {
            return Ok(());
        }
        if Self::ALIGNMENT % align != 0 {
            Err(AllocError { size, align })
        } else {
            Ok(())
        }
    }

    /// The usable size of a block of `size` bytes aligned to `align`, as a lower and an
    /// upper bound; `(0, 0)` when such blocks cannot be served.
    pub fn usable_size(size: usize, align: usize) -> (r: (usize, usize))
        requires
            alignment_supported(size, align) ==> size % CHUNK_SIZE == 0 || (size / CHUNK_SIZE) * (CHUNK_SIZE + 1)
                <= usize::MAX,
        ensures
            alignment_supported(size, align) ==> r.0 == usable_bytes(size) && r.1 == usable_bytes(size),
            !alignment_supported(size, align) ==> r == (0usize, 0usize),
            alignment_supported(size, align) && size % CHUNK_SIZE == 0 ==> r == (size, size),
            alignment_supported(size, align) ==> r.0 == r.1 && r.0 >= size - size % CHUNK_SIZE,
    {
        proof {
            law_usable_bytes(size);
        }
        if Self::check_alignment(size, align).is_ok() {
            let size = if size % Chunks::CHUNK_SIZE == 0 {
                size
            } else {
                (size / Chunks::CHUNK_SIZE) * (Chunks::CHUNK_SIZE + 1)
            };
            (size, size)
        } else {
            (0, 0)
        }
    }

    /// Allocates a block of `size` bytes aligned to `align` from the free chunks, and
    /// returns its address and usable size.
    ///
    /// A block of zero bytes takes no chunk and is placed at address `align`. Otherwise the
    /// block is cut from the beginning of the smallest free run that holds enough chunks; if
    /// there is none, the request is refused and nothing changes.
    pub fn alloc_excess(&self, free_chunks: &mut Chunks, size: usize, align: usize) -> (r: Result<Excess, AllocError>)
        requires
            self.manages(*old(free_chunks)),
        ensures
            self.manages(*final(free_chunks)),
            !alignment_supported(size, align) ==> r == Err::<Excess, AllocError>((AllocError { size, align })),
            alignment_supported(size, align) && size == 0 ==> r == Ok::<Excess, AllocError>(Excess(align, 0)),
            (r is Err) || size == 0 ==> final(free_chunks)@ == old(free_chunks)@,
            alignment_supported(size, align) && size != 0 ==> ((r is Ok) <==> exists|i: int|
                0 <= i < old(free_chunks)@.len() && (#[trigger] old(free_chunks)@[i]).len() >= required_chunks(size)),
            (r is Err) ==> r == Err::<Excess, AllocError>((AllocError { size, align })),
            size != 0 && align != 0 ==> (r matches Ok(Excess(ptr, _)) ==> ptr % align == 0),
            size != 0 ==> (r matches Ok(Excess(ptr, usable)) ==> self.base() <= ptr && ptr + usable <= self.base()
                + self.size() && (ptr - self.base()) % (CHUNK_SIZE as int) == 0),
            size != 0 ==> (r matches Ok(Excess(ptr, usable)) ==> exists|space: FreeSpace| {
                &&& space.len() == required_chunks(size)
                &&& best_fit(old(free_chunks)@, space.start(), required_chunks(size))
                &&& ptr == self.base() + space.start() * CHUNK_SIZE
                &&& usable == space.len() * CHUNK_SIZE
                &&& #[trigger] units(space).subset_of(old(free_chunks).free())
                &&& final(free_chunks).free() == old(free_chunks).free().difference(units(space))
            }),
    {
        Self::check_alignment(size, align)?;
        if size == 0 {
            return Ok(Excess(align, 0));
        }
        proof {
            free_chunks.lemma_wf();
        }
        match free_chunks.get(size) {
            Some(chunk) => {
                proof {
                    assert(units(chunk).contains(chunk.start()));
                    assert(units(chunk).contains(chunk.end() - 1));
                    assert(vstd::set_lib::set_int_range(0, free_chunks.max_chunks() as int).contains(chunk.end() - 1));
                }
                let usable_size = chunk.count() * Chunks::CHUNK_SIZE;
                let ptr = chunk.begin().into_absolute(self.memory_buffer);
                assert((ptr - self.memory_buffer) == chunk.start() * CHUNK_SIZE);
                assert((chunk.start() * CHUNK_SIZE) % (CHUNK_SIZE as int) == 0);
                proof {
                    if align != 0 {
                        lemma_aligned(ptr as int, align);
                    }
                }
                Ok(Excess(ptr, usable_size))
            },
            None => Err(AllocError { size, align }),
        }
    }
}

impl ShmemAlloc {
    /// Allocates a block of `size` bytes aligned to `align` and returns its address.
    pub fn allocate(&self, free_chunks: &mut Chunks, size: usize, align: usize) -> (r: Result<usize, AllocError>)
        requires
            self.manages(*old(free_chunks)),
        ensures
            self.manages(*final(free_chunks)),
            !alignment_supported(size, align) ==> r == Err::<usize, AllocError>((AllocError { size, align })),
            alignment_supported(size, align) && size == 0 ==> r == Ok::<usize, AllocError>(align),
            (r is Err) || size == 0 ==> final(free_chunks)@ == old(free_chunks)@,
            alignment_supported(size, align) && size != 0 ==> ((r is Ok) <==> exists|i: int|
                0 <= i < old(free_chunks)@.len() && (#[trigger] old(free_chunks)@[i]).len() >= required_chunks(size)),
            (r is Err) ==> r == Err::<usize, AllocError>((AllocError { size, align })),
            size != 0 && align != 0 ==> (r matches Ok(ptr) ==> ptr % align == 0),
            size != 0 ==> (r matches Ok(ptr) ==> self.base() <= ptr && ptr + required_chunks(size) * CHUNK_SIZE
                <= self.base() + self.size() && (ptr - self.base()) % (CHUNK_SIZE as int) == 0),
            size != 0 ==> (r matches Ok(ptr) ==> exists|space: FreeSpace| {
                &&& space.len() == required_chunks(size)
                &&& best_fit(old(free_chunks)@, space.start(), required_chunks(size))
                &&& ptr == self.base() + space.start() * CHUNK_SIZE
                &&& #[trigger] units(space).subset_of(old(free_chunks).free())
                &&& final(free_chunks).free() == old(free_chunks).free().difference(units(space))
            }),
    {
        Self::check_alignment(size, align)?;
        let Excess(ptr, _) = self.alloc_excess(free_chunks, size, align)?;
        Ok(ptr)
    }

    /// Allocates a block as `allocate` does. The chunks are not cleared: the block is zeroed
    /// only where the system handed the buffer out zeroed and no earlier block used them.
    pub fn alloc_zeroed(&self, free_chunks: &mut Chunks, size: usize, align: usize) -> (r: Result<usize, AllocError>)
        requires
            self.manages(*old(free_chunks)),
        ensures
            self.manages(*final(free_chunks)),
            !alignment_supported(size, align) ==> r == Err::<usize, AllocError>((AllocError { size, align })),
            alignment_supported(size, align) && size == 0 ==> r == Ok::<usize, AllocError>(align),
            (r is Err) || size == 0 ==> final(free_chunks)@ == old(free_chunks)@,
            alignment_supported(size, align) && size != 0 ==> ((r is Ok) <==> exists|i: int|
                0 <= i < old(free_chunks)@.len() && (#[trigger] old(free_chunks)@[i]).len() >= required_chunks(size)),
            (r is Err) ==> r == Err::<usize, AllocError>((AllocError { size, align })),
            size != 0 && align != 0 ==> (r matches Ok(ptr) ==> ptr % align == 0),
            size != 0 ==> (r matches Ok(ptr) ==> self.base() <= ptr && ptr + required_chunks(size) * CHUNK_SIZE
                <= self.base() + self.size() && (ptr - self.base()) % (CHUNK_SIZE as int) == 0),
            size != 0 ==> (r matches Ok(ptr) ==> exists|space: FreeSpace| {
                &&& space.len() == required_chunks(size)
                &&& best_fit(old(free_chunks)@, space.start(), required_chunks(size))
                &&& ptr == self.base() + space.start() * CHUNK_SIZE
                &&& #[trigger] units(space).subset_of(old(free_chunks).free())
                &&& final(free_chunks).free() == old(free_chunks).free().difference(units(space))
            }),
    {
        self.allocate(free_chunks, size, align)
    }

    /// Whether `dealloc(ptr, size, align)` gives chunks back: not for the placeholder
    /// address of an empty block, nor for an unsupported alignment, nor for an address
    /// below the buffer.
    pub open spec fn dealloc_returns(self, ptr: usize, size: usize, align: usize) -> bool {
        align != ptr && alignment_supported(size, align) && ptr >= self.base()
    }

    /// The run of chunks that `dealloc(ptr, size, _)` gives back.
    pub open spec fn dealloc_run(self, ptr: usize, size: usize) -> FreeSpace {
        returned_run((ptr - self.base()) as usize, size)
    }

    /// Gives back the block of `size` bytes at address `ptr`, allocated with alignment
    /// `align`.
    ///
    /// Does nothing for the placeholder address of an empty block, for an unsupported
    /// alignment, or for an address below the buffer; otherwise the block's chunks become
    /// free again.
    pub fn dealloc(&self, free_chunks: &mut Chunks, ptr: usize, size: usize, align: usize)
        requires
            self.manages(*old(free_chunks)),
            self.dealloc_returns(ptr, size, align) ==> {
                &&& (ptr - self.base()) % (CHUNK_SIZE as int) == 0
                &&& size > 0
                &&& self.dealloc_run(ptr, size).end() <= old(free_chunks).max_chunks()
                &&& units(self.dealloc_run(ptr, size)).disjoint(old(free_chunks).free())
            },
        ensures
            self.manages(*final(free_chunks)),
            !self.dealloc_returns(ptr, size, align) ==> final(free_chunks)@ == old(free_chunks)@,
            self.dealloc_returns(ptr, size, align) ==> final(free_chunks).free() == old(free_chunks).free()
                + units(self.dealloc_run(ptr, size)),
    {
        if align == ptr {
            return;
        }
        if Self::check_alignment(size, align).is_err() {
            return;
        }
        let shift = match ptr.checked_sub(self.memory_buffer) {
            None => {
                return;
            },
            Some(shift) => shift,
        };
        free_chunks.return_back(shift, size);
    }
}

/// A block that `allocate` hands out can be given back with `dealloc` at the same address and
/// with the same size and alignment: `dealloc` then takes the block back, its requirements
/// hold, and the free chunks, and so the free list, are those there were before `allocate`
/// (except for a block at address `ALIGNMENT` with alignment `ALIGNMENT`: it sits at the
/// placeholder address of an empty block, which `dealloc` skips).
pub proof fn law_alloc_then_dealloc(
    allocator: ShmemAlloc,
    before: Chunks,
    after_alloc: Chunks,
    size: usize,
    align: usize,
    ptr: usize,
    space: FreeSpace,
    after_dealloc: Chunks,
)
    requires
        allocator.manages(before),
        allocator.manages(after_alloc),
        after_alloc.max_chunks() == before.max_chunks(),
        alignment_supported(size, align),
        size != 0,
        space.len() == required_chunks(size),
        ptr == allocator.base() + space.start() * CHUNK_SIZE,
        units(space).subset_of(before.free()),
        after_alloc.free() == before.free().difference(units(space)),
        !(ptr == ShmemAlloc::ALIGNMENT && align == ShmemAlloc::ALIGNMENT),
        after_dealloc.free() == after_alloc.free() + units(allocator.dealloc_run(ptr, size)),
    ensures
        allocator.dealloc_returns(ptr, size, align),
        (ptr - allocator.base()) % (CHUNK_SIZE as int) == 0,
        allocator.dealloc_run(ptr, size) == space,
        allocator.dealloc_run(ptr, size).end() <= after_alloc.max_chunks(),
        units(allocator.dealloc_run(ptr, size)).disjoint(after_alloc.free()),
        after_dealloc.free() == before.free(),
        after_dealloc.wf() ==> after_dealloc@ == before@,
{
    before.lemma_wf();
    if align > 8 {
        vstd::arithmetic::div_mod::lemma_small_mod(8, align as nat);
    }
    assert(ptr != align);
    assert(space.len() > 0);
    assert(units(space).contains(space.end() - 1));
    assert(vstd::set_lib::set_int_range(0, before.max_chunks() as int).contains(space.end() - 1));
    let shift = (ptr - allocator.base()) as usize;
    assert(shift == space.start() * CHUNK_SIZE);
    assert(shift / CHUNK_SIZE == space.start());
    assert(returned_run(shift, size) == space);
    assert(after_dealloc.free() =~= before.free());
    if after_dealloc.wf() {
        chunks::law_free_list_is_canonical(after_dealloc, before);
    }
}

} // verus!
