# shmem_utils

Building blocks for inter-process communication through shared memory: a fixed-capacity
allocator of a shared buffer, bounded queues, and channels between processes that fork.

The crate is written in Verus. `src/` is the verified library:

- `allocator` — the allocator's bookkeeping (`ShmemAlloc`), its manager of free chunks
  (`allocator::chunks::Chunks`), the sorted list the manager keeps
  (`allocator::chunks::sorted_vec::FixesSortedVec`, kept in storage that its creator
  provides) and the runs of free chunks
  (`allocator::free_chunk`). The contracts speak of the set of free chunks; the laws state
  that blocks are handed out once, that giving a block back restores the free chunks, and
  that the free chunks determine the free list.
- `fixed_queue` — a double-ended queue with a fixed capacity (`BoundedQueue`), a ring of
  slots in storage that its creator provides.
- `channel` — what the channel's operations decide once its queue is locked, and the
  counters of senders and receivers.
- `process_rc` — a reference counter that starts over in a forked process.
- `time` — arithmetic on `timespec`-like instants.
- `condvar`, `memmap`, `pagesize` — the decisions around timed waits, `mmap` results and the
  reported page size.

`app/` holds what talks to the system: `pthread` mutexes and condition variables in shared
memory, `mmap`, clocks, and the channel and queue handles that wire these to the library.
It maps the queues' slots and the allocator's list of free runs into shared memory, next to
the headers that describe them, so that processes that fork share them.
