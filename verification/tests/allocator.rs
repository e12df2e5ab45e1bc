use shmem_utils::allocator::chunks::sorted_vec::RawVecError;
use shmem_utils::allocator::{AllocError, Excess, InitializationError, ShmemAlloc};
use shmem_utils::allocator::free_chunk::{FreeSpace, RelativeBeginning};
use shmem_utils::memmap::MemmapAlloc;

/// Storage for the list of free runs of an allocator of `capacity` bytes.
fn storage(capacity: usize) -> Vec<FreeSpace> {
    vec![FreeSpace::new(RelativeBeginning::zero(), 1); capacity / ShmemAlloc::ALIGNMENT]
}
use std::mem::size_of;

#[test]
fn allocator_check() {
    let mut buffer = vec![0u128; 1024 / size_of::<u128>()];
    let base = buffer.as_ptr() as usize;
    let mut backing = storage(1024);
    let mut chunks = ShmemAlloc::initial_chunks(1024, &mut backing).unwrap();
    let allocator = ShmemAlloc::from_buffer(base, 1024);
    let ptr = allocator
        .allocate(&mut chunks, size_of::<u128>(), ShmemAlloc::ALIGNMENT)
        .unwrap();
    assert!(ptr >= base && ptr + size_of::<u128>() <= base + 1024);
    assert_eq!((ptr - base) % ShmemAlloc::ALIGNMENT, 0);

    let index = (ptr - base) / size_of::<u128>();
    buffer[index] = 442343;
    assert_eq!(buffer[index], 442343);
    buffer[index] = 1;
    assert_eq!(buffer[index], 1);
}

#[test]
fn initialization_errors() {
    let mut backing = storage(1024);
    assert_eq!(ShmemAlloc::initial_chunks(0, &mut backing).err(), Some(InitializationError::ZeroCapacity));
    assert_eq!(
        ShmemAlloc::initial_chunks(1023, &mut backing).err(),
        Some(InitializationError::UnalignedCapacity { capacity: 1023 })
    );
    assert_eq!(
        ShmemAlloc::initial_chunks(2048, &mut backing).err(),
        Some(InitializationError::InternalVector { chunks: 256, source: RawVecError::Allocation })
    );
    let mut backing = storage(80);
    let chunks = ShmemAlloc::initial_chunks(80, &mut backing).unwrap();
    assert_eq!(chunks.free_space(), 80);
    assert_eq!(chunks.free_chunks().len(), 1);
}

#[test]
fn alignment() {
    assert_eq!(ShmemAlloc::check_alignment(16, 8), Ok(()));
    assert_eq!(ShmemAlloc::check_alignment(16, 4), Ok(()));
    assert_eq!(ShmemAlloc::check_alignment(16, 1), Ok(()));
    assert_eq!(ShmemAlloc::check_alignment(0, 16), Ok(()));
    assert_eq!(ShmemAlloc::check_alignment(16, 0), Ok(()));
    assert_eq!(ShmemAlloc::check_alignment(16, 16), Err(AllocError { size: 16, align: 16 }));
    assert_eq!(ShmemAlloc::check_alignment(3, 3), Err(AllocError { size: 3, align: 3 }));
}

#[test]
fn usable_size() {
    assert_eq!(ShmemAlloc::usable_size(16, 8), (16, 16));
    assert_eq!(ShmemAlloc::usable_size(0, 8), (0, 0));
    assert_eq!(ShmemAlloc::usable_size(17, 8), (18, 18));
    assert_eq!(ShmemAlloc::usable_size(5, 1), (0, 0));
    assert_eq!(ShmemAlloc::usable_size(16, 32), (0, 0));
}

#[test]
fn excess_and_zero_sized_blocks() {
    let base = 0x10_0000;
    let mut backing = storage(64);
    let mut chunks = ShmemAlloc::initial_chunks(64, &mut backing).unwrap();
    let allocator = ShmemAlloc::from_buffer(base, 64);
    assert_eq!(allocator.alloc_excess(&mut chunks, 0, 4), Ok(Excess(4, 0)));
    assert_eq!(allocator.alloc_excess(&mut chunks, 13, 8), Ok(Excess(base, 16)));
    assert_eq!(allocator.alloc_excess(&mut chunks, 8, 8), Ok(Excess(base + 16, 8)));
    assert_eq!(allocator.alloc_excess(&mut chunks, 41, 8), Err(AllocError { size: 41, align: 8 }));
    assert_eq!(allocator.alloc_excess(&mut chunks, 8, 16), Err(AllocError { size: 8, align: 16 }));
    assert_eq!(allocator.alloc_zeroed(&mut chunks, 40, 8), Ok(base + 24));
    assert_eq!(chunks.free_space(), 0);
}

#[test]
fn dealloc_gives_back() {
    let base = 0x20_0000;
    let mut backing = storage(64);
    let mut chunks = ShmemAlloc::initial_chunks(64, &mut backing).unwrap();
    let allocator = ShmemAlloc::from_buffer(base, 64);
    let a = allocator.allocate(&mut chunks, 24, 8).unwrap();
    let b = allocator.allocate(&mut chunks, 40, 8).unwrap();
    assert_eq!(chunks.free_space(), 0);
    // Nothing happens for the placeholder of an empty block, an unsupported alignment or an
    // address below the buffer.
    allocator.dealloc(&mut chunks, 8, 0, 8);
    allocator.dealloc(&mut chunks, a, 24, 16);
    allocator.dealloc(&mut chunks, base - 8, 8, 8);
    assert_eq!(chunks.free_space(), 0);
    allocator.dealloc(&mut chunks, a, 24, 8);
    assert_eq!(chunks.free_space(), 24);
    allocator.dealloc(&mut chunks, b, 40, 8);
    assert_eq!(chunks.free_space(), 64);
    assert_eq!(chunks.free_chunks().len(), 1);
}

#[test]
fn memmap_accepts_aligned_mappings() {
    assert_eq!(MemmapAlloc::accept_mapping(Some(4096), 100, 8), Ok(4096));
    assert_eq!(MemmapAlloc::accept_mapping(Some(4100), 100, 8), Err(AllocError { size: 100, align: 8 }));
    assert_eq!(MemmapAlloc::accept_mapping(Some(0), 100, 8), Err(AllocError { size: 100, align: 8 }));
    assert_eq!(MemmapAlloc::accept_mapping(None, 100, 8), Err(AllocError { size: 100, align: 8 }));
}

#[test]
fn allocate_then_dealloc_restores() {
    let base = 0x30_0000;
    let mut backing = storage(128);
    let mut chunks = ShmemAlloc::initial_chunks(128, &mut backing).unwrap();
    let allocator = ShmemAlloc::from_buffer(base, 128);
    let first = allocator.allocate(&mut chunks, 20, 4).unwrap();
    let before = chunks.free_chunks().as_slice().to_vec();
    let ptr = allocator.allocate(&mut chunks, 33, 8).unwrap();
    assert!(ptr >= base && ptr + 40 <= base + 128);
    assert!(ptr >= first + 24 || ptr + 40 <= first);
    allocator.dealloc(&mut chunks, ptr, 33, 8);
    assert_eq!(chunks.free_chunks().as_slice(), &before[..]);
}

#[test]
fn blocks_are_aligned() {
    let base = 0x40_0000;
    let mut backing = storage(64);
    let mut chunks = ShmemAlloc::initial_chunks(64, &mut backing).unwrap();
    let allocator = ShmemAlloc::from_buffer(base, 64);
    for (size, align) in [(3usize, 1usize), (5, 2), (7, 4), (9, 8)] {
        let ptr = allocator.allocate(&mut chunks, size, align).unwrap();
        assert_eq!(ptr % align, 0);
        assert_eq!(ptr % ShmemAlloc::ALIGNMENT, 0);
    }
}

#[test]
fn allocate_uses_the_smallest_fitting_run() {
    let base = 0x50_0000;
    let mut backing = storage(160);
    let mut chunks = ShmemAlloc::initial_chunks(160, &mut backing).unwrap();
    let allocator = ShmemAlloc::from_buffer(base, 160);
    let a = allocator.allocate(&mut chunks, 32, 8).unwrap();
    let b = allocator.allocate(&mut chunks, 8, 8).unwrap();
    let c = allocator.allocate(&mut chunks, 48, 8).unwrap();
    let d = allocator.allocate(&mut chunks, 8, 8).unwrap();
    assert_eq!((a, b, c, d), (base, base + 32, base + 40, base + 88));
    allocator.dealloc(&mut chunks, a, 32, 8);
    allocator.dealloc(&mut chunks, c, 48, 8);
    // Free runs of 4, 6 and 8 chunks: 40 bytes go to the run of six.
    assert_eq!(allocator.allocate(&mut chunks, 40, 8), Ok(base + 40));
    // 32 bytes fit the run of four exactly.
    assert_eq!(allocator.allocate(&mut chunks, 32, 8), Ok(base));
}
