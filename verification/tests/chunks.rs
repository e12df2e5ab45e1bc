use shmem_utils::allocator::chunks::sorted_vec::FixesSortedVec;
use shmem_utils::allocator::chunks::Chunks;
use shmem_utils::allocator::free_chunk::{FreeSpace, RelativeBeginning};

/// Storage for the list of free runs of a manager of `n` chunks.
fn storage(n: usize) -> Vec<FreeSpace> {
    vec![FreeSpace::new(RelativeBeginning::zero(), 1); n]
}

/// A small deterministic generator of pseudo-random numbers (xorshift).
struct Rng(u64);

impl Rng {
    fn next(&mut self) -> u64 {
        let mut x = self.0;
        x ^= x << 13;
        x ^= x >> 7;
        x ^= x << 17;
        self.0 = x;
        x
    }

    fn gen_bool(&mut self) -> bool {
        self.next() % 2 == 0
    }

    fn gen_range(&mut self, low: usize, high: usize) -> usize {
        low + (self.next() % ((high - low) as u64)) as usize
    }
}

#[test]
fn initial() {
    let mut backing = storage(10);
    let chunks = Chunks::new(10, &mut backing).unwrap();
    assert_eq!(chunks.free_chunks().len(), 1);
    assert_eq!(chunks.free_space(), 10 * Chunks::CHUNK_SIZE);
}

#[test]
fn find_free() {
    let max_chunks = 10;
    let size = max_chunks * Chunks::CHUNK_SIZE;

    for size in 1..size {
        let mut backing = storage(max_chunks);
        let mut chunks = Chunks::new(max_chunks, &mut backing).unwrap();
        let free_chunk = chunks
            .get(size)
            .unwrap_or_else(|| panic!("size = {}", size));
        assert!(
            free_chunk.count() * Chunks::CHUNK_SIZE >= size,
            "size = {}",
            size
        );
        assert!(chunks.self_check());
    }
}

#[test]
fn random_actions() {
    const ITERATIONS: usize = 100_000;

    let max_chunks = 1000;
    let mut backing = storage(max_chunks);
    let mut chunks = Chunks::new(max_chunks, &mut backing).unwrap();
    let mut rng = Rng(0x2545_f491_4f6c_dd1d);

    let mut taken_away = std::vec::Vec::new();
    for _ in 0..ITERATIONS {
        if rng.gen_bool() {
            // Take.
            let size: usize = rng.gen_range(0, max_chunks * Chunks::CHUNK_SIZE);
            let free_space = chunks.free_space();
            let maybe_chunk = chunks.get(size);
            if size <= free_space {
                taken_away.push(maybe_chunk.unwrap());
                assert!(chunks.self_check());
            } else {
                assert!(
                    maybe_chunk.is_none(),
                    "size = {}, free = {}, chunk = {:?}",
                    size,
                    free_space,
                    maybe_chunk
                );
            }
        } else {
            // Return back.
            if taken_away.is_empty() {
                continue;
            }
            let n = rng.gen_range(0, taken_away.len());
            let chunk: FreeSpace = taken_away.remove(n);
            if chunk.count() == 0 {
                // An empty space holds no chunk to give back.
                continue;
            }
            chunks.return_back(chunk.begin().0 * Chunks::CHUNK_SIZE, chunk.count() * Chunks::CHUNK_SIZE);
            assert!(chunks.self_check());
        }
    }
}

#[test]
fn get_takes_the_smallest_fitting_run() {
    let mut backing = storage(20);
    let mut chunks = Chunks::new(20, &mut backing).unwrap();
    // Carve the memory into [0, 4) [4, 5) [5, 11) [11, 12) [12, 20).
    let a = chunks.get(4 * 8).unwrap();
    let b = chunks.get(8).unwrap();
    let c = chunks.get(6 * 8).unwrap();
    let d = chunks.get(1).unwrap();
    assert_eq!((a.begin(), a.count()), (RelativeBeginning(0), 4));
    assert_eq!((b.begin(), b.count()), (RelativeBeginning(4), 1));
    assert_eq!((c.begin(), c.count()), (RelativeBeginning(5), 6));
    assert_eq!((d.begin(), d.count()), (RelativeBeginning(11), 1));
    // Free runs: [0, 4) and [5, 11) come back apart; [12, 20) is free.
    chunks.return_back(0, 4 * 8);
    chunks.return_back(5 * 8, 6 * 8);
    assert_eq!(chunks.free_chunks().len(), 3);
    // Five chunks fit in the run of six best.
    let e = chunks.get(5 * 8).unwrap();
    assert_eq!((e.begin(), e.count()), (RelativeBeginning(5), 5));
    // Nine chunks fit nowhere.
    assert!(chunks.get(9 * 8).is_none());
    assert!(chunks.self_check());
}

#[test]
fn return_back_merges_neighbours() {
    let mut backing = storage(12);
    let mut chunks = Chunks::new(12, &mut backing).unwrap();
    let a = chunks.get(3 * 8).unwrap();
    let b = chunks.get(3 * 8).unwrap();
    let c = chunks.get(3 * 8).unwrap();
    assert_eq!(chunks.free_chunks().len(), 1);
    chunks.return_back(a.begin().0 * 8, 3 * 8);
    chunks.return_back(c.begin().0 * 8, 3 * 8);
    assert_eq!(chunks.free_chunks().len(), 2);
    chunks.return_back(b.begin().0 * 8, 3 * 8);
    assert_eq!(chunks.free_chunks().len(), 1);
    assert_eq!(chunks.free_space(), 12 * 8);
    assert!(chunks.self_check());
}

#[test]
fn get_then_return_back_restores() {
    let mut backing = storage(16);
    let mut chunks = Chunks::new(16, &mut backing).unwrap();
    let keep = chunks.get(5).unwrap();
    let before: Vec<FreeSpace> = chunks.free_chunks().as_slice().to_vec();
    let space = chunks.get(3 * 8 + 1).unwrap();
    assert_eq!(space.count(), 4);
    chunks.return_back(space.begin().0 * 8, space.count() * 8);
    assert_eq!(chunks.free_chunks().as_slice(), &before[..]);
    assert_eq!(keep.count(), 1);
}

#[test]
fn get_on_exhausted_memory() {
    let mut backing = storage(2);
    let mut chunks = Chunks::new(2, &mut backing).unwrap();
    assert!(chunks.get(16).is_some());
    assert_eq!(chunks.free_space(), 0);
    assert!(chunks.get(1).is_none());
    assert!(chunks.get(0).is_none());
}

#[test]
fn sorted_vec_check() {
    let items = vec![5usize, 3, 9, 3, 0, 12, 7, 7, 1];
    let mut backing = storage(items.len());
    let mut v = FixesSortedVec::new(items.len(), &mut backing).unwrap();
    for (shift, item) in items.iter().enumerate() {
        v.push(FreeSpace::new(RelativeBeginning(shift), *item + 1));
    }
    let counts: Vec<usize> = v.as_slice().iter().map(|space| space.count() - 1).collect();
    let mut items = items;
    items.sort();
    assert_eq!(&counts[..], &items[..]);
    let popped = v.pop(0);
    assert_eq!(popped.count(), 1);
    assert_eq!(v.len(), 8);
}

#[test]
fn successive_gets_do_not_overlap() {
    let mut backing = storage(32);
    let mut chunks = Chunks::new(32, &mut backing).unwrap();
    let mut taken: Vec<(usize, usize)> = Vec::new();
    for size in [1usize, 17, 8, 40, 3, 64] {
        let space = chunks.get(size).unwrap();
        let (start, end) = (space.begin().0, space.begin().0 + space.count());
        for &(other_start, other_end) in &taken {
            assert!(end <= other_start || other_end <= start);
        }
        taken.push((start, end));
    }
    let used: usize = taken.iter().map(|(start, end)| end - start).sum();
    assert_eq!(used, 1 + 3 + 1 + 5 + 1 + 8);
    assert!(chunks.self_check());
}

#[test]
fn storage_too_small() {
    let mut small = storage(3);
    assert!(Chunks::new(4, &mut small).is_err());
    assert!(FixesSortedVec::new(4, &mut small).is_err());
    let chunks = Chunks::new(3, &mut small).unwrap();
    assert_eq!(chunks.free_space(), 24);
}
