use shmem_utils::allocator::free_chunk::{FreeSpace, RelativeBeginning, CHUNK_SIZE};

#[test]
fn check_contiguous() {
    let first = FreeSpace::new(RelativeBeginning(0), 3);
    let second = FreeSpace::new(RelativeBeginning(3), 10);
    let third = FreeSpace::new(RelativeBeginning(14), 10);

    assert!(FreeSpace::are_contiguous(&first, &second));
    assert!(!FreeSpace::are_contiguous(&second, &third));
}

#[test]
fn same() {
    for begin in [0usize, 1, 7, 1000, usize::MAX / 2] {
        for count in [1usize, 2, 10, 12345] {
            let chunk = FreeSpace::new(RelativeBeginning(begin), count);
            assert!(!FreeSpace::are_contiguous(&chunk, &chunk));
        }
    }
}

#[test]
fn contiguous() {
    for begin in [0usize, 5, 4096, usize::MAX / 4] {
        for count1 in [1usize, 3, 99] {
            let chunk1 = FreeSpace::new(RelativeBeginning(begin), count1);
            let chunk2 = FreeSpace::new(RelativeBeginning(begin + count1), 10);
            assert!(FreeSpace::are_contiguous(&chunk1, &chunk2));
        }
    }
}

#[test]
fn non_contiguous() {
    for begin in [0usize, 5, 4096] {
        for count in [1usize, 3, 99] {
            for additional_shift in [1usize, 2, 1000] {
                let chunk1 = FreeSpace::new(RelativeBeginning(begin), count);
                let chunk2 = FreeSpace::new(RelativeBeginning(begin + count + additional_shift), 10);
                assert!(!FreeSpace::are_contiguous(&chunk1, &chunk2));
            }
        }
    }
}

#[test]
fn split() {
    for count in [1usize, 2, 7, 30] {
        let first = FreeSpace::new(RelativeBeginning(0), count);
        let (new, free) = first.split(count);
        assert_eq!(new, first);
        assert!(free.is_none());

        for required in 1..count {
            let (new, free) = first.split(required);
            let free = free.unwrap();
            assert_eq!(first.relative_beginning, new.relative_beginning);

            assert!(FreeSpace::are_contiguous(&new, &free));
            assert_eq!(new.count + free.count, count);
        }
    }
}

#[test]
fn split_then_merge_restores() {
    let space = FreeSpace::new(RelativeBeginning(40), 9);
    for required in 1..9 {
        let (used, unused) = space.split(required);
        let unused = unused.unwrap();
        assert_eq!(used.count(), required);
        assert_eq!(unused.begin(), RelativeBeginning(40 + required));
        assert_eq!(used.merge(unused), Some(space));
        assert_eq!(unused.merge(used), Some(space));
    }
}

#[test]
fn merge_on_either_side() {
    let left = FreeSpace::new(RelativeBeginning(2), 3);
    let right = FreeSpace::new(RelativeBeginning(5), 4);
    let far = FreeSpace::new(RelativeBeginning(10), 1);
    let expected = FreeSpace::new(RelativeBeginning(2), 7);
    assert_eq!(left.merge(right), Some(expected));
    assert_eq!(right.merge(left), Some(expected));
    assert_eq!(left.merge(far), None);
    assert_eq!(far.merge(right), None);
}

#[test]
fn relative_beginning() {
    assert_eq!(RelativeBeginning::zero(), RelativeBeginning(0));
    assert_eq!(RelativeBeginning::from_bytes(0), RelativeBeginning(0));
    assert_eq!(RelativeBeginning::from_bytes(7), RelativeBeginning(0));
    assert_eq!(RelativeBeginning::from_bytes(8), RelativeBeginning(1));
    assert_eq!(RelativeBeginning::from_bytes(8 * 13 + 5), RelativeBeginning(13));
    assert_eq!(RelativeBeginning(4).add(6), RelativeBeginning(10));
    assert_eq!(RelativeBeginning(3).into_absolute(0x1000), 0x1000 + 3 * CHUNK_SIZE);
}

#[test]
fn ordering_key() {
    let small = FreeSpace::new(RelativeBeginning(100), 2);
    let big = FreeSpace::new(RelativeBeginning(1), 3);
    assert_eq!(small.sort_key(), (2, 100));
    assert!(small.sort_key() < big.sort_key());
    assert!(small < big);
}

#[test]
fn split_whole_run_at_the_top_of_the_address_range() {
    let top = FreeSpace::new(RelativeBeginning(usize::MAX), 3);
    let (used, unused) = top.split(3);
    assert_eq!(used, top);
    assert!(unused.is_none());
}
