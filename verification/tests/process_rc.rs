use shmem_utils::process_rc::{DecreaseResult, PerProcessReferences};

fn current_pid() -> i32 {
    nix::unistd::Pid::this().as_raw()
}

#[test]
fn counts_references_in_one_process() {
    let mut refs = PerProcessReferences::with_pid(42);
    refs.increase_in(42);
    refs.increase_in(42);
    assert_eq!(refs.counter, 3);
    assert_eq!(refs.decrease(42), DecreaseResult::MoveAlong);
    assert_eq!(refs.decrease(42), DecreaseResult::MoveAlong);
    assert_eq!(refs.decrease(42), DecreaseResult::YouAreTheLastOne);
}

#[test]
fn another_process_starts_over() {
    let mut refs = PerProcessReferences::with_pid(1);
    refs.increase_in(1);
    refs.increase_in(1);
    refs.increase_in(7);
    assert_eq!(refs.counter, 1);
    assert_eq!(refs.pid, 7);
    assert_eq!(refs.decrease(7), DecreaseResult::YouAreTheLastOne);
}

#[test]
fn decrease_in_a_copied_counter() {
    let mut refs = PerProcessReferences::with_pid(1);
    refs.increase_in(1);
    assert_eq!(refs.decrease(2), DecreaseResult::YouAreTheLastOne);
    assert_eq!(refs.counter, 2);
    assert_eq!(refs.pid, 2);
}

#[test]
fn calling_process() {
    let mut refs = PerProcessReferences::new();
    assert_eq!(refs.counter, 1);
    assert_eq!(refs.pid, current_pid());
    assert!(refs.increase());
    assert_eq!(refs.counter, 2);
    assert_eq!(refs.decrease(current_pid()), DecreaseResult::MoveAlong);
}

#[test]
fn n_references_reported_once() {
    for n in 0..6usize {
        let mut refs = PerProcessReferences::with_pid(9);
        for _ in 0..n {
            refs.increase_in(9);
        }
        assert_eq!(refs.counter, n + 1);
        for _ in 0..n {
            assert_eq!(refs.decrease(9), DecreaseResult::MoveAlong);
        }
        assert_eq!(refs.decrease(9), DecreaseResult::YouAreTheLastOne);
    }
}

#[test]
fn increase_from_zero() {
    let mut refs = PerProcessReferences::with_pid(current_pid());
    assert_eq!(refs.decrease(current_pid()), DecreaseResult::YouAreTheLastOne);
    assert_eq!(refs.counter, 0);
    assert!(refs.increase());
    assert_eq!(refs.counter, 1);
    let mut other = PerProcessReferences::with_pid(current_pid() + 1);
    assert_eq!(other.decrease(current_pid() + 1), DecreaseResult::YouAreTheLastOne);
    assert!(!other.increase());
    assert_eq!(other.counter, 0);
    assert_eq!(other.pid, current_pid() + 1);
}
