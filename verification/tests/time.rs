use shmem_utils::time::Monotonic;

#[test]
fn add_without_carry() {
    let t = Monotonic::from_parts(10, 100);
    assert_eq!(t.add(2_000_000_500), Monotonic::from_parts(12, 600));
}

#[test]
fn add_with_carry() {
    let t = Monotonic::from_parts(10, 999_999_000);
    assert_eq!(t.add(1_500), Monotonic::from_parts(11, 500));
    assert_eq!(t.add(1_000), Monotonic::from_parts(11, 0));
}

#[test]
fn sub_borrows_a_second() {
    let t = Monotonic::from_parts(5, 100);
    assert_eq!(t.sub(200), Monotonic::from_parts(4, 999_999_900));
    assert_eq!(t.sub(3_000_000_050), Monotonic::from_parts(2, 50));
    assert_eq!(Monotonic::from_parts(2, 100_000_000).sub(200_000_000), Monotonic::from_parts(1, 900_000_000));
}

#[test]
fn sub_without_borrow() {
    let t = Monotonic::from_parts(5, 500);
    assert_eq!(t.sub(500), Monotonic::from_parts(5, 0));
    assert_eq!(t.sub(2_000_000_100), Monotonic::from_parts(3, 400));
}

#[test]
fn add_then_sub_keeps_the_instant() {
    let t = Monotonic::from_parts(7, 999_999_999);
    let moved = t.add(1_000_000_001).sub(1_000_000_001);
    assert_eq!(moved, t);
    let u = Monotonic::from_parts(1, 900_000_000);
    assert_eq!(u.add(200_000_000).sub(200_000_000), u);
}

#[test]
fn ordering() {
    let a = Monotonic::from_parts(1, 999);
    let b = Monotonic::from_parts(2, 0);
    let c = Monotonic::from_parts(2, 1);
    assert!(a < b);
    assert!(b < c);
    assert!(c > a);
    assert_eq!(b.partial_cmp(&b), Some(std::cmp::Ordering::Equal));
}

#[test]
fn towards_an_instant() {
    let now = Monotonic::from_parts(100, 0);
    assert_eq!(now.towards(Some(1_500_000_000), 0), Some(Monotonic::from_parts(101, 500_000_000)));
    assert_eq!(now.towards(None, 2_000_000_000), Some(Monotonic::from_parts(98, 0)));
    assert_eq!(Monotonic::from_parts(-1, 0).towards(None, 5), None);
    assert_eq!(now.try_add(u128::MAX), None);
}
