use ext2::sector::{Address, Size512};
use ext2::size::Size;
use std::cmp::Ordering;

#[test]
fn unbounded_never_equal() {
    let u = Size::<Size512>::Unbounded;
    let v = Size::<Size512>::Unbounded;
    assert!(u != v);
    assert!(!(u == u));
    assert!(u != Size::Bounded(Address::new(0, 0)));
    assert!(Size::Bounded(Address::<Size512>::new(0, 0)) != u);
    assert!(u != Address::<Size512>::new(3, 0));
    assert_eq!(u.partial_cmp(&v), None);
}

#[test]
fn bounded_equality() {
    let a = Size::Bounded(Address::<Size512>::new(2, 5));
    let b = Size::Bounded(Address::<Size512>::new(1, 517));
    assert!(a == b);
    assert!(a == Address::<Size512>::new(2, 5));
    assert!(a != Address::<Size512>::new(2, 6));
}

#[test]
fn size_ordering() {
    let u = Size::<Size512>::Unbounded;
    let a = Size::Bounded(Address::<Size512>::new(2, 0));
    let b = Size::Bounded(Address::<Size512>::new(3, 0));
    assert_eq!(u.partial_cmp(&a), Some(Ordering::Greater));
    assert_eq!(a.partial_cmp(&u), Some(Ordering::Less));
    assert!(a < b);
    assert!(u > Address::<Size512>::new(u32::MAX, 511));
    assert!(!(u < Address::<Size512>::new(u32::MAX, 511)));
    assert!(a < Address::<Size512>::new(2, 1));
    assert!(!(a < Address::<Size512>::new(2, 0)));
}

#[test]
fn try_len_and_is_bounded() {
    let u = Size::<Size512>::Unbounded;
    let a = Size::Bounded(Address::<Size512>::new(4, 4));
    assert!(u.try_len().is_none());
    assert!(!u.is_bounded());
    assert_eq!(a.try_len(), Some(Address::<Size512>::new(4, 4)));
    assert!(a.is_bounded());
}
