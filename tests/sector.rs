use ext2::sector::{Address, Size1024, Size2048, Size4096, Size512};

#[test]
fn conv() {
    assert_eq!(Address::<Size512>::new(0, 1024).into_index(), 1024);
    assert_eq!(Address::<Size512>::from(1024_u64).into_index(), 1024);
    assert_eq!(
        Address::<Size512>::with_block_size(1, 256, 10).into_index(),
        1024 + 256
    );
    assert_eq!(
        Address::<Size512>::with_block_size(1, -256, 10).into_index(),
        1024 - 256
    );
    assert_eq!(
        Address::<Size512>::with_block_size(2, 0, 10).into_index(),
        2048
    );
    assert_eq!(
        Address::<Size512>::with_block_size(0, 1792, 10).into_index(),
        1792
    );
}

#[test]
fn arithmetic() {
    assert_eq!(
        Address::<Size512>::new(0, 512),
        Address::<Size512>::new(1, 0),
    );

    assert_eq!(
        Address::<Size512>::new(2, -256),
        Address::<Size512>::new(1, 256),
    );

    assert_eq!(
        Address::<Size512>::new(2, -257),
        Address::<Size512>::new(1, 255),
    );

    assert_eq!(
        Address::<Size512>::new(2, -1023),
        Address::<Size512>::new(0, 1),
    );

    let a = Address::<Size2048>::new(0, 1024);
    let b = Address::<Size2048>::new(0, 1024);
    assert_eq!(a + b, Address::<Size2048>::new(1, 0));
    assert_eq!((a + b).into_index(), 2048);

    let a = Address::<Size512>::new(0, 2048);
    let b = Address::<Size512>::new(0, 256);
    assert_eq!(a - b, Address::<Size512>::new(3, 256));
    assert_eq!((a - b).into_index(), 1792);
}

#[test]
fn new_keeps_offset_inside_sector() {
    for offset in [-2_000_000_000_i32, -4097, -1, 0, 511, 512, 4096, 1_000_000, i32::MAX, i32::MIN] {
        for sector in [0_u32, 1, 7, u32::MAX] {
            assert!(Address::<Size512>::new(sector, offset).offset() < 512);
            assert!(Address::<Size1024>::new(sector, offset).offset() < 1024);
            assert!(Address::<Size2048>::new(sector, offset).offset() < 2048);
            assert!(Address::<Size4096>::new(sector, offset).offset() < 4096);
        }
    }
}

#[test]
fn new_borrows_below_sector_zero() {
    let a = Address::<Size512>::new(0, -1);
    assert_eq!(a.sector(), u32::MAX);
    assert_eq!(a.offset(), 511);
}

#[test]
fn new_carries_exact_fields() {
    let a = Address::<Size4096>::new(3, 9000);
    assert_eq!(a.sector(), 5);
    assert_eq!(a.offset(), 808);
    assert_eq!(a.into_index(), 3 * 4096 + 9000);
}

#[test]
fn index_round_trip() {
    for idx in [0_u64, 1, 511, 512, 513, 123_456_789, (1_u64 << 41) - 1] {
        assert_eq!(Address::<Size512>::from(idx).into_index(), idx);
    }
    for idx in [0_u64, 4095, 4096, (1_u64 << 44) - 1] {
        assert_eq!(Address::<Size4096>::from(idx).into_index(), idx);
    }
    assert_eq!(Address::<Size1024>::from(5000_usize).into_index(), 5000);
}

#[test]
fn from_index_splits_fields() {
    let a = Address::<Size1024>::from(5000_u64);
    assert_eq!(a.sector(), 4);
    assert_eq!(a.offset(), 904);
}

#[test]
fn sector_size_queries() {
    let a = Address::<Size2048>::new(0, 0);
    assert_eq!(a.sector_size(), 2048);
    assert_eq!(a.log_sector_size(), 11);
    let b = Address::<Size512>::new(0, 0);
    assert_eq!(b.sector_size(), 512);
    assert_eq!(b.log_sector_size(), 9);
}

#[test]
fn with_block_size_larger_blocks() {
    let a = Address::<Size512>::with_block_size(3, 100, 12);
    assert_eq!(a.into_index(), 3 * 4096 + 100);
    assert_eq!(a.sector(), 24);
    assert_eq!(a.offset(), 100);
}

#[test]
fn ordering_follows_index() {
    let a = Address::<Size512>::new(1, 10);
    let b = Address::<Size512>::new(1, 20);
    let c = Address::<Size512>::new(2, 0);
    assert!(a < b);
    assert!(b < c);
    assert!(c > a);
    assert!(a <= a);
    assert_ne!(a, b);
}

#[test]
fn stepping() {
    let a = Address::<Size512>::new(5, 100);
    let b = Address::<Size512>::new(9, 0);
    assert_eq!(Address::steps_between(&a, &b), Some(4));
    assert_eq!(Address::steps_between(&b, &a), None);
    assert_eq!(Address::forward_checked(a, 3), Some(Address::<Size512>::new(8, 0)));
    assert_eq!(Address::backward_checked(a, 5), Some(Address::<Size512>::new(0, 0)));
    assert_eq!(Address::backward_checked(a, 6), None);
    let last = Address::<Size512>::new(u32::MAX, 0);
    assert_eq!(Address::forward_checked(last, 1), None);
    assert_eq!(Address::forward_checked(last, 0), Some(last));
}

#[test]
fn new_unchecked_keeps_fields() {
    let a = Address::<Size1024>::new_unchecked(7, 1023);
    assert_eq!(a.sector(), 7);
    assert_eq!(a.offset(), 1023);
}
