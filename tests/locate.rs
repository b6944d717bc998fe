use ext2::block_group::BlockGroupDescriptor;
use ext2::error::Error;
use ext2::inode::{Flags, Inode, TypePerm};
use ext2::sector::{Address, Size1024, Size512};

#[test]
fn find() {
    let volume = vec![0_u8; 4096];
    let table = BlockGroupDescriptor::find_descriptor_table(
        &volume,
        Address::<Size512>::new(4, 0),
        8,
    );
    assert!(
        table.is_ok(),
        "Err({:?})",
        table.err().unwrap_or_else(|| unreachable!()),
    );
    let table = table.unwrap_or_else(|_| unreachable!());
    assert_eq!(table.0.len(), 8);
}

#[test]
fn descriptor_fits_exactly() {
    let volume = vec![0_u8; 100];
    let r = BlockGroupDescriptor::find_descriptor(&volume, Address::<Size512>::from(68_u64));
    let (_, end) = r.unwrap();
    assert_eq!(end.into_index(), 100);
}

#[test]
fn descriptor_one_byte_past_end() {
    let volume = vec![0_u8; 100];
    let r = BlockGroupDescriptor::find_descriptor(&volume, Address::<Size512>::from(69_u64));
    assert_eq!(
        r.err(),
        Some(Error::AddressOutOfBounds { sector: 0, offset: 101, size: 512 })
    );
}

#[test]
fn descriptor_fields_are_little_endian() {
    let mut volume = vec![0_u8; 64];
    for i in 0..32 {
        volume[16 + i] = (i + 1) as u8;
    }
    let (d, end) = BlockGroupDescriptor::find_descriptor(&volume, Address::<Size512>::new(0, 16)).unwrap();
    assert_eq!({ d.block_usage_addr }, 0x04030201);
    assert_eq!({ d.inode_usage_addr }, 0x08070605);
    assert_eq!({ d.inode_table_block }, 0x0c0b0a09);
    assert_eq!({ d.free_blocks_count }, 0x0e0d);
    assert_eq!({ d.free_inodes_count }, 0x100f);
    assert_eq!({ d.dirs_count }, 0x1211);
    assert_eq!(d.reserved[0], 19);
    assert_eq!(d.reserved[13], 32);
    assert_eq!(end.into_index(), 48);
}

#[test]
fn table_fails_whole_when_last_record_does_not_fit() {
    let volume = vec![0_u8; 1024];
    let start = Address::<Size512>::new(1, 0);
    let ok = BlockGroupDescriptor::find_descriptor_table(&volume, start, 16).unwrap();
    assert_eq!(ok.0.len(), 16);
    assert_eq!(ok.1.into_index(), 1024);
    let err = BlockGroupDescriptor::find_descriptor_table(&volume, start, 17);
    assert_eq!(
        err.err(),
        Some(Error::AddressOutOfBounds { sector: 2, offset: 32, size: 512 })
    );
}

#[test]
fn table_records_in_order() {
    let mut volume = vec![0_u8; 96];
    volume[0] = 1;
    volume[32] = 2;
    volume[64] = 3;
    let (t, _) = BlockGroupDescriptor::find_descriptor_table(&volume, Address::<Size512>::new(0, 0), 3).unwrap();
    let firsts: Vec<u32> = t.iter().map(|d| d.block_usage_addr).collect();
    assert_eq!(firsts, vec![1, 2, 3]);
}

#[test]
fn empty_table_is_ok() {
    let volume: Vec<u8> = Vec::new();
    let (t, end) = BlockGroupDescriptor::find_descriptor_table(&volume, Address::<Size512>::new(0, 0), 0).unwrap();
    assert!(t.is_empty());
    assert_eq!(end.into_index(), 0);
}

#[test]
fn inode_located_and_decoded() {
    let mut volume = vec![0_u8; 2048];
    let base = 1024 + 128;
    volume[base] = 0xed;
    volume[base + 1] = 0x41;
    volume[base + 2] = 0xe8;
    volume[base + 3] = 0x03;
    volume[base + 32] = 0x10;
    volume[base + 40] = 0x2a;
    volume[base + 84] = 0x07;
    volume[base + 127] = 0x99;
    let (inode, end) = Inode::find_inode(&volume, Address::<Size1024>::new(1, 128), 128).unwrap();
    assert_eq!({ inode.uid }, 1000);
    assert!(inode.type_perm.contains(TypePerm::DIRECTORY));
    assert!(inode.type_perm.contains(TypePerm::U_READ));
    assert!(!inode.type_perm.contains(TypePerm::FILE));
    assert!(inode.flags.contains(Flags::IMMUTABLE));
    assert_eq!({ inode.direct_pointer }[0], 0x2a);
    assert_eq!({ inode.direct_pointer }[11], 0x07);
    assert_eq!(inode.os_specific_2[11], 0x99);
    assert_eq!(end.into_index(), 1024 + 256);
}

#[test]
fn inode_past_end_of_volume() {
    let volume = vec![0_u8; 1024];
    let r = Inode::find_inode(&volume, Address::<Size512>::new(1, 400), 128);
    assert_eq!(
        r.err(),
        Some(Error::AddressOutOfBounds { sector: 2, offset: 16, size: 512 })
    );
}

#[test]
fn inode_with_other_size_is_rejected() {
    let volume = vec![0_u8; 4096];
    let r = Inode::find_inode(&volume, Address::<Size512>::new(0, 0), 256);
    assert_eq!(r.err(), Some(Error::UnsupportedRecordSize { size: 256 }));
}

#[test]
fn flag_union() {
    let p = TypePerm { bits: 0 }.union(TypePerm::FILE).union(TypePerm::U_READ);
    assert_eq!(p.bits, 0x8100);
    let f = Flags { bits: 0x8000_0000 }.union(Flags::APPEND_ONLY);
    assert_eq!(f.bits, 0x8000_0020);
    assert!(f.contains(0x8000_0000));
}
