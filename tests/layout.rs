use ext2::block_group::BlockGroupDescriptor;
use ext2::inode::Inode;
use ext2::superblock::Superblock;
use std::mem::size_of;

#[test]
fn sizes() {
    assert_eq!(size_of::<Superblock>(), 1024);
    assert_eq!(size_of::<BlockGroupDescriptor>(), 32);
    assert_eq!(size_of::<Inode>(), 128);
}
