//! Sector addressing and bounds-checked location of ext2 on-disk records
//! inside a byte-addressable volume.

pub mod block_group;
pub mod error;
pub mod inode;
pub mod locate;
pub mod sector;
pub mod size;
pub mod superblock;
