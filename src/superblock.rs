use vstd::prelude::*;

verus! {

/// Size in bytes of the on-disk superblock.
pub const SUPERBLOCK_SIZE: usize = 1024;

/// Byte position of the superblock from the start of the volume.
pub const SUPERBLOCK_OFFSET: usize = 1024;

/// The superblock: global parameters of the filesystem, stored right after
/// the boot sector.
#[derive(Copy, Debug)]
pub struct Superblock {
    /// Total number of inodes
    pub inodes_count: u32,
    /// Total number of blocks
    pub blocks_count: u32,
    /// Number of blocks reserved for the superuser
    pub r_blocks_count: u32,
    /// Number of unallocated blocks
    pub free_blocks_count: u32,
    /// Number of unallocated inodes
    pub free_inodes_count: u32,
    /// Block number of the block containing the superblock
    pub first_data_block: u32,
    /// log2(block size) - 10
    pub log_block_size: u32,
    /// log2(fragment size) - 10
    pub log_frag_size: u32,
    /// Number of blocks in each block group
    pub blocks_per_group: u32,
    /// Number of fragments in each block group
    pub frags_per_group: u32,
    /// Number of inodes in each block group
    pub inodes_per_group: u32,
    /// Last mount time (POSIX time)
    pub mtime: u32,
    /// Last written time (POSIX time)
    pub wtime: u32,
    /// Number of mounts since the last consistency check
    pub mnt_count: u16,
    /// Number of mounts allowed before a consistency check
    pub max_mnt_count: u16,
    /// Ext2 signature (0xef53)
    pub magic: u16,
    /// File system state
    pub state: u16,
    /// What to do when an error is detected
    pub errors: u16,
    /// Minor portion of version
    pub rev_minor: u16,
    /// Time of last consistency check (POSIX time)
    pub lastcheck: u32,
    /// Interval between forced consistency checks
    pub checkinterval: u32,
    /// Operating system ID from which the filesystem was created
    pub creator_os: u32,
    /// Major portion of version
    pub rev_major: u32,
    /// User ID that can use reserved blocks
    pub block_uid: u16,
    /// Group ID that can use reserved blocks
    pub block_gid: u16,
    /// First non-reserved inode
    pub first_inode: u32,
    /// Size of each inode structure in bytes
    pub inode_size: u16,
    /// Block group that this superblock is part of
    pub block_group: u16,
    /// Optional features present
    pub features_opt: u32,
    /// Required features present
    pub features_req: u32,
    /// Features that, if not supported, force a read-only mount
    pub features_ronly: u32,
    /// File system ID
    pub fs_id: [u8; 16],
    /// Volume name
    pub volume_name: [u8; 16],
    /// Path volume was last mounted to
    pub last_mnt_path: [u8; 64],
    /// Compression algorithms used
    pub compression: u32,
    /// Number of blocks to preallocate for files
    pub prealloc_blocks_files: u8,
    /// Number of blocks to preallocate for directories
    pub prealloc_blocks_dirs: u8,
    /// Unused padding
    pub unused: [u8; 2],
    /// Journal ID
    pub journal_id: [u8; 16],
    /// Journal inode
    pub journal_inode: u32,
    /// Journal device
    pub journal_dev: u32,
    /// Head of orphan inode list
    pub journal_orphan_head: u32,
    /// Reserved bytes up to the end of the superblock
    pub reserved: [u8; 788],
}

impl Clone for Superblock {
    fn clone(&self) -> (r: Self)
        ensures
            r == *self,
    {
        *self
    }
}

} // verus!
