use crate::error::Error;
use crate::locate::{checked_end, le_u16, le_u32, read_u16, read_u32, record_end};
use crate::sector::{Address, SectorSize};
use vstd::prelude::*;

verus! {

/// Size in bytes of one on-disk block group descriptor.
pub const DESCRIPTOR_SIZE: usize = 32;

/// The Block Group Descriptor Table holds one descriptor per block group,
/// telling where that group's bitmaps and inode table are located.
///
/// The table starts in the block right after the superblock: block 2 when
/// blocks are 1024 bytes, block 1 for any larger block size.
#[derive(Copy, Debug)]
pub struct BlockGroupDescriptor {
    /// Block address of block usage bitmap
    pub block_usage_addr: u32,
    /// Block address of inode usage bitmap
    pub inode_usage_addr: u32,
    /// Starting block address of inode table
    pub inode_table_block: u32,
    /// Number of unallocated blocks in group
    pub free_blocks_count: u16,
    /// Number of unallocated inodes in group
    pub free_inodes_count: u16,
    /// Number of directories in group
    pub dirs_count: u16,
    /// Reserved bytes, kept as stored
    pub reserved: [u8; 14],
}

impl Clone for BlockGroupDescriptor {
    fn clone(&self) -> (r: Self)
        ensures
            r == *self,
    {
        *self
    }
}

impl BlockGroupDescriptor {
    /// `self` is the little-endian decoding of the 32 bytes of `bytes`
    /// starting at `at`.
    pub open spec fn decodes(self, bytes: Seq<u8>, at: int) -> bool {
        &&& self.block_usage_addr == le_u32(bytes, at)
        &&& self.inode_usage_addr == le_u32(bytes, at + 4)
        &&& self.inode_table_block == le_u32(bytes, at + 8)
        &&& self.free_blocks_count == le_u16(bytes, at + 12)
        &&& self.free_inodes_count == le_u16(bytes, at + 14)
        &&& self.dirs_count == le_u16(bytes, at + 16)
        &&& self.reserved@ == bytes.subrange(at + 18, at + 32)
    }

    /// Decodes the descriptor stored at byte `at` of `bytes`.
    fn read(bytes: &[u8], at: usize) -> (r: Self)
        requires
            at + 32 <= bytes@.len(),
        ensures
            r.decodes(bytes@, at as int),
    {
        let _len = bytes.len();
        let reserved: [u8; 14] = [
            bytes[at + 18],
            bytes[at + 19],
            bytes[at + 20],
            bytes[at + 21],
            bytes[at + 22],
            bytes[at + 23],
            bytes[at + 24],
            bytes[at + 25],
            bytes[at + 26],
            bytes[at + 27],
            bytes[at + 28],
            bytes[at + 29],
            bytes[at + 30],
            bytes[at + 31],
        ];
        let r = BlockGroupDescriptor {
            block_usage_addr: read_u32(bytes, at),
            inode_usage_addr: read_u32(bytes, at + 4),
            inode_table_block: read_u32(bytes, at + 8),
            free_blocks_count: read_u16(bytes, at + 12),
            free_inodes_count: read_u16(bytes, at + 14),
            dirs_count: read_u16(bytes, at + 16),
            reserved,
        };
        assert(r.reserved@ =~= bytes@.subrange(at + 18, at + 32));
        r
    }

    /// Locates the descriptor that starts at `offset` in `haystack`, after
    /// checking that all of it lies inside the volume. Returns it with the
    /// address just past it.
    pub fn find_descriptor<S: SectorSize>(haystack: &[u8], offset: Address<S>) -> (r: Result<
        (BlockGroupDescriptor, Address<S>),
        Error,
    >)
        ensures
            ({
                let c = checked_end(haystack@.len(), offset, 32);
                &&& c is Err ==> r == Err::<(BlockGroupDescriptor, Address<S>), Error>(c->Err_0)
                &&& c is Ok ==> r is Ok && r->Ok_0.1 == c->Ok_0 && r->Ok_0.0.decodes(
                    haystack@,
                    offset.index() as int,
                )
            }),
    {
        let end = record_end(haystack, offset, DESCRIPTOR_SIZE as u128);
        match end {
            Err(e) => Err(e),
            Ok(end) => {
                let _len = haystack.len();
                let at = offset.into_index() as usize;
                Ok((BlockGroupDescriptor::read(haystack, at), end))
            },
        }
    }

    /// Locates a table of `count` consecutive descriptors starting at
    /// `offset`. The whole table is bounds-checked before any descriptor is
    /// read, so either all of them are returned, in order, or none. Returns
    /// them with the address just past the table.
    pub fn find_descriptor_table<S: SectorSize>(
        haystack: &[u8],
        offset: Address<S>,
        count: usize,
    ) -> (r: Result<(Vec<BlockGroupDescriptor>, Address<S>), Error>)
        ensures
            ({
                let c = checked_end(haystack@.len(), offset, 32 * count as nat);
                &&& c is Err ==> r == Err::<(Vec<BlockGroupDescriptor>, Address<S>), Error>(
                    c->Err_0,
                )
                &&& c is Ok ==> r is Ok && r->Ok_0.1 == c->Ok_0 && r->Ok_0.0@.len() == count && (
                forall|i: int|
                    0 <= i < count ==> #[trigger] r->Ok_0.0@[i].decodes(
                        haystack@,
                        offset.index() + 32 * i,
                    ))
            }),
    {
        let end = record_end(haystack, offset, (count as u128) * (DESCRIPTOR_SIZE as u128));
        let end = match end {
            Err(e) => {
                return Err(e);
            },
            Ok(end) => end,
        };
        let _len = haystack.len();
        let start = offset.into_index() as usize;
        let mut table: Vec<BlockGroupDescriptor> = Vec::with_capacity(count);
        let mut i: usize = 0;
        while i < count
            invariant
                i <= count,
                start == offset.index(),
                start + 32 * count <= haystack@.len() <= usize::MAX,
                table@.len() == i,
                forall|j: int|
                    0 <= j < i ==> #[trigger] table@[j].decodes(haystack@, start + 32 * j),
            decreases count - i,
        {
            proof {
                assert(start + 32 * i + 32 <= start + 32 * count) by (nonlinear_arith)
                    requires
                        i < count,
                ;
            }
            let d = BlockGroupDescriptor::read(haystack, start + DESCRIPTOR_SIZE * i);
            table.push(d);
            i = i + 1;
        }
        Ok((table, end))
    }
}

} // verus!
