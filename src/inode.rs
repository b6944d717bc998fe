use crate::error::Error;
use crate::locate::{checked_end, le_u16, le_u32, read_u16, read_u32, record_end};
use crate::sector::{Address, SectorSize};
use vstd::prelude::*;

verus! {

/// Size in bytes of the inode layout this library reads.
pub const INODE_SIZE: usize = 128;

/// Type and permission bits of an inode. Bits without a name are kept as
/// stored.
#[derive(Clone, Copy, Debug, PartialEq, Eq, Structural)]
pub struct TypePerm {
    pub bits: u16,
}

impl TypePerm {
    /// FIFO
    pub const FIFO: u16 = 0x1000;
    /// Character device
    pub const CHAR_DEVICE: u16 = 0x2000;
    /// Directory
    pub const DIRECTORY: u16 = 0x4000;
    /// Block device
    pub const BLOCK_DEVICE: u16 = 0x6000;
    /// Regular file
    pub const FILE: u16 = 0x8000;
    /// Symbolic link
    pub const SYMLINK: u16 = 0xA000;
    /// Unix socket
    pub const SOCKET: u16 = 0xC000;
    /// Other: execute permission
    pub const O_EXEC: u16 = 0x001;
    /// Other: write permission
    pub const O_WRITE: u16 = 0x002;
    /// Other: read permission
    pub const O_READ: u16 = 0x004;
    /// Group: execute permission
    pub const G_EXEC: u16 = 0x008;
    /// Group: write permission
    pub const G_WRITE: u16 = 0x010;
    /// Group: read permission
    pub const G_READ: u16 = 0x020;
    /// User: execute permission
    pub const U_EXEC: u16 = 0x040;
    /// User: write permission
    pub const U_WRITE: u16 = 0x080;
    /// User: read permission
    pub const U_READ: u16 = 0x100;
    /// Sticky bit
    pub const STICKY: u16 = 0x200;
    /// Set group ID
    pub const SET_GID: u16 = 0x400;
    /// Set user ID
    pub const SET_UID: u16 = 0x800;

    /// Whether every bit of `mask` is set.
    pub fn contains(&self, mask: u16) -> (r: bool)
        ensures
            r == (self.bits & mask == mask),
    {
        self.bits & mask == mask
    }

    /// These bits with those of `mask` set as well.
    pub fn union(&self, mask: u16) -> (r: TypePerm)
        ensures
            r.bits == self.bits | mask,
    {
        TypePerm { bits: self.bits | mask }
    }
}

/// Inode flags. Bits without a name are kept as stored.
#[derive(Clone, Copy, Debug, PartialEq, Eq, Structural)]
pub struct Flags {
    pub bits: u32,
}

impl Flags {
    /// Secure deletion (not used)
    pub const SECURE_DEL: u32 = 0x00000001;
    /// Keep a copy of data when deleted (not used)
    pub const KEEP_COPY: u32 = 0x00000002;
    /// File compression (not used)
    pub const COMPRESSION: u32 = 0x00000004;
    /// Synchronous updates: new data is written immediately to disk
    pub const SYNC_UPDATE: u32 = 0x00000008;
    /// Immutable file (content cannot be changed)
    pub const IMMUTABLE: u32 = 0x00000010;
    /// Append only
    pub const APPEND_ONLY: u32 = 0x00000020;
    /// File is not included in 'dump' command
    pub const NODUMP: u32 = 0x00000040;
    /// Last accessed time should not updated
    pub const DONT_ATIME: u32 = 0x00000080;
    /// Hash indexed directory
    pub const HASH_DIR: u32 = 0x00010000;
    /// AFS directory
    pub const AFS_DIR: u32 = 0x00020000;
    /// Journal file data
    pub const JOURNAL_DATA: u32 = 0x00040000;

    /// Whether every bit of `mask` is set.
    pub fn contains(&self, mask: u32) -> (r: bool)
        ensures
            r == (self.bits & mask == mask),
    {
        self.bits & mask == mask
    }

    /// These bits with those of `mask` set as well.
    pub fn union(&self, mask: u32) -> (r: Flags)
        ensures
            r.bits == self.bits | mask,
    {
        Flags { bits: self.bits | mask }
    }
}

/// An inode describes one file, directory, symbolic link or other object:
/// its metadata and the blocks holding its data, not the data itself. Each
/// block group keeps a table of them.
#[derive(Copy, Debug)]
pub struct Inode {
    /// Type and permissions
    pub type_perm: TypePerm,
    /// User ID
    pub uid: u16,
    /// Lower 32 bits of size in bytes
    pub size_low: u32,
    /// Last access time (POSIX time)
    pub atime: u32,
    /// Creation time (POSIX time)
    pub ctime: u32,
    /// Last modification time (POSIX time)
    pub mtime: u32,
    /// Deletion time (POSIX time)
    pub dtime: u32,
    /// Group ID
    pub gid: u16,
    /// Count of hard links (directory entries) to this inode
    pub hard_links: u16,
    /// Count of disk sectors in use by this inode
    pub sectors_count: u32,
    /// Flags
    pub flags: Flags,
    /// Operating system specific value #1
    pub os_specific_1: [u8; 4],
    /// Direct block pointers
    pub direct_pointer: [u32; 12],
    /// Singly indirect block pointer
    pub indirect_pointer: u32,
    /// Doubly indirect block pointer
    pub doubly_indirect: u32,
    /// Triply indirect block pointer
    pub triply_indirect: u32,
    /// Generation number
    pub gen_number: u32,
    /// Extended attribute block (reserved in revision 0)
    pub ext_attribute_block: u32,
    /// Upper 32 bits of the size of a file, or directory ACL
    pub size_high: u32,
    /// Block address of fragment
    pub frag_block_addr: u32,
    /// Operating system specific value #2
    pub os_specific_2: [u8; 12],
}

impl Clone for Inode {
    fn clone(&self) -> (r: Self)
        ensures
            r == *self,
    {
        *self
    }
}

impl Inode {
    /// `self` is the little-endian decoding of the 128 bytes of `bytes`
    /// starting at `at`.
    pub open spec fn decodes(self, bytes: Seq<u8>, at: int) -> bool {
        &&& self.type_perm.bits == le_u16(bytes, at)
        &&& self.uid == le_u16(bytes, at + 2)
        &&& self.size_low == le_u32(bytes, at + 4)
        &&& self.atime == le_u32(bytes, at + 8)
        &&& self.ctime == le_u32(bytes, at + 12)
        &&& self.mtime == le_u32(bytes, at + 16)
        &&& self.dtime == le_u32(bytes, at + 20)
        &&& self.gid == le_u16(bytes, at + 24)
        &&& self.hard_links == le_u16(bytes, at + 26)
        &&& self.sectors_count == le_u32(bytes, at + 28)
        &&& self.flags.bits == le_u32(bytes, at + 32)
        &&& self.os_specific_1@ == bytes.subrange(at + 36, at + 40)
        &&& forall|k: int|
            0 <= k < 12 ==> #[trigger] self.direct_pointer@[k] == le_u32(bytes, at + 40 + 4 * k)
        &&& self.indirect_pointer == le_u32(bytes, at + 88)
        &&& self.doubly_indirect == le_u32(bytes, at + 92)
        &&& self.triply_indirect == le_u32(bytes, at + 96)
        &&& self.gen_number == le_u32(bytes, at + 100)
        &&& self.ext_attribute_block == le_u32(bytes, at + 104)
        &&& self.size_high == le_u32(bytes, at + 108)
        &&& self.frag_block_addr == le_u32(bytes, at + 112)
        &&& self.os_specific_2@ == bytes.subrange(at + 116, at + 128)
    }

    /// Decodes the inode stored at byte `at` of `bytes`.
    fn read(bytes: &[u8], at: usize) -> (r: Self)
        requires
            at + 128 <= bytes@.len(),
        ensures
            r.decodes(bytes@, at as int),
    {
        let _len = bytes.len();
        let os_specific_1: [u8; 4] = [bytes[at + 36], bytes[at + 37], bytes[at + 38], bytes[at + 39]];
        let direct_pointer: [u32; 12] = [
            read_u32(bytes, at + 40),
            read_u32(bytes, at + 44),
            read_u32(bytes, at + 48),
            read_u32(bytes, at + 52),
            read_u32(bytes, at + 56),
            read_u32(bytes, at + 60),
            read_u32(bytes, at + 64),
            read_u32(bytes, at + 68),
            read_u32(bytes, at + 72),
            read_u32(bytes, at + 76),
            read_u32(bytes, at + 80),
            read_u32(bytes, at + 84),
        ];
        let os_specific_2: [u8; 12] = [
            bytes[at + 116],
            bytes[at + 117],
            bytes[at + 118],
            bytes[at + 119],
            bytes[at + 120],
            bytes[at + 121],
            bytes[at + 122],
            bytes[at + 123],
            bytes[at + 124],
            bytes[at + 125],
            bytes[at + 126],
            bytes[at + 127],
        ];
        let r = Inode {
            type_perm: TypePerm { bits: read_u16(bytes, at) },
            uid: read_u16(bytes, at + 2),
            size_low: read_u32(bytes, at + 4),
            atime: read_u32(bytes, at + 8),
            ctime: read_u32(bytes, at + 12),
            mtime: read_u32(bytes, at + 16),
            dtime: read_u32(bytes, at + 20),
            gid: read_u16(bytes, at + 24),
            hard_links: read_u16(bytes, at + 26),
            sectors_count: read_u32(bytes, at + 28),
            flags: Flags { bits: read_u32(bytes, at + 32) },
            os_specific_1,
            direct_pointer,
            indirect_pointer: read_u32(bytes, at + 88),
            doubly_indirect: read_u32(bytes, at + 92),
            triply_indirect: read_u32(bytes, at + 96),
            gen_number: read_u32(bytes, at + 100),
            ext_attribute_block: read_u32(bytes, at + 104),
            size_high: read_u32(bytes, at + 108),
            frag_block_addr: read_u32(bytes, at + 112),
            os_specific_2,
        };
        assert(r.os_specific_1@ =~= bytes@.subrange(at + 36, at + 40));
        assert(r.os_specific_2@ =~= bytes@.subrange(at + 116, at + 128));
        r
    }

    /// Locates the inode of `size` bytes that starts at `offset` in
    /// `haystack`, after checking that all of it lies inside the volume.
    /// Only the 128-byte layout is supported. Returns it with the address
    /// just past it.
    pub fn find_inode<S: SectorSize>(haystack: &[u8], offset: Address<S>, size: usize) -> (r:
        Result<(Inode, Address<S>), Error>)
        ensures
            size != 128 ==> r == Err::<(Inode, Address<S>), Error>(
                Error::UnsupportedRecordSize { size },
            ),
            size == 128 ==> ({
                let c = checked_end(haystack@.len(), offset, 128);
                &&& c is Err ==> r == Err::<(Inode, Address<S>), Error>(c->Err_0)
                &&& c is Ok ==> r is Ok && r->Ok_0.1 == c->Ok_0 && r->Ok_0.0.decodes(
                    haystack@,
                    offset.index() as int,
                )
            }),
    {
        if size != INODE_SIZE {
            return Err(Error::UnsupportedRecordSize { size });
        }
        let end = record_end(haystack, offset, size as u128);
        match end {
            Err(e) => Err(e),
            Ok(end) => {
                let _len = haystack.len();
                let at = offset.into_index() as usize;
                Ok((Inode::read(haystack, at), end))
            },
        }
    }
}

} // verus!
