use core::marker::PhantomData;
use vstd::arithmetic::div_mod::*;
use vstd::arithmetic::power2::*;
use vstd::prelude::*;

verus! {

/// Compile-time description of a storage sector: its size is `2^log_size` bytes.
pub trait SectorSize: Copy + Sized {
    /// Base-2 logarithm of the sector size in bytes.
    spec fn spec_log_size() -> nat;

    /// Every sector size is a power of two no larger than `2^31`.
    proof fn lemma_log_size_bound()
        ensures
            Self::spec_log_size() <= 31,
    ;

    /// Base-2 logarithm of the sector size in bytes.
    fn log_size() -> (r: u32)
        ensures
            r as nat == Self::spec_log_size(),
    ;

    /// Sector size in bytes.
    fn size() -> (r: usize)
        ensures
            r as nat == pow2(Self::spec_log_size()),
    ;
}

/// Sector size in bytes, as a mathematical integer.
pub open spec fn sector_bytes<S: SectorSize>() -> nat {
    pow2(S::spec_log_size())
}

/// Number of distinct sector numbers an [`Address`] can hold.
pub open spec fn sector_count() -> nat {
    0x1_0000_0000
}

/// One past the largest linear byte index an [`Address`] can represent.
pub open spec fn index_limit<S: SectorSize>() -> nat {
    sector_count() * sector_bytes::<S>()
}

/// Sector number that holds linear byte index `idx`, reduced to 32 bits.
pub open spec fn sector_of<S: SectorSize>(idx: int) -> int {
    (idx / sector_bytes::<S>() as int) % sector_count() as int
}

/// Offset inside its sector of linear byte index `idx` (floored, so always
/// non-negative).
pub open spec fn offset_of<S: SectorSize>(idx: int) -> int {
    idx % sector_bytes::<S>() as int
}

/// Bounds on the sector size and on the representable index range.
pub proof fn lemma_sector_bytes_bounds<S: SectorSize>()
    ensures
        1 <= sector_bytes::<S>() <= 0x8000_0000,
        index_limit::<S>() <= 0x80_0000_0000_0000_0000,
{
    S::lemma_log_size_bound();
    lemma_pow2_pos(S::spec_log_size());
    lemma_pow2_strictly_increases_or_eq(S::spec_log_size(), 31);
    lemma2_to64();
    assert(index_limit::<S>() <= 0x1_0000_0000 * 0x8000_0000) by (nonlinear_arith)
        requires
            sector_bytes::<S>() <= 0x8000_0000,
            index_limit::<S>() == 0x1_0000_0000 * sector_bytes::<S>(),
    ;
}

proof fn lemma_pow2_strictly_increases_or_eq(e1: nat, e2: nat)
    requires
        e1 <= e2,
    ensures
        pow2(e1) <= pow2(e2),
{
    if e1 < e2 {
        lemma_pow2_strictly_increases(e1, e2);
    }
}

#[derive(Clone, Copy, Debug, PartialEq, Eq, PartialOrd, Ord, Hash, Default)]
pub struct Size512;

impl SectorSize for Size512 {
    open spec fn spec_log_size() -> nat {
        9
    }

    proof fn lemma_log_size_bound() {
    }

    fn log_size() -> (r: u32) {
        9
    }

    fn size() -> (r: usize) {
        proof {
            lemma2_to64();
        }
        512
    }
}

#[derive(Clone, Copy, Debug, PartialEq, Eq, PartialOrd, Ord, Hash, Default)]
pub struct Size1024;

impl SectorSize for Size1024 {
    open spec fn spec_log_size() -> nat {
        10
    }

    proof fn lemma_log_size_bound() {
    }

    fn log_size() -> (r: u32) {
        10
    }

    fn size() -> (r: usize) {
        proof {
            lemma2_to64();
        }
        1024
    }
}

#[derive(Clone, Copy, Debug, PartialEq, Eq, PartialOrd, Ord, Hash, Default)]
pub struct Size2048;

impl SectorSize for Size2048 {
    open spec fn spec_log_size() -> nat {
        11
    }

    proof fn lemma_log_size_bound() {
    }

    fn log_size() -> (r: u32) {
        11
    }

    fn size() -> (r: usize) {
        proof {
            lemma2_to64();
        }
        2048
    }
}

#[derive(Clone, Copy, Debug, PartialEq, Eq, PartialOrd, Ord, Hash, Default)]
pub struct Size4096;

impl SectorSize for Size4096 {
    open spec fn spec_log_size() -> nat {
        12
    }

    proof fn lemma_log_size_bound() {
    }

    fn log_size() -> (r: u32) {
        12
    }

    fn size() -> (r: usize) {
        proof {
            lemma2_to64();
        }
        4096
    }
}

/// A location on physical media: a sector number and a byte offset inside
/// that sector. The offset is always smaller than the sector size.
#[derive(Copy, Debug)]
pub struct Address<S: SectorSize> {
    sector: u32,
    offset: u32,
    _phantom: PhantomData<S>,
}

impl<S: SectorSize> Clone for Address<S> {
    fn clone(&self) -> (r: Self)
        ensures
            r == *self,
    {
        *self
    }
}

impl<S: SectorSize> Address<S> {
    #[verifier::type_invariant]
    spec fn inv(self) -> bool {
        self.offset < sector_bytes::<S>()
    }

    /// Sector number.
    pub closed spec fn spec_sector(self) -> nat {
        self.sector as nat
    }

    /// Byte offset inside the sector.
    pub closed spec fn spec_offset(self) -> nat {
        self.offset as nat
    }

    /// Linear byte index of this address: `sector * SIZE + offset`.
    pub open spec fn index(self) -> nat {
        self.spec_sector() * sector_bytes::<S>() + self.spec_offset()
    }

    /// The address whose fields are the normalisation of linear index `idx`.
    pub open spec fn normalizes(self, idx: int) -> bool {
        &&& self.spec_sector() == sector_of::<S>(idx)
        &&& self.spec_offset() == offset_of::<S>(idx)
    }

    /// The address that normalises linear index `idx`.
    pub closed spec fn at(idx: int) -> Self {
        Address {
            sector: sector_of::<S>(idx) as u32,
            offset: offset_of::<S>(idx) as u32,
            _phantom: PhantomData,
        }
    }

    /// The fields of `at(idx)`: the reduced sector and the floored offset.
    pub proof fn lemma_at(idx: int)
        ensures
            Self::at(idx).normalizes(idx),
            Self::at(idx).spec_offset() < sector_bytes::<S>(),
    {
        lemma_sector_bytes_bounds::<S>();
        lemma_mod_bound(idx, sector_bytes::<S>() as int);
        lemma_mod_bound(idx / sector_bytes::<S>() as int, sector_count() as int);
    }

    /// Builds an address from a non-negative linear index that may exceed
    /// the representable range; the sector number is reduced to 32 bits.
    pub(crate) fn from_wide(idx: u128) -> (r: Self)
        ensures
            r == Self::at(idx as int),
    {
        let size = S::size();
        proof {
            lemma_sector_bytes_bounds::<S>();
        }
        let q = idx / (size as u128);
        let sector = (q % 0x1_0000_0000u128) as u32;
        let offset = (idx % (size as u128)) as u32;
        proof {
            lemma_mod_bound(idx as int, size as int);
            Self::lemma_at(idx as int);
        }
        Address { sector, offset, _phantom: PhantomData }
    }

    /// Builds an address from fields that already satisfy the offset
    /// invariant.
    pub fn new_unchecked(sector: u32, offset: u32) -> (r: Self)
        requires
            offset < sector_bytes::<S>(),
        ensures
            r.spec_sector() == sector,
            r.spec_offset() == offset,
    {
        Address { sector, offset, _phantom: PhantomData }
    }

    /// Normalises `sector * SIZE + offset`, where `offset` may be negative or
    /// larger than a sector: negative offsets borrow from the sector number
    /// and large ones carry into it.
    pub fn new(sector: u32, offset: i32) -> (r: Self)
        ensures
            r == Self::at(sector * sector_bytes::<S>() + offset),
            r.normalizes(sector * sector_bytes::<S>() + offset),
            r.spec_offset() < sector_bytes::<S>(),
    {
        let size = S::size();
        proof {
            lemma_sector_bytes_bounds::<S>();
            assert((sector as int) * (size as int) <= 0xffff_ffff * 0x8000_0000) by (nonlinear_arith)
                requires
                    size <= 0x8000_0000,
            ;
        }
        // Shift the index by a whole cycle of 2^32 sectors so that it is
        // non-negative; neither the reduced sector nor the offset change.
        let cycle: u128 = 0x1_0000_0000u128 * (size as u128);
        let base: u128 = (sector as u128) * (size as u128) + cycle;
        let wide: i128 = base as i128 + offset as i128;
        let r = Self::from_wide(wide as u128);
        proof {
            let idx = sector * sector_bytes::<S>() + offset;
            lemma_shift_by_cycles::<S>(idx);
            Self::lemma_at(idx);
        }
        r
    }

    /// Normalises `block * 2^log_block_size + offset`: a position given
    /// relative to a filesystem block becomes a sector address.
    pub fn with_block_size(block: u32, offset: i32, log_block_size: u32) -> (r: Self)
        requires
            log_block_size < 64,
        ensures
            r == Self::at(block * pow2(log_block_size as nat) + offset),
            r.normalizes(block * pow2(log_block_size as nat) + offset),
            r.spec_offset() < sector_bytes::<S>(),
    {
        let size = S::size();
        let mut block_bytes: u128 = 1;
        let mut i: u32 = 0;
        proof {
            lemma_sector_bytes_bounds::<S>();
            lemma2_to64();
            lemma_pow2_strictly_increases_or_eq(0, 63);
        }
        while i < log_block_size
            invariant
                i <= log_block_size < 64,
                block_bytes == pow2(i as nat),
                pow2(i as nat) <= pow2(63),
            decreases log_block_size - i,
        {
            proof {
                lemma_pow2_unfold((i + 1) as nat);
                lemma_pow2_strictly_increases_or_eq((i + 1) as nat, 63);
                lemma2_to64_rest();
            }
            block_bytes = block_bytes * 2;
            i = i + 1;
        }
        proof {
            lemma2_to64_rest();
            assert((block as int) * (block_bytes as int) <= 0xffff_ffff * 0x8000_0000_0000_0000)
                by (nonlinear_arith)
                requires
                    block_bytes <= 0x8000_0000_0000_0000,
            ;
        }
        let cycle: u128 = 0x1_0000_0000u128 * (size as u128);
        let base: u128 = (block as u128) * block_bytes + cycle;
        let wide: i128 = base as i128 + offset as i128;
        let r = Self::from_wide(wide as u128);
        proof {
            let idx = block * pow2(log_block_size as nat) + offset;
            lemma_shift_by_cycles::<S>(idx);
            Self::lemma_at(idx);
        }
        r
    }

    /// Linear byte index `sector * SIZE + offset`.
    pub fn into_index(self) -> (r: u64)
        ensures
            r == self.index(),
    {
        proof {
            use_type_invariant(&self);
            lemma_sector_bytes_bounds::<S>();
            assert((self.sector as int) * sector_bytes::<S>() + self.offset
                <= 0xffff_ffff * 0x8000_0000 + 0x8000_0000) by (nonlinear_arith)
                requires
                    sector_bytes::<S>() <= 0x8000_0000,
                    self.offset < sector_bytes::<S>(),
            ;
        }
        (self.sector as u64) * (S::size() as u64) + self.offset as u64
    }

    pub fn sector_size(&self) -> (r: usize)
        ensures
            r == sector_bytes::<S>(),
    {
        S::size()
    }

    pub fn log_sector_size(&self) -> (r: u32)
        ensures
            r == S::spec_log_size(),
    {
        S::log_size()
    }

    pub fn sector(&self) -> (r: u32)
        ensures
            r == self.spec_sector(),
    {
        self.sector
    }

    pub fn offset(&self) -> (r: u32)
        ensures
            r == self.spec_offset(),
            r < sector_bytes::<S>(),
    {
        proof {
            use_type_invariant(self);
        }
        self.offset
    }

    /// Number of whole sectors from `start` to `end`, or `None` when `end`
    /// lies in an earlier sector.
    pub fn steps_between(start: &Self, end: &Self) -> (r: Option<usize>)
        ensures
            end.spec_sector() >= start.spec_sector() ==> r == Some(
                (end.spec_sector() - start.spec_sector()) as usize,
            ),
            end.spec_sector() < start.spec_sector() ==> r is None,
    {
        if end.sector >= start.sector {
            Some((end.sector - start.sector) as usize)
        } else {
            None
        }
    }

    /// The start of the sector `count` sectors after `start`'s, or `None`
    /// past the last sector number.
    pub fn forward_checked(start: Self, count: usize) -> (r: Option<Self>)
        ensures
            start.spec_sector() + count < sector_count() ==> r == Some(
                Self::at((start.spec_sector() + count) * sector_bytes::<S>()),
            ),
            start.spec_sector() + count >= sector_count() ==> r is None,
    {
        if count as u64 <= (u32::MAX - start.sector) as u64 {
            Some(Address::new(start.sector + count as u32, 0))
        } else {
            None
        }
    }

    /// The start of the sector `count` sectors before `start`'s, or `None`
    /// before sector zero.
    pub fn backward_checked(start: Self, count: usize) -> (r: Option<Self>)
        ensures
            count <= start.spec_sector() ==> r == Some(
                Self::at((start.spec_sector() - count) * sector_bytes::<S>()),
            ),
            count > start.spec_sector() ==> r is None,
    {
        if count as u64 <= start.sector as u64 {
            Some(Address::new(start.sector - count as u32, 0))
        } else {
            None
        }
    }
}

impl<S: SectorSize> core::convert::From<u64> for Address<S> {
    fn from(idx: u64) -> (r: Self) {
        Self::from_wide(idx as u128)
    }
}

impl<S: SectorSize> vstd::std_specs::convert::FromSpecImpl<u64> for Address<S> {
    open spec fn obeys_from_spec() -> bool {
        true
    }

    open spec fn from_spec(v: u64) -> Self {
        Address::at(v as int)
    }
}

impl<S: SectorSize> core::convert::From<usize> for Address<S> {
    fn from(idx: usize) -> (r: Self) {
        Self::from_wide(idx as u128)
    }
}

impl<S: SectorSize> vstd::std_specs::convert::FromSpecImpl<usize> for Address<S> {
    open spec fn obeys_from_spec() -> bool {
        true
    }

    open spec fn from_spec(v: usize) -> Self {
        Address::at(v as int)
    }
}

impl<S: SectorSize> core::ops::Add for Address<S> {
    type Output = Self;

    fn add(self, rhs: Self) -> (r: Self) {
        proof {
            use_type_invariant(&self);
            use_type_invariant(&rhs);
            lemma_index_bound(self);
            lemma_index_bound(rhs);
        }
        Self::from_wide(self.into_index() as u128 + rhs.into_index() as u128)
    }
}

impl<S: SectorSize> vstd::std_specs::ops::AddSpecImpl for Address<S> {
    open spec fn obeys_add_spec() -> bool {
        true
    }

    /// The sum must stay within the representable range.
    open spec fn add_req(self, rhs: Self) -> bool {
        self.index() + rhs.index() < index_limit::<S>()
    }

    open spec fn add_spec(self, rhs: Self) -> Self {
        Address::at(self.index() + rhs.index() as int)
    }
}

impl<S: SectorSize> core::ops::Sub for Address<S> {
    type Output = Self;

    fn sub(self, rhs: Self) -> (r: Self) {
        Self::from_wide((self.into_index() - rhs.into_index()) as u128)
    }
}

impl<S: SectorSize> vstd::std_specs::ops::SubSpecImpl for Address<S> {
    open spec fn obeys_sub_spec() -> bool {
        true
    }

    /// The difference must not be negative.
    open spec fn sub_req(self, rhs: Self) -> bool {
        rhs.index() <= self.index()
    }

    open spec fn sub_spec(self, rhs: Self) -> Self {
        Address::at(self.index() - rhs.index() as int)
    }
}

impl<S: SectorSize> PartialEq for Address<S> {
    fn eq(&self, other: &Self) -> (r: bool) {
        self.sector == other.sector && self.offset == other.offset
    }
}

impl<S: SectorSize> vstd::std_specs::cmp::PartialEqSpecImpl for Address<S> {
    open spec fn obeys_eq_spec() -> bool {
        true
    }

    open spec fn eq_spec(&self, other: &Self) -> bool {
        self.spec_sector() == other.spec_sector() && self.spec_offset() == other.spec_offset()
    }
}

impl<S: SectorSize> Eq for Address<S> {
}

/// Order of two addresses: by sector, then by offset.
pub open spec fn address_cmp<S: SectorSize>(a: Address<S>, b: Address<S>) -> core::cmp::Ordering {
    if a.spec_sector() < b.spec_sector() {
        core::cmp::Ordering::Less
    } else if a.spec_sector() > b.spec_sector() {
        core::cmp::Ordering::Greater
    } else if a.spec_offset() < b.spec_offset() {
        core::cmp::Ordering::Less
    } else if a.spec_offset() > b.spec_offset() {
        core::cmp::Ordering::Greater
    } else {
        core::cmp::Ordering::Equal
    }
}

impl<S: SectorSize> PartialOrd for Address<S> {
    fn partial_cmp(&self, other: &Self) -> (r: Option<core::cmp::Ordering>) {
        if self.sector < other.sector {
            Some(core::cmp::Ordering::Less)
        } else if self.sector > other.sector {
            Some(core::cmp::Ordering::Greater)
        } else if self.offset < other.offset {
            Some(core::cmp::Ordering::Less)
        } else if self.offset > other.offset {
            Some(core::cmp::Ordering::Greater)
        } else {
            Some(core::cmp::Ordering::Equal)
        }
    }
}

impl<S: SectorSize> vstd::std_specs::cmp::PartialOrdSpecImpl for Address<S> {
    open spec fn obeys_partial_cmp_spec() -> bool {
        true
    }

    open spec fn partial_cmp_spec(&self, other: &Self) -> Option<core::cmp::Ordering> {
        Some(address_cmp(*self, *other))
    }
}

/// The linear index of an address is below the representable limit.
proof fn lemma_index_bound<S: SectorSize>(a: Address<S>)
    requires
        a.spec_offset() < sector_bytes::<S>(),
    ensures
        a.index() < index_limit::<S>(),
        a.index() < 0x80_0000_0000_0000_0000,
{
    lemma_sector_bytes_bounds::<S>();
    assert(a.index() < index_limit::<S>()) by (nonlinear_arith)
        requires
            a.spec_sector() < sector_count(),
            a.spec_offset() < sector_bytes::<S>(),
            a.index() == a.spec_sector() * sector_bytes::<S>() + a.spec_offset(),
            index_limit::<S>() == sector_count() * sector_bytes::<S>(),
    ;
}

/// Comparing two addresses by sector and then offset orders them as their
/// linear indices.
pub proof fn lemma_address_cmp_index<S: SectorSize>(a: Address<S>, b: Address<S>)
    requires
        a.spec_offset() < sector_bytes::<S>(),
        b.spec_offset() < sector_bytes::<S>(),
    ensures
        (address_cmp(a, b) == core::cmp::Ordering::Less) <==> a.index() < b.index(),
        (address_cmp(a, b) == core::cmp::Ordering::Equal) <==> a.index() == b.index(),
        (address_cmp(a, b) == core::cmp::Ordering::Greater) <==> a.index() > b.index(),
{
    let d = sector_bytes::<S>() as int;
    let (sa, sb) = (a.spec_sector() as int, b.spec_sector() as int);
    if sa < sb {
        assert(sa * d + d <= sb * d) by (nonlinear_arith)
            requires
                sa < sb,
                d > 0,
        ;
    } else if sa > sb {
        assert(sb * d + d <= sa * d) by (nonlinear_arith)
            requires
                sb < sa,
                d > 0,
        ;
    }
}

/// Normalising any linear index inside the representable range and taking
/// the linear index again gives the original index back.
pub proof fn lemma_index_round_trip<S: SectorSize>(idx: int)
    requires
        0 <= idx < index_limit::<S>(),
    ensures
        Address::<S>::at(idx).index() == idx,
{
    lemma_sector_bytes_bounds::<S>();
    Address::<S>::lemma_at(idx);
    let d = sector_bytes::<S>() as int;
    lemma_fundamental_div_mod(idx, d);
    lemma_div_pos_is_pos(idx, d);
    lemma_div_by_multiple_is_strongly_ordered(idx, index_limit::<S>() as int, sector_count() as int, d);
    lemma_div_multiples_vanish(sector_count() as int, d);
    lemma_small_mod((idx / d) as nat, sector_count());
    let a = Address::<S>::at(idx);
    assert(a.spec_sector() == idx / d);
    assert(a.spec_offset() == idx % d);
    assert(a.index() == (idx / d) * d + idx % d);
    assert((idx / d) * d == d * (idx / d)) by (nonlinear_arith);
}

/// Adding one full cycle of `2^32` sectors to a linear index changes neither
/// its reduced sector nor its offset.
proof fn lemma_shift_by_cycles<S: SectorSize>(idx: int)
    ensures
        sector_of::<S>(idx + index_limit::<S>()) == sector_of::<S>(idx),
        offset_of::<S>(idx + index_limit::<S>()) == offset_of::<S>(idx),
{
    lemma_sector_bytes_bounds::<S>();
    let d = sector_bytes::<S>() as int;
    let c = sector_count() as int;
    let x = idx + index_limit::<S>();
    lemma_fundamental_div_mod(idx, d);
    lemma_mod_bound(idx, d);
    assert(x == d * (idx / d + c) + idx % d) by (nonlinear_arith)
        requires
            index_limit::<S>() == c * d,
            x == idx + index_limit::<S>(),
            idx == d * (idx / d) + idx % d,
    ;
    lemma_fundamental_div_mod_converse(x, d, idx / d + c, idx % d);
    lemma_mod_multiples_vanish(1, idx / d, c);
}

} // verus!
