use crate::error::Error;
use crate::sector::{
    index_limit, lemma_index_round_trip, lemma_sector_bytes_bounds, offset_of, sector_bytes,
    sector_of, Address, SectorSize,
};
use vstd::prelude::*;

verus! {

/// Little-endian 16-bit value stored at `at`.
pub open spec fn le_u16(b: Seq<u8>, at: int) -> u16 {
    (b[at] + b[at + 1] * 0x100) as u16
}

/// Little-endian 32-bit value stored at `at`.
pub open spec fn le_u32(b: Seq<u8>, at: int) -> u32 {
    (b[at] + b[at + 1] * 0x100 + b[at + 2] * 0x1_0000 + b[at + 3] * 0x100_0000) as u32
}

pub(crate) fn read_u16(b: &[u8], at: usize) -> (r: u16)
    requires
        at + 2 <= b@.len(),
    ensures
        r == le_u16(b@, at as int),
{
    let _len = b.len();
    b[at] as u16 + (b[at + 1] as u16) * 0x100
}

pub(crate) fn read_u32(b: &[u8], at: usize) -> (r: u32)
    requires
        at + 4 <= b@.len(),
    ensures
        r == le_u32(b@, at as int),
{
    let _len = b.len();
    b[at] as u32 + (b[at + 1] as u32) * 0x100 + (b[at + 2] as u32) * 0x1_0000 + (b[at + 3] as u32)
        * 0x100_0000
}

/// The error reported for a record whose end lies at linear index `end`.
pub open spec fn out_of_bounds<S: SectorSize>(end: int) -> Error {
    Error::AddressOutOfBounds {
        sector: sector_of::<S>(end) as u32,
        offset: offset_of::<S>(end) as u32,
        size: sector_bytes::<S>() as usize,
    }
}

/// Whether `len` bytes at `start` lie inside a volume of `volume_len` bytes
/// and end at an index that an [`Address`] can represent.
pub open spec fn fits<S: SectorSize>(volume_len: nat, start: Address<S>, len: nat) -> bool {
    let end = start.index() + len;
    end <= volume_len && end < index_limit::<S>()
}

/// Outcome of the bounds check for `len` bytes at `start` in a volume of
/// `volume_len` bytes: the end address when the range fits, else the error
/// naming that end address (its sector reduced to 32 bits when the end lies
/// past the last representable sector).
pub open spec fn checked_end<S: SectorSize>(volume_len: nat, start: Address<S>, len: nat) -> Result<
    Address<S>,
    Error,
> {
    let end = start.index() + len as int;
    if fits(volume_len, start, len) {
        Ok(Address::at(end))
    } else {
        Err(out_of_bounds::<S>(end))
    }
}

/// Checks that `len` bytes starting at `start` lie inside `volume`, and
/// returns the address just past them.
pub fn record_end<S: SectorSize>(volume: &[u8], start: Address<S>, len: u128) -> (r: Result<
    Address<S>,
    Error,
>)
    requires
        len <= 0x1_0000_0000_0000_0000_0000,
    ensures
        r == checked_end(volume@.len(), start, len as nat),
{
    let end_index: u128 = start.into_index() as u128 + len;
    let end = Address::<S>::from_wide(end_index);
    proof {
        Address::<S>::lemma_at(end_index as int);
        lemma_sector_bytes_bounds::<S>();
    }
    let limit: u128 = 0x1_0000_0000u128 * (S::size() as u128);
    if end_index > volume.len() as u128 || end_index >= limit {
        Err(Error::AddressOutOfBounds {
            sector: end.sector(),
            offset: end.offset(),
            size: end.sector_size(),
        })
    } else {
        Ok(end)
    }
}

/// Locating `len` bytes at `start` in a volume of `volume_len` bytes
/// succeeds exactly when `start.index() + len <= volume_len` and that end is
/// representable as an address, and then yields an address whose linear
/// index is that end; otherwise the error names the sector and offset of the
/// record's end and the sector size.
pub proof fn lemma_locate_bounds<S: SectorSize>(volume_len: nat, start: Address<S>, len: nat)
    ensures
        checked_end(volume_len, start, len) is Ok <==> start.index() + len <= volume_len
            && start.index() + len < index_limit::<S>(),
        checked_end(volume_len, start, len) is Ok ==> checked_end(volume_len, start, len)->Ok_0.index()
            == start.index() + len,
        !fits(volume_len, start, len) ==> checked_end(volume_len, start, len)
            == Err::<Address<S>, Error>(
            Error::AddressOutOfBounds {
                sector: sector_of::<S>(start.index() + len as int) as u32,
                offset: offset_of::<S>(start.index() + len as int) as u32,
                size: sector_bytes::<S>() as usize,
            },
        ),
{
    if fits(volume_len, start, len) {
        lemma_index_round_trip::<S>(start.index() + len as int);
    }
}

/// A table of `count` records of `record_len` bytes is accepted as a whole
/// or refused as a whole: it is refused exactly when the last record's end
/// lies past the volume or past the last representable address, even if
/// every earlier record would fit, and when it is accepted every record it
/// holds fits.
pub proof fn lemma_table_all_or_nothing<S: SectorSize>(
    volume_len: nat,
    start: Address<S>,
    record_len: nat,
    count: nat,
    k: nat,
)
    requires
        0 < k <= count,
    ensures
        checked_end(volume_len, start, record_len * count) is Err <==> (start.index()
            + record_len * count > volume_len || start.index() + record_len * count
            >= index_limit::<S>()),
        checked_end(volume_len, start, record_len * count) is Ok ==> checked_end(
            volume_len,
            start,
            record_len * k,
        ) is Ok,
{
    assert(record_len * k <= record_len * count) by (nonlinear_arith)
        requires
            k <= count,
    ;
}

} // verus!
