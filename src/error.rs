use vstd::prelude::*;

verus! {

/// Why a record could not be located.
#[derive(Clone, Copy, Debug, PartialEq, Eq, Structural)]
pub enum Error {
    /// The record would end past the end of the volume; carries the end
    /// address of the rejected record and the sector size it is expressed in.
    AddressOutOfBounds { sector: u32, offset: u32, size: usize },
    /// The requested record size differs from the fixed on-disk layout.
    UnsupportedRecordSize { size: usize },
}

} // verus!
