use crate::sector::{address_cmp, sector_bytes, Address, SectorSize};
use core::cmp::Ordering;
use vstd::prelude::*;

verus! {

/// Extent of a volume: either unknown (unbounded) or the address one past
/// its last byte.
#[derive(Copy, Debug)]
pub enum Size<S: SectorSize> {
    Unbounded,
    Bounded(Address<S>),
}

impl<S: SectorSize> Clone for Size<S> {
    fn clone(&self) -> (r: Self)
        ensures
            r == *self,
    {
        *self
    }
}

impl<S: SectorSize> Size<S> {
    /// The bounded extent, or `None` when unbounded.
    pub fn try_len(&self) -> (r: Option<Address<S>>)
        ensures
            r == match *self {
                Size::Unbounded => None::<Address<S>>,
                Size::Bounded(n) => Some(n),
            },
    {
        match *self {
            Size::Unbounded => None,
            Size::Bounded(n) => Some(n),
        }
    }

    /// Returns `true` if the size is bounded.
    pub fn is_bounded(&self) -> (r: bool)
        ensures
            r == self is Bounded,
    {
        match self {
            Size::Bounded(_) => true,
            Size::Unbounded => false,
        }
    }
}

/// Comparison of an extent with an address: an unbounded extent is greater
/// than every address.
pub open spec fn size_cmp_address<S: SectorSize>(a: Size<S>, b: Address<S>) -> Option<Ordering> {
    match a {
        Size::Unbounded => Some(Ordering::Greater),
        Size::Bounded(n) => Some(address_cmp(n, b)),
    }
}

/// Comparison of two extents: two unbounded extents are unordered.
pub open spec fn size_cmp<S: SectorSize>(a: Size<S>, b: Size<S>) -> Option<Ordering> {
    match (a, b) {
        (Size::Unbounded, Size::Unbounded) => None,
        (Size::Unbounded, _) => Some(Ordering::Greater),
        (_, Size::Unbounded) => Some(Ordering::Less),
        (Size::Bounded(x), Size::Bounded(y)) => Some(address_cmp(x, y)),
    }
}

/// Two extents are equal only when both are bounded by the same address.
pub open spec fn size_eq<S: SectorSize>(a: Size<S>, b: Size<S>) -> bool {
    match (a, b) {
        (Size::Bounded(x), Size::Bounded(y)) => x.spec_sector() == y.spec_sector()
            && x.spec_offset() == y.spec_offset(),
        _ => false,
    }
}

/// An extent equals an address only when it is bounded by that address.
pub open spec fn size_eq_address<S: SectorSize>(a: Size<S>, b: Address<S>) -> bool {
    match a {
        Size::Unbounded => false,
        Size::Bounded(n) => n.spec_sector() == b.spec_sector() && n.spec_offset()
            == b.spec_offset(),
    }
}

impl<S: SectorSize> PartialEq for Size<S> {
    fn eq(&self, rhs: &Self) -> (r: bool) {
        match (self, rhs) {
            (Size::Unbounded, _) => false,
            (_, Size::Unbounded) => false,
            (Size::Bounded(a), Size::Bounded(b)) => a.eq(b),
        }
    }
}

impl<S: SectorSize> vstd::std_specs::cmp::PartialEqSpecImpl for Size<S> {
    open spec fn obeys_eq_spec() -> bool {
        true
    }

    open spec fn eq_spec(&self, rhs: &Self) -> bool {
        size_eq(*self, *rhs)
    }
}

impl<S: SectorSize> PartialEq<Address<S>> for Size<S> {
    fn eq(&self, rhs: &Address<S>) -> (r: bool) {
        match self {
            Size::Unbounded => false,
            Size::Bounded(n) => n.eq(rhs),
        }
    }
}

impl<S: SectorSize> vstd::std_specs::cmp::PartialEqSpecImpl<Address<S>> for Size<S> {
    open spec fn obeys_eq_spec() -> bool {
        true
    }

    open spec fn eq_spec(&self, rhs: &Address<S>) -> bool {
        size_eq_address(*self, *rhs)
    }
}

impl<S: SectorSize> PartialOrd for Size<S> {
    fn partial_cmp(&self, rhs: &Self) -> (r: Option<Ordering>) {
        match (self, rhs) {
            (Size::Unbounded, Size::Unbounded) => None,
            (Size::Unbounded, _) => Some(Ordering::Greater),
            (_, Size::Unbounded) => Some(Ordering::Less),
            (Size::Bounded(a), Size::Bounded(b)) => a.partial_cmp(b),
        }
    }
}

impl<S: SectorSize> vstd::std_specs::cmp::PartialOrdSpecImpl for Size<S> {
    open spec fn obeys_partial_cmp_spec() -> bool {
        true
    }

    open spec fn partial_cmp_spec(&self, rhs: &Self) -> Option<Ordering> {
        size_cmp(*self, *rhs)
    }
}

impl<S: SectorSize> PartialOrd<Address<S>> for Size<S> {
    fn partial_cmp(&self, rhs: &Address<S>) -> (r: Option<Ordering>) {
        match self {
            Size::Unbounded => Some(Ordering::Greater),
            Size::Bounded(n) => n.partial_cmp(rhs),
        }
    }
}

impl<S: SectorSize> vstd::std_specs::cmp::PartialOrdSpecImpl<Address<S>> for Size<S> {
    open spec fn obeys_partial_cmp_spec() -> bool {
        true
    }

    open spec fn partial_cmp_spec(&self, rhs: &Address<S>) -> Option<Ordering> {
        size_cmp_address(*self, *rhs)
    }
}

/// An unbounded extent is never equal to anything, not even to another
/// unbounded extent or to any address.
pub proof fn lemma_unbounded_never_equal<S: SectorSize>(other: Size<S>, addr: Address<S>)
    ensures
        !size_eq(Size::<S>::Unbounded, other),
        !size_eq(other, Size::<S>::Unbounded),
        !size_eq_address(Size::<S>::Unbounded, addr),
        size_cmp(Size::<S>::Unbounded, Size::<S>::Unbounded) is None,
{
}

/// A bounded extent is below an address exactly when its linear index is.
pub proof fn lemma_bounded_less_than_address<S: SectorSize>(n: Address<S>, addr: Address<S>)
    requires
        n.spec_offset() < sector_bytes::<S>(),
        addr.spec_offset() < sector_bytes::<S>(),
    ensures
        (size_cmp_address(Size::Bounded(n), addr) == Some(Ordering::Less)) <==> n.index()
            < addr.index(),
{
    crate::sector::lemma_address_cmp_index(n, addr);
}

} // verus!
