//! A map of physical memory that keeps its borders in a vector of fixed
//! capacity.

use crate::addr::PhysAddr;
use crate::constvec::ConstVec;
use crate::descriptor::PhysEntryKind;
use crate::descriptor::PhysMemoryDescriptor;
use vstd::prelude::*;

verus! {

/// The region `[start, end)` and what it is.
#[derive(Clone, Copy, Debug)]
pub struct PhysMemoryEntry {
    kind: PhysEntryKind,
    start: PhysAddr,
    end: PhysAddr,
}

impl PhysMemoryEntry {
    pub closed spec fn kind(&self) -> PhysEntryKind {
        self.kind
    }

    pub closed spec fn start(&self) -> PhysAddr {
        self.start
    }

    pub closed spec fn end(&self) -> PhysAddr {
        self.end
    }

    /// The region from `start` up to `end` of the given kind.
    pub fn new(kind: PhysEntryKind, start: PhysAddr, end: PhysAddr) -> (r: Self)
        ensures
            r.kind() == kind,
            r.start() == start,
            r.end() == end,
    {
        Self { kind, start, end }
    }
}

impl PhysMemoryDescriptor for PhysMemoryEntry {
    closed spec fn kind_spec(&self) -> PhysEntryKind {
        self.kind
    }

    closed spec fn start_spec(&self) -> PhysAddr {
        self.start
    }

    closed spec fn end_spec(&self) -> PhysAddr {
        self.end
    }

    fn phys_kind(&self) -> (r: PhysEntryKind) {
        self.kind
    }

    fn phys_start(&self) -> (r: PhysAddr) {
        self.start
    }

    fn phys_end(&self) -> (r: PhysAddr) {
        self.end
    }
}

/// A point in physical memory, and the kind of the memory below it.
#[derive(Clone, Copy, Debug)]
pub struct PhysMemoryBorder {
    lhs_kind: PhysEntryKind,
    splice_point: PhysAddr,
}

impl PhysMemoryBorder {
    pub closed spec fn lhs_kind(&self) -> PhysEntryKind {
        self.lhs_kind
    }

    pub closed spec fn splice_point(&self) -> PhysAddr {
        self.splice_point
    }

    /// The border at address zero with no memory below it.
    pub fn null() -> (r: Self)
        ensures
            r.lhs_kind() == PhysEntryKind::Absent,
            r.splice_point()@ == 0,
    {
        Self { lhs_kind: PhysEntryKind::Absent, splice_point: PhysAddr::null_unaligned() }
    }
}

pub struct PhysMemoryMap<const N_BORDERS: usize> {
    array: ConstVec<N_BORDERS, PhysMemoryBorder>,
}

impl<const N_BORDERS: usize> PhysMemoryMap<N_BORDERS> {
    /// The borders of the map, in order.
    pub closed spec fn view(&self) -> Seq<PhysMemoryBorder> {
        self.array@
    }

    /// A map without borders.
    pub fn new() -> (r: Self)
        ensures
            r@ == Seq::<PhysMemoryBorder>::empty(),
    {
        Self { array: ConstVec::new() }
    }
}

} // verus!
