//! The kinds of physical memory, by what the memory is used for, and the
//! interface of whatever describes a region of it.

use crate::addr::PhysAddr;
use vstd::prelude::*;

verus! {

/// The parts of the kernel that own memory of their own.
#[derive(Debug, Clone, Copy, PartialEq, Eq, PartialOrd, Ord, Structural)]
pub enum MemoryComponent {
    KernelBin,
    KernelInitStack,
    KernelInitHeap,
    KernelElf,
    Initfs,
}

/// What a region of physical memory is. Later variants take precedence
/// over earlier ones.
#[derive(Debug, Clone, Copy, PartialEq, Eq, PartialOrd, Ord, Structural)]
pub enum PhysEntryKind {
    Absent,
    Free,
    Reserved,
    Special,
    AcpiReclaimable,
    Component(MemoryComponent),
    Broken,
}

impl MemoryComponent {
    /// The position of the component among the components.
    pub open spec fn rank(self) -> int {
        match self {
            MemoryComponent::KernelBin => 0,
            MemoryComponent::KernelInitStack => 1,
            MemoryComponent::KernelInitHeap => 2,
            MemoryComponent::KernelElf => 3,
            MemoryComponent::Initfs => 4,
        }
    }

    pub fn priority(self) -> (r: u8)
        ensures
            r == self.rank(),
    {
        match self {
            MemoryComponent::KernelBin => 0,
            MemoryComponent::KernelInitStack => 1,
            MemoryComponent::KernelInitHeap => 2,
            MemoryComponent::KernelElf => 3,
            MemoryComponent::Initfs => 4,
        }
    }
}

impl PhysEntryKind {
    /// The position of the kind in the order of precedence. The
    /// components lie between reclaimable and broken memory, in their own
    /// order.
    pub open spec fn rank(self) -> int {
        match self {
            PhysEntryKind::Absent => 0,
            PhysEntryKind::Free => 1,
            PhysEntryKind::Reserved => 2,
            PhysEntryKind::Special => 3,
            PhysEntryKind::AcpiReclaimable => 4,
            PhysEntryKind::Component(c) => 5 + c.rank(),
            PhysEntryKind::Broken => 10,
        }
    }

    pub fn priority(self) -> (r: u8)
        ensures
            r == self.rank(),
    {
        match self {
            PhysEntryKind::Absent => 0,
            PhysEntryKind::Free => 1,
            PhysEntryKind::Reserved => 2,
            PhysEntryKind::Special => 3,
            PhysEntryKind::AcpiReclaimable => 4,
            PhysEntryKind::Component(c) => 5 + c.priority(),
            PhysEntryKind::Broken => 10,
        }
    }

    /// Distinct kinds have distinct ranks.
    pub proof fn lemma_rank_is_injective(a: Self, b: Self)
        requires
            a.rank() == b.rank(),
        ensures
            a == b,
    {
    }
}

/// Anything that describes a region of physical memory.
pub trait PhysMemoryDescriptor {
    spec fn kind_spec(&self) -> PhysEntryKind;

    spec fn start_spec(&self) -> PhysAddr;

    spec fn end_spec(&self) -> PhysAddr;

    fn phys_kind(&self) -> (r: PhysEntryKind)
        ensures
            r == self.kind_spec(),
    ;

    fn phys_start(&self) -> (r: PhysAddr)
        ensures
            r == self.start_spec(),
    ;

    fn phys_end(&self) -> (r: PhysAddr)
        ensures
            r == self.end_spec(),
    ;

    /// The number of bytes in the region.
    fn phys_size(&self) -> (r: u64)
        requires
            self.start_spec()@ < self.end_spec()@,
        ensures
            r == self.end_spec()@ - self.start_spec()@,
    {
        let start = self.phys_start();
        let end = self.phys_end();
        end.addr_distance(start)
    }
}

} // verus!
