//! The memory map that the firmware reports at boot, and how it is fed
//! into the physical memory map.

use crate::addr::PhysAddr;
use crate::error::MemoryError;
use crate::phys::add_region_spec;
use crate::phys::MemoryDesc;
use crate::phys::PhysMemoryBorder;
use crate::phys::PhysMemoryKind;
use crate::phys::PhysMemoryMap;
use vstd::prelude::*;

verus! {

/// Memory that is free to use.
pub const REGION_USABLE: u32 = 1;

/// Memory that must be left alone.
pub const REGION_RESERVED: u32 = 2;

/// Memory that holds ACPI tables and is free once they have been read.
pub const REGION_ACPI_RECLAIMABLE: u32 = 3;

/// Memory that the firmware keeps for itself across sleep.
pub const REGION_ACPI_NVS: u32 = 4;

/// Memory that is known to be faulty.
pub const REGION_BAD: u32 = 5;

/// The first address of high memory.
pub const HIGH_MEMORY: u64 = 1024 * 1024;

/// One region as the firmware reports it.
#[derive(Clone, Copy, Debug, PartialEq, Eq, Structural)]
pub struct BootMemoryEntry {
    pub address: u64,
    pub len: u64,
    pub entry_type: u32,
    pub extra: u32,
}

/// The kind of memory that a type code of the firmware stands for. A code
/// that is not known counts as reserved.
pub open spec fn kind_of_code(entry_type: u32) -> PhysMemoryKind {
    if entry_type == REGION_USABLE {
        PhysMemoryKind::Free
    } else if entry_type == REGION_ACPI_RECLAIMABLE {
        PhysMemoryKind::AcpiReclaimable
    } else if entry_type == REGION_ACPI_NVS {
        PhysMemoryKind::Special
    } else if entry_type == REGION_BAD {
        PhysMemoryKind::Broken
    } else {
        PhysMemoryKind::Reserved
    }
}

impl BootMemoryEntry {
    /// Whether the entry marks the end of the firmware's list.
    pub open spec fn is_end(self) -> bool {
        self.len == 0 && self.address == 0
    }

    /// The address just beyond the region, or the highest address of all
    /// where the region claims to reach beyond it.
    pub open spec fn end(self) -> u64 {
        if self.address + self.len > u64::MAX {
            u64::MAX
        } else {
            (self.address + self.len) as u64
        }
    }

    pub fn kind(&self) -> (r: PhysMemoryKind)
        ensures
            r == kind_of_code(self.entry_type),
    {
        if self.entry_type == REGION_USABLE {
            PhysMemoryKind::Free
        } else if self.entry_type == REGION_ACPI_RECLAIMABLE {
            PhysMemoryKind::AcpiReclaimable
        } else if self.entry_type == REGION_ACPI_NVS {
            PhysMemoryKind::Special
        } else if self.entry_type == REGION_BAD {
            PhysMemoryKind::Broken
        } else {
            PhysMemoryKind::Reserved
        }
    }
}

impl MemoryDesc for BootMemoryEntry {
    open spec fn kind_spec(&self) -> PhysMemoryKind {
        kind_of_code(self.entry_type)
    }

    open spec fn start_spec(&self) -> PhysAddr {
        PhysAddr::with_raw(self.address)
    }

    open spec fn end_spec(&self) -> PhysAddr {
        PhysAddr::with_raw(self.end())
    }

    fn memory_kind(&self) -> (r: PhysMemoryKind) {
        self.kind()
    }

    fn memory_start(&self) -> (r: PhysAddr) {
        PhysAddr::from(self.address)
    }

    fn memory_end(&self) -> (r: PhysAddr) {
        PhysAddr::from(self.address.saturating_add(self.len))
    }
}

/// The bytes of usable memory among the entries from `from` up to the end
/// of the list.
pub open spec fn usable_bytes(entries: Seq<BootMemoryEntry>, from: int) -> int
    decreases entries.len() - from,
{
    if from < 0 || from >= entries.len() || entries[from].is_end() {
        0
    } else {
        usable_bytes(entries, from + 1) + if entries[from].entry_type == REGION_USABLE {
            entries[from].len as int
        } else {
            0
        }
    }
}

/// The sum is never negative.
pub proof fn lemma_usable_bytes_nonnegative(entries: Seq<BootMemoryEntry>, from: int)
    ensures
        usable_bytes(entries, from) >= 0,
    decreases entries.len() - from,
{
    if !(from < 0 || from >= entries.len() || entries[from].is_end()) {
        lemma_usable_bytes_nonnegative(entries, from + 1);
    }
}

/// The number of bytes of usable memory that the firmware reports.
pub fn total_memory(entries: &[BootMemoryEntry]) -> (r: u64)
    requires
        usable_bytes(entries@, 0) <= u64::MAX,
    ensures
        r == usable_bytes(entries@, 0),
{
    let mut total: u64 = 0;
    let mut i: usize = 0;
    while i < entries.len()
        invariant
            i <= entries@.len(),
            total + usable_bytes(entries@, i as int) == usable_bytes(entries@, 0),
            usable_bytes(entries@, 0) <= u64::MAX,
        decreases entries@.len() - i,
    {
        let entry = entries[i];
        if entry.len == 0 && entry.address == 0 {
            return total;
        }
        proof {
            lemma_usable_bytes_nonnegative(entries@, i + 1);
        }
        if entry.entry_type == REGION_USABLE {
            total += entry.len;
        }
        i += 1;
    }
    total
}

/// The first region from `from` on that is not reserved and lies in high
/// memory, if there is one.
pub open spec fn first_high_region(entries: Seq<BootMemoryEntry>, from: int) -> Option<int>
    decreases entries.len() - from,
{
    if from < 0 || from >= entries.len() {
        None
    } else if entries[from].entry_type != REGION_RESERVED && entries[from].address >= HIGH_MEMORY {
        Some(from)
    } else {
        first_high_region(entries, from + 1)
    }
}

/// Finds memory to load into: the first region that is not reserved and
/// starts at or above one mebibyte.
pub fn find_high_memory(entries: &[BootMemoryEntry]) -> (r: Option<usize>)
    ensures
        match r {
            Some(i) => first_high_region(entries@, 0) == Some(i as int) && i < entries@.len(),
            None => first_high_region(entries@, 0) is None,
        },
{
    let mut i: usize = 0;
    while i < entries.len()
        invariant
            i <= entries@.len(),
            first_high_region(entries@, i as int) == first_high_region(entries@, 0),
        decreases entries@.len() - i,
    {
        if entries[i].entry_type != REGION_RESERVED && entries[i].address >= HIGH_MEMORY {
            return Some(i);
        }
        i += 1;
    }
    None
}

/// What adding the reported regions one after the other, from entry
/// `from` up to the end of the list, answers, and the borders afterwards.
/// The first region that cannot be added ends the work.
pub open spec fn add_boot_regions_spec(
    b: Seq<PhysMemoryBorder>,
    cap: nat,
    entries: Seq<BootMemoryEntry>,
    from: int,
) -> (Result<(), MemoryError>, Seq<PhysMemoryBorder>)
    decreases entries.len() - from,
{
    if from < 0 || from >= entries.len() || entries[from].is_end() {
        (Ok(()), b)
    } else {
        let added = add_region_spec(
            b,
            cap,
            entries[from].kind_spec(),
            entries[from].start_spec(),
            entries[from].end_spec(),
        );
        if added.0 is Err {
            added
        } else {
            add_boot_regions_spec(added.1, cap, entries, from + 1)
        }
    }
}

/// Enters every region that the firmware reports into `map`, in the order
/// of the report.
pub fn add_boot_regions<const N: usize>(map: &mut PhysMemoryMap<N>, entries: &[BootMemoryEntry]) -> (r:
    Result<(), MemoryError>)
    requires
        old(map).wf(),
    ensures
        final(map).wf(),
        (r, final(map)@) == add_boot_regions_spec(old(map)@, N as nat, entries@, 0),
{
    let mut i: usize = 0;
    while i < entries.len()
        invariant
            i <= entries@.len(),
            map.wf(),
            add_boot_regions_spec(map@, N as nat, entries@, i as int) == add_boot_regions_spec(
                old(map)@,
                N as nat,
                entries@,
                0,
            ),
        decreases entries@.len() - i,
    {
        let entry = entries[i];
        if entry.len == 0 && entry.address == 0 {
            return Ok(());
        }
        match map.add_region(entry) {
            Ok(_) => {},
            Err(e) => {
                return Err(e);
            },
        }
        i += 1;
    }
    Ok(())
}

} // verus!
