//! The partition table at the start of a disk.

use crate::bytes::le_u16;
use crate::bytes::le_u32;
use crate::bytes::read_u16;
use crate::bytes::read_u32;
use crate::error::FsError;
use vstd::prelude::*;

verus! {

/// A handle to a disk that can be read, moved about, and copied freely.
pub trait ReadSeekCopy: Copy {
}

/// Where on the disk the table starts.
pub const MBR_OFFSET: u64 = 440;

/// How many bytes the table takes up.
pub const MBR_LEN: usize = 72;

/// The size of one sector.
pub const SECTOR_LEN: u64 = 512;

/// The signature that marks a table as valid.
pub const MBR_SIGNATURE: u16 = 0xaa55;

/// One partition of a disk.
pub struct Partition<Disk: ReadSeekCopy> {
    pub bootable: bool,
    pub kind: u8,
    pub lba_start: u32,
    pub lba_count: u32,
    seek: u64,
    disk: Disk,
}

/// One of the four entries of the table, as it stands on the disk.
#[derive(Clone, Copy, Debug, PartialEq, Eq)]
pub struct MbrPart {
    pub boot_flag: u8,
    pub start_chs: [u8; 3],
    pub kind: u8,
    pub end_chs: [u8; 3],
    pub sector_start: u32,
    pub count: u32,
}

/// The entry that the sixteen bytes from `at` on hold.
pub open spec fn part_at(bytes: Seq<u8>, at: int, part: MbrPart) -> bool {
    &&& part.boot_flag == bytes[at]
    &&& part.start_chs@ == bytes.subrange(at + 1, at + 4)
    &&& part.kind == bytes[at + 4]
    &&& part.end_chs@ == bytes.subrange(at + 5, at + 8)
    &&& part.sector_start == le_u32(bytes, at + 8)
    &&& part.count == le_u32(bytes, at + 12)
}

#[derive(Clone, Copy)]
pub struct Mbr<Disk: ReadSeekCopy> {
    disk_id: u32,
    reserved: u16,
    entries: [MbrPart; 4],
    signature: u16,
    disk: Disk,
}

fn read_part(bytes: &[u8], at: usize) -> (r: MbrPart)
    requires
        at + 16 <= bytes@.len(),
    ensures
        part_at(bytes@, at as int, r),
{
    let r = MbrPart {
        boot_flag: bytes[at],
        start_chs: [bytes[at + 1], bytes[at + 2], bytes[at + 3]],
        kind: bytes[at + 4],
        end_chs: [bytes[at + 5], bytes[at + 6], bytes[at + 7]],
        sector_start: read_u32(bytes, at + 8),
        count: read_u32(bytes, at + 12),
    };
    assert(r.start_chs@ =~= bytes@.subrange(at + 1, at + 4));
    assert(r.end_chs@ =~= bytes@.subrange(at + 5, at + 8));
    r
}

impl<Disk: ReadSeekCopy> Mbr<Disk> {
    pub closed spec fn disk_id(&self) -> u32 {
        self.disk_id
    }

    pub closed spec fn entries(&self) -> Seq<MbrPart> {
        self.entries@
    }

    pub closed spec fn signature(&self) -> u16 {
        self.signature
    }

    pub closed spec fn disk(&self) -> Disk {
        self.disk
    }

    /// Reads the table out of `sector`, the bytes of the disk from byte
    /// 440 on. A table without the signature is not a table.
    pub fn new(disk: Disk, sector: &[u8]) -> (r: Result<Self, FsError>)
        requires
            sector@.len() >= MBR_LEN,
        ensures
            le_u16(sector@, 70) != MBR_SIGNATURE ==> r is Err && r->Err_0 == FsError::InvalidInput,
            le_u16(sector@, 70) == MBR_SIGNATURE ==> r is Ok && {
                let mbr = r->Ok_0;
                &&& mbr.disk_id() == le_u32(sector@, 0)
                &&& mbr.signature() == MBR_SIGNATURE
                &&& mbr.disk() == disk
                &&& mbr.entries().len() == 4
                &&& forall|i: int| 0 <= i < 4 ==> part_at(sector@, 6 + 16 * i, #[trigger] mbr.entries()[i])
            },
    {
        let mbr = Self {
            disk_id: read_u32(sector, 0),
            reserved: read_u16(sector, 4),
            entries: [
                read_part(sector, 6),
                read_part(sector, 22),
                read_part(sector, 38),
                read_part(sector, 54),
            ],
            signature: read_u16(sector, 70),
            disk,
        };
        if mbr.signature != 0xaa55 {
            return Err(FsError::InvalidInput);
        }
        Ok(mbr)
    }

    /// The partition that entry `index` of the table describes. There are
    /// four entries, and an entry without sectors or without a start
    /// describes nothing.
    pub fn partition(&self, index: usize) -> (r: Option<Partition<Disk>>)
        ensures
            self.entries().len() == 4,
            index >= 4 || self.entries()[index as int].count == 0 || self.entries()[index as int].sector_start
                == 0 ==> r is None,
            index < 4 && self.entries()[index as int].count != 0 && self.entries()[index as int].sector_start
                != 0 ==> r is Some && {
                let entry = self.entries()[index as int];
                let p = r->Some_0;
                &&& p.is_bootable() == (entry.boot_flag == 0x80)
                &&& p.partition_kind() == entry.kind
                &&& p.first_sector() == entry.sector_start
                &&& p.sectors() == entry.count
                &&& p.position() == 0
                &&& p.disk() == self.disk()
            },
    {
        if index >= 4 {
            return None;
        }
        let entry = self.entries[index];
        if entry.count == 0 || entry.sector_start == 0 {
            return None;
        }
        Some(
            Partition::<Disk> {
                bootable: entry.boot_flag == 0x80,
                kind: entry.kind,
                lba_start: entry.sector_start,
                lba_count: entry.count,
                seek: 0,
                disk: self.disk,
            },
        )
    }
}

impl<Disk: ReadSeekCopy> Partition<Disk> {
    /// The position in the partition where the next read starts.
    pub closed spec fn position(&self) -> u64 {
        self.seek
    }

    pub closed spec fn is_bootable(&self) -> bool {
        self.bootable
    }

    pub closed spec fn partition_kind(&self) -> u8 {
        self.kind
    }

    pub closed spec fn first_sector(&self) -> u32 {
        self.lba_start
    }

    pub closed spec fn sectors(&self) -> u32 {
        self.lba_count
    }

    pub closed spec fn disk(&self) -> Disk {
        self.disk
    }

    /// Moves to byte `pos` of the partition.
    pub fn seek(&mut self, pos: u64) -> (r: u64)
        ensures
            r == pos,
            final(self).position() == pos,
            final(self).disk() == old(self).disk(),
            final(self).is_bootable() == old(self).is_bootable(),
            final(self).partition_kind() == old(self).partition_kind(),
            final(self).first_sector() == old(self).first_sector(),
            final(self).sectors() == old(self).sectors(),
    {
        self.seek = pos;
        self.seek
    }

    pub fn stream_position(&self) -> (r: u64)
        ensures
            r == self.position(),
    {
        self.seek
    }

    /// The disk that holds the partition.
    pub fn disk_handle(&self) -> (r: Disk)
        ensures
            r == self.disk(),
    {
        self.disk
    }

    /// Where on the disk the next read starts: the position in the
    /// partition, counted from the partition's first sector. Nothing
    /// where that lies beyond what a disk can address.
    pub fn read_offset(&self) -> (r: Option<u64>)
        ensures
            match r {
                Some(at) => at == self.position() + self.first_sector() * SECTOR_LEN,
                None => self.position() + self.first_sector() * SECTOR_LEN > u64::MAX,
            },
    {
        self.seek.checked_add(self.lba_start as u64 * 512)
    }
}

} // verus!
