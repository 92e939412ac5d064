//! The file allocation table: what its entries mean, and how the chain of
//! a file's clusters is followed.

use crate::bytes::le_u16;
use crate::bytes::le_u32;
use crate::bytes::read_u16;
use crate::bytes::read_u32;
use crate::error::FsError;
use crate::inode::DirectoryEntry;
use vstd::prelude::*;

verus! {

#[derive(Debug, Clone, Copy, PartialEq, Eq, Structural)]
pub enum FatKind {
    Fat12,
    Fat16,
    Fat32,
}

/// A handle to something that can be read and moved about.
pub trait ReadSeek {
}

pub type ClusterId = u32;

/// What the table says of one cluster.
#[derive(Debug, Clone, Copy, PartialEq, Eq, Structural)]
pub enum FatEntry {
    /// The cluster is not in use.
    Free,
    /// The cluster is in use, and the chain goes on with the named one.
    Next(ClusterId),
    /// The cluster is in use and ends its chain.
    EOF,
    Reserved,
    Defective,
}

pub const FREE_CLUSTER: u32 = 0;

pub const ALLOCATED_CLUSTER_BEGIN: u32 = 2;

pub const FAT16_MAX: u32 = 0xfff4;

pub const FAT16_RESERVED_END: u32 = 0xfff6;

pub const FAT16_DEFECTIVE: u32 = 0xfff7;

pub const FAT16_EOF: u32 = 0xffff;

pub const FAT32_MAX: u32 = 0xffffff4;

pub const FAT32_RESERVED_END: u32 = 0xffffff6;

pub const FAT32_DEFECTIVE: u32 = 0xffffff7;

pub const FAT32_EOF: u32 = 0xffff_ffff;

impl FatEntry {
    /// Whether a 16-bit table can hold `id` as an entry with a meaning.
    pub open spec fn known_fat16(id: ClusterId) -> bool {
        id <= FAT16_DEFECTIVE || id == FAT16_EOF
    }

    /// Whether a 32-bit table can hold `id` as an entry with a meaning.
    pub open spec fn known_fat32(id: ClusterId) -> bool {
        id <= FAT32_DEFECTIVE || id == FAT32_EOF
    }

    /// The meaning of an entry with the given bounds.
    pub open spec fn meaning(id: ClusterId, max: u32, reserved_end: u32) -> FatEntry {
        if id == FREE_CLUSTER {
            FatEntry::Free
        } else if ALLOCATED_CLUSTER_BEGIN <= id <= max {
            FatEntry::Next(id)
        } else if id <= reserved_end {
            FatEntry::Reserved
        } else if id == reserved_end + 1 {
            FatEntry::Defective
        } else {
            FatEntry::EOF
        }
    }

    pub fn from_fat16(id: ClusterId) -> (r: FatEntry)
        requires
            Self::known_fat16(id),
        ensures
            r == Self::meaning(id, FAT16_MAX, FAT16_RESERVED_END),
    {
        if id == FREE_CLUSTER {
            FatEntry::Free
        } else if id >= ALLOCATED_CLUSTER_BEGIN && id <= FAT16_MAX {
            FatEntry::Next(id)
        } else if id <= FAT16_RESERVED_END {
            FatEntry::Reserved
        } else if id == FAT16_DEFECTIVE {
            FatEntry::Defective
        } else {
            FatEntry::EOF
        }
    }

    pub fn from_fat32(id: ClusterId) -> (r: FatEntry)
        requires
            Self::known_fat32(id),
        ensures
            r == Self::meaning(id, FAT32_MAX, FAT32_RESERVED_END),
    {
        if id == FREE_CLUSTER {
            FatEntry::Free
        } else if id >= ALLOCATED_CLUSTER_BEGIN && id <= FAT32_MAX {
            FatEntry::Next(id)
        } else if id <= FAT32_RESERVED_END {
            FatEntry::Reserved
        } else if id == FAT32_DEFECTIVE {
            FatEntry::Defective
        } else {
            FatEntry::EOF
        }
    }
}

/// Where byte `offset` of a chain lies, when the chain is followed from
/// `cluster` on and `passed` bytes of it are already behind: the cluster
/// and the byte within it. Running off the end of the chain is the end of
/// the file; a chain that leads to a cluster that is free, reserved or
/// defective, or out of the table, cannot be read.
pub open spec fn cluster_of_offset_spec(
    table: Seq<FatEntry>,
    cluster: ClusterId,
    offset: u64,
    passed: u64,
    cluster_size_bytes: u64,
) -> Result<(ClusterId, u64), FsError>
    decreases offset - passed,
{
    if cluster_size_bytes == 0 || passed > offset {
        Err(FsError::InvalidInput)
    } else if offset - passed < cluster_size_bytes {
        Ok((cluster, offset % cluster_size_bytes))
    } else if cluster >= table.len() {
        Err(FsError::InvalidInput)
    } else {
        match table[cluster as int] {
            FatEntry::Next(next) => cluster_of_offset_spec(
                table,
                next,
                offset,
                (passed + cluster_size_bytes) as u64,
                cluster_size_bytes,
            ),
            FatEntry::EOF => Err(FsError::EndOfFile),
            _ => Err(FsError::ReadError),
        }
    }
}

/// Follows the chain that starts at `cluster_start` to the cluster that
/// holds byte `offset` of the chain.
pub fn cluster_of_offset(
    table: &Vec<FatEntry>,
    cluster_start: ClusterId,
    offset: u64,
    cluster_size_bytes: u64,
) -> (r: Result<(ClusterId, u64), FsError>)
    requires
        cluster_size_bytes > 0,
    ensures
        r == cluster_of_offset_spec(table@, cluster_start, offset, 0, cluster_size_bytes),
{
    let mut search_cluster: ClusterId = cluster_start;
    let mut total_offset: u64 = 0;
    loop
        invariant
            cluster_size_bytes > 0,
            total_offset <= offset,
            cluster_of_offset_spec(table@, search_cluster, offset, total_offset, cluster_size_bytes)
                == cluster_of_offset_spec(table@, cluster_start, offset, 0, cluster_size_bytes),
        decreases offset - total_offset,
    {
        if offset - total_offset < cluster_size_bytes {
            return Ok((search_cluster, offset % cluster_size_bytes));
        }
        if search_cluster as usize >= table.len() {
            return Err(FsError::InvalidInput);
        }
        match table[search_cluster as usize] {
            FatEntry::Next(next) => {
                search_cluster = next;
                total_offset += cluster_size_bytes;
            },
            FatEntry::EOF => {
                return Err(FsError::EndOfFile);
            },
            _ => {
                return Err(FsError::ReadError);
            },
        }
    }
}

/// Where the file allocation table of a volume stands, and in what
/// format.
#[derive(Debug, Clone, Copy, PartialEq, Eq, Structural)]
pub struct FatGeometry {
    pub kind: FatKind,
    /// The number of bytes in a sector.
    pub sector_size: u32,
    /// The first sector of the table.
    pub fat_first_sector: u64,
    /// The last sector of the table.
    pub fat_last_sector: u64,
}

impl FatGeometry {
    /// The number of bytes that one entry of the table takes up.
    pub open spec fn entry_width(self) -> int {
        if self.kind == FatKind::Fat32 {
            4
        } else {
            2
        }
    }

    /// The sector of the table that holds the entry of cluster `id`, and
    /// the place of the entry in that sector, counted in entries.
    pub open spec fn location(self, id: ClusterId) -> (int, int) {
        let per_sector = self.sector_size as int / self.entry_width();
        (id as int / per_sector + self.fat_first_sector, id as int % per_sector)
    }

    /// Finds the entry of cluster `id` in the table. A cluster whose entry
    /// would stand beyond the table is no cluster of the volume.
    pub fn fat_entry_location(&self, id: ClusterId) -> (r: Result<(u64, usize), FsError>)
        requires
            self.kind != FatKind::Fat12,
            self.sector_size >= 4,
        ensures
            self.location(id).0 > self.fat_last_sector ==> r == Err::<(u64, usize), FsError>(
                FsError::InvalidInput,
            ),
            self.location(id).0 <= self.fat_last_sector ==> r is Ok && r->Ok_0.0
                == self.location(id).0 && r->Ok_0.1 == self.location(id).1,
    {
        let width: u32 = match self.kind {
            FatKind::Fat32 => 4,
            _ => 2,
        };
        let entries_per_sector: u32 = self.sector_size / width;
        let within: u64 = (id / entries_per_sector) as u64;
        let entry_offset: usize = (id % entries_per_sector) as usize;
        if within > self.fat_last_sector || self.fat_first_sector > self.fat_last_sector - within {
            return Err(FsError::InvalidInput);
        }
        Ok((within + self.fat_first_sector, entry_offset))
    }
}

/// What the entry at place `entry_offset` of a sector of the table says.
/// A value that has no meaning cannot be read.
pub open spec fn fat_entry_spec(kind: FatKind, sector: Seq<u8>, entry_offset: int) -> Result<
    FatEntry,
    FsError,
> {
    if kind == FatKind::Fat32 {
        let raw = le_u32(sector, 4 * entry_offset);
        if FatEntry::known_fat32(raw) {
            Ok(FatEntry::meaning(raw, FAT32_MAX, FAT32_RESERVED_END))
        } else {
            Err(FsError::ReadError)
        }
    } else {
        let raw = le_u16(sector, 2 * entry_offset) as u32;
        if FatEntry::known_fat16(raw) {
            Ok(FatEntry::meaning(raw, FAT16_MAX, FAT16_RESERVED_END))
        } else {
            Err(FsError::ReadError)
        }
    }
}

/// Reads the entry at place `entry_offset` of a sector of the table.
pub fn fat_entry_in_sector(kind: FatKind, sector: &[u8], entry_offset: usize) -> (r: Result<
    FatEntry,
    FsError,
>)
    requires
        kind != FatKind::Fat12,
        4 * (entry_offset + 1) <= sector@.len(),
    ensures
        r == fat_entry_spec(kind, sector@, entry_offset as int),
{
    let len: usize = sector.len();
    match kind {
        FatKind::Fat32 => {
            let raw: u32 = read_u32(sector, 4 * entry_offset);
            if raw <= FAT32_DEFECTIVE || raw == FAT32_EOF {
                Ok(FatEntry::from_fat32(raw))
            } else {
                Err(FsError::ReadError)
            }
        },
        _ => {
            let raw: u32 = read_u16(sector, 2 * entry_offset) as u32;
            if raw <= FAT16_DEFECTIVE || raw == FAT16_EOF {
                Ok(FatEntry::from_fat16(raw))
            } else {
                Err(FsError::ReadError)
            }
        },
    }
}

/// An open file: its size, where its chain of clusters starts, and where
/// in it the next read starts.
#[derive(Debug, Clone, Copy, PartialEq, Eq)]
pub struct FatFile {
    pub filesize: usize,
    pub start_cluster: ClusterId,
    /// The cluster that the last read started in, and the position in the
    /// file at which it started.
    pub last_cluster: Option<(ClusterId, u64)>,
    pub seek: u64,
}

impl FatFile {
    /// Opens the file that `entry` names, at its first byte.
    pub fn open(entry: &DirectoryEntry) -> (r: Self)
        ensures
            r.filesize == entry.file_size,
            r.start_cluster == entry.cluster_low + 65536 * entry.cluster_high,
            r.last_cluster is None,
            r.seek == 0,
    {
        FatFile {
            filesize: entry.file_size as usize,
            start_cluster: entry.cluster_id(),
            last_cluster: None,
            seek: 0,
        }
    }

    pub fn filesize(&self) -> (r: usize)
        ensures
            r == self.filesize,
    {
        self.filesize
    }

    /// Moves to byte `pos` of the file.
    pub fn seek(&mut self, pos: u64) -> (r: u64)
        ensures
            r == pos,
            *final(self) == (FatFile { seek: pos, ..*old(self) }),
    {
        self.seek = pos;
        self.seek
    }

    pub fn stream_position(&self) -> (r: u64)
        ensures
            r == self.seek,
    {
        self.seek
    }

    /// From where the chain has to be followed to reach the position of
    /// the next read: from the cluster of the last read, if that read did
    /// not start beyond the position, and from the first cluster of the
    /// file otherwise. With the cluster comes the distance left to go.
    pub fn read_start(&self) -> (r: (ClusterId, u64))
        ensures
            r == match self.last_cluster {
                Some((cluster, at)) => if at <= self.seek {
                    (cluster, (self.seek - at) as u64)
                } else {
                    (self.start_cluster, self.seek)
                },
                None => (self.start_cluster, self.seek),
            },
    {
        match self.last_cluster {
            Some((last_cluster, last_seek)) => {
                if last_seek <= self.seek {
                    (last_cluster, self.seek - last_seek)
                } else {
                    (self.start_cluster, self.seek)
                }
            },
            None => (self.start_cluster, self.seek),
        }
    }

    /// Takes note that the next read starts in cluster `cluster` at byte
    /// `within` of it, and says how many bytes to read there: up to the
    /// end of the cluster, but no more than `wanted`. The position moves
    /// on by as many.
    pub fn read_advance(&mut self, cluster: ClusterId, within: u64, cluster_bytes: u64, wanted: usize) -> (r:
        usize)
        requires
            within < cluster_bytes,
            old(self).seek + cluster_bytes <= u64::MAX,
        ensures
            r == if cluster_bytes - within <= wanted {
                cluster_bytes - within
            } else {
                wanted as int
            },
            *final(self) == (FatFile {
                last_cluster: Some((cluster, old(self).seek)),
                seek: (old(self).seek + r) as u64,
                ..*old(self)
            }),
    {
        self.last_cluster = Some((cluster, self.seek));
        let bytes_until_cluster_end: u64 = cluster_bytes - within;
        let bytes_until_read_end: usize = if bytes_until_cluster_end <= wanted as u64 {
            bytes_until_cluster_end as usize
        } else {
            wanted
        };
        self.seek += bytes_until_read_end as u64;
        bytes_until_read_end
    }
}

} // verus!
