//! The 32-byte entries of a FAT directory.

use crate::bytes::le_u16;
use crate::bytes::le_u32;
use crate::bytes::read_u16;
use crate::bytes::read_u32;
use vstd::prelude::*;

verus! {

/// The size of one directory entry on disk.
pub const ENTRY_LEN: usize = 32;

/// The attribute that marks a directory.
pub const ATTRIBUTE_DIRECTORY: u8 = 0x10;

/// The attribute that marks a volume label.
pub const ATTRIBUTE_VOLUME_LABEL: u8 = 0x08;

/// The attributes that mark a piece of a long file name.
pub const ATTRIBUTE_LONG_NAME: u8 = 0x0F;

#[derive(Clone, Copy, Debug)]
pub enum Inode {
    Dir(DirectoryEntry),
    File(DirectoryEntry),
    LongFileName(LongFileName),
}

/// An entry for a file or a directory.
#[derive(Clone, Copy, Debug)]
pub struct DirectoryEntry {
    pub name: [u8; 11],
    pub attributes: u8,
    pub reserved: u8,
    pub time_tenth: u8,
    pub creation_time: u16,
    pub creation_date: u16,
    pub last_access_date: u16,
    pub cluster_high: u16,
    pub modified_time: u16,
    pub modified_date: u16,
    pub cluster_low: u16,
    pub file_size: u32,
}

/// An entry that holds thirteen characters of a long file name.
#[derive(Clone, Copy, Debug)]
pub struct LongFileName {
    pub ordering: u8,
    pub wchar_low: [u16; 5],
    pub attributes: u8,
    pub kind: u8,
    pub checksum: u8,
    pub wchar_mid: [u16; 6],
    pub reserved: u16,
    pub wchar_high: [u16; 2],
}

/// Whether `entry` is what the 32 bytes `bytes` hold, read as an entry
/// for a file or a directory.
pub open spec fn is_directory_entry(bytes: Seq<u8>, entry: DirectoryEntry) -> bool {
    &&& entry.name@ == bytes.subrange(0, 11)
    &&& entry.attributes == bytes[11]
    &&& entry.reserved == bytes[12]
    &&& entry.time_tenth == bytes[13]
    &&& entry.creation_time == le_u16(bytes, 14)
    &&& entry.creation_date == le_u16(bytes, 16)
    &&& entry.last_access_date == le_u16(bytes, 18)
    &&& entry.cluster_high == le_u16(bytes, 20)
    &&& entry.modified_time == le_u16(bytes, 22)
    &&& entry.modified_date == le_u16(bytes, 24)
    &&& entry.cluster_low == le_u16(bytes, 26)
    &&& entry.file_size == le_u32(bytes, 28)
}

/// Whether `entry` is what the 32 bytes `bytes` hold, read as a piece of
/// a long file name.
pub open spec fn is_long_file_name(bytes: Seq<u8>, entry: LongFileName) -> bool {
    &&& entry.ordering == bytes[0]
    &&& entry.wchar_low@ == Seq::new(5, |i: int| le_u16(bytes, 1 + 2 * i))
    &&& entry.attributes == bytes[11]
    &&& entry.kind == bytes[12]
    &&& entry.checksum == bytes[13]
    &&& entry.wchar_mid@ == Seq::new(6, |i: int| le_u16(bytes, 14 + 2 * i))
    &&& entry.reserved == le_u16(bytes, 26)
    &&& entry.wchar_high@ == Seq::new(2, |i: int| le_u16(bytes, 28 + 2 * i))
}

/// What 32 bytes of a directory are: nothing at all, a volume label, a
/// directory, a piece of a long file name, or a file, told apart by the
/// attribute byte.
pub open spec fn inode_of(bytes: Seq<u8>, r: Result<Inode, &'static str>) -> bool {
    let attributes = bytes[11];
    if attributes == 0 {
        r is Err && r->Err_0@ == "Empty Entry"@
    } else if attributes == ATTRIBUTE_VOLUME_LABEL {
        r is Err && r->Err_0@ == "Volume Label is not an inode"@
    } else if attributes & ATTRIBUTE_DIRECTORY != 0 {
        r matches Ok(Inode::Dir(entry)) && is_directory_entry(bytes, entry)
    } else if attributes == ATTRIBUTE_LONG_NAME {
        r matches Ok(Inode::LongFileName(entry)) && is_long_file_name(bytes, entry)
    } else {
        r matches Ok(Inode::File(entry)) && is_directory_entry(bytes, entry)
    }
}

fn read_directory_entry(value: &[u8]) -> (r: DirectoryEntry)
    requires
        value@.len() >= ENTRY_LEN,
    ensures
        is_directory_entry(value@, r),
{
    let r = DirectoryEntry {
        name: [
            value[0],
            value[1],
            value[2],
            value[3],
            value[4],
            value[5],
            value[6],
            value[7],
            value[8],
            value[9],
            value[10],
        ],
        attributes: value[11],
        reserved: value[12],
        time_tenth: value[13],
        creation_time: read_u16(value, 14),
        creation_date: read_u16(value, 16),
        last_access_date: read_u16(value, 18),
        cluster_high: read_u16(value, 20),
        modified_time: read_u16(value, 22),
        modified_date: read_u16(value, 24),
        cluster_low: read_u16(value, 26),
        file_size: read_u32(value, 28),
    };
    assert(r.name@ =~= value@.subrange(0, 11));
    r
}

fn read_long_file_name(value: &[u8]) -> (r: LongFileName)
    requires
        value@.len() >= ENTRY_LEN,
    ensures
        is_long_file_name(value@, r),
{
    let r = LongFileName {
        ordering: value[0],
        wchar_low: [
            read_u16(value, 1),
            read_u16(value, 3),
            read_u16(value, 5),
            read_u16(value, 7),
            read_u16(value, 9),
        ],
        attributes: value[11],
        kind: value[12],
        checksum: value[13],
        wchar_mid: [
            read_u16(value, 14),
            read_u16(value, 16),
            read_u16(value, 18),
            read_u16(value, 20),
            read_u16(value, 22),
            read_u16(value, 24),
        ],
        reserved: read_u16(value, 26),
        wchar_high: [read_u16(value, 28), read_u16(value, 30)],
    };
    assert(r.wchar_low@ =~= Seq::new(5, |i: int| le_u16(value@, 1 + 2 * i)));
    assert(r.wchar_mid@ =~= Seq::new(6, |i: int| le_u16(value@, 14 + 2 * i)));
    assert(r.wchar_high@ =~= Seq::new(2, |i: int| le_u16(value@, 28 + 2 * i)));
    r
}

impl DirectoryEntry {
    /// The first cluster of what the entry names.
    pub fn cluster_id(&self) -> (r: u32)
        ensures
            r == self.cluster_low + 65536 * self.cluster_high,
    {
        self.cluster_low as u32 + 65536 * (self.cluster_high as u32)
    }
}

impl Inode {
    /// Reads the entry that the first 32 bytes of `value` hold.
    pub fn try_from(value: &[u8]) -> (r: Result<Inode, &'static str>)
        requires
            value@.len() >= ENTRY_LEN,
        ensures
            inode_of(value@, r),
    {
        let attributes: u8 = value[11];
        if attributes == 0 {
            Err("Empty Entry")
        } else if attributes == 0x08 {
            Err("Volume Label is not an inode")
        } else if attributes & 0x10 != 0 {
            Ok(Inode::Dir(read_directory_entry(value)))
        } else if attributes == 0x0F {
            Ok(Inode::LongFileName(read_long_file_name(value)))
        } else {
            Ok(Inode::File(read_directory_entry(value)))
        }
    }

    /// The character of the name at place `index`, if the name has that
    /// many: eleven for a file or a directory, thirteen for a piece of a
    /// long name, of which only the low byte of each character counts.
    pub open spec fn name_byte(&self, index: int) -> Option<u8> {
        match self {
            Inode::LongFileName(long_name) => if 0 <= index <= 4 {
                Some((long_name.wchar_low@[index] % 256) as u8)
            } else if 5 <= index <= 10 {
                Some((long_name.wchar_mid@[index - 5] % 256) as u8)
            } else if 11 <= index <= 12 {
                Some((long_name.wchar_high@[index - 11] % 256) as u8)
            } else {
                None
            },
            Inode::Dir(dir) => if 0 <= index <= 10 {
                Some(dir.name@[index])
            } else {
                None
            },
            Inode::File(file) => if 0 <= index <= 10 {
                Some(file.name@[index])
            } else {
                None
            },
        }
    }

    /// A walk over the characters of the entry's name.
    pub fn as_iter<'a>(&'a self) -> (r: NameIter<'a>)
        ensures
            r.entry() == *self,
            r.index() == 0,
    {
        NameIter { entry: self, index: 0 }
    }
}

pub struct NameIter<'a> {
    entry: &'a Inode,
    index: usize,
}

impl<'a> NameIter<'a> {
    pub closed spec fn entry(&self) -> Inode {
        *self.entry
    }

    pub closed spec fn index(&self) -> usize {
        self.index
    }

    /// The next character of the name, as a byte.
    pub fn next_byte(&mut self) -> (r: Option<u8>)
        requires
            old(self).index() < usize::MAX,
        ensures
            r == old(self).entry().name_byte(old(self).index() as int),
            final(self).entry() == old(self).entry(),
            final(self).index() == old(self).index() + 1,
    {
        let index: usize = self.index;
        let return_value: Option<u8> = match self.entry {
            Inode::LongFileName(long_name) => {
                if index <= 4 {
                    Some((long_name.wchar_low[index] % 256) as u8)
                } else if index <= 10 {
                    Some((long_name.wchar_mid[index - 5] % 256) as u8)
                } else if index <= 12 {
                    Some((long_name.wchar_high[index - 11] % 256) as u8)
                } else {
                    None
                }
            },
            Inode::Dir(dir) => {
                if index <= 10 {
                    Some(dir.name[index])
                } else {
                    None
                }
            },
            Inode::File(file) => {
                if index <= 10 {
                    Some(file.name[index])
                } else {
                    None
                }
            },
        };
        self.index += 1;
        return_value
    }

    /// The next character of the name.
    pub fn next(&mut self) -> (r: Option<char>)
        requires
            old(self).index() < usize::MAX,
        ensures
            r == match old(self).entry().name_byte(old(self).index() as int) {
                Some(byte) => Some(byte as char),
                None => None,
            },
            final(self).entry() == old(self).entry(),
            final(self).index() == old(self).index() + 1,
    {
        match self.next_byte() {
            Some(byte) => Some(byte as char),
            None => None,
        }
    }
}

} // verus!
