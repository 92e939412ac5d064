//! The program headers of a 64-bit little-endian ELF image.

use crate::bytes::le_u16;
use crate::bytes::le_u32;
use crate::bytes::le_u64;
use crate::bytes::read_u16;
use crate::bytes::read_u32;
use crate::bytes::read_u64;
use crate::vm::ProgramHeader;
use crate::vm::SegmentKind;
use vstd::prelude::*;

verus! {

/// Why an image could not be read.
#[derive(Debug, Clone, Copy, PartialEq, Eq, Structural)]
pub enum ElfError {
    /// The image is shorter than the header of an ELF file.
    TooShort,
    /// The image does not start with the four bytes that mark an ELF
    /// file.
    BadMagic,
    /// The image is not for a 64-bit little-endian machine.
    NotSupported,
    /// The table of program headers does not lie within the image.
    BadProgramHeaders,
    /// The image has no segment to load, or one that wraps around the
    /// address space.
    NoLoadableSegment,
}

/// The size of the header of an ELF file.
pub const HEADER_LEN: usize = 64;

/// The size of one program header.
pub const PROGRAM_HEADER_LEN: usize = 56;

/// The kind of segment that a type code stands for.
pub open spec fn segment_kind_of(code: u32) -> SegmentKind {
    if code == 0 {
        SegmentKind::Unused
    } else if code == 1 {
        SegmentKind::Load
    } else if code == 2 {
        SegmentKind::Dynamic
    } else if code == 3 {
        SegmentKind::Interp
    } else if code == 4 {
        SegmentKind::Note
    } else {
        SegmentKind::Other
    }
}

/// The program header that the 56 bytes from `at` on hold.
pub open spec fn program_header_at(image: Seq<u8>, at: int) -> ProgramHeader {
    ProgramHeader {
        kind: segment_kind_of(le_u32(image, at)),
        file_offset: le_u64(image, at + 8),
        vaddr: le_u64(image, at + 16),
        file_size: le_u64(image, at + 32),
        mem_size: le_u64(image, at + 40),
    }
}

/// Where the table of program headers starts.
pub open spec fn table_offset(image: Seq<u8>) -> u64 {
    le_u64(image, 32)
}

/// How many program headers the table holds.
pub open spec fn table_len(image: Seq<u8>) -> u16 {
    le_u16(image, 56)
}

/// What is wrong with the image, if anything, as far as its header and
/// the place of its program headers go.
pub open spec fn image_fault(image: Seq<u8>) -> Option<ElfError> {
    if image.len() < HEADER_LEN {
        Some(ElfError::TooShort)
    } else if !(image[0] == 0x7f && image[1] == 0x45 && image[2] == 0x4c && image[3] == 0x46) {
        Some(ElfError::BadMagic)
    } else if !(image[4] == 2 && image[5] == 1) {
        Some(ElfError::NotSupported)
    } else if le_u16(image, 54) != PROGRAM_HEADER_LEN || table_offset(image) + table_len(image)
        * PROGRAM_HEADER_LEN > image.len() {
        Some(ElfError::BadProgramHeaders)
    } else {
        None
    }
}

/// The program headers of a sound image, in the order of the table.
pub open spec fn program_headers_spec(image: Seq<u8>) -> Seq<ProgramHeader> {
    Seq::new(
        table_len(image) as nat,
        |i: int| program_header_at(image, table_offset(image) + i * PROGRAM_HEADER_LEN),
    )
}

fn segment_kind(code: u32) -> (r: SegmentKind)
    ensures
        r == segment_kind_of(code),
{
    if code == 0 {
        SegmentKind::Unused
    } else if code == 1 {
        SegmentKind::Load
    } else if code == 2 {
        SegmentKind::Dynamic
    } else if code == 3 {
        SegmentKind::Interp
    } else if code == 4 {
        SegmentKind::Note
    } else {
        SegmentKind::Other
    }
}

/// Reads the program headers of `image`.
pub fn program_headers(image: &[u8]) -> (r: Result<Vec<ProgramHeader>, ElfError>)
    ensures
        match image_fault(image@) {
            Some(e) => r == Err::<Vec<ProgramHeader>, ElfError>(e),
            None => r is Ok && r->Ok_0@ == program_headers_spec(image@),
        },
{
    if image.len() < HEADER_LEN {
        return Err(ElfError::TooShort);
    }
    if !(image[0] == 0x7f && image[1] == 0x45 && image[2] == 0x4c && image[3] == 0x46) {
        return Err(ElfError::BadMagic);
    }
    if !(image[4] == 2 && image[5] == 1) {
        return Err(ElfError::NotSupported);
    }
    let offset: u64 = read_u64(image, 32);
    let entry_len: u16 = read_u16(image, 54);
    let count: u16 = read_u16(image, 56);
    if entry_len as usize != PROGRAM_HEADER_LEN || offset as u128 + (count as u128) * 56
        > image.len() as u128 {
        return Err(ElfError::BadProgramHeaders);
    }
    let start: usize = offset as usize;
    let len: usize = image.len();
    let mut headers: Vec<ProgramHeader> = Vec::new();
    let mut i: usize = 0;
    while i < count as usize
        invariant
            i <= count,
            start == table_offset(image@),
            count == table_len(image@),
            start + count * PROGRAM_HEADER_LEN <= image@.len(),
            len == image@.len(),
            headers@.len() == i,
            forall|j: int|
                0 <= j < i ==> #[trigger] headers@[j] == program_header_at(
                    image@,
                    start + j * PROGRAM_HEADER_LEN,
                ),
        decreases count - i,
    {
        assert(i * PROGRAM_HEADER_LEN + PROGRAM_HEADER_LEN <= count * PROGRAM_HEADER_LEN)
            by (nonlinear_arith)
            requires
                i < count,
        ;
        let at: usize = start + i * PROGRAM_HEADER_LEN;
        headers.push(
            ProgramHeader {
                kind: segment_kind(read_u32(image, at)),
                file_offset: read_u64(image, at + 8),
                vaddr: read_u64(image, at + 16),
                file_size: read_u64(image, at + 32),
                mem_size: read_u64(image, at + 40),
            },
        );
        i += 1;
    }
    assert(headers@ =~= program_headers_spec(image@));
    Ok(headers)
}

/// The lowest address of a loadable segment among the first `n` headers,
/// if there is a loadable segment among them.
pub open spec fn lowest_vaddr(headers: Seq<ProgramHeader>, n: int) -> Option<int>
    decreases n,
{
    if n <= 0 {
        None
    } else {
        let before = lowest_vaddr(headers, n - 1);
        if headers[n - 1].kind != SegmentKind::Load {
            before
        } else if before is Some && before->Some_0 <= headers[n - 1].vaddr {
            before
        } else {
            Some(headers[n - 1].vaddr as int)
        }
    }
}

/// The address just beyond the highest loadable segment among the first
/// `n` headers, if there is a loadable segment among them.
pub open spec fn highest_vaddr(headers: Seq<ProgramHeader>, n: int) -> Option<int>
    decreases n,
{
    if n <= 0 {
        None
    } else {
        let before = highest_vaddr(headers, n - 1);
        if headers[n - 1].kind != SegmentKind::Load {
            before
        } else if before is Some && before->Some_0 >= headers[n - 1].vaddr + headers[n - 1].mem_size {
            before
        } else {
            Some(headers[n - 1].vaddr + headers[n - 1].mem_size)
        }
    }
}

/// The span of virtual addresses that the loadable segments take up: the
/// lowest address of any of them, and the address just beyond the highest.
pub fn vaddr_range(headers: &Vec<ProgramHeader>) -> (r: Result<(u64, u64), ElfError>)
    ensures
        match r {
            Ok((low, high)) => lowest_vaddr(headers@, headers@.len() as int) == Some(low as int)
                && highest_vaddr(headers@, headers@.len() as int) == Some(high as int) && low
                <= high,
            Err(e) => e == ElfError::NoLoadableSegment && (lowest_vaddr(
                headers@,
                headers@.len() as int,
            ) is None || highest_vaddr(headers@, headers@.len() as int)->Some_0 > u64::MAX),
        },
{
    let mut range: Option<(u64, u128)> = None;
    let mut i: usize = 0;
    while i < headers.len()
        invariant
            i <= headers@.len(),
            match range {
                Some((low, high)) => lowest_vaddr(headers@, i as int) == Some(low as int)
                    && highest_vaddr(headers@, i as int) == Some(high as int) && low <= high && high
                    <= 2 * u64::MAX,
                None => lowest_vaddr(headers@, i as int) is None && highest_vaddr(
                    headers@,
                    i as int,
                ) is None,
            },
        decreases headers@.len() - i,
    {
        let h = headers[i];
        if h.kind == SegmentKind::Load {
            let end: u128 = h.vaddr as u128 + h.mem_size as u128;
            range = match range {
                None => Some((h.vaddr, end)),
                Some((low, high)) => Some(
                    (
                        if low <= h.vaddr {
                            low
                        } else {
                            h.vaddr
                        },
                        if high >= end {
                            high
                        } else {
                            end
                        },
                    ),
                ),
            };
        }
        i += 1;
    }
    match range {
        None => Err(ElfError::NoLoadableSegment),
        Some((low, high)) => {
            if high > u64::MAX as u128 {
                Err(ElfError::NoLoadableSegment)
            } else {
                Ok((low, high as u64))
            }
        },
    }
}

} // verus!
