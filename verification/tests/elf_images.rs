use quantum_kernel::elf::program_headers;
use quantum_kernel::elf::vaddr_range;
use quantum_kernel::elf::ElfError;
use quantum_kernel::error::MemoryError;
use quantum_kernel::scheduler::Backing;
use quantum_kernel::scheduler::Scheduler;
use quantum_kernel::vm::ProgramHeader;
use quantum_kernel::vm::SegmentKind;
use quantum_kernel::vm::VmPermissions;
use quantum_kernel::vm::VmProcess;

fn program_header(kind: u32, offset: u64, vaddr: u64, file_size: u64, mem_size: u64) -> Vec<u8> {
    let mut bytes = Vec::new();
    bytes.extend_from_slice(&kind.to_le_bytes());
    bytes.extend_from_slice(&7u32.to_le_bytes());
    bytes.extend_from_slice(&offset.to_le_bytes());
    bytes.extend_from_slice(&vaddr.to_le_bytes());
    bytes.extend_from_slice(&vaddr.to_le_bytes());
    bytes.extend_from_slice(&file_size.to_le_bytes());
    bytes.extend_from_slice(&mem_size.to_le_bytes());
    bytes.extend_from_slice(&4096u64.to_le_bytes());
    bytes
}

/// An image with a note and two segments to load; the second one is
/// longer in memory than in the file.
fn image() -> Vec<u8> {
    let mut bytes = vec![0u8; 64];
    bytes[0..4].copy_from_slice(&[0x7f, b'E', b'L', b'F']);
    bytes[4] = 2;
    bytes[5] = 1;
    bytes[32..40].copy_from_slice(&64u64.to_le_bytes());
    bytes[54..56].copy_from_slice(&56u16.to_le_bytes());
    bytes[56..58].copy_from_slice(&3u16.to_le_bytes());
    bytes.extend(program_header(4, 0, 0, 16, 16));
    bytes.extend(program_header(1, 0x1000, 0x401000, 0x1000, 0x1000));
    bytes.extend(program_header(1, 0x2000, 0x403000, 0x234, 0x1800));
    bytes.resize(0x1000, 0);
    bytes.extend((0..0x1000u32).map(|i| (i % 253) as u8 + 1));
    bytes.extend((0..0x234u32).map(|i| (i % 7) as u8 + 100));
    bytes
}

#[test]
fn headers_are_read_in_the_order_of_the_table() {
    let headers = program_headers(&image()).unwrap();
    assert_eq!(
        headers,
        vec![
            ProgramHeader { kind: SegmentKind::Note, vaddr: 0, mem_size: 16, file_offset: 0, file_size: 16 },
            ProgramHeader {
                kind: SegmentKind::Load,
                vaddr: 0x401000,
                mem_size: 0x1000,
                file_offset: 0x1000,
                file_size: 0x1000
            },
            ProgramHeader {
                kind: SegmentKind::Load,
                vaddr: 0x403000,
                mem_size: 0x1800,
                file_offset: 0x2000,
                file_size: 0x234
            },
        ]
    );
    assert_eq!(vaddr_range(&headers), Ok((0x401000, 0x404800)));
}

#[test]
fn images_that_are_no_images_are_turned_away() {
    assert_eq!(program_headers(&[0x7f, b'E', b'L', b'F']), Err(ElfError::TooShort));
    let mut bytes = image();
    bytes[1] = b'e';
    assert_eq!(program_headers(&bytes), Err(ElfError::BadMagic));
    let mut bytes = image();
    bytes[4] = 1;
    assert_eq!(program_headers(&bytes), Err(ElfError::NotSupported));
    let mut bytes = image();
    bytes[5] = 2;
    assert_eq!(program_headers(&bytes), Err(ElfError::NotSupported));
    let mut bytes = image();
    bytes[54] = 32;
    assert_eq!(program_headers(&bytes), Err(ElfError::BadProgramHeaders));
    let mut bytes = image();
    bytes[56..58].copy_from_slice(&1000u16.to_le_bytes());
    assert_eq!(program_headers(&bytes), Err(ElfError::BadProgramHeaders));
    let mut bytes = image();
    bytes[32..40].copy_from_slice(&u64::MAX.to_le_bytes());
    assert_eq!(program_headers(&bytes), Err(ElfError::BadProgramHeaders));
}

#[test]
fn span_needs_something_to_load() {
    let note = ProgramHeader { kind: SegmentKind::Note, vaddr: 0, mem_size: 16, file_offset: 0, file_size: 16 };
    assert_eq!(vaddr_range(&vec![note]), Err(ElfError::NoLoadableSegment));
    assert_eq!(vaddr_range(&Vec::new()), Err(ElfError::NoLoadableSegment));
    let wraps = ProgramHeader {
        kind: SegmentKind::Load,
        vaddr: u64::MAX - 10,
        mem_size: 100,
        file_offset: 0,
        file_size: 0,
    };
    assert_eq!(vaddr_range(&vec![wraps]), Err(ElfError::NoLoadableSegment));
    let low = ProgramHeader { kind: SegmentKind::Load, vaddr: 0x1000, mem_size: 1, file_offset: 0, file_size: 0 };
    let high = ProgramHeader { kind: SegmentKind::Load, vaddr: 0x9000, mem_size: 2, file_offset: 0, file_size: 0 };
    assert_eq!(vaddr_range(&vec![high, note, low]), Ok((0x1000, 0x9002)));
}

#[test]
fn init_image_is_mapped_over_its_whole_span() {
    let mut scheduler = Scheduler::new(VmProcess::<Backing>::new(0x1000, Vec::new()));
    // The page between the two segments belongs to neither.
    assert_eq!(scheduler.add_initfs(image(), 0x2000).unwrap_err(), MemoryError::NotFound);
    assert_eq!(scheduler.process_count(), 0);

    let mut bytes = image();
    // Let the first segment reach up to the second.
    bytes[64 + 56 + 40..64 + 56 + 48].copy_from_slice(&0x2000u64.to_le_bytes());
    let pages = scheduler.add_initfs(bytes.clone(), 0x2000).unwrap();
    assert_eq!(pages.len(), 4);
    assert_eq!(pages[0].vpage, 0x401);
    assert_eq!(pages[3].vpage, 0x404);
    assert_eq!(pages[0].permissions, VmPermissions::all());
    assert_eq!(pages[0].contents.as_slice(), &bytes[0x1000..0x2000]);
    assert!(pages[1].contents.iter().all(|byte| *byte == 0));
    assert_eq!(&pages[2].contents[..0x234], &bytes[0x2000..0x2234]);
    assert!(pages[2].contents[0x234..].iter().all(|byte| *byte == 0));
    assert!(pages[3].contents.iter().all(|byte| *byte == 0));
}

#[test]
fn init_image_that_cannot_be_read_is_not_supported() {
    let mut scheduler = Scheduler::new(VmProcess::<Backing>::new(0x1000, Vec::new()));
    assert_eq!(scheduler.add_initfs(vec![1, 2, 3], 0x2000).unwrap_err(), MemoryError::NotSupported);
    let mut bytes = image();
    bytes[64 + 56] = 4;
    bytes[64 + 112] = 4;
    assert_eq!(scheduler.add_initfs(bytes, 0x2000).unwrap_err(), MemoryError::NotSupported);
}
