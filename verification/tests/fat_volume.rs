use quantum_kernel::error::FsError;
use quantum_kernel::fat::fat_entry_in_sector;
use quantum_kernel::fat::FatEntry;
use quantum_kernel::fat::FatFile;
use quantum_kernel::fat::FatGeometry;
use quantum_kernel::fat::FatKind;
use quantum_kernel::fat_dir::entry_of;
use quantum_kernel::fat_dir::entry_of_step;
use quantum_kernel::fat_dir::next_part;
use quantum_kernel::fat_dir::search_directory;
use quantum_kernel::fat_dir::DirSearch;
use quantum_kernel::fat_dir::EntryWalk;
use quantum_kernel::fat_dir::WalkStep;
use quantum_kernel::inode::Inode;

const PLACES: [usize; 13] = [1, 3, 5, 7, 9, 14, 16, 18, 20, 22, 24, 28, 30];

/// The pieces of a long name, last piece first, as they stand on disk.
fn long_name(name: &str) -> Vec<u8> {
    let chars: Vec<u8> = name.bytes().collect();
    let pieces: Vec<&[u8]> = chars.chunks(13).collect();
    let mut bytes = Vec::new();
    for (number, piece) in pieces.iter().enumerate().rev() {
        let mut entry = [0u8; 32];
        entry[0] = (number as u8 + 1) | if number + 1 == pieces.len() { 0x40 } else { 0 };
        entry[11] = 0x0f;
        for (k, place) in PLACES.iter().enumerate() {
            if k < piece.len() {
                entry[*place] = piece[k];
            } else if k > piece.len() {
                entry[*place] = 0xff;
                entry[*place + 1] = 0xff;
            }
        }
        bytes.extend_from_slice(&entry);
    }
    bytes
}

fn short_entry(name: &[u8; 11], attributes: u8, cluster: u32, size: u32) -> Vec<u8> {
    let mut entry = [0u8; 32];
    entry[..11].copy_from_slice(name);
    entry[11] = attributes;
    entry[20..22].copy_from_slice(&((cluster >> 16) as u16).to_le_bytes());
    entry[26..28].copy_from_slice(&(cluster as u16).to_le_bytes());
    entry[28..32].copy_from_slice(&size.to_le_bytes());
    entry.to_vec()
}

fn root() -> Vec<u8> {
    let mut data = short_entry(b"QUANTUM    ", 0x08, 0, 0);
    data.extend(long_name("bootloader"));
    data.extend(short_entry(b"BOOTLO~1   ", 0x10, 0x0001_0005, 0));
    data.extend(long_name("kernel.elf"));
    data.extend(short_entry(b"KERNEL  ELF", 0x20, 9, 0x4_0000));
    data.extend(long_name("a-rather-long-file-name.text"));
    data.extend(short_entry(b"A-RATH~1TEX", 0x20, 70, 12));
    data.resize(1024, 0);
    data
}

fn size_of(found: DirSearch) -> Option<u32> {
    match found {
        DirSearch::Found(entry) => Some(entry.file_size),
        _ => None,
    }
}

#[test]
fn files_are_found_by_their_long_names() {
    assert_eq!(size_of(search_directory(&root(), b"kernel.elf", false)), Some(0x4_0000));
    assert_eq!(size_of(search_directory(&root(), b"KERNEL.ELF", false)), Some(0x4_0000));
    assert_eq!(size_of(search_directory(&root(), b"  Kernel.Elf\t", false)), Some(0x4_0000));
    assert_eq!(size_of(search_directory(&root(), b"a-rather-long-file-name.text", false)), Some(12));
    assert!(matches!(search_directory(&root(), b"kernel.el", false), DirSearch::NotFound));
    assert!(matches!(search_directory(&root(), b"KERNEL  ELF", false), DirSearch::NotFound));
    assert!(matches!(search_directory(&[], b"kernel.elf", false), DirSearch::NotFound));
}

#[test]
fn files_cannot_be_gone_into() {
    assert!(matches!(search_directory(&root(), b"kernel.elf", true), DirSearch::NotFound));
}

#[test]
fn directories_are_found_or_gone_into() {
    match search_directory(&root(), b"bootloader", false) {
        DirSearch::Found(entry) => assert_eq!(entry.cluster_id(), 0x0001_0005),
        _ => panic!("the directory was not found"),
    }
    match search_directory(&root(), b"BootLoader", true) {
        DirSearch::Descend(entry) => assert_eq!(entry.cluster_id(), 0x0001_0005),
        _ => panic!("the directory was not gone into"),
    }
}

#[test]
fn pieces_out_of_bounds_are_malformed() {
    let mut data = long_name("kernel.elf");
    data[0] = 0;
    data.extend(short_entry(b"KERNEL  ELF", 0x20, 9, 1));
    assert!(matches!(search_directory(&data, b"kernel.elf", false), DirSearch::Malformed));
    let mut data = long_name("kernel.elf");
    data[0] = 0x40 | 20;
    data.extend(short_entry(b"KERNEL  ELF", 0x20, 9, 1));
    assert!(matches!(search_directory(&data, b"kernel.elf", false), DirSearch::Malformed));
    let mut data = long_name("kernel.elf");
    data[0] = 0x40 | 19;
    data.extend(short_entry(b"KERNEL  ELF", 0x20, 9, 1));
    assert!(matches!(search_directory(&data, b"kernel.elf", false), DirSearch::NotFound));
}

#[test]
fn paths_fall_into_parts() {
    let path = b"//bootloader/qconfig.cfg/";
    assert_eq!(next_part(path, 0), Some((2, 12)));
    assert_eq!(next_part(path, 12), Some((13, 24)));
    assert_eq!(next_part(path, 24), None);
    assert_eq!(next_part(b"", 0), None);
    assert_eq!(next_part(b"///", 1), None);
    assert_eq!(next_part(b"a", 0), Some((0, 1)));
    assert_eq!(entry_of(path, 2), Some(EntryWalk { cluster: 2, start: 2, end: 12 }));
    assert_eq!(entry_of(b"/", 2), None);
}

#[test]
fn a_path_is_walked_directory_by_directory() {
    let path = b"bootloader/qconfig.cfg";
    let walk = entry_of(path, 2).unwrap();
    let walk = match entry_of_step(path, walk, &root()) {
        WalkStep::Read(next) => next,
        _ => panic!("the walk did not go into the directory"),
    };
    assert_eq!(walk, EntryWalk { cluster: 0x0001_0005, start: 11, end: 22 });

    let mut directory = long_name("qconfig.cfg");
    directory.extend(short_entry(b"QCONFIG CFG", 0x20, 33, 321));
    directory.resize(1024, 0);
    match entry_of_step(path, walk, &directory) {
        WalkStep::Done(Ok(entry)) => {
            assert_eq!(entry.file_size, 321);
            let file = FatFile::open(&entry);
            assert_eq!(file.filesize(), 321);
            assert_eq!(file.start_cluster, 33);
        }
        _ => panic!("the file was not found"),
    }
    assert!(matches!(entry_of_step(path, walk, &root()), WalkStep::Done(Err(FsError::NotFound))));
    let mut broken = long_name("qconfig.cfg");
    broken[0] = 0;
    broken.extend(short_entry(b"QCONFIG CFG", 0x20, 33, 321));
    assert!(matches!(entry_of_step(path, walk, &broken), WalkStep::Done(Err(FsError::ReadError))));
    assert!(matches!(Inode::try_from(&root()[32..]), Ok(Inode::LongFileName(_))));
}

#[test]
fn table_entries_are_located_and_read() {
    let fat16 = FatGeometry { kind: FatKind::Fat16, sector_size: 512, fat_first_sector: 4, fat_last_sector: 5 };
    assert_eq!(fat16.fat_entry_location(0), Ok((4, 0)));
    assert_eq!(fat16.fat_entry_location(255), Ok((4, 255)));
    assert_eq!(fat16.fat_entry_location(256), Ok((5, 0)));
    assert_eq!(fat16.fat_entry_location(512), Err(FsError::InvalidInput));
    let fat32 = FatGeometry { kind: FatKind::Fat32, sector_size: 512, fat_first_sector: 32, fat_last_sector: 40 };
    assert_eq!(fat32.fat_entry_location(129), Ok((33, 1)));
    assert_eq!(fat32.fat_entry_location(u32::MAX), Err(FsError::InvalidInput));

    let mut sector = vec![0u8; 512];
    sector[4..6].copy_from_slice(&7u16.to_le_bytes());
    sector[6..8].copy_from_slice(&0xffffu16.to_le_bytes());
    sector[8..10].copy_from_slice(&0xfff8u16.to_le_bytes());
    assert_eq!(fat_entry_in_sector(FatKind::Fat16, &sector, 0), Ok(FatEntry::Free));
    assert_eq!(fat_entry_in_sector(FatKind::Fat16, &sector, 2), Ok(FatEntry::Next(7)));
    assert_eq!(fat_entry_in_sector(FatKind::Fat16, &sector, 3), Ok(FatEntry::EOF));
    assert_eq!(fat_entry_in_sector(FatKind::Fat16, &sector, 4), Err(FsError::ReadError));
    assert_eq!(fat_entry_in_sector(FatKind::Fat32, &sector, 1), Err(FsError::ReadError));
    assert_eq!(fat_entry_in_sector(FatKind::Fat32, &sector, 0), Ok(FatEntry::Free));
    sector[0] = 1;
    assert_eq!(fat_entry_in_sector(FatKind::Fat32, &sector, 0), Ok(FatEntry::Reserved));
    sector[12..16].copy_from_slice(&0x0123_4567u32.to_le_bytes());
    assert_eq!(fat_entry_in_sector(FatKind::Fat32, &sector, 3), Ok(FatEntry::Next(0x0123_4567)));
    sector[12..16].copy_from_slice(&0x1000_0000u32.to_le_bytes());
    assert_eq!(fat_entry_in_sector(FatKind::Fat32, &sector, 3), Err(FsError::ReadError));
}

#[test]
fn reads_go_cluster_by_cluster() {
    let mut file = FatFile { filesize: 5000, start_cluster: 9, last_cluster: None, seek: 0 };
    assert_eq!(file.read_start(), (9, 0));
    assert_eq!(file.read_advance(9, 0, 1024, 3000), 1024);
    assert_eq!(file.stream_position(), 1024);
    assert_eq!(file.last_cluster, Some((9, 0)));
    assert_eq!(file.read_start(), (9, 1024));
    assert_eq!(file.read_advance(10, 0, 1024, 1976), 1024);
    assert_eq!(file.read_start(), (10, 1024));
    assert_eq!(file.read_advance(11, 0, 1024, 952), 952);
    assert_eq!(file.stream_position(), 3000);
    assert_eq!(file.seek(100), 100);
    assert_eq!(file.read_start(), (9, 100));
    assert_eq!(file.read_advance(9, 100, 1024, 5000), 924);
    assert_eq!(file.stream_position(), 1024);
}
