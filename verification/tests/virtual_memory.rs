use quantum_kernel::error::MemoryError;
use quantum_kernel::scheduler::Backing;
use quantum_kernel::scheduler::Scheduler;
use quantum_kernel::vm::map_object_now;
use quantum_kernel::vm::ElfBacked;
use quantum_kernel::vm::PhysicalBacking;
use quantum_kernel::vm::ProgramHeader;
use quantum_kernel::vm::SegmentKind;
use quantum_kernel::vm::VmPermissions;
use quantum_kernel::vm::VmProcess;
use quantum_kernel::vm::VmRegion;
use quantum_kernel::vm::VmRegionObject;

fn image() -> Vec<u8> {
    (0..0x2000u32).map(|i| (i % 251) as u8 + 1).collect()
}

fn headers() -> Vec<ProgramHeader> {
    vec![
        ProgramHeader { kind: SegmentKind::Note, vaddr: 0x400000, mem_size: 0x10, file_offset: 0, file_size: 0x10 },
        ProgramHeader {
            kind: SegmentKind::Load,
            vaddr: 0x400000,
            mem_size: 0x3000,
            file_offset: 0x10,
            file_size: 0x1800,
        },
    ]
}

fn object() -> ElfBacked {
    ElfBacked::new(VmRegion::from_vaddr(0x400000, 0x4000), VmPermissions::all(), headers(), image())
}

#[test]
fn region_is_rounded_to_whole_pages() {
    let region = VmRegion::from_vaddr(0x400010, 0x2345);
    assert_eq!(region, VmRegion { start: 0x400, end: 0x403 });
    assert!(region.contains_vaddr(0x400000));
    assert!(region.contains_vaddr(0x402fff));
    assert!(!region.contains_vaddr(0x403000));
    assert!(!region.contains_vaddr(0x3fffff));
    assert!(region.contains_page(0x402));
    assert!(!region.contains_page(0x403));
    assert_eq!(VmRegion::from_vaddr(0x1000, 0x1000), VmRegion { start: 1, end: 2 });
    assert_eq!(VmRegion::from_vaddr(0x1000, 0), VmRegion { start: 1, end: 1 });
}

#[test]
fn regions_overlap_when_they_share_a_page() {
    let a = VmRegion { start: 4, end: 8 };
    assert!(a.overlaps(&VmRegion { start: 7, end: 9 }));
    assert!(a.overlaps(&VmRegion { start: 0, end: 5 }));
    assert!(!a.overlaps(&VmRegion { start: 8, end: 9 }));
    assert!(!a.overlaps(&VmRegion { start: 0, end: 4 }));
}

#[test]
fn permissions_add_up() {
    let rw = VmPermissions { read: true, write: false, execute: false, user: false }
        .union(VmPermissions { read: false, write: true, execute: false, user: false });
    assert_eq!(rw, VmPermissions { read: true, write: true, execute: false, user: false });
    assert_eq!(VmPermissions::none().union(VmPermissions::all()), VmPermissions::all());
}

#[test]
fn page_inside_the_file_is_a_copy_of_the_file() {
    let object = object();
    let mut page = vec![0u8; 4096];
    assert_eq!(object.init_page(0x400, &mut page), Ok(()));
    assert_eq!(page.as_slice(), &image()[0x10..0x1010]);
}

#[test]
fn page_at_the_end_of_the_file_is_filled_up_with_zeroes() {
    let object = object();
    let mut page = vec![0u8; 4096];
    assert_eq!(object.init_page(0x401, &mut page), Ok(()));
    assert_eq!(&page[..0x800], &image()[0x1010..0x1810]);
    assert!(page[0x800..].iter().all(|byte| *byte == 0));
}

#[test]
fn page_beyond_the_file_is_zero() {
    let object = object();
    let mut page = vec![0u8; 4096];
    assert_eq!(object.init_page(0x402, &mut page), Ok(()));
    assert!(page.iter().all(|byte| *byte == 0));
}

#[test]
fn page_outside_every_segment_is_not_found() {
    let object = object();
    let mut page = vec![0u8; 4096];
    assert_eq!(object.init_page(0x403, &mut page), Err(MemoryError::NotFound));
    assert_eq!(object.init_page(0x3ff, &mut page), Err(MemoryError::NotFound));
}

#[test]
fn segment_that_the_image_does_not_hold_cannot_be_read() {
    let mut headers = headers();
    headers[1].file_size = 0x2000;
    let object = ElfBacked::new(VmRegion::from_vaddr(0x400000, 0x3000), VmPermissions::all(), headers, image());
    let mut page = vec![0u8; 4096];
    assert_eq!(object.init_page(0x400, &mut page), Err(MemoryError::DidNotHandleException));
    assert!(page.iter().all(|byte| *byte == 0));
}

#[test]
fn child_shares_the_kernel_and_nothing_else() {
    let mut kernel = VmProcess::<ElfBacked>::new(0x1000, vec![VmRegion { start: 0x100, end: 0x200 }]);
    assert_eq!(kernel.add_vm_object(object()), Ok(()));
    let child = VmProcess::new_from(&kernel, 0x2000);
    assert_eq!(child.kernel_region_count(), 1);
    assert_eq!(child.page_table_root(), 0x2000);
    assert!(child.is_loaded(0x2000));
    assert!(!child.is_loaded(0x1000));
    assert!(kernel.is_loaded(0x1000));
    assert_eq!(child.object_count(), 0);
    assert_eq!(kernel.object_count(), 1);
}

#[test]
fn overlapping_objects_are_turned_away() {
    let mut process = VmProcess::<ElfBacked>::new(0x1000, Vec::new());
    assert!(process.is_free(&VmRegion { start: 0x400, end: 0x404 }));
    assert_eq!(process.add_vm_object(object()), Ok(()));
    assert!(!process.is_free(&VmRegion { start: 0x403, end: 0x410 }));
    assert_eq!(process.add_vm_object(object()), Err(MemoryError::NotSupported));
    assert_eq!(process.object_count(), 1);
    let beyond = ElfBacked::new(
        VmRegion { start: 0x1000, end: 0x10_0000_0000_0001 },
        VmPermissions::all(),
        headers(),
        image(),
    );
    assert_eq!(process.add_vm_object(beyond), Err(MemoryError::NotSupported));
}

#[test]
fn mapping_yields_every_page_in_order() {
    let mut process = VmProcess::<ElfBacked>::new(0x1000, Vec::new());
    let three_pages =
        ElfBacked::new(VmRegion::from_vaddr(0x400000, 0x3000), VmPermissions::all(), headers(), image());
    process.add_vm_object(three_pages).unwrap();
    let pages = process.map_all_now().unwrap();
    assert_eq!(pages.len(), 3);
    assert_eq!(pages[0].vpage, 0x400);
    assert_eq!(pages[2].vpage, 0x402);
    assert_eq!(pages[1].permissions, VmPermissions::all());
    assert_eq!(pages[0].contents.as_slice(), &image()[0x10..0x1010]);
    assert_eq!(pages[1].contents[0x7ff], image()[0x180f]);
    assert_eq!(pages[1].contents[0x800], 0);
}

#[test]
fn mapping_fails_on_the_first_page_without_backing() {
    let mut process = VmProcess::<ElfBacked>::new(0x1000, Vec::new());
    process.add_vm_object(object()).unwrap();
    assert_eq!(process.map_all_now().unwrap_err(), MemoryError::NotFound);
    assert_eq!(VmProcess::<ElfBacked>::new(0x1000, Vec::new()).map_all_now().unwrap().len(), 0);
}

#[test]
fn scheduler_starts_with_the_kernel_alone() {
    let scheduler = Scheduler::new(VmProcess::new(0x1000, vec![VmRegion { start: 0, end: 16 }]));
    assert_eq!(scheduler.kernel_process().id(), 0);
    assert_eq!(scheduler.kernel_process().vm().kernel_region_count(), 1);
    assert_eq!(scheduler.process_count(), 0);
}

#[test]
fn plain_memory_starts_out_as_zeroes() {
    let backing = PhysicalBacking { region: VmRegion { start: 8, end: 10 }, permissions: VmPermissions::none() };
    let mut page = vec![0u8; 4096];
    assert_eq!(backing.init_page(8, &mut page), Ok(()));
    assert!(page.iter().all(|byte| *byte == 0));
    assert_eq!(backing.init_page(10, &mut page), Err(MemoryError::NotFound));
    assert_eq!(backing.vm_region(), VmRegion { start: 8, end: 10 });
    let pages = map_object_now(&backing).unwrap();
    assert_eq!(pages.len(), 2);
    assert_eq!(pages[1].vpage, 9);
    assert_eq!(pages[1].permissions, VmPermissions::none());
}

#[test]
fn a_process_can_mix_its_backings() {
    let mut process = VmProcess::<Backing>::new(0x1000, Vec::new());
    let image_pages =
        ElfBacked::new(VmRegion::from_vaddr(0x400000, 0x2000), VmPermissions::all(), headers(), image());
    assert_eq!(image_pages.vm_permissions(), VmPermissions::all());
    process.add_vm_object(Backing::Elf(image_pages)).unwrap();
    let stack = PhysicalBacking { region: VmRegion { start: 0x10000, end: 0x10001 }, permissions: VmPermissions::none() };
    process.add_vm_object(Backing::Physical(stack)).unwrap();
    let pages = process.map_all_now().unwrap();
    assert_eq!(pages.len(), 3);
    assert_eq!(pages[2].vpage, 0x10000);
    assert!(pages[2].contents.iter().all(|byte| *byte == 0));
}
