use quantum_kernel::error::MemoryError;
use quantum_kernel::phys::PhysMemoryBorder;
use quantum_kernel::phys::PhysMemoryEntry;
use quantum_kernel::phys::PhysMemoryKind;
use quantum_kernel::phys::PhysMemoryMap;

fn region(kind: PhysMemoryKind, start: u64, end: u64) -> PhysMemoryEntry {
    PhysMemoryEntry { kind, start: start.into(), end: end.into() }
}

fn border(kind: PhysMemoryKind, address: u64) -> PhysMemoryBorder {
    PhysMemoryBorder { kind, address: address.into() }
}

fn used<const N: usize>(mm: &PhysMemoryMap<N>) -> Vec<PhysMemoryBorder> {
    mm.borders()[..mm.len()].to_vec()
}

#[test]
fn region_of_no_kind_changes_nothing() {
    let mut mm = PhysMemoryMap::<4>::new();
    assert_eq!(mm.add_region(region(PhysMemoryKind::Absent, 20, 10)), Ok(()));
    assert_eq!(mm.len(), 0);
}

#[test]
fn empty_and_inverted_regions_are_errors() {
    let mut mm = PhysMemoryMap::<4>::new();
    assert_eq!(
        mm.add_region(region(PhysMemoryKind::Free, 10, 10)),
        Err(MemoryError::EntrySizeIsNegative)
    );
    assert_eq!(
        mm.add_region(region(PhysMemoryKind::Free, 11, 10)),
        Err(MemoryError::EntrySizeIsNegative)
    );
    assert_eq!(mm.len(), 0);
}

#[test]
fn a_full_map_takes_no_region() {
    let mut mm = PhysMemoryMap::<2>::new();
    assert_eq!(mm.add_region(region(PhysMemoryKind::Free, 0, 10)), Ok(()));
    assert_eq!(mm.len(), 2);
    assert_eq!(
        mm.add_region(region(PhysMemoryKind::Reserved, 20, 30)),
        Err(MemoryError::ArrayTooSmall)
    );
    assert_eq!(used(&mm), vec![border(PhysMemoryKind::Free, 0), border(PhysMemoryKind::Absent, 10)]);
}

#[test]
fn raw_insert_and_remove_report_bad_slots() {
    let mut mm = PhysMemoryMap::<2>::new();
    assert_eq!(mm.insert_raw(1, border(PhysMemoryKind::Free, 0)), Err(MemoryError::InvalidSize));
    assert_eq!(mm.remove_raw(0), Err(MemoryError::InvalidSize));
    assert_eq!(mm.insert_raw(0, border(PhysMemoryKind::Free, 0)), Ok(()));
    assert_eq!(mm.insert_raw(0, border(PhysMemoryKind::Reserved, 1)), Ok(()));
    assert_eq!(mm.insert_raw(0, border(PhysMemoryKind::Broken, 2)), Err(MemoryError::ArrayTooSmall));
    assert_eq!(mm.border(0), border(PhysMemoryKind::Reserved, 1));
    assert_eq!(mm.border(1), border(PhysMemoryKind::Free, 0));
}

#[test]
fn adding_a_region_twice_is_adding_it_once() {
    let mut once = PhysMemoryMap::<4>::new();
    once.add_region(region(PhysMemoryKind::Reserved, 5, 20)).unwrap();
    let mut twice = PhysMemoryMap::<4>::new();
    twice.add_region(region(PhysMemoryKind::Reserved, 5, 20)).unwrap();
    twice.add_region(region(PhysMemoryKind::Reserved, 5, 20)).unwrap();
    assert_eq!(once.borders(), twice.borders());
    assert_eq!(used(&twice), vec![border(PhysMemoryKind::Reserved, 5), border(PhysMemoryKind::Absent, 20)]);
}

#[test]
fn adding_twice_needs_no_spare_slot() {
    let mut mm = PhysMemoryMap::<2>::new();
    mm.add_region(region(PhysMemoryKind::Reserved, 5, 20)).unwrap();
    assert_eq!(mm.add_region(region(PhysMemoryKind::Reserved, 5, 20)), Ok(()));
    assert_eq!(used(&mm), vec![border(PhysMemoryKind::Reserved, 5), border(PhysMemoryKind::Absent, 20)]);
}

#[test]
fn adding_twice_over_a_region_of_higher_rank_changes_nothing() {
    let mut mm = PhysMemoryMap::<6>::new();
    mm.add_region(region(PhysMemoryKind::Free, 0, 6)).unwrap();
    mm.add_region(region(PhysMemoryKind::Broken, 5, 6)).unwrap();
    assert_eq!(
        used(&mm),
        vec![border(PhysMemoryKind::Free, 0), border(PhysMemoryKind::Broken, 5), border(PhysMemoryKind::Absent, 6)]
    );
    let expected = vec![
        border(PhysMemoryKind::Reserved, 0),
        border(PhysMemoryKind::Broken, 5),
        border(PhysMemoryKind::Reserved, 6),
        border(PhysMemoryKind::Absent, 10),
    ];
    mm.add_region(region(PhysMemoryKind::Reserved, 0, 10)).unwrap();
    assert_eq!(used(&mm), expected);
    mm.add_region(region(PhysMemoryKind::Reserved, 0, 10)).unwrap();
    assert_eq!(used(&mm), expected);
    assert!(mm.is_well_formed());
}

#[test]
fn higher_rank_prevails_whichever_comes_first() {
    let expected = vec![
        border(PhysMemoryKind::Free, 0),
        border(PhysMemoryKind::Reserved, 5),
        border(PhysMemoryKind::Absent, 20),
    ];
    let mut low_first = PhysMemoryMap::<4>::new();
    low_first.add_region(region(PhysMemoryKind::Free, 0, 10)).unwrap();
    low_first.add_region(region(PhysMemoryKind::Reserved, 5, 20)).unwrap();
    assert_eq!(used(&low_first), expected);

    let mut high_first = PhysMemoryMap::<4>::new();
    high_first.add_region(region(PhysMemoryKind::Reserved, 5, 20)).unwrap();
    high_first.add_region(region(PhysMemoryKind::Free, 0, 10)).unwrap();
    assert_eq!(used(&high_first), expected);
}

#[test]
fn higher_rank_inside_a_region_splits_it() {
    let mut mm = PhysMemoryMap::<4>::new();
    mm.add_region(region(PhysMemoryKind::Free, 0, 100)).unwrap();
    mm.add_region(region(PhysMemoryKind::Broken, 40, 60)).unwrap();
    assert_eq!(
        used(&mm),
        vec![
            border(PhysMemoryKind::Free, 0),
            border(PhysMemoryKind::Broken, 40),
            border(PhysMemoryKind::Free, 60),
            border(PhysMemoryKind::Absent, 100),
        ]
    );
}

#[test]
fn lower_rank_within_a_region_changes_nothing() {
    let mut mm = PhysMemoryMap::<4>::new();
    mm.add_region(region(PhysMemoryKind::Reserved, 0, 100)).unwrap();
    assert_eq!(mm.add_region(region(PhysMemoryKind::Free, 40, 60)), Ok(()));
    assert_eq!(used(&mm), vec![border(PhysMemoryKind::Reserved, 0), border(PhysMemoryKind::Absent, 100)]);
}

#[test]
fn region_before_every_border_is_taken_up() {
    let mut mm = PhysMemoryMap::<6>::new();
    mm.add_region(region(PhysMemoryKind::Free, 10, 20)).unwrap();
    assert_eq!(mm.add_region(region(PhysMemoryKind::Free, 0, 5)), Ok(()));
    assert_eq!(
        used(&mm),
        vec![
            border(PhysMemoryKind::Free, 0),
            border(PhysMemoryKind::Absent, 5),
            border(PhysMemoryKind::Free, 10),
            border(PhysMemoryKind::Absent, 20),
        ]
    );
}

#[test]
fn regions_of_one_kind_that_touch_are_merged() {
    let mut mm = PhysMemoryMap::<4>::new();
    mm.add_region(region(PhysMemoryKind::Free, 0, 10)).unwrap();
    mm.add_region(region(PhysMemoryKind::Free, 20, 30)).unwrap();
    assert_eq!(mm.len(), 4);
    mm.add_region(region(PhysMemoryKind::Free, 10, 20)).unwrap();
    assert_eq!(used(&mm), vec![border(PhysMemoryKind::Free, 0), border(PhysMemoryKind::Absent, 30)]);
}

#[test]
fn a_map_without_room_for_the_outcome_stays_as_it_is() {
    let mut mm = PhysMemoryMap::<3>::new();
    mm.add_region(region(PhysMemoryKind::Free, 0, 10)).unwrap();
    assert_eq!(mm.add_region(region(PhysMemoryKind::Broken, 3, 5)), Err(MemoryError::ArrayTooSmall));
    assert_eq!(used(&mm), vec![border(PhysMemoryKind::Free, 0), border(PhysMemoryKind::Absent, 10)]);
    assert_eq!(mm.add_region(region(PhysMemoryKind::Broken, 3, 10)), Ok(()));
    assert_eq!(
        used(&mm),
        vec![border(PhysMemoryKind::Free, 0), border(PhysMemoryKind::Broken, 3), border(PhysMemoryKind::Absent, 10)]
    );
}

#[test]
fn regions_added_in_ascending_order_keep_the_map_well_formed() {
    let mut mm = PhysMemoryMap::<8>::new();
    assert!(mm.is_well_formed());
    mm.add_region(region(PhysMemoryKind::Free, 0, 10)).unwrap();
    mm.add_region(region(PhysMemoryKind::Reserved, 20, 30)).unwrap();
    mm.add_region(region(PhysMemoryKind::Special, 31, 32)).unwrap();
    assert!(mm.is_well_formed());
    assert_eq!(mm.len(), 6);
    assert_eq!(mm.border(4), border(PhysMemoryKind::Special, 31));
    assert_eq!(mm.border(5), border(PhysMemoryKind::Absent, 32));
}

#[test]
fn raw_primitives_can_leave_the_map_ill_formed() {
    let mut mm = PhysMemoryMap::<4>::new();
    mm.insert_raw(0, border(PhysMemoryKind::Free, 10)).unwrap();
    assert!(!mm.is_well_formed());
    mm.insert_raw(1, border(PhysMemoryKind::Absent, 10)).unwrap();
    assert!(!mm.is_well_formed());
    mm.remove_raw(1).unwrap();
    mm.insert_raw(1, border(PhysMemoryKind::Absent, 11)).unwrap();
    assert!(mm.is_well_formed());
    mm.insert_raw(1, border(PhysMemoryKind::Free, 10)).unwrap();
    assert!(!mm.is_well_formed());
    mm.remove_raw(1).unwrap();
    mm.insert_raw(0, border(PhysMemoryKind::Absent, 5)).unwrap();
    assert!(!mm.is_well_formed());
    mm.remove_raw(0).unwrap();
    mm.insert_raw(0, border(PhysMemoryKind::Reserved, 12)).unwrap();
    assert!(!mm.is_well_formed());
}

#[test]
fn lower_rank_fills_in_around_higher_rank() {
    let mut mm = PhysMemoryMap::<6>::new();
    mm.add_region(region(PhysMemoryKind::Reserved, 5, 8)).unwrap();
    mm.add_region(region(PhysMemoryKind::Free, 0, 10)).unwrap();
    assert_eq!(
        used(&mm),
        vec![
            border(PhysMemoryKind::Free, 0),
            border(PhysMemoryKind::Reserved, 5),
            border(PhysMemoryKind::Free, 8),
            border(PhysMemoryKind::Absent, 10),
        ]
    );
    assert!(mm.is_well_formed());

    let mut mm = PhysMemoryMap::<6>::new();
    mm.add_region(region(PhysMemoryKind::Reserved, 0, 2)).unwrap();
    mm.add_region(region(PhysMemoryKind::Free, 1, 3)).unwrap();
    assert_eq!(
        used(&mm),
        vec![
            border(PhysMemoryKind::Reserved, 0),
            border(PhysMemoryKind::Free, 2),
            border(PhysMemoryKind::Absent, 3),
        ]
    );
}

#[test]
fn bytes_are_counted_by_kind() {
    let mut mm = PhysMemoryMap::<10>::new();
    mm.add_region(region(PhysMemoryKind::Free, 0, 100)).unwrap();
    mm.add_region(region(PhysMemoryKind::Reserved, 100, 130)).unwrap();
    mm.add_region(region(PhysMemoryKind::KernelHeap, 200, 264)).unwrap();
    mm.add_region(region(PhysMemoryKind::Free, 300, 301)).unwrap();
    assert_eq!(mm.bytes_of(PhysMemoryKind::Free), 101);
    assert_eq!(mm.bytes_of(PhysMemoryKind::Reserved), 30);
    assert_eq!(mm.bytes_of(PhysMemoryKind::Broken), 0);
    assert_eq!(mm.sdram_bytes(), 101 + 64);
}

#[test]
fn walk_skips_gaps_and_can_start_over() {
    let mut mm = PhysMemoryMap::<10>::new();
    mm.add_region(region(PhysMemoryKind::Free, 0, 10)).unwrap();
    mm.add_region(region(PhysMemoryKind::Special, 20, 30)).unwrap();
    for _ in 0..2 {
        let mut walk = mm.iter();
        assert_eq!(walk.next(), Some(region(PhysMemoryKind::Free, 0, 10)));
        assert_eq!(walk.next(), Some(region(PhysMemoryKind::Special, 20, 30)));
        assert_eq!(walk.next(), None);
        assert_eq!(walk.next(), None);
    }
}

#[test]
fn search_respects_kind_room_and_floor() {
    let mut mm = PhysMemoryMap::<10>::new();
    mm.add_region(region(PhysMemoryKind::Free, 1, 12)).unwrap();
    mm.add_region(region(PhysMemoryKind::Reserved, 12, 100)).unwrap();
    mm.add_region(region(PhysMemoryKind::Free, 100, 200)).unwrap();
    // The first free region has no room for 16 bytes from 8 on.
    assert_eq!(
        mm.find_continuous_of(PhysMemoryKind::Free, 16, 8, 0.into()),
        Some(region(PhysMemoryKind::Free, 104, 120))
    );
    assert_eq!(
        mm.find_continuous_of(PhysMemoryKind::Free, 4, 8, 0.into()),
        Some(region(PhysMemoryKind::Free, 8, 12))
    );
    assert_eq!(
        mm.find_continuous_of(PhysMemoryKind::Free, 4, 1, 150.into()),
        Some(region(PhysMemoryKind::Free, 150, 154))
    );
    assert_eq!(mm.find_continuous_of(PhysMemoryKind::Free, 101, 1, 0.into()), None);
    assert_eq!(mm.find_continuous_of(PhysMemoryKind::Broken, 1, 1, 0.into()), None);
    assert_eq!(
        mm.find_continuous_of(PhysMemoryKind::Reserved, 88, 4, 0.into()),
        Some(region(PhysMemoryKind::Reserved, 12, 100))
    );
}

#[test]
fn entry_knows_its_length() {
    assert_eq!(region(PhysMemoryKind::Free, 16, 4096).len(), 4080);
    let empty = PhysMemoryEntry::empty();
    assert_eq!(empty, region(PhysMemoryKind::Absent, 0, 0));
    assert_eq!(empty.len(), 0);
}

#[test]
fn kinds_rank_in_the_order_they_are_listed() {
    let kinds = [
        PhysMemoryKind::Absent,
        PhysMemoryKind::Free,
        PhysMemoryKind::Reserved,
        PhysMemoryKind::Special,
        PhysMemoryKind::AcpiReclaimable,
        PhysMemoryKind::KernelExe,
        PhysMemoryKind::KernelStack,
        PhysMemoryKind::KernelHeap,
        PhysMemoryKind::KernelElf,
        PhysMemoryKind::InitFs,
        PhysMemoryKind::Bootloader,
        PhysMemoryKind::PageTables,
        PhysMemoryKind::Broken,
    ];
    for (rank, kind) in kinds.iter().enumerate() {
        assert_eq!(kind.priority() as usize, rank);
    }
    for pair in kinds.windows(2) {
        assert!(pair[0] < pair[1]);
    }
}
