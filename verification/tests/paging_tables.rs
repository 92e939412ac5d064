use quantum_kernel::error::MemoryError;
use quantum_kernel::paging::build_boot_tables;
use quantum_kernel::paging::paging_switch_step;
use quantum_kernel::paging::PageEntry1G;
use quantum_kernel::paging::PageEntry2M;
use quantum_kernel::paging::PageEntry4K;
use quantum_kernel::paging::PageEntryLvl2;
use quantum_kernel::paging::PageEntryLvl3;
use quantum_kernel::paging::PageEntryLvl4;
use quantum_kernel::paging::PageEntryLvl5;
use quantum_kernel::paging::PageMapLvl2;
use quantum_kernel::paging::PageMapLvl3;
use quantum_kernel::paging::PageMapLvl4;
use quantum_kernel::paging::PageMapLvl5;
use quantum_kernel::paging::PagingStep;

#[test]
fn fresh_entries() {
    assert_eq!(PageEntry4K::zero().bits(), 0);
    assert_eq!(PageEntry4K::new().bits(), 0);
    assert_eq!(PageEntry2M::zero().bits(), 0);
    assert_eq!(PageEntry2M::new().bits(), 0x80);
    assert_eq!(PageEntry1G::zero().bits(), 0);
    assert_eq!(PageEntry1G::new().bits(), 0x80);
    assert_eq!(PageEntryLvl2::new().bits(), 0);
    assert_eq!(PageEntryLvl3::new().bits(), 0);
    assert_eq!(PageEntryLvl4::new().bits(), 0);
    assert_eq!(PageEntryLvl5::new().bits(), 0);
    assert_eq!(PageEntryLvl5::zero().bits(), 0);
    assert!(PageEntry2M::new().is_page_size_set());
    assert!(!PageEntry2M::new().is_present_set());
}

#[test]
fn every_flag_of_a_leaf_has_its_bit() {
    let zero = PageEntry4K::zero();
    assert_eq!(zero.set_present_flag(true).bits(), 1 << 0);
    assert_eq!(zero.set_read_write_flag(true).bits(), 1 << 1);
    assert_eq!(zero.set_user_accessed_flag(true).bits(), 1 << 2);
    assert_eq!(zero.set_write_though_flag(true).bits(), 1 << 3);
    assert_eq!(zero.set_cache_disable_flag(true).bits(), 1 << 4);
    assert_eq!(zero.set_accessed_flag(true).bits(), 1 << 5);
    assert_eq!(zero.set_dirty_flag(true).bits(), 1 << 6);
    assert_eq!(zero.set_page_attribute_table_flag(true).bits(), 1 << 7);
    assert_eq!(zero.set_global_flag(true).bits(), 1 << 8);
    assert_eq!(zero.set_execute_disable_flag(true).bits(), 1 << 63);
    assert_eq!(zero.set_virt_address(1).bits(), 1 << 12);
    assert_eq!(zero.set_protection_key(0b101).bits(), 0b101 << 59);
    assert_eq!(PageEntry2M::zero().set_page_attribute_table_flag(true).bits(), 1 << 12);
    assert_eq!(PageEntry2M::zero().set_virt_address(1).bits(), 1 << 21);
    assert_eq!(PageEntry1G::zero().set_virt_address(1).bits(), 1 << 21);
    assert_eq!(PageEntryLvl3::zero().set_next_entry_phy_address(1).bits(), 1 << 12);
    assert_eq!(PageEntryLvl4::zero().set_user_access_flag(true).bits(), 1 << 2);
}

#[test]
fn flags_can_be_cleared_and_leave_the_rest_alone() {
    let full = PageEntry4K::from_bits(u64::MAX);
    assert_eq!(full.set_dirty_flag(false).bits(), u64::MAX & !(1 << 6));
    assert!(!full.set_dirty_flag(false).is_dirty_set());
    assert!(full.set_dirty_flag(false).is_accessed_set());
    assert_eq!(full.set_virt_address(0).bits(), u64::MAX & !(0xf_ffff_ffff << 12));
    assert_eq!(full.get_virt_address(), 0xf_ffff_ffff);
    assert_eq!(full.get_protection_key(), 0b111);
    assert_eq!(full.set_virt_address(0x12345).get_virt_address(), 0x12345);
}

#[test]
fn kernel_entries() {
    assert_eq!(PageEntry2M::kernel_huge_page(0).bits(), 0x83);
    assert_eq!(PageEntry2M::kernel_huge_page(3).bits(), 0x83 | (3 << 21));
    assert_eq!(PageEntryLvl3::kernel_table_pointer(0x5000).bits(), 0x5003);
    assert_eq!(PageEntryLvl4::kernel_table_pointer(0xffff_ffff_f000).bits(), 0xffff_ffff_f003);
}

#[test]
fn tables_hold_512_entries() {
    let mut table = PageMapLvl2::new();
    assert_eq!(table.set_entry_bits(511, 7), Ok(()));
    assert_eq!(table.entry_bits(511), 7);
    assert_eq!(table.entry_bits(510), 0);
    assert_eq!(table.set_entry_bits(512, 7), Err(MemoryError::InvalidSize));
    assert_eq!(PageMapLvl3::new().entry_bits(0), 0);
    assert_eq!(PageMapLvl4::new().entry_bits(0), 0);
    assert_eq!(PageMapLvl5::new().entry_bits(0), 0);
}

#[test]
fn identity_fill_covers_one_gibibyte() {
    let mut table = PageMapLvl2::new();
    table.fill_identity(2);
    for i in 0..512u64 {
        let address = 2 * 1024 * 1024 * 1024 + i * 2 * 1024 * 1024;
        assert_eq!(table.entry_bits(i as usize), 0x83 | address);
    }
}

#[test]
fn boot_tables_are_linked_from_the_top() {
    let level2_tables = vec![0x3000, 0x4000, 0x5000, 0x6000, 0x7000];
    let tables = build_boot_tables(0x2000, &level2_tables);
    assert_eq!(tables.level2.len(), 5);
    assert_eq!(tables.level4.entry_bits(0), 0x2003);
    for i in 1..512 {
        assert_eq!(tables.level4.entry_bits(i), 0);
    }
    for (t, address) in level2_tables.iter().enumerate() {
        assert_eq!(tables.level3.entry_bits(t), address | 3);
        assert_eq!(tables.level2[t].entry_bits(0), 0x83 | ((t as u64) << 30));
        assert_eq!(tables.level2[t].entry_bits(511), 0x83 | ((t as u64) << 30) | (511 << 21));
    }
    for i in 5..512 {
        assert_eq!(tables.level3.entry_bits(i), 0);
    }
}

#[test]
fn paging_is_off_while_the_tables_are_loaded() {
    let mut steps = Vec::new();
    let mut done = 0;
    while let Some(step) = paging_switch_step(done, 0x2000) {
        steps.push(step);
        done += 1;
    }
    assert_eq!(
        steps,
        vec![
            PagingStep::DisablePaging,
            PagingStep::EnablePhysicalAddressExtension,
            PagingStep::EnablePageSizeExtension,
            PagingStep::EnableLongMode,
            PagingStep::LoadPageDirectoryBase(0x2000),
            PagingStep::EnableProtectedMode,
            PagingStep::EnablePaging,
            PagingStep::ReloadSegments(0x10),
        ]
    );
    assert_eq!(paging_switch_step(8, 0x2000), None);
}
