use quantum_kernel::bitqueue::BitQueue;
use quantum_kernel::cpu::CpuPrivilege;
use quantum_kernel::debug_names::static_stream_var_name;
use quantum_kernel::debug_names::stream_var_name;
use quantum_kernel::idt::Entry;
use quantum_kernel::idt::EntryOptions;
use quantum_kernel::idt::Idt;

#[test]
fn test_bitqueue_queue() {
    let mut bq = BitQueue::new();

    bq.queue(0);

    assert_eq!(bq.len(), 1);
    assert_eq!(bq.first_free(), 1);
}

#[test]
fn test_bitqueue_remove() {
    let mut bq = BitQueue::new();

    for i in 0..100 {
        bq.queue(i);
    }

    assert_eq!(bq.len(), 100);
    assert_eq!(bq.first_free(), 100);

    bq.remove(10);
    bq.remove(20);
    bq.remove(31);

    assert_eq!(bq.len(), 97);
    assert_eq!(bq.first_free(), 10);
}

#[test]
fn test_bitqueue_both() {
    let mut bq = BitQueue::new();

    for i in 0..100 {
        bq.queue(i);
    }

    assert_eq!(bq.len(), 100);
    assert_eq!(bq.first_free(), 100);

    bq.remove(20);
    bq.remove(21);
    bq.remove(90);

    assert_eq!(bq.len(), 97);
    assert_eq!(bq.first_free(), 20);

    assert_eq!(bq.queue(20), 20);
    assert_eq!(bq.len(), 98);
    assert_eq!(bq.first_free(), 21);
    assert_eq!(bq.queue(-1), 21);
    assert_eq!(bq.len(), 99);
    assert_eq!(bq.first_free(), 90);
}

#[test]
fn test_add_and_remove_all() {
    let mut bq = BitQueue::new();

    for _ in 0..100 {
        for i in 0..100 {
            bq.queue(i);
        }

        assert_eq!(bq.len(), 100);

        for i in 0..100 {
            bq.remove(i);
        }

        assert_eq!(bq.len(), 0);
    }
}

#[test]
fn queue_hands_values_back() {
    let mut bq = BitQueue::new();
    assert_eq!(bq.queue("a"), 0);
    assert_eq!(bq.queue("b"), 1);
    assert_eq!(*bq.index(1), "b");
    assert!(bq.get_state(0));
    assert!(!bq.get_state(2));
    assert_eq!(bq.try_remove(0), Some("a"));
    assert_eq!(bq.try_remove(0), None);
    assert_eq!(bq.try_remove(7), None);
    assert!(!bq.get_state(0));
    assert_eq!(bq.remove(1), "b");
    assert_eq!(bq.len(), 0);
}

#[test]
fn stream_names() {
    assert_eq!(static_stream_var_name(3, None), "DEBUG_STREAM_OUTPUT_ANONYMOUS_3");
    assert_eq!(static_stream_var_name(120, None), "DEBUG_STREAM_OUTPUT_ANONYMOUS_120");
    assert_eq!(static_stream_var_name(3, Some("Serial port 1")), "DEBUG_STREAM_OUTPUT_SERIALPORT1");
    assert_eq!(static_stream_var_name(0, Some("vga_debug-é!")), "DEBUG_STREAM_OUTPUT_VGADEBUG");
    assert_eq!(static_stream_var_name(0, Some("")), "DEBUG_STREAM_OUTPUT_");
    assert_eq!(stream_var_name(None, "x"), "DEBUG_STREAM_OUTPUT_ANONYMOUS_x");
    assert_eq!(stream_var_name(Some("az AZ 09"), "x"), "DEBUG_STREAM_OUTPUT_AZAZ09");
}

#[test]
fn selectors_put_the_index_above_the_level() {
    assert_eq!(Entry::missing(0x1000).gdt_selector, 8);
    assert_eq!(Entry::new_null().gdt_selector, 0);
    assert_eq!(Entry::new_null().options.bits(), 0);
    assert_eq!(EntryOptions::new_zero().bits(), 0);
}

#[test]
fn entry_points_at_its_handler() {
    let entry = Entry::new_raw_ne(0x28, 0x1234_5678_9abc_def0);
    assert_eq!(entry.pointer_low, 0xdef0);
    assert_eq!(entry.pointer_middle, 0x9abc);
    assert_eq!(entry.pointer_high, 0x1234_5678);
    assert_eq!(entry.gdt_selector, 0x28);
    assert_eq!(entry.options.bits(), 0x8E00);
    assert_eq!(entry.reserved, 0);
    assert!(entry.is_missing(0x1234_5678_9abc_def0));
    assert!(!entry.is_missing(0x1234_5678_9abc_def1));
    assert!(!entry.is_null());
    assert!(Entry::new_blank(8).is_null());
    assert_eq!(Entry::new_raw_e(8, 5).pointer_low, 5);
    assert_eq!(Entry::new_raw_dne(8, 0x1_0000).pointer_middle, 1);
    assert_eq!(Entry::new_raw_de(8, 0x1_0000_0000).pointer_high, 1);
}

#[test]
fn table_of_missing_handlers_is_sound() {
    let idt = Idt::new(0x4000);
    let pointer = idt.submit_entries(0xffff_8000_0000_1000).unwrap();
    assert_eq!(pointer.limit, 255 * 16 - 1);
    assert_eq!(pointer.base.get(), 0xffff_8000_0000_1000);
    assert!(!idt.check_for_entry(0));
    assert!(idt.unsafe_submit_entries(0x1000).1);
}

#[test]
fn handlers_are_set_and_removed() {
    let mut idt = Idt::new(0x4000);
    idt.raw_set_handler_ne(3, 8, 0x5000);
    idt.raw_set_handler_e(13, 8, 0x6000);
    idt.raw_set_handler_dne(8, 8, 0x7000);
    idt.raw_set_handler_de(254, 8, 0x8000);
    assert!(idt.check_for_entry(3));
    assert!(idt.check_for_entry(254));
    assert!(!idt.check_for_entry(4));
    assert_eq!(idt.entry(13).pointer_low, 0x6000);
    assert!(idt.submit_entries(0).is_ok());
    idt.remove_entry(3);
    idt.remove_entry(4);
    assert!(!idt.check_for_entry(3));
    assert_eq!(idt.entry(3).pointer_low, 0x4000);
    assert_eq!(idt.entry(3).gdt_selector, 8);
}

#[test]
fn faulty_descriptors_are_reported() {
    for ring in [CpuPrivilege::Ring0, CpuPrivilege::Ring1, CpuPrivilege::Ring2, CpuPrivilege::Ring3] {
        let mut idt = Idt::new(0x4000);
        idt.raw_set_handler_ne(5, ring.into(), 0x5000);
        assert_eq!(
            idt.submit_entries(0).err(),
            Some("GDT_Selector is malformed and does not contain a valid index")
        );
        assert!(!idt.unsafe_submit_entries(0).1);
    }
    let mut idt = Idt::new(0x4000);
    idt.raw_set_handler_ne(5, 4, 0x5000);
    assert!(idt.submit_entries(0).is_ok());
}
