use quantum_kernel::phys::PhysMemoryBorder;
use quantum_kernel::phys::PhysMemoryEntry;
use quantum_kernel::phys::PhysMemoryKind;
use quantum_kernel::phys::PhysMemoryMap;

#[test]
fn test_enum_has_precedence() {
    assert!(PhysMemoryKind::Absent < PhysMemoryKind::Free);
    assert!(PhysMemoryKind::Free < PhysMemoryKind::Reserved);
}

#[test]
fn test_insert_one_element() {
    let mut mm = PhysMemoryMap::<3>::new();

    assert_eq!(
        mm.insert_raw(0, PhysMemoryBorder {
            kind: PhysMemoryKind::Free,
            address: 0.into()
        }),
        Ok(())
    );

    assert_eq!(mm.len(), 1);
    assert_eq!(mm.borders(), [
        PhysMemoryBorder {
            kind: PhysMemoryKind::Free,
            address: 0.into()
        },
        PhysMemoryBorder {
            kind: PhysMemoryKind::Absent,
            address: 0.into()
        },
        PhysMemoryBorder {
            kind: PhysMemoryKind::Absent,
            address: 0.into()
        }
    ]);
}

#[test]
fn test_insert_two_element() {
    let mut mm = PhysMemoryMap::<3>::new();

    assert_eq!(
        mm.insert_raw(0, PhysMemoryBorder {
            kind: PhysMemoryKind::Free,
            address: 0.into()
        }),
        Ok(())
    );

    assert_eq!(
        mm.insert_raw(1, PhysMemoryBorder {
            kind: PhysMemoryKind::Absent,
            address: 1.into()
        }),
        Ok(())
    );

    assert_eq!(mm.len(), 2);
    assert_eq!(mm.borders(), [
        PhysMemoryBorder {
            kind: PhysMemoryKind::Free,
            address: 0.into()
        },
        PhysMemoryBorder {
            kind: PhysMemoryKind::Absent,
            address: 1.into()
        },
        PhysMemoryBorder {
            kind: PhysMemoryKind::Absent,
            address: 0.into()
        }
    ]);
}

#[test]
fn test_insert_all_elements() {
    let mut mm = PhysMemoryMap::<3>::new();

    assert_eq!(
        mm.insert_raw(0, PhysMemoryBorder {
            kind: PhysMemoryKind::Free,
            address: 0.into()
        }),
        Ok(())
    );

    assert_eq!(
        mm.insert_raw(1, PhysMemoryBorder {
            kind: PhysMemoryKind::Reserved,
            address: 1.into()
        }),
        Ok(())
    );

    assert_eq!(
        mm.insert_raw(2, PhysMemoryBorder {
            kind: PhysMemoryKind::Absent,
            address: 2.into()
        }),
        Ok(())
    );

    assert_eq!(mm.len(), 3);
    assert_eq!(mm.borders(), [
        PhysMemoryBorder {
            kind: PhysMemoryKind::Free,
            address: 0.into()
        },
        PhysMemoryBorder {
            kind: PhysMemoryKind::Reserved,
            address: 1.into()
        },
        PhysMemoryBorder {
            kind: PhysMemoryKind::Absent,
            address: 2.into()
        }
    ]);
}

#[test]
fn test_insert_middle_elements() {
    let mut mm = PhysMemoryMap::<4>::new();

    assert_eq!(
        mm.insert_raw(0, PhysMemoryBorder {
            kind: PhysMemoryKind::Free,
            address: 0.into()
        }),
        Ok(())
    );

    assert_eq!(
        mm.insert_raw(1, PhysMemoryBorder {
            kind: PhysMemoryKind::Reserved,
            address: 1.into()
        }),
        Ok(())
    );

    assert_eq!(
        mm.insert_raw(1, PhysMemoryBorder {
            kind: PhysMemoryKind::Absent,
            address: 2.into()
        }),
        Ok(())
    );

    assert_eq!(mm.len(), 3);
    assert_eq!(mm.borders(), [
        PhysMemoryBorder {
            kind: PhysMemoryKind::Free,
            address: 0.into()
        },
        PhysMemoryBorder {
            kind: PhysMemoryKind::Absent,
            address: 2.into()
        },
        PhysMemoryBorder {
            kind: PhysMemoryKind::Reserved,
            address: 1.into()
        },
        PhysMemoryBorder {
            kind: PhysMemoryKind::Absent,
            address: 0.into()
        }
    ]);
}

#[test]
fn test_remove_last_element() {
    let mut mm = PhysMemoryMap::<4>::new();

    assert_eq!(
        mm.insert_raw(0, PhysMemoryBorder {
            kind: PhysMemoryKind::Free,
            address: 0.into()
        }),
        Ok(())
    );

    assert_eq!(
        mm.insert_raw(1, PhysMemoryBorder {
            kind: PhysMemoryKind::Reserved,
            address: 1.into()
        }),
        Ok(())
    );

    assert_eq!(
        mm.insert_raw(2, PhysMemoryBorder {
            kind: PhysMemoryKind::Absent,
            address: 2.into()
        }),
        Ok(())
    );

    assert_eq!(mm.remove_raw(2), Ok(()));

    assert_eq!(mm.len(), 2);
    assert_eq!(mm.borders(), [
        PhysMemoryBorder {
            kind: PhysMemoryKind::Free,
            address: 0.into()
        },
        PhysMemoryBorder {
            kind: PhysMemoryKind::Reserved,
            address: 1.into()
        },
        PhysMemoryBorder {
            kind: PhysMemoryKind::Absent,
            address: 0.into()
        },
        PhysMemoryBorder {
            kind: PhysMemoryKind::Absent,
            address: 0.into()
        }
    ]);
}

#[test]
fn test_remove_middle_element() {
    let mut mm = PhysMemoryMap::<4>::new();

    assert_eq!(
        mm.insert_raw(0, PhysMemoryBorder {
            kind: PhysMemoryKind::Free,
            address: 0.into()
        }),
        Ok(())
    );

    assert_eq!(
        mm.insert_raw(1, PhysMemoryBorder {
            kind: PhysMemoryKind::Reserved,
            address: 1.into()
        }),
        Ok(())
    );

    assert_eq!(
        mm.insert_raw(2, PhysMemoryBorder {
            kind: PhysMemoryKind::Absent,
            address: 2.into()
        }),
        Ok(())
    );

    assert_eq!(mm.remove_raw(1), Ok(()));

    assert_eq!(mm.len(), 2);
    assert_eq!(mm.borders(), [
        PhysMemoryBorder {
            kind: PhysMemoryKind::Free,
            address: 0.into()
        },
        PhysMemoryBorder {
            kind: PhysMemoryKind::Absent,
            address: 2.into()
        },
        PhysMemoryBorder {
            kind: PhysMemoryKind::Absent,
            address: 0.into()
        },
        PhysMemoryBorder {
            kind: PhysMemoryKind::Absent,
            address: 0.into()
        }
    ]);
}

#[test]
fn test_remove_first_element() {
    let mut mm = PhysMemoryMap::<4>::new();

    assert_eq!(
        mm.insert_raw(0, PhysMemoryBorder {
            kind: PhysMemoryKind::Free,
            address: 0.into()
        }),
        Ok(())
    );

    assert_eq!(
        mm.insert_raw(1, PhysMemoryBorder {
            kind: PhysMemoryKind::Reserved,
            address: 1.into()
        }),
        Ok(())
    );

    assert_eq!(
        mm.insert_raw(2, PhysMemoryBorder {
            kind: PhysMemoryKind::Absent,
            address: 2.into()
        }),
        Ok(())
    );

    assert_eq!(mm.remove_raw(0), Ok(()));

    assert_eq!(mm.len(), 2);
    assert_eq!(mm.borders(), [
        PhysMemoryBorder {
            kind: PhysMemoryKind::Reserved,
            address: 1.into()
        },
        PhysMemoryBorder {
            kind: PhysMemoryKind::Absent,
            address: 2.into()
        },
        PhysMemoryBorder {
            kind: PhysMemoryKind::Absent,
            address: 0.into()
        },
        PhysMemoryBorder {
            kind: PhysMemoryKind::Absent,
            address: 0.into()
        }
    ]);
}

#[test]
fn test_add_one_region() {
        let mut mm = PhysMemoryMap::<4>::new();

    assert_eq!(
        mm.add_region(PhysMemoryEntry {
            kind: PhysMemoryKind::Free,
            start: 0.into(),
            end: 10.into()
        }),
        Ok(())
    );

    assert_eq!(mm.len(), 2, "Array len didnt match! {:#?}", mm.borders());
    assert_eq!(mm.borders(), [
        PhysMemoryBorder {
            kind: PhysMemoryKind::Free,
            address: 0.into()
        },
        PhysMemoryBorder {
            kind: PhysMemoryKind::Absent,
            address: 10.into()
        },
        PhysMemoryBorder {
            kind: PhysMemoryKind::Absent,
            address: 0.into()
        },
        PhysMemoryBorder {
            kind: PhysMemoryKind::Absent,
            address: 0.into()
        }
    ]);
}

#[test]
fn test_add_two_region_no_overlap() {
    let mut mm = PhysMemoryMap::<4>::new();

    assert_eq!(
        mm.add_region(PhysMemoryEntry {
            kind: PhysMemoryKind::Free,
            start: 0.into(),
            end: 10.into()
        }),
        Ok(()),
        "{:#?}",
        mm.borders()
    );

    assert_eq!(
        mm.add_region(PhysMemoryEntry {
            kind: PhysMemoryKind::Free,
            start: 20.into(),
            end: 30.into()
        }),
        Ok(()),
        "{:#?}",
        mm.borders()
    );

    assert_eq!(mm.len(), 4, "Array len didnt match! {:#?}", mm.borders());
    assert_eq!(mm.borders(), [
        PhysMemoryBorder {
            kind: PhysMemoryKind::Free,
            address: 0.into()
        },
        PhysMemoryBorder {
            kind: PhysMemoryKind::Absent,
            address: 10.into()
        },
        PhysMemoryBorder {
            kind: PhysMemoryKind::Free,
            address: 20.into()
        },
        PhysMemoryBorder {
            kind: PhysMemoryKind::Absent,
            address: 30.into()
        }
    ]);
}

#[test]
fn test_add_two_region_middle_overlap_change_last() {
    let mut mm = PhysMemoryMap::<4>::new();

    assert_eq!(
        mm.add_region(PhysMemoryEntry {
            kind: PhysMemoryKind::Free,
            start: 0.into(),
            end: 10.into()
        }),
        Ok(()),
        "{:#?}",
        mm.borders()
    );

    assert_eq!(
        mm.add_region(PhysMemoryEntry {
            kind: PhysMemoryKind::Reserved,
            start: 5.into(),
            end: 20.into()
        }),
        Ok(()),
        "{:#?}",
        mm.borders()
    );

    assert_eq!(mm.len(), 3, "Array len didnt match! {:#?}", mm.borders());
    assert_eq!(mm.borders(), [
        PhysMemoryBorder {
            kind: PhysMemoryKind::Free,
            address: 0.into()
        },
        PhysMemoryBorder {
            kind: PhysMemoryKind::Reserved,
            address: 5.into()
        },
        PhysMemoryBorder {
            kind: PhysMemoryKind::Absent,
            address: 20.into()
        },
        PhysMemoryBorder {
            kind: PhysMemoryKind::Absent,
            address: 0.into()
        }
    ]);
}

#[test]
fn test_complex_overlap_region() {
        let mut mm = PhysMemoryMap::<10>::new();

    mm.add_region(PhysMemoryEntry {
        kind: PhysMemoryKind::Free,
        start: 5.into(),
        end: 14.into(),
    })
    .unwrap();
    mm.add_region(PhysMemoryEntry {
        kind: PhysMemoryKind::Reserved,
        start: 0.into(),
        end: 6.into(),
    })
    .unwrap();
    mm.add_region(PhysMemoryEntry {
        kind: PhysMemoryKind::Special,
        start: 3.into(),
        end: 10.into(),
    })
    .unwrap();
    mm.add_region(PhysMemoryEntry {
        kind: PhysMemoryKind::Bootloader,
        start: 14.into(),
        end: 18.into(),
    })
    .unwrap();
    mm.add_region(PhysMemoryEntry {
        kind: PhysMemoryKind::Free,
        start: 14.into(),
        end: 18.into(),
    })
    .unwrap();

    assert_eq!(mm.len(), 5, "Array len didnt match! {:#?}", mm.borders());
    assert_eq!(
        mm.borders(),
        [
            PhysMemoryBorder {
                kind: PhysMemoryKind::Reserved,
                address: 0.into()
            },
            PhysMemoryBorder {
                kind: PhysMemoryKind::Special,
                address: 3.into()
            },
            PhysMemoryBorder {
                kind: PhysMemoryKind::Free,
                address: 10.into()
            },
            PhysMemoryBorder {
                kind: PhysMemoryKind::Bootloader,
                address: 14.into()
            },
            PhysMemoryBorder {
                kind: PhysMemoryKind::Absent,
                address: 18.into()
            },
            PhysMemoryBorder {
                kind: PhysMemoryKind::Absent,
                address: 0.into()
            },
            PhysMemoryBorder {
                kind: PhysMemoryKind::Absent,
                address: 0.into()
            },
            PhysMemoryBorder {
                kind: PhysMemoryKind::Absent,
                address: 0.into()
            },
            PhysMemoryBorder {
                kind: PhysMemoryKind::Absent,
                address: 0.into()
            },
            PhysMemoryBorder {
                kind: PhysMemoryKind::Absent,
                address: 0.into()
            },
        ],
        "{:#?}",
        mm.borders()
    );
}

#[test]
fn test_real_world() {
    let real_mem_map = [
        PhysMemoryEntry {
            kind: PhysMemoryKind::Free,
            start: 0.into(),
            end: 654336.into(),
        },
        PhysMemoryEntry {
            kind: PhysMemoryKind::Reserved,
            start: 654336.into(),
            end: (654336 + 1024).into(),
        },
        PhysMemoryEntry {
            kind: PhysMemoryKind::Reserved,
            start: 983040.into(),
            end: (983040 + 65536).into(),
        },
        PhysMemoryEntry {
            kind: PhysMemoryKind::Free,
            start: 1048576.into(),
            end: (1048576 + 267255808).into(),
        },
        PhysMemoryEntry {
            kind: PhysMemoryKind::Reserved,
            start: 268304384.into(),
            end: (268304384 + 131072).into(),
        },
        PhysMemoryEntry {
            kind: PhysMemoryKind::Reserved,
            start: 4294705152.into(),
            end: (4294705152 + 262144).into(),
        },
        PhysMemoryEntry {
            kind: PhysMemoryKind::Reserved,
            start: 1086626725888.into(),
            end: (1086626725888 + 12884901888).into(),
        },
    ];

    let mut mm = PhysMemoryMap::<20>::new();

    for entry in real_mem_map.iter() {
        mm.add_region(entry.clone()).unwrap();
    }

    assert_eq!(mm.len(), 11);
}

#[test]
fn test_iter() {
    let mut mm = PhysMemoryMap::<10>::new();

    mm.add_region(PhysMemoryEntry {
        kind: PhysMemoryKind::Free,
        start: 0.into(),
        end: 10.into(),
    })
    .unwrap();

    mm.add_region(PhysMemoryEntry {
        kind: PhysMemoryKind::Reserved,
        start: 5.into(),
        end: 20.into(),
    })
    .unwrap();

    let mut iter = mm.iter();

    assert_eq!(
        iter.next(),
        Some(PhysMemoryEntry {
            kind: PhysMemoryKind::Free,
            start: 0.into(),
            end: 5.into()
        })
    );
    assert_eq!(
        iter.next(),
        Some(PhysMemoryEntry {
            kind: PhysMemoryKind::Reserved,
            start: 5.into(),
            end: 20.into()
        })
    );

    assert_eq!(iter.next(), None);
}

#[test]
fn test_find_cont_of() {
    let mut mm = PhysMemoryMap::<10>::new();

    mm.add_region(PhysMemoryEntry {
        kind: PhysMemoryKind::Free,
        start: 1.into(),
        end: 64.into(),
    })
    .unwrap();

    mm.add_region(PhysMemoryEntry {
        kind: PhysMemoryKind::Reserved,
        start: 32.into(),
        end: 64.into(),
    })
    .unwrap();

    assert_eq!(
        mm.find_continuous_of(PhysMemoryKind::Free, 16, 8, 0.into()),
        Some(PhysMemoryEntry {
            kind: PhysMemoryKind::Free,
            start: 8.into(),
            end: 24.into()
        })
    );
    assert_eq!(
        mm.find_continuous_of(PhysMemoryKind::Free, 8, 8, 10.into()),
        Some(PhysMemoryEntry {
            kind: PhysMemoryKind::Free,
            start: 16.into(),
            end: 24.into()
        })
    );
}

#[test]
fn test_real_add_ss_regions_to_mm() {
    let mut mm = PhysMemoryMap::<16>::new();

    let example_mm = [
        PhysMemoryEntry {
            kind: PhysMemoryKind::Free,
            start: 0.into(),
            end: 654336.into(),
        },
        PhysMemoryEntry {
            kind: PhysMemoryKind::Reserved,
            start: 654336.into(),
            end: 655360.into(),
        },
        PhysMemoryEntry {
            kind: PhysMemoryKind::Reserved,
            start: 983040.into(),
            end: 1048576.into(),
        },
        PhysMemoryEntry {
            kind: PhysMemoryKind::Free,
            start: 1048576.into(),
            end: 268304384.into(),
        },
        PhysMemoryEntry {
            kind: PhysMemoryKind::Reserved,
            start: 268304384.into(),
            end: 268435456.into(),
        },
        PhysMemoryEntry {
            kind: PhysMemoryKind::Reserved,
            start: 4294705152.into(),
            end: 4294967296.into(),
        },
        PhysMemoryEntry {
            kind: PhysMemoryKind::Reserved,
            start: 1086626725888.into(),
            end: 1099511627776.into(),
        },
    ];

    for example in example_mm.iter() {
        mm.add_region(example).unwrap();
    }

    mm.add_region(PhysMemoryEntry {
        kind: PhysMemoryKind::Bootloader,
        start: 2097152.into(),
        end: 2124304.into(),
    })
    .unwrap();
    mm.add_region(PhysMemoryEntry {
        kind: PhysMemoryKind::Bootloader,
        start: 4194304.into(),
        end: 4218432.into(),
    })
    .unwrap();

    assert_eq!(mm.len(), 15, "{:#?}", mm.borders());
    assert_eq!(mm.borders(), [
        PhysMemoryBorder {
            kind: PhysMemoryKind::Free,
            address: 0.into(),
        },
        PhysMemoryBorder {
            kind: PhysMemoryKind::Reserved,
            address: 654336.into(),
        },
        PhysMemoryBorder {
            kind: PhysMemoryKind::Absent,
            address: 655360.into(),
        },
        PhysMemoryBorder {
            kind: PhysMemoryKind::Reserved,
            address: 983040.into(),
        },
        PhysMemoryBorder {
            kind: PhysMemoryKind::Free,
            address: 1048576.into(),
        },
        PhysMemoryBorder {
            kind: PhysMemoryKind::Bootloader,
            address: 2097152.into(),
        },
        PhysMemoryBorder {
            kind: PhysMemoryKind::Free,
            address: 2124304.into(),
        },
        PhysMemoryBorder {
            kind: PhysMemoryKind::Bootloader,
            address: 0x400000.into(),
        },
        PhysMemoryBorder {
            kind: PhysMemoryKind::Free,
            address: 0x405e40.into(),
        },
        PhysMemoryBorder {
            kind: PhysMemoryKind::Reserved,
            address: 268304384.into(),
        },
        PhysMemoryBorder {
            kind: PhysMemoryKind::Absent,
            address: 268435456.into(),
        },
        PhysMemoryBorder {
            kind: PhysMemoryKind::Reserved,
            address: 4294705152.into(),
        },
        PhysMemoryBorder {
            kind: PhysMemoryKind::Absent,
            address: 4294967296.into(),
        },
        PhysMemoryBorder {
            kind: PhysMemoryKind::Reserved,
            address: 1086626725888.into(),
        },
        PhysMemoryBorder {
            kind: PhysMemoryKind::Absent,
            address: 1099511627776.into(),
        },
        PhysMemoryBorder {
            kind: PhysMemoryKind::Absent,
            address: 0.into(),
        },
    ],);
}
