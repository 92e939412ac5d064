use quantum_kernel::compressedbool::CompressedBool;

#[test]
fn test_putting_ones_into_array() {
    let mut v = CompressedBool::new();

    for index in 0..1024 {
        v.set(index, true);
        assert_eq!(v.get(index), true);
    }

    assert_eq!(v.get(1025), false);

    for index in 0..1024 {
        v.set(index, false);
        assert_eq!(v.get(index), false);
    }

    assert_eq!(v.get(1025), false);
}

#[test]
fn test_pattern_bits() {
    let mut v = CompressedBool::new();

    for array_index in 0..16 {
        for bit_index in 0..32 {
            if bit_index % 2 == 0 {
                v.set(array_index * 8 + bit_index, true);
            }
        }
    }

    for array_index in 0..16 {
        for bit_index in 0..32 {
            assert_eq!(v.get(array_index * 8 + bit_index), bit_index % 2 == 0);
        }
    }

    for array_index in 0..16 {
        for bit_index in 0..32 {
            if bit_index % 2 == 0 {
                v.set(array_index * 8 + bit_index, false);
            }
        }
    }

    for array_index in 0..16 {
        for bit_index in 0..32 {
            assert_eq!(v.get(array_index * 8 + bit_index), false);
        }
    }
}

#[test]
fn test_find_first_of_false() {
    let mut v = CompressedBool::new();

    for some_bits in 0..1024 {
        v.set(some_bits, true);
    }

    for some_bits in 1025..2048 {
        v.set(some_bits, true);
    }

    assert_eq!(v.find_first_of(false), Some(1024));
}

#[test]
fn test_find_first_of_true() {
    let mut v = CompressedBool::new();

    v.set(7043, true);

    assert_eq!(v.find_first_of(true), Some(7043));
}

#[test]
fn test_find_first_skipping() {
    let mut v = CompressedBool::new();

    v.set(1, true);
    v.set(2, true);
    v.set(3, true);

    assert_eq!(v.find_first_of(true), Some(1));
    assert_eq!(v.find_first_skipping(1, true), Some(1));
    assert_eq!(v.find_first_skipping(2, true), Some(2));
    assert_eq!(v.find_first_skipping(3, true), Some(3));
    assert_eq!(v.find_first_skipping(4, true), None);
}

#[test]
fn test_find_first_of_many() {
    let mut v = CompressedBool::new();

    v.set(1, true);
    v.set(2, true);
    v.set(4, true);
    v.set(6, true);
    v.set(7, true);
    v.set(8, true);
    v.set(11, true);

    assert_eq!(v.find_first_of(true), Some(1));
    assert_eq!(v.find_first_of(false), Some(0));
    assert_eq!(v.find_first_of_many(false, 1), Some(0));
    assert_eq!(v.find_first_of_many(true, 1), Some(1));
    assert_eq!(v.find_first_of_many(true, 2), Some(1));
    assert_eq!(v.find_first_of_many(false, 2), Some(9));
}

#[test]
fn test_setting_really_far_away_bit() {
    let mut v = CompressedBool::new();

    v.set(usize::MAX - 1, true);
    assert_eq!(v.find_first_of(true), Some(usize::MAX - 1));
    assert_eq!(v.find_first_of(false), Some(0));

    assert_eq!(v.get(usize::MAX - 2), false);
    assert_eq!(v.get(usize::MAX - 1), true);
    assert_eq!(v.get(usize::MAX), false);
}
