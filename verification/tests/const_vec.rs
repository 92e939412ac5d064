use quantum_kernel::constvec::ConstVec;

#[test]
fn test_array_push() {
    let mut array: ConstVec<8, i32> = ConstVec::new();

    for i in 0..8 {
        array.push(i);
    }

    assert_eq!(array.try_push(9), Err(9));

    for i in 0..8 {
        assert_eq!(array.as_slice()[i], i as i32);
    }
}

#[test]
fn test_array_remove() {
    let mut array: ConstVec<8, i32> = ConstVec::new();

    for i in 0..8 {
        array.push(i);
    }

    assert_eq!(array.len(), 8);

    for i in 0..8 {
        assert_eq!(array.remove(0), i as i32);
    }

    assert_eq!(array.len(), 0);
}
