use quantum_kernel::bitarray::BitArray;
use quantum_kernel::bits::get_bit;
use quantum_kernel::bits::get_bit_range;
use quantum_kernel::bits::set_bit;
use quantum_kernel::bits::set_bit_range;
use quantum_kernel::boolvec::BoolVec;
use quantum_kernel::compressedbool::CompressedBool;
use quantum_kernel::constvec::ConstVec;
use quantum_kernel::error::QuantumError;

#[test]
fn single_bits() {
    assert_eq!(set_bit(0, 63, true), 1 << 63);
    assert_eq!(set_bit(u64::MAX, 0, false), u64::MAX - 1);
    assert!(get_bit(0b100, 2));
    assert!(!get_bit(0b100, 1));
}

#[test]
fn bit_ranges() {
    assert_eq!(get_bit_range(0xabcd_0000, 16, 32), 0xabcd);
    assert_eq!(set_bit_range(0, 12, 48, 0xf_ffff_ffff), 0x0000_ffff_ffff_f000);
    assert_eq!(set_bit_range(u64::MAX, 4, 8, 0), u64::MAX & !0xf0);
    assert_eq!(set_bit_range(0, 4, 8, 0x1f), 0xf0);
    assert_eq!(get_bit_range(u64::MAX, 0, 64), u64::MAX);
}

#[test]
fn new_bit_array_is_clear() {
    let array = BitArray::<u64, 3>::new();
    assert_eq!(array.array, [0, 0, 0]);
    let bytes = BitArray::<u8, 2>::new();
    assert_eq!(bytes.array, [0, 0]);
    assert_eq!(BitArray::<u64, 2>::zeroed().find_first_of(true), None);
    assert_eq!(BitArray::<u64, 2>::zeroed().find_first_of(false), Some(0));
}

#[test]
fn bit_array_set_get_and_find() {
    let mut array = BitArray::<u64, 2>::zeroed();
    array.set(70, true);
    array.set(127, true);
    assert!(array.get(70));
    assert!(!array.get(69));
    assert_eq!(array.array, [0, (1 << 6) | (1 << 63)]);
    assert_eq!(array.find_first_of(true), Some(70));
    assert_eq!(array.find_first_skipping(71, true), Some(127));
    assert_eq!(array.find_first_skipping(128, true), None);
    array.set_all(true);
    assert_eq!(array.array, [u64::MAX, u64::MAX]);
    assert_eq!(array.find_first_of(false), None);
    array.set(64, false);
    assert_eq!(array.find_first_of(false), Some(64));
    assert_eq!(array.find_first_skipping(65, false), None);
}

#[test]
fn clearing_in_a_chunk_with_one_bit_clears_the_chunk() {
    let mut bits = CompressedBool::new();
    bits.set(5, true);
    bits.set(7, false);
    assert!(!bits.get(5));
    assert_eq!(bits.find_first_of(true), None);
}

#[test]
fn setting_the_last_but_one_bit_fills_the_chunk() {
    let mut bits = CompressedBool::<1>::new_stride();
    for at in 0..63 {
        bits.set(at, true);
    }
    assert!(!bits.get(63));
    // 63 of 64 bits are set: setting any bit now fills the chunk.
    bits.set(0, true);
    assert!(bits.get(63));
    assert_eq!(bits.find_first_of(false), Some(64));
    bits.set(10, false);
    assert!(!bits.get(10));
    assert_eq!(bits.find_first_of(false), Some(10));
}

#[test]
fn runs_of_bits() {
    let mut bits = CompressedBool::new();
    for at in 10..15 {
        bits.set(at, true);
    }
    for at in 20..30 {
        bits.set(at, true);
    }
    assert_eq!(bits.find_first_of_many_skipping(0, true, 3), Some(10));
    assert_eq!(bits.find_first_of_many_skipping(11, true, 3), Some(11));
    assert_eq!(bits.find_first_of_many_skipping(13, true, 3), Some(20));
    assert_eq!(bits.find_first_of_many_skipping(15, true, 8), Some(20));
    assert_eq!(bits.find_first_of_many_skipping(0, true, 12), None);
    assert_eq!(bits.find_first_of_many(true, 0), Some(10));
    assert_eq!(bits.find_first_of_many(false, 10), Some(0));
    assert_eq!(bits.find_first_of_many(false, 11), Some(30));
    assert_eq!(bits.find_first_of_many_skipping(usize::MAX, false, 2), None);
    assert_eq!(bits.find_first_of_many_skipping(usize::MAX, false, 1), Some(usize::MAX));
}

#[test]
fn search_crosses_chunks() {
    let mut bits = CompressedBool::<1>::new_stride();
    bits.set(200, true);
    assert_eq!(bits.find_first_of(true), Some(200));
    assert_eq!(bits.find_first_skipping(201, true), None);
    for at in 0..128 {
        bits.set(at, true);
    }
    assert_eq!(bits.find_first_of(false), Some(128));
    assert_eq!(bits.find_first_skipping(200, false), Some(201));
    assert_eq!(bits.find_first_skipping(64, true), Some(64));
}

#[test]
fn const_vec_keeps_order() {
    let mut v: ConstVec<4, u8> = ConstVec::new();
    v.push(1);
    v.push(3);
    v.insert(1, 2);
    assert_eq!(v.as_slice(), &[1, 2, 3]);
    assert_eq!(v.try_insert(4, 9), Err(9));
    assert_eq!(v.try_insert(3, 4), Ok(()));
    assert_eq!(v.try_insert(0, 0), Err(0));
    assert_eq!(v.try_push(5), Err(5));
    assert_eq!(v.swap_remove(0), 1);
    assert_eq!(v.as_slice(), &[4, 2, 3]);
    assert_eq!(v.remove(1), 2);
    assert_eq!(v.as_slice(), &[4, 3]);
    assert_eq!(v.len(), 2);
}

#[test]
fn bool_vec_moves_to_a_longer_buffer_only() {
    let mut bits = BoolVec::new(vec![1, 2, 3]);
    assert_eq!(bits.len(), 24);
    assert_eq!(bits.transfer_expand(vec![0, 0]), Err(QuantumError::NoSpaceRemaining));
    assert_eq!(bits.len(), 24);
    assert_eq!(bits.transfer_expand(vec![9, 9, 9, 9]), Ok(()));
    assert_eq!(bits.len(), 32);
    assert_eq!(bits.set_bit(3, true), Err(QuantumError::IndexOutOfRange));
}
