use quantum_kernel::error::FsError;
use quantum_kernel::fat::cluster_of_offset;
use quantum_kernel::fat::FatEntry;

#[test]
fn test() {
    assert!(true, "True Should Be True!");
}

#[test]
fn fat16_entries_have_their_meaning() {
    assert_eq!(FatEntry::from_fat16(0), FatEntry::Free);
    assert_eq!(FatEntry::from_fat16(1), FatEntry::Reserved);
    assert_eq!(FatEntry::from_fat16(2), FatEntry::Next(2));
    assert_eq!(FatEntry::from_fat16(0xfff4), FatEntry::Next(0xfff4));
    assert_eq!(FatEntry::from_fat16(0xfff5), FatEntry::Reserved);
    assert_eq!(FatEntry::from_fat16(0xfff6), FatEntry::Reserved);
    assert_eq!(FatEntry::from_fat16(0xfff7), FatEntry::Defective);
    assert_eq!(FatEntry::from_fat16(0xffff), FatEntry::EOF);
}

#[test]
fn fat32_entries_have_their_meaning() {
    assert_eq!(FatEntry::from_fat32(0), FatEntry::Free);
    assert_eq!(FatEntry::from_fat32(1), FatEntry::Reserved);
    assert_eq!(FatEntry::from_fat32(0xffffff4), FatEntry::Next(0xffffff4));
    assert_eq!(FatEntry::from_fat32(0xffffff6), FatEntry::Reserved);
    assert_eq!(FatEntry::from_fat32(0xffffff7), FatEntry::Defective);
    assert_eq!(FatEntry::from_fat32(u32::MAX), FatEntry::EOF);
}

#[test]
fn chain_is_followed_to_the_offset() {
    let table = vec![
        FatEntry::Reserved,
        FatEntry::Reserved,
        FatEntry::Next(5),
        FatEntry::Free,
        FatEntry::EOF,
        FatEntry::Next(4),
    ];
    assert_eq!(cluster_of_offset(&table, 2, 0, 1024), Ok((2, 0)));
    assert_eq!(cluster_of_offset(&table, 2, 1023, 1024), Ok((2, 1023)));
    assert_eq!(cluster_of_offset(&table, 2, 1024, 1024), Ok((5, 0)));
    assert_eq!(cluster_of_offset(&table, 2, 2050, 1024), Ok((4, 2)));
    assert_eq!(cluster_of_offset(&table, 2, 3072, 1024), Err(FsError::EndOfFile));
    assert_eq!(cluster_of_offset(&table, 3, 1024, 1024), Err(FsError::ReadError));
    assert_eq!(cluster_of_offset(&table, 9, 1024, 1024), Err(FsError::InvalidInput));
}
