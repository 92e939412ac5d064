use quantum_kernel::ata::Device;
use quantum_kernel::ata_disk::poll;
use quantum_kernel::ata_disk::seek_sector;
use quantum_kernel::ata_disk::wait_for_disk;
use quantum_kernel::ata_disk::AtaDisk;
use quantum_kernel::ata_disk::AtaError;
use quantum_kernel::ata_disk::Poll;
use quantum_kernel::ata_disk::QuarryAction;
use quantum_kernel::ata_disk::QuarryEvent;
use quantum_kernel::ata_disk::UnknownState;

const BUSY: u8 = 0x80;
const READY: u8 = 0x40;
const FAULT: u8 = 0x20;
const ERROR: u8 = 0x01;

/// Takes a disk up to the point where its status is polled.
fn asked() -> AtaDisk<UnknownState> {
    let mut disk = AtaDisk::new(Device::SecondaryFirst);
    assert_eq!(disk.quarry_step(QuarryEvent::Done), QuarryAction::SwitchDisk);
    assert_eq!(disk.quarry_step(QuarryEvent::Done), QuarryAction::Delay);
    assert_eq!(disk.quarry_step(QuarryEvent::Done), QuarryAction::ZeroSectorRegisters);
    assert_eq!(disk.quarry_step(QuarryEvent::Done), QuarryAction::SendIdentify);
    assert_eq!(disk.quarry_step(QuarryEvent::Done), QuarryAction::Delay);
    assert_eq!(disk.quarry_step(QuarryEvent::Done), QuarryAction::ReadBusFloating);
    assert_eq!(disk.quarry_step(QuarryEvent::Flag(false)), QuarryAction::ReadRegistersZeroed);
    assert_eq!(disk.quarry_step(QuarryEvent::Flag(true)), QuarryAction::ReadStatus);
    disk
}

#[test]
fn status_is_read_error_first() {
    assert_eq!(poll(ERROR | FAULT | READY), Poll::Error);
    assert_eq!(poll(FAULT | READY), Poll::Fault);
    assert_eq!(poll(BUSY), Poll::Again);
    assert_eq!(poll(BUSY | READY), Poll::Settled);
    assert_eq!(poll(0), Poll::Settled);
    assert_eq!(wait_for_disk(BUSY), None);
    assert_eq!(wait_for_disk(READY), Some(Ok(())));
    assert_eq!(wait_for_disk(ERROR), Some(Err(AtaError::DriveError)));
    assert_eq!(wait_for_disk(BUSY | FAULT), Some(Err(AtaError::DriveFault)));
}

#[test]
fn sector_bits() {
    assert_eq!(seek_sector(0x0abc_def0), (0x0a, 0x0a));
    assert_eq!(seek_sector(0xf000_0000), (0, 0));
    assert_eq!(seek_sector(0x1f00_0000), (0xf, 0xf));
}

#[test]
fn a_disk_that_answers_is_known() {
    let mut disk = asked();
    assert_eq!(disk.quarry_step(QuarryEvent::Status(BUSY)), QuarryAction::ReadStatus);
    assert_eq!(disk.quarry_step(QuarryEvent::Status(BUSY)), QuarryAction::ReadStatus);
    assert_eq!(disk.quarry_step(QuarryEvent::Status(READY)), QuarryAction::ReadStatus);
    assert_eq!(disk.quarry_step(QuarryEvent::Status(READY)), QuarryAction::ReadData);
    for word in 0..255u16 {
        assert_eq!(disk.quarry_step(QuarryEvent::Data(word | 0xab00)), QuarryAction::ReadData);
    }
    assert_eq!(disk.quarry_step(QuarryEvent::Data(0x1234)), QuarryAction::Finish(Ok(())));
    assert_eq!(disk.disk_id(), Device::SecondaryFirst);
    let known = disk.quarry().expect("the disk has answered");
    assert_eq!(known.identify_data().len(), 512);
    assert_eq!(&known.identify_data()[..4], &[0, 0xab, 1, 0xab]);
    assert_eq!(&known.identify_data()[510..], &[0x34, 0x12]);
}

#[test]
fn a_floating_bus_has_no_disk() {
    let mut disk = AtaDisk::new(Device::PrimaryFirst);
    for _ in 0..6 {
        disk.quarry_step(QuarryEvent::Done);
    }
    assert_eq!(disk.quarry_step(QuarryEvent::Flag(true)), QuarryAction::Finish(Err(AtaError::NotFound)));
    assert!(disk.quarry().is_none());
}

#[test]
fn an_atapi_device_is_not_supported() {
    let mut disk = AtaDisk::new(Device::PrimaryFirst);
    for _ in 0..6 {
        disk.quarry_step(QuarryEvent::Done);
    }
    assert_eq!(disk.quarry_step(QuarryEvent::Flag(false)), QuarryAction::ReadRegistersZeroed);
    assert_eq!(disk.quarry_step(QuarryEvent::Flag(false)), QuarryAction::Finish(Err(AtaError::Unsupported)));
}

#[test]
fn a_disk_in_trouble_is_given_up() {
    let mut disk = asked();
    assert_eq!(disk.quarry_step(QuarryEvent::Status(BUSY | ERROR)), QuarryAction::Finish(Err(AtaError::BrokenPipe)));
    let mut disk = asked();
    assert_eq!(disk.quarry_step(QuarryEvent::Status(FAULT)), QuarryAction::Finish(Err(AtaError::BrokenPipe)));
    let mut disk = asked();
    assert_eq!(disk.quarry_step(QuarryEvent::Status(0)), QuarryAction::ReadStatus);
    assert_eq!(disk.quarry_step(QuarryEvent::Status(0)), QuarryAction::Finish(Err(AtaError::TimedOut)));
    let mut disk = asked();
    assert_eq!(disk.quarry_step(QuarryEvent::Data(7)), QuarryAction::Finish(Err(AtaError::BrokenPipe)));
    assert_eq!(disk.quarry_step(QuarryEvent::Done), QuarryAction::Finish(Err(AtaError::BrokenPipe)));
    assert!(disk.quarry().is_none());
}
