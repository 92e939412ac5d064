//! The registers of an ATA bus, as far as their values can be read without
//! touching the bus: which port belongs to which device, and what the bits
//! of a value that was read from a port mean.

use vstd::prelude::*;

verus! {

pub const PRIMARY_BUS_IO_BASE: usize = 0x1F0;

pub const SECONDARY_BUS_IO_BASE: usize = 0x170;

pub const PRIMARY_BUS_CONTROL_BASE: usize = 0x3F6;

pub const SECONDARY_BUS_CONTROL_BASE: usize = 0x376;

/// Data register: read and write PIO data.
pub const DATA_REGISTER_OFFSET_FROM_IO_BASE: usize = 0;

/// Error register: the error of the last command.
pub const ERROR_REGISTER_OFFSET_FROM_IO_BASE: usize = 1;

/// Features register: command-specific features.
pub const FEATURES_REGISTER_OFFSET_FROM_IO_BASE: usize = 1;

/// Sector count register.
pub const SECTOR_COUNT_OFFSET_FROM_IO_BASE: usize = 2;

/// Sector number register, or the low byte of the block address.
pub const SECTOR_NUM_LOW_OFFSET_FROM_IO_BASE: usize = 3;

/// Cylinder low register, or the middle byte of the block address.
pub const SECTOR_NUM_MID_OFFSET_FROM_IO_BASE: usize = 4;

/// Cylinder high register, or the high byte of the block address.
pub const SECTOR_NUM_HIGH_OFFSET_FROM_IO_BASE: usize = 5;

/// Drive and head register.
pub const DRIVE_HEAD_OFFSET_FROM_IO_BASE: usize = 6;

/// Status register.
pub const STATUS_REGISTER_OFFSET_FROM_IO_BASE: usize = 7;

/// Command register.
pub const COMMAND_OFFSET_FROM_IO_BASE: usize = 7;

/// Alternate status register, which leaves interrupts alone.
pub const ALTERNATE_STATUS_REGISTER_OFFSET_FROM_CONTROL_BASE: usize = 0;

/// Device control register.
pub const DEVICE_CONTROL_REGISTER_OFFSET_FROM_CONTROL_BASE: usize = 0;

/// Drive address register.
pub const DRIVE_ADDRESS_REGISTER_OFFSET_FROM_CONTROL_BASE: usize = 1;

/// The four devices that two buses can hold.
#[derive(Clone, Copy, Debug, PartialEq, Eq, Structural)]
pub enum Device {
    PrimaryFirst,
    PrimarySecond,
    SecondaryFirst,
    SecondarySecond,
}

impl Device {
    /// Whether the device sits on the primary bus.
    pub open spec fn on_primary(self) -> bool {
        self == Device::PrimaryFirst || self == Device::PrimarySecond
    }

    /// Whether the device is the first on its bus.
    pub open spec fn first(self) -> bool {
        self == Device::PrimaryFirst || self == Device::SecondaryFirst
    }

    /// The first I/O port of the device's bus.
    pub fn bus_base(&self) -> (r: usize)
        ensures
            r == if self.on_primary() {
                PRIMARY_BUS_IO_BASE
            } else {
                SECONDARY_BUS_IO_BASE
            },
    {
        match self {
            Device::PrimaryFirst => PRIMARY_BUS_IO_BASE,
            Device::PrimarySecond => PRIMARY_BUS_IO_BASE,
            Device::SecondaryFirst => SECONDARY_BUS_IO_BASE,
            Device::SecondarySecond => SECONDARY_BUS_IO_BASE,
        }
    }

    /// The first control port of the device's bus.
    pub fn control_base(&self) -> (r: usize)
        ensures
            r == if self.on_primary() {
                PRIMARY_BUS_CONTROL_BASE
            } else {
                SECONDARY_BUS_CONTROL_BASE
            },
    {
        match self {
            Device::PrimaryFirst => PRIMARY_BUS_CONTROL_BASE,
            Device::PrimarySecond => PRIMARY_BUS_CONTROL_BASE,
            Device::SecondaryFirst => SECONDARY_BUS_CONTROL_BASE,
            Device::SecondarySecond => SECONDARY_BUS_CONTROL_BASE,
        }
    }

    pub fn is_first(&self) -> (r: bool)
        ensures
            r == self.first(),
    {
        match self {
            Device::PrimaryFirst => true,
            Device::PrimarySecond => false,
            Device::SecondaryFirst => true,
            Device::SecondarySecond => false,
        }
    }

    pub fn is_second(&self) -> (r: bool)
        ensures
            r == !self.first(),
    {
        !self.is_first()
    }
}

/// The flags of the status register.
#[derive(Clone, Copy, Debug, PartialEq, Eq, Structural)]
pub enum StatusFlags {
    /// An error occurred.
    Error,
    /// Index. Always zero.
    Idx,
    /// Corrected data. Always zero.
    CorrectedData,
    /// The drive has data to transfer, or is ready to accept data.
    DRQ,
    /// Overlapped mode service request.
    SRV,
    /// Drive fault, which does not set `Err`.
    DriveFault,
    /// Clear while the drive is spun down, or after an error.
    SpinDown,
    /// The drive is preparing to send or receive data.
    Busy,
}

/// Whether bit `bit` of the byte `value` is one.
pub open spec fn byte_bit(value: u8, bit: u8) -> bool {
    value & (1u8 << bit) != 0
}

fn test_bit(value: u8, bit: u8) -> (r: bool)
    requires
        bit < 8,
    ensures
        r == byte_bit(value, bit),
{
    value & (1u8 << bit) != 0
}

pub struct StatusRegister {}

impl StatusRegister {
    /// The bit of the status byte that holds the given flag.
    pub open spec fn bit_of(status: StatusFlags) -> u8 {
        match status {
            StatusFlags::Error => 0,
            StatusFlags::Idx => 1,
            StatusFlags::CorrectedData => 2,
            StatusFlags::DRQ => 3,
            StatusFlags::SpinDown => 4,
            StatusFlags::DriveFault => 5,
            StatusFlags::SRV => 6,
            StatusFlags::Busy => 7,
        }
    }

    /// The port from which the status of the device is read.
    pub fn my_port(device: Device) -> (r: u16)
        ensures
            r == if device.on_primary() {
                0x1F7u16
            } else {
                0x177u16
            },
    {
        let device_io: usize = device.bus_base() + STATUS_REGISTER_OFFSET_FROM_IO_BASE;
        device_io as u16
    }

    /// Whether the status byte `read_value` has the given flag set.
    pub fn is_status(read_value: u8, status: StatusFlags) -> (r: bool)
        ensures
            r == byte_bit(read_value, Self::bit_of(status)),
    {
        let bit: u8 = match status {
            StatusFlags::Error => 0,
            StatusFlags::Idx => 1,
            StatusFlags::CorrectedData => 2,
            StatusFlags::DRQ => 3,
            StatusFlags::SRV => 6,
            StatusFlags::DriveFault => 5,
            StatusFlags::SpinDown => 4,
            StatusFlags::Busy => 7,
        };
        test_bit(read_value, bit)
    }
}

/// The flags of the error register.
#[derive(Clone, Copy, Debug, PartialEq, Eq, Structural)]
pub enum ErrorFlags {
    /// Bit 0: address mark not found.
    AddressMarkNotFound,
    /// Bit 1: track zero not found.
    TrackZeroNotFound,
    /// Bit 2: aborted command.
    AbortedCommand,
    /// Bit 3: media change request.
    MediaChangeRequest,
    /// Bit 4: ID not found.
    IDNotFound,
    /// Bit 5: media changed.
    MediaChanged,
    /// Bit 6: uncorrectable data error.
    UncorrectableDataError,
    /// Bit 7: bad block detected.
    BadBlockDetected,
}

pub struct ErrorRegister {}

impl ErrorRegister {
    /// The bit of the error byte that holds the given flag.
    pub open spec fn bit_of(error: ErrorFlags) -> u8 {
        match error {
            ErrorFlags::AddressMarkNotFound => 0,
            ErrorFlags::TrackZeroNotFound => 1,
            ErrorFlags::AbortedCommand => 2,
            ErrorFlags::MediaChangeRequest => 3,
            ErrorFlags::IDNotFound => 4,
            ErrorFlags::MediaChanged => 5,
            ErrorFlags::UncorrectableDataError => 6,
            ErrorFlags::BadBlockDetected => 7,
        }
    }

    /// The port from which the error of the device is read.
    pub fn my_port(device: Device) -> (r: u16)
        ensures
            r == if device.on_primary() {
                0x1F1u16
            } else {
                0x171u16
            },
    {
        let io_port: usize = device.bus_base() + ERROR_REGISTER_OFFSET_FROM_IO_BASE;
        io_port as u16
    }

    /// Whether the error byte `value` reports any error.
    pub fn any_error(value: u8) -> (r: bool)
        ensures
            r == (value > 0),
    {
        value > 0
    }

    /// Whether the error byte `value` reports the given error.
    pub fn is_error(value: u8, error: ErrorFlags) -> (r: bool)
        ensures
            r == byte_bit(value, Self::bit_of(error)),
    {
        if value == 0 {
            assert(forall|bit: u8| bit < 8 ==> 0u8 & (1u8 << bit) == 0) by (bit_vector);
            return false;
        }
        match error {
            ErrorFlags::AddressMarkNotFound => test_bit(value, 0),
            ErrorFlags::TrackZeroNotFound => test_bit(value, 1),
            ErrorFlags::AbortedCommand => test_bit(value, 2),
            ErrorFlags::MediaChangeRequest => test_bit(value, 3),
            ErrorFlags::IDNotFound => test_bit(value, 4),
            ErrorFlags::MediaChanged => test_bit(value, 5),
            ErrorFlags::UncorrectableDataError => test_bit(value, 6),
            ErrorFlags::BadBlockDetected => test_bit(value, 7),
        }
    }
}

pub struct DriveHeadRegister {}

impl DriveHeadRegister {
    /// The port of the drive and head register of the device.
    pub fn my_port(device: Device) -> (r: u16)
        ensures
            r == if device.on_primary() {
                0x1F6u16
            } else {
                0x176u16
            },
    {
        let io_port: usize = device.bus_base() + DRIVE_HEAD_OFFSET_FROM_IO_BASE;
        io_port as u16
    }

    /// Whether the register value says that the drive is addressed by
    /// cylinder, head and sector: bit 6 is clear.
    pub fn is_using_chs(value: u8) -> (r: bool)
        ensures
            r == !byte_bit(value, 6),
    {
        !test_bit(value, 6)
    }

    /// Whether the register value says that the drive is addressed by
    /// block: bit 6 is set.
    pub fn is_using_lba(value: u8) -> (r: bool)
        ensures
            r == byte_bit(value, 6),
    {
        !Self::is_using_chs(value)
    }

    /// The value to write to the register to select the device, given the
    /// value that was read from it: bit 4 names the second drive of a bus,
    /// and every other bit stays.
    pub fn select_drive(read: u8, device: Device) -> (r: u8)
        ensures
            r == if device.first() {
                read & !(1u8 << 4u8)
            } else {
                read | (1u8 << 4u8)
            },
            byte_bit(r, 4) == !device.first(),
            forall|bit: u8| bit < 8 && bit != 4 ==> byte_bit(r, bit) == byte_bit(read, bit),
    {
        let r: u8 = if device.is_second() {
            read | (1u8 << 4u8)
        } else {
            read & !(1u8 << 4u8)
        };
        assert((read | (1u8 << 4u8)) & (1u8 << 4u8) != 0) by (bit_vector);
        assert((read & !(1u8 << 4u8)) & (1u8 << 4u8) == 0) by (bit_vector);
        assert(forall|bit: u8|
            bit < 8 && bit != 4 ==> (read | (1u8 << 4u8)) & (1u8 << bit) == read & (1u8 << bit))
            by (bit_vector);
        assert(forall|bit: u8|
            bit < 8 && bit != 4 ==> (read & !(1u8 << 4u8)) & (1u8 << bit) == read & (1u8 << bit))
            by (bit_vector);
        r
    }
}

pub struct CommandRegister {}

impl CommandRegister {
    pub const ATA_CMD_READ_PIO: u8 = 0x20;

    pub const ATA_CMD_READ_PIO_EXT: u8 = 0x24;

    pub const ATA_CMD_READ_DMA: u8 = 0xC8;

    pub const ATA_CMD_READ_DMA_EXT: u8 = 0x25;

    pub const ATA_CMD_WRITE_PIO: u8 = 0x30;

    pub const ATA_CMD_WRITE_PIO_EXT: u8 = 0x34;

    pub const ATA_CMD_WRITE_DMA: u8 = 0xCA;

    pub const ATA_CMD_WRITE_DMA_EXT: u8 = 0x35;

    pub const ATA_CMD_CACHE_FLUSH: u8 = 0xE7;

    pub const ATA_CMD_CACHE_FLUSH_EXT: u8 = 0xEA;

    pub const ATA_CMD_PACKET: u8 = 0xA0;

    pub const ATA_IDENTIFY_PACKET: u8 = 0xA1;

    pub const ATA_IDENTIFY: u8 = 0xEC;

    /// Asks the device to identify itself. Nothing has to be decided for
    /// that: the command goes out as it is.
    pub fn preform_identify(device: Device) {
    }
}

} // verus!
