use quantum_kernel::ata::CommandRegister;
use quantum_kernel::ata::Device;
use quantum_kernel::ata::DriveHeadRegister;
use quantum_kernel::ata::ErrorFlags;
use quantum_kernel::ata::ErrorRegister;
use quantum_kernel::ata::StatusFlags;
use quantum_kernel::ata::StatusRegister;
use quantum_kernel::bios::BiosInt;
use quantum_kernel::bios::BiosIntStatus;
use quantum_kernel::bios::TextModeColor;
use quantum_kernel::cpu::CpuPrivilege;
use quantum_kernel::gfx::DrawPacket;
use quantum_kernel::gfx::Rect;
use quantum_kernel::idt::EntryOptions;
use quantum_kernel::sizes::GigaBytes;
use quantum_kernel::stream::StreamConnection;
use quantum_kernel::stream::StreamConnectionBuilder;
use quantum_kernel::stream::StreamConnectionInformation;
use std::cell::Cell;

#[test]
fn devices_and_their_ports() {
    assert_eq!(Device::PrimaryFirst.bus_base(), 0x1F0);
    assert_eq!(Device::PrimarySecond.bus_base(), 0x1F0);
    assert_eq!(Device::SecondaryFirst.bus_base(), 0x170);
    assert_eq!(Device::SecondarySecond.control_base(), 0x376);
    assert_eq!(Device::PrimaryFirst.control_base(), 0x3F6);
    assert!(Device::SecondaryFirst.is_first());
    assert!(Device::PrimarySecond.is_second());
    assert!(!Device::PrimarySecond.is_first());
    assert_eq!(StatusRegister::my_port(Device::PrimaryFirst), 0x1F7);
    assert_eq!(ErrorRegister::my_port(Device::SecondaryFirst), 0x171);
    assert_eq!(DriveHeadRegister::my_port(Device::SecondarySecond), 0x176);
    assert_eq!(CommandRegister::ATA_IDENTIFY, 0xEC);
    CommandRegister::preform_identify(Device::PrimaryFirst);
}

#[test]
fn status_bits() {
    assert!(StatusRegister::is_status(0x80, StatusFlags::Busy));
    assert!(StatusRegister::is_status(0x40, StatusFlags::SRV));
    assert!(StatusRegister::is_status(0x20, StatusFlags::DriveFault));
    assert!(StatusRegister::is_status(0x10, StatusFlags::SpinDown));
    assert!(StatusRegister::is_status(0x08, StatusFlags::DRQ));
    assert!(StatusRegister::is_status(0x04, StatusFlags::CorrectedData));
    assert!(StatusRegister::is_status(0x02, StatusFlags::Idx));
    assert!(StatusRegister::is_status(0x01, StatusFlags::Error));
    assert!(!StatusRegister::is_status(0x7f, StatusFlags::Busy));
}

#[test]
fn error_bits() {
    assert!(!ErrorRegister::any_error(0));
    assert!(ErrorRegister::any_error(4));
    assert!(ErrorRegister::is_error(4, ErrorFlags::AbortedCommand));
    assert!(!ErrorRegister::is_error(4, ErrorFlags::IDNotFound));
    assert!(!ErrorRegister::is_error(0, ErrorFlags::AddressMarkNotFound));
    assert!(ErrorRegister::is_error(0x80, ErrorFlags::BadBlockDetected));
    assert!(ErrorRegister::is_error(0xff, ErrorFlags::TrackZeroNotFound));
}

#[test]
fn drive_selection() {
    assert!(DriveHeadRegister::is_using_chs(0xa0));
    assert!(DriveHeadRegister::is_using_lba(0xe0));
    assert_eq!(DriveHeadRegister::select_drive(0xa0, Device::PrimarySecond), 0xb0);
    assert_eq!(DriveHeadRegister::select_drive(0xb0, Device::PrimaryFirst), 0xa0);
    assert_eq!(DriveHeadRegister::select_drive(0xff, Device::SecondaryFirst), 0xef);
}

#[test]
fn entry_options() {
    assert_eq!(EntryOptions::new_minimal().bits(), 0xE00);
    assert_eq!(EntryOptions::new().bits(), 0x8E00);
    assert_ne!(EntryOptions::new().set_present_flag(false).bits(), EntryOptions::new().bits());
    assert_ne!(EntryOptions::new().bits(), EntryOptions::new_minimal().bits());
    assert_eq!(EntryOptions::new().set_present_flag(false).bits(), 0x0E00);
    assert_eq!(EntryOptions::new().enable_int(true).bits(), 0x8F00);
    assert_eq!(EntryOptions::new().set_cpu_prv(CpuPrivilege::Ring3).bits(), 0xEE00);
    assert_eq!(EntryOptions::new().set_cpu_prv(CpuPrivilege::Ring3).set_cpu_prv(CpuPrivilege::Ring1).bits(), 0xAE00);
    assert_eq!(EntryOptions::new().set_stack_index(5).bits(), 0x8E05);
    assert_eq!(EntryOptions::new().set_stack_index(5).set_stack_index(2).bits(), 0x8E02);
    assert_eq!(CpuPrivilege::Ring2.into(), 2);
}

#[test]
fn character_request() {
    let request = BiosInt::write_character(b'Q', 1, TextModeColor::Blue, TextModeColor::White);
    assert_eq!(request.interrupt_number, 0x10);
    assert_eq!(request.command, 0x0E);
    assert_eq!(request.flags.al, b'Q');
    assert_eq!(request.flags.bh, 1);
    assert_eq!(request.flags.bl, 0x1f);
    assert_eq!(request.flags.cx, 1);
    assert!(request.is_dispatchable());
    assert_eq!(TextModeColor::Yellow.code(), 0b1110);
}

#[test]
fn outcome_of_a_request() {
    let request = BiosInt::write_character(b'Q', 0, TextModeColor::Black, TextModeColor::White);
    assert_eq!(request.execute_interrupt(0, false), BiosIntStatus::SuccessfulCommand);
    assert_eq!(request.execute_interrupt(0x80, false), BiosIntStatus::InvalidCommand);
    assert_eq!(request.execute_interrupt(0x86, false), BiosIntStatus::UnsupportedFunction);
    assert_eq!(request.execute_interrupt(0, true), BiosIntStatus::CommandFailed);
    assert_eq!(request.execute_interrupt(0x80, true), BiosIntStatus::CommandFailed);
    let mut unknown = request;
    unknown.interrupt_number = 0x13;
    assert!(!unknown.is_dispatchable());
    assert_eq!(unknown.execute_interrupt(0x80, false), BiosIntStatus::SuccessfulCommand);
    assert_eq!(unknown.execute_interrupt(0x80, true), BiosIntStatus::CommandFailed);
}

#[test]
fn status_runs_the_handler_on_failure_only() {
    let calls = Cell::new(0);
    BiosIntStatus::SuccessfulCommand.run_on_fail(|| calls.set(calls.get() + 1));
    assert_eq!(calls.get(), 0);
    BiosIntStatus::CommandFailed.run_on_fail(|| calls.set(calls.get() + 1));
    BiosIntStatus::InvalidCommand.run_on_fail(|| calls.set(calls.get() + 1));
    assert_eq!(calls.get(), 2);
    assert!(BiosIntStatus::SuccessfulCommand.did_succeed());
    assert!(BiosIntStatus::UnsupportedFunction.did_fail());
    assert!(!BiosIntStatus::SuccessfulCommand.did_fail());
    BiosIntStatus::SuccessfulCommand.panic_on_fail();
}

#[test]
fn stream_builder_carries_what_it_is_given() {
    fn sink(_: &str) {}
    let connection = StreamConnectionBuilder::<_, u32, fn(&str)>::new()
        .console_connection()
        .add_outlet(7)
        .add_simple_outlet(sink)
        .add_connection_name("VGA DEBUG")
        .add_who_using("Stage2")
        .add_max_chars(80, 25)
        .add_max_data_rate(9600)
        .does_support_scrolling(false)
        .prevent_welcome_message(true)
        .build();
    assert_eq!(connection.info.connection_name, "VGA DEBUG");
    assert_eq!(connection.info.who_using, "Stage2");
    assert_eq!(connection.info.max_chars, Some((80, 25)));
    assert_eq!(connection.info.data_rate, Some(9600));
    assert!(!connection.info.does_support_scrolling);
    assert!(connection.ignore_welcome);
    assert_eq!(connection.outlet, Some(7));
    assert!(connection.simple_outlet.is_some());
}

#[test]
fn stream_defaults() {
    let info = StreamConnectionInformation::new();
    assert_eq!(info.connection_name, "Unknown");
    assert_eq!(info.who_using, "Unknown");
    assert_eq!(info.max_chars, None);
    assert_eq!(info.data_rate, None);
    assert!(info.does_support_scrolling);
    let connection = StreamConnection::<u8, u8>::default();
    assert!(connection.outlet.is_none());
    assert!(connection.simple_outlet.is_none());
    assert!(!connection.ignore_welcome);
    let built = StreamConnectionBuilder::<_, u8, u8>::new().console_connection().build();
    assert!(built.outlet.is_none());
    assert_eq!(built.info.connection_name, "Unknown");
}

#[test]
fn packet_needs_a_pixel_for_every_place() {
    let rect = Rect { x: 3, y: 4, width: 4, height: 2 };
    let pixels = [0u32; 8];
    assert_eq!(rect.pixel_area(), Some(8));
    assert!(DrawPacket::new_packet(rect, &pixels).is_some());
    assert!(DrawPacket::new_packet(rect, &pixels[..7]).is_none());
    let packet = DrawPacket::new_packet(rect, &[1u32; 9]).unwrap();
    assert_eq!(packet.rect, rect);
    assert_eq!(packet.raw_data.len(), 9);
    let huge = Rect { x: 0, y: 0, width: usize::MAX, height: 2 };
    assert_eq!(huge.pixel_area(), None);
    assert!(DrawPacket::new_packet(huge, &pixels).is_none());
}

#[test]
fn gigabytes_keep_their_number() {
    assert_eq!(GigaBytes::new(5).0, 5);
}
