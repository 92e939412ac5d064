//! Getting to know an ATA disk.
//!
//! Asking a disk who it is takes a fixed run of commands and, in between,
//! decisions on what the disk answers. The decisions stand here: a machine
//! that is told what the bus said and says what to do to the bus next.

use crate::ata::byte_bit;
use crate::ata::Device;
use core::marker::PhantomData;
use vstd::prelude::*;

verus! {

/// The number of 16-bit words in the answer to an identify command.
pub const IDENTIFY_WORDS: usize = 256;

/// Why a disk could not be used.
#[derive(Debug, Clone, Copy, PartialEq, Eq, Structural)]
pub enum AtaError {
    /// The bus floats: no disk is there.
    NotFound,
    /// The device is an ATAPI device, not an ATA disk.
    Unsupported,
    /// The disk reports an error or a fault.
    BrokenPipe,
    /// The disk did not become ready.
    TimedOut,
    /// The disk reports an error in the middle of its work.
    DriveError,
    /// The disk reports a fault in the middle of its work.
    DriveFault,
}

/// What a status byte asks of whoever waits for the disk.
#[derive(Debug, Clone, Copy, PartialEq, Eq, Structural)]
pub enum Poll {
    /// The disk is busy still: ask again.
    Again,
    /// The disk is no longer busy, or ready: go on.
    Settled,
    /// The disk reports an error.
    Error,
    /// The disk reports a fault.
    Fault,
}

/// The reading of a status byte: an error (bit 0) counts before a fault
/// (bit 5), and both before anything else; a disk that is not busy (bit 7)
/// or is ready (bit 6) has settled.
pub open spec fn poll_spec(status: u8) -> Poll {
    if byte_bit(status, 0) {
        Poll::Error
    } else if byte_bit(status, 5) {
        Poll::Fault
    } else if !byte_bit(status, 7) || byte_bit(status, 6) {
        Poll::Settled
    } else {
        Poll::Again
    }
}

pub fn poll(status: u8) -> (r: Poll)
    ensures
        r == poll_spec(status),
{
    if status & (1u8 << 0u8) != 0 {
        Poll::Error
    } else if status & (1u8 << 5u8) != 0 {
        Poll::Fault
    } else if status & (1u8 << 7u8) == 0 || status & (1u8 << 6u8) != 0 {
        Poll::Settled
    } else {
        Poll::Again
    }
}

/// What waiting for a disk in the middle of its work comes to, given the
/// status byte: nothing yet, success, or an error.
pub fn wait_for_disk(status: u8) -> (r: Option<Result<(), AtaError>>)
    ensures
        r == match poll_spec(status) {
            Poll::Again => None::<Result<(), AtaError>>,
            Poll::Settled => Some(Ok::<(), AtaError>(())),
            Poll::Error => Some(Err::<(), AtaError>(AtaError::DriveError)),
            Poll::Fault => Some(Err::<(), AtaError>(AtaError::DriveFault)),
        },
{
    match poll(status) {
        Poll::Again => None,
        Poll::Settled => Some(Ok(())),
        Poll::Error => Some(Err(AtaError::DriveError)),
        Poll::Fault => Some(Err(AtaError::DriveFault)),
    }
}

/// What goes into the drive and head register and into the three sector
/// registers to address sector `sector`: bits 24 to 27 of the sector
/// number, and those same four bits once more.
pub fn seek_sector(sector: u64) -> (r: (u8, u32))
    ensures
        r.0 == (sector >> 24) & 0xf,
        r.1 == (sector >> 24) & 0xf,
{
    let small_bits: u8 = ((sector >> 24) & 0xf) as u8;
    assert((sector >> 24) & 0xf <= 0xf) by (bit_vector);
    assert((small_bits as u32) & 0xFFFFFF == small_bits as u32) by (bit_vector);
    (small_bits, (small_bits as u32) & 0xFFFFFF)
}

/// How far the questioning of a disk has come.
#[derive(Debug, Clone, Copy, PartialEq, Eq, Structural)]
pub enum QuarryStage {
    Start,
    Switched,
    SettledAfterSwitch,
    Zeroed,
    Asked,
    SettledAfterAsking,
    BusChecked,
    Polling,
    LastCheck,
    Reading,
    Finished,
}

/// What the bus says.
#[derive(Debug, Clone, Copy, PartialEq, Eq, Structural)]
pub enum QuarryEvent {
    /// The last thing asked for has been done.
    Done,
    /// The answer to a question that has a yes or a no.
    Flag(bool),
    /// The status byte.
    Status(u8),
    /// One word of the disk's answer.
    Data(u16),
}

/// What to do to the bus next.
#[derive(Debug, Clone, Copy, PartialEq, Eq)]
pub enum QuarryAction {
    /// Select the disk.
    SwitchDisk,
    /// Give the bus 400 ns to settle.
    Delay,
    /// Write zero to every sector register.
    ZeroSectorRegisters,
    /// Send the identify command.
    SendIdentify,
    /// Say whether the bus floats.
    ReadBusFloating,
    /// Say whether the sector registers are zero still.
    ReadRegistersZeroed,
    /// Read the status byte.
    ReadStatus,
    /// Read one word of data.
    ReadData,
    /// Nothing more: the questioning has ended.
    Finish(Result<(), AtaError>),
}

/// The stage after `stage` and what to do on the way, given what the bus
/// said and how many words of the answer have come in. An event that the
/// stage does not expect ends the questioning as if the disk had failed.
pub open spec fn quarry_next(stage: QuarryStage, event: QuarryEvent, words: nat) -> (
    QuarryStage,
    QuarryAction,
) {
    match (stage, event) {
        (QuarryStage::Start, QuarryEvent::Done) => (QuarryStage::Switched, QuarryAction::SwitchDisk),
        (QuarryStage::Switched, QuarryEvent::Done) => (
            QuarryStage::SettledAfterSwitch,
            QuarryAction::Delay,
        ),
        (QuarryStage::SettledAfterSwitch, QuarryEvent::Done) => (
            QuarryStage::Zeroed,
            QuarryAction::ZeroSectorRegisters,
        ),
        (QuarryStage::Zeroed, QuarryEvent::Done) => (QuarryStage::Asked, QuarryAction::SendIdentify),
        (QuarryStage::Asked, QuarryEvent::Done) => (
            QuarryStage::SettledAfterAsking,
            QuarryAction::Delay,
        ),
        (QuarryStage::SettledAfterAsking, QuarryEvent::Done) => (
            QuarryStage::BusChecked,
            QuarryAction::ReadBusFloating,
        ),
        (QuarryStage::BusChecked, QuarryEvent::Flag(floating)) => if floating {
            (QuarryStage::Finished, QuarryAction::Finish(Err(AtaError::NotFound)))
        } else {
            (QuarryStage::Polling, QuarryAction::ReadRegistersZeroed)
        },
        (QuarryStage::Polling, QuarryEvent::Flag(zeroed)) => if zeroed {
            (QuarryStage::Polling, QuarryAction::ReadStatus)
        } else {
            (QuarryStage::Finished, QuarryAction::Finish(Err(AtaError::Unsupported)))
        },
        (QuarryStage::Polling, QuarryEvent::Status(status)) => match poll_spec(status) {
            Poll::Error => (QuarryStage::Finished, QuarryAction::Finish(Err(AtaError::BrokenPipe))),
            Poll::Fault => (QuarryStage::Finished, QuarryAction::Finish(Err(AtaError::BrokenPipe))),
            Poll::Settled => (QuarryStage::LastCheck, QuarryAction::ReadStatus),
            Poll::Again => (QuarryStage::Polling, QuarryAction::ReadStatus),
        },
        (QuarryStage::LastCheck, QuarryEvent::Status(status)) => if byte_bit(status, 6) {
            (QuarryStage::Reading, QuarryAction::ReadData)
        } else {
            (QuarryStage::Finished, QuarryAction::Finish(Err(AtaError::TimedOut)))
        },
        (QuarryStage::Reading, QuarryEvent::Data(word)) => if words + 1 < IDENTIFY_WORDS {
            (QuarryStage::Reading, QuarryAction::ReadData)
        } else {
            (QuarryStage::Finished, QuarryAction::Finish(Ok(())))
        },
        _ => (QuarryStage::Finished, QuarryAction::Finish(Err(AtaError::BrokenPipe))),
    }
}

/// A disk that nobody has asked who it is.
pub struct UnknownState {}

/// A disk that has said who it is.
pub struct Quarried {}

pub struct AtaDisk<Any> {
    disk_id: Device,
    seek: u64,
    stage: QuarryStage,
    identify: Vec<u8>,
    phan: PhantomData<Any>,
}

impl<Any> AtaDisk<Any> {
    pub closed spec fn device(&self) -> Device {
        self.disk_id
    }

    pub closed spec fn position(&self) -> u64 {
        self.seek
    }

    pub closed spec fn stage(&self) -> QuarryStage {
        self.stage
    }

    /// The bytes of the disk's answer that have come in, low byte of each
    /// word first.
    pub closed spec fn identify(&self) -> Seq<u8> {
        self.identify@
    }

    /// The disk that is spoken to.
    pub fn disk_id(&self) -> (r: Device)
        ensures
            r == self.device(),
    {
        self.disk_id
    }
}

impl AtaDisk<UnknownState> {
    /// A disk of which nothing is known yet.
    pub fn new(disk: Device) -> (r: Self)
        ensures
            r.device() == disk,
            r.position() == 0,
            r.stage() == QuarryStage::Start,
            r.identify().len() == 0,
    {
        Self { disk_id: disk, seek: 0, stage: QuarryStage::Start, identify: Vec::new(), phan: PhantomData }
    }

    /// Whether the words that have come in are no more than an answer
    /// holds.
    pub open spec fn wf(&self) -> bool {
        self.identify().len() % 2 == 0 && self.identify().len() / 2 < IDENTIFY_WORDS
    }

    /// Takes the questioning one step further: given what the bus said,
    /// says what to do next. A word of data is kept, low byte first.
    pub fn quarry_step(&mut self, event: QuarryEvent) -> (r: QuarryAction)
        requires
            old(self).wf(),
        ensures
            final(self).device() == old(self).device(),
            final(self).position() == old(self).position(),
            (final(self).stage(), r) == quarry_next(
                old(self).stage(),
                event,
                old(self).identify().len() / 2,
            ),
            final(self).identify() == if old(self).stage() == QuarryStage::Reading
                && event is Data {
                old(self).identify().push((event->Data_0 & 0xFF) as u8).push(
                    ((event->Data_0 >> 8) & 0xFF) as u8,
                )
            } else {
                old(self).identify()
            },
            r != QuarryAction::Finish(Ok(())) ==> final(self).wf(),
    {
        let (stage, action) = match (self.stage, event) {
            (QuarryStage::Start, QuarryEvent::Done) => (QuarryStage::Switched, QuarryAction::SwitchDisk),
            (QuarryStage::Switched, QuarryEvent::Done) => (
                QuarryStage::SettledAfterSwitch,
                QuarryAction::Delay,
            ),
            (QuarryStage::SettledAfterSwitch, QuarryEvent::Done) => (
                QuarryStage::Zeroed,
                QuarryAction::ZeroSectorRegisters,
            ),
            (QuarryStage::Zeroed, QuarryEvent::Done) => (QuarryStage::Asked, QuarryAction::SendIdentify),
            (QuarryStage::Asked, QuarryEvent::Done) => (
                QuarryStage::SettledAfterAsking,
                QuarryAction::Delay,
            ),
            (QuarryStage::SettledAfterAsking, QuarryEvent::Done) => (
                QuarryStage::BusChecked,
                QuarryAction::ReadBusFloating,
            ),
            (QuarryStage::BusChecked, QuarryEvent::Flag(floating)) => {
                if floating {
                    (QuarryStage::Finished, QuarryAction::Finish(Err(AtaError::NotFound)))
                } else {
                    (QuarryStage::Polling, QuarryAction::ReadRegistersZeroed)
                }
            },
            (QuarryStage::Polling, QuarryEvent::Flag(zeroed)) => {
                if zeroed {
                    (QuarryStage::Polling, QuarryAction::ReadStatus)
                } else {
                    (QuarryStage::Finished, QuarryAction::Finish(Err(AtaError::Unsupported)))
                }
            },
            (QuarryStage::Polling, QuarryEvent::Status(status)) => {
                match poll(status) {
                    Poll::Error => (
                        QuarryStage::Finished,
                        QuarryAction::Finish(Err(AtaError::BrokenPipe)),
                    ),
                    Poll::Fault => (
                        QuarryStage::Finished,
                        QuarryAction::Finish(Err(AtaError::BrokenPipe)),
                    ),
                    Poll::Settled => (QuarryStage::LastCheck, QuarryAction::ReadStatus),
                    Poll::Again => (QuarryStage::Polling, QuarryAction::ReadStatus),
                }
            },
            (QuarryStage::LastCheck, QuarryEvent::Status(status)) => {
                if status & (1u8 << 6u8) != 0 {
                    (QuarryStage::Reading, QuarryAction::ReadData)
                } else {
                    (QuarryStage::Finished, QuarryAction::Finish(Err(AtaError::TimedOut)))
                }
            },
            (QuarryStage::Reading, QuarryEvent::Data(word)) => {
                let words: usize = self.identify.len() / 2;
                assert((word & 0xFF) <= 0xff && ((word >> 8) & 0xFF) <= 0xff) by (bit_vector);
                self.identify.push((word & 0xFF) as u8);
                self.identify.push(((word >> 8) & 0xFF) as u8);
                if words + 1 < IDENTIFY_WORDS {
                    (QuarryStage::Reading, QuarryAction::ReadData)
                } else {
                    (QuarryStage::Finished, QuarryAction::Finish(Ok(())))
                }
            },
            _ => (QuarryStage::Finished, QuarryAction::Finish(Err(AtaError::BrokenPipe))),
        };
        self.stage = stage;
        action
    }

    /// The disk that has said who it is, once the questioning has ended
    /// well; nothing otherwise.
    pub fn quarry(self) -> (r: Option<AtaDisk<Quarried>>)
        ensures
            self.stage() == QuarryStage::Finished && self.identify().len() == 2 * IDENTIFY_WORDS
                ==> r is Some && r->Some_0.device() == self.device() && r->Some_0.position() == 0
                && r->Some_0.identify() == self.identify(),
            !(self.stage() == QuarryStage::Finished && self.identify().len() == 2
                * IDENTIFY_WORDS) ==> r is None,
    {
        if self.stage == QuarryStage::Finished && self.identify.len() == 2 * IDENTIFY_WORDS {
            Some(
                AtaDisk {
                    disk_id: self.disk_id,
                    seek: 0,
                    stage: QuarryStage::Finished,
                    identify: self.identify,
                    phan: PhantomData,
                },
            )
        } else {
            None
        }
    }
}

impl AtaDisk<Quarried> {
    /// The answer of the disk to the identify command.
    pub fn identify_data(&self) -> (r: &[u8])
        ensures
            r@ == self.identify(),
    {
        self.identify.as_slice()
    }
}

} // verus!
