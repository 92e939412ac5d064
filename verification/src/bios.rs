//! Requests to the BIOS, and how their outcome is read.

use vstd::prelude::*;

verus! {

/// The sixteen colours of text mode.
#[derive(Copy, Clone, Debug, PartialEq, Eq, Structural)]
pub enum TextModeColor {
    Black,
    Blue,
    Green,
    Cyan,
    Red,
    Magenta,
    Brown,
    LightGrey,
    DarKGrey,
    LightBlue,
    LightGreen,
    LightCyan,
    LightRed,
    LightMagenta,
    Yellow,
    White,
}

impl TextModeColor {
    /// The four bits by which the hardware knows the colour.
    pub open spec fn code_spec(self) -> u8 {
        match self {
            TextModeColor::Black => 0,
            TextModeColor::Blue => 1,
            TextModeColor::Green => 2,
            TextModeColor::Cyan => 3,
            TextModeColor::Red => 4,
            TextModeColor::Magenta => 5,
            TextModeColor::Brown => 6,
            TextModeColor::LightGrey => 7,
            TextModeColor::DarKGrey => 8,
            TextModeColor::LightBlue => 9,
            TextModeColor::LightGreen => 10,
            TextModeColor::LightCyan => 11,
            TextModeColor::LightRed => 12,
            TextModeColor::LightMagenta => 13,
            TextModeColor::Yellow => 14,
            TextModeColor::White => 15,
        }
    }

    pub fn code(self) -> (r: u8)
        ensures
            r == self.code_spec(),
            r < 16,
    {
        match self {
            TextModeColor::Black => 0,
            TextModeColor::Blue => 1,
            TextModeColor::Green => 2,
            TextModeColor::Cyan => 3,
            TextModeColor::Red => 4,
            TextModeColor::Magenta => 5,
            TextModeColor::Brown => 6,
            TextModeColor::LightGrey => 7,
            TextModeColor::DarKGrey => 8,
            TextModeColor::LightBlue => 9,
            TextModeColor::LightGreen => 10,
            TextModeColor::LightCyan => 11,
            TextModeColor::LightRed => 12,
            TextModeColor::LightMagenta => 13,
            TextModeColor::Yellow => 14,
            TextModeColor::White => 15,
        }
    }
}

/// How a request to the BIOS ended.
#[derive(Copy, Clone, Debug, PartialEq, Eq, Structural)]
pub enum BiosIntStatus {
    UnsupportedFunction,
    InvalidCommand,
    CommandFailed,
    SuccessfulCommand,
}

impl BiosIntStatus {
    pub fn did_succeed(&self) -> (r: bool)
        ensures
            r == (*self == BiosIntStatus::SuccessfulCommand),
    {
        *self == BiosIntStatus::SuccessfulCommand
    }

    pub fn did_fail(&self) -> (r: bool)
        ensures
            r == (*self != BiosIntStatus::SuccessfulCommand),
    {
        *self != BiosIntStatus::SuccessfulCommand
    }

    /// Insists that the request succeeded.
    pub fn panic_on_fail(&self)
        requires
            *self == BiosIntStatus::SuccessfulCommand,
    {
    }

    /// Calls `runnable` if the request failed, and only then.
    pub fn run_on_fail<F: Fn()>(&self, runnable: F)
        requires
            *self != BiosIntStatus::SuccessfulCommand ==> runnable.requires(()),
        ensures
            *self != BiosIntStatus::SuccessfulCommand ==> runnable.ensures((), ()),
    {
        if self.did_succeed() {
            return ;
        }
        runnable();
    }
}

/// The registers that a request hands to the BIOS.
#[derive(Copy, Clone, Debug, PartialEq, Eq, Structural)]
pub struct Regs16 {
    pub al: u8,
    pub bl: u8,
    pub bh: u8,
    pub cx: u16,
}

impl Regs16 {
    /// Registers that are all zero.
    pub fn new() -> (r: Self)
        ensures
            r == (Regs16 { al: 0, bl: 0, bh: 0, cx: 0 }),
    {
        Regs16 { al: 0, bl: 0, bh: 0, cx: 0 }
    }
}

/// A request to the BIOS.
#[derive(Copy, Clone, Debug, PartialEq, Eq, Structural)]
pub struct BiosInt {
    pub interrupt_number: u8,
    pub command: u8,
    pub flags: Regs16,
    pub result: u8,
}

impl BiosInt {
    fn blank() -> (r: Self)
        ensures
            r == (BiosInt {
                interrupt_number: 0,
                command: 0,
                flags: Regs16 { al: 0, bl: 0, bh: 0, cx: 0 },
                result: 0,
            }),
    {
        Self { interrupt_number: 0, command: 0, flags: Regs16::new(), result: 0 }
    }

    /// The request that writes one character at the cursor: interrupt
    /// 0x10, function 0x0E, once, with the foreground colour in the low
    /// half of `bl` and the background colour in the high half.
    pub fn write_character(
        character: u8,
        page_number: u8,
        background_color: TextModeColor,
        foreground_color: TextModeColor,
    ) -> (r: Self)
        ensures
            r.interrupt_number == 0x10,
            r.command == 0x0E,
            r.result == 0,
            r.flags.al == character,
            r.flags.bh == page_number,
            r.flags.cx == 1,
            r.flags.bl == foreground_color.code_spec() + 16 * background_color.code_spec(),
    {
        let fg: u8 = foreground_color.code();
        let bg: u8 = background_color.code();
        let total_color: u8 = fg | (bg << 4u8);
        assert(fg | (bg << 4u8) == fg + 16 * bg) by (bit_vector)
            requires
                fg < 16,
                bg < 16,
        ;
        let mut regs = Regs16::new();
        regs.bl = total_color;
        regs.bh = page_number;
        regs.al = character;
        regs.cx = 0x1_u16;
        let blank = Self::blank();
        Self { interrupt_number: 0x10, command: 0x0E, flags: regs, result: blank.result }
    }

    /// Whether this library knows how to raise the interrupt of the
    /// request.
    pub fn is_dispatchable(&self) -> (r: bool)
        ensures
            r == (self.interrupt_number == 0x10),
    {
        self.interrupt_number == 0x10
    }

    /// Reads the outcome of the request. `returned` is what the BIOS left
    /// in `ah`, and `carry` the carry flag after the interrupt. For a
    /// request that could not be raised, `returned` does not count.
    pub fn execute_interrupt(&self, returned: u8, carry: bool) -> (r: BiosIntStatus)
        ensures
            r == Self::status_of(self.interrupt_number, returned, carry),
    {
        let res: u8 = if self.interrupt_number == 0x10 {
            returned
        } else {
            1
        };
        if carry {
            return BiosIntStatus::CommandFailed;
        }
        if res == 0x80 {
            return BiosIntStatus::InvalidCommand;
        }
        if res == 0x86 {
            return BiosIntStatus::UnsupportedFunction;
        }
        BiosIntStatus::SuccessfulCommand
    }

    /// A set carry flag means failure. Otherwise the BIOS says in `ah`
    /// what went wrong: 0x80 for a command that it does not know, 0x86 for
    /// a function that it does not support. A request that could not be
    /// raised counts as successful unless the carry flag is set.
    pub open spec fn status_of(interrupt_number: u8, returned: u8, carry: bool) -> BiosIntStatus {
        if carry {
            BiosIntStatus::CommandFailed
        } else if interrupt_number == 0x10 && returned == 0x80 {
            BiosIntStatus::InvalidCommand
        } else if interrupt_number == 0x10 && returned == 0x86 {
            BiosIntStatus::UnsupportedFunction
        } else {
            BiosIntStatus::SuccessfulCommand
        }
    }
}

} // verus!
