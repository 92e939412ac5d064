//! The options word of an interrupt descriptor, and the values that an
//! interrupt hands to its handler.

use crate::addr::VirtAddr;
use crate::cpu::CpuPrivilege;
use vstd::prelude::*;
use x86_64::structures::gdt::SegmentSelector;
use x86_64::PrivilegeLevel;

verus! {

/// What the processor pushes before it calls an interrupt handler.
#[derive(Debug, Clone, Copy)]
pub struct InterruptFrame {
    pub eip: VirtAddr,
    pub code_seg: u64,
    pub flags: u64,
    pub stack_pointer: VirtAddr,
    pub stack_segment: u64,
}

/// What the processor is given to find the descriptor table: its last
/// byte, counted from its first, and where it starts.
#[derive(Debug, Clone, Copy)]
pub struct IdtTablePointer {
    pub limit: u16,
    pub base: VirtAddr,
}

/// The options of one descriptor: bits 0 to 2 hold the index of the stack
/// to switch to, bit 8 says whether interrupts stay enabled in the
/// handler, bits 9 to 11 must be one, bits 13 and 14 hold the privilege
/// level that may call the interrupt, and bit 15 says that the descriptor
/// is present.
#[derive(Debug, Clone, Copy)]
pub struct EntryOptions(u16);

/// `raw` with bit `bit` made one or zero.
pub open spec fn word_with_bit(raw: u16, bit: u16, flag: bool) -> u16 {
    if flag {
        raw | (1u16 << bit)
    } else {
        raw & !(1u16 << bit)
    }
}

impl EntryOptions {
    pub closed spec fn view(&self) -> u16 {
        self.0
    }

    /// The word of the options.
    pub fn bits(&self) -> (r: u16)
        ensures
            r == self@,
    {
        self.0
    }

    /// Options with every bit clear, the bits that must be one among
    /// them. Such options must not reach the processor.
    pub fn new_zero() -> (r: Self)
        ensures
            r@ == 0,
    {
        EntryOptions(0)
    }

    /// Options with nothing set but the bits that must be one.
    pub fn new_minimal() -> (r: Self)
        ensures
            r@ == 0xE00,
    {
        EntryOptions(0xE00)
    }

    /// The options of an ordinary descriptor: present, callable from ring
    /// 0 only, interrupts disabled in the handler.
    pub fn new() -> (r: Self)
        ensures
            r@ == 0x8E00,
    {
        let mut new_s = Self::new_minimal();
        new_s.set_cpu_prv(CpuPrivilege::Ring0).enable_int(false).set_present_flag(true);
        assert((((0xE00u16 & !(3u16 << 13u16)) | (0u16 << 13u16)) & !(1u16 << 8u16)) | (1u16
            << 15u16) == 0x8E00u16) by (bit_vector);
        new_s
    }

    /// Bit 15.
    pub fn set_present_flag(&mut self, present: bool) -> (r: &mut Self)
        ensures
            r@ == word_with_bit(old(self)@, 15, present),
            *final(self) == *final(r),
    {
        if present {
            self.0 = self.0 | (1u16 << 15u16);
        } else {
            self.0 = self.0 & !(1u16 << 15u16);
        }
        self
    }

    /// Bit 8.
    pub fn enable_int(&mut self, enable: bool) -> (r: &mut Self)
        ensures
            r@ == word_with_bit(old(self)@, 8, enable),
            *final(self) == *final(r),
    {
        if enable {
            self.0 = self.0 | (1u16 << 8u16);
        } else {
            self.0 = self.0 & !(1u16 << 8u16);
        }
        self
    }

    /// Bits 13 and 14.
    pub fn set_cpu_prv(&mut self, cpl: CpuPrivilege) -> (r: &mut Self)
        ensures
            r@ == (old(self)@ & !(3u16 << 13u16)) | (cpl.ring() << 13u16),
            *final(self) == *final(r),
    {
        let ring: u16 = cpl.into();
        self.0 = (self.0 & !(3u16 << 13u16)) | (ring << 13u16);
        self
    }

    /// Bits 0 to 2. There are seven stacks to choose from; index 0 means
    /// no switch.
    pub fn set_stack_index(&mut self, index: u16) -> (r: &mut Self)
        requires
            index < 8,
        ensures
            r@ == (old(self)@ & !7u16) | index,
            *final(self) == *final(r),
    {
        self.0 = (self.0 & !7u16) | index;
        self
    }
}

/// The number of descriptors in the table.
pub const IDT_ENTRIES: usize = 255;

/// The size of one descriptor in memory.
pub const ENTRY_BYTES: usize = 16;

/// The word of the selector for entry `index` of the descriptor table,
/// requested at the given privilege level: the index from bit 3 upward,
/// the level in the two lowest bits.
pub open spec fn selector_word(index: u16, rpl: CpuPrivilege) -> u16 {
    (index << 3u16) | rpl.ring()
}

/// The word of a segment selector.
///
/// This calls `SegmentSelector::new` of the `x86_64` crate and reads the
/// one field of what it returns. The contract states what the source of
/// the crate shows: the index is shifted up by three bits and joined with
/// the number of the privilege level.
#[verifier::external_body]
fn selector_bits(index: u16, rpl: CpuPrivilege) -> (r: u16)
    ensures
        r == selector_word(index, rpl),
{
    let level = match rpl {
        CpuPrivilege::Ring0 => PrivilegeLevel::Ring0,
        CpuPrivilege::Ring1 => PrivilegeLevel::Ring1,
        CpuPrivilege::Ring2 => PrivilegeLevel::Ring2,
        CpuPrivilege::Ring3 => PrivilegeLevel::Ring3,
    };
    SegmentSelector::new(index, level).0
}

/// One descriptor of the table: where the handler of an interrupt stands,
/// the code segment it runs in, and its options.
#[derive(Debug, Clone, Copy)]
pub struct Entry {
    pub pointer_low: u16,
    pub gdt_selector: u16,
    pub options: EntryOptions,
    pub pointer_middle: u16,
    pub pointer_high: u32,
    pub reserved: u32,
}

impl Entry {
    /// The address of the handler.
    pub open spec fn handler(&self) -> int {
        self.pointer_low + 0x1_0000 * self.pointer_middle + 0x1_0000_0000 * self.pointer_high
    }

    /// A descriptor for the handler at address `handler`, for an interrupt
    /// without an error code.
    pub fn new_raw_ne(gdt_select: u16, handler: u64) -> (r: Self)
        ensures
            r.gdt_selector == gdt_select,
            r.handler() == handler,
            r.options@ == 0x8E00,
            r.reserved == 0,
    {
        let mut blank = Self::new_blank(gdt_select);
        blank.set_handler(VirtAddr::from(handler));
        blank
    }

    /// A descriptor for the handler at address `handler`, for an interrupt
    /// with an error code.
    pub fn new_raw_e(gdt_select: u16, handler: u64) -> (r: Self)
        ensures
            r.gdt_selector == gdt_select,
            r.handler() == handler,
            r.options@ == 0x8E00,
            r.reserved == 0,
    {
        let mut blank = Self::new_blank(gdt_select);
        blank.set_handler(VirtAddr::from(handler));
        blank
    }

    /// A descriptor for the handler at address `handler`, which never
    /// returns, for an interrupt without an error code.
    pub fn new_raw_dne(gdt_select: u16, handler: u64) -> (r: Self)
        ensures
            r.gdt_selector == gdt_select,
            r.handler() == handler,
            r.options@ == 0x8E00,
            r.reserved == 0,
    {
        let mut blank = Self::new_blank(gdt_select);
        blank.set_handler(VirtAddr::from(handler));
        blank
    }

    /// A descriptor for the handler at address `handler`, which never
    /// returns, for an interrupt with an error code.
    pub fn new_raw_de(gdt_select: u16, handler: u64) -> (r: Self)
        ensures
            r.gdt_selector == gdt_select,
            r.handler() == handler,
            r.options@ == 0x8E00,
            r.reserved == 0,
    {
        let mut blank = Self::new_blank(gdt_select);
        blank.set_handler(VirtAddr::from(handler));
        blank
    }

    /// A descriptor with ordinary options and no handler.
    pub fn new_blank(gdt_select: u16) -> (r: Self)
        ensures
            r.gdt_selector == gdt_select,
            r.handler() == 0,
            r.options@ == 0x8E00,
            r.reserved == 0,
    {
        Entry {
            gdt_selector: gdt_select,
            pointer_low: 0,
            pointer_middle: 0,
            pointer_high: 0,
            options: EntryOptions::new(),
            reserved: 0,
        }
    }

    /// Points the descriptor at the handler at address `handler`.
    pub fn set_handler(&mut self, handler: VirtAddr)
        ensures
            final(self).handler() == handler@,
            final(self).gdt_selector == old(self).gdt_selector,
            final(self).options == old(self).options,
            final(self).reserved == old(self).reserved,
    {
        let pointer: u64 = handler.get();
        assert(pointer == (pointer & 0xffff) + 0x1_0000 * ((pointer >> 16) & 0xffff) + 0x1_0000_0000
            * (pointer >> 32) && (pointer >> 32) <= 0xffff_ffff && (pointer & 0xffff) <= 0xffff && ((
        pointer >> 16) & 0xffff) <= 0xffff) by (bit_vector);
        self.pointer_low = (pointer & 0xffff) as u16;
        self.pointer_middle = ((pointer >> 16) & 0xffff) as u16;
        self.pointer_high = (pointer >> 32) as u32;
    }

    /// The descriptor of an interrupt for which nobody has set a handler:
    /// it leads to `missing_handler` in the first code segment at ring 0.
    pub fn missing(missing_handler: u64) -> (r: Self)
        ensures
            r.gdt_selector == selector_word(1, CpuPrivilege::Ring0),
            r.handler() == missing_handler,
            r.options@ == 0x8E00,
            r.reserved == 0,
    {
        Self::new_raw_dne(selector_bits(1, CpuPrivilege::Ring0), missing_handler)
    }

    /// The descriptor with every bit clear.
    pub fn new_null() -> (r: Self)
        ensures
            r.gdt_selector == selector_word(0, CpuPrivilege::Ring0),
            r.handler() == 0,
            r.options@ == 0,
            r.reserved == 0,
    {
        Entry {
            gdt_selector: selector_bits(0, CpuPrivilege::Ring0),
            pointer_low: 0,
            pointer_middle: 0,
            pointer_high: 0,
            options: EntryOptions::new_zero(),
            reserved: 0,
        }
    }

    /// Whether the descriptor leads to `missing_handler`.
    pub fn is_missing(&self, missing_handler: u64) -> (r: bool)
        ensures
            r == (self.handler() == missing_handler),
    {
        let missing_ref = Self::missing(missing_handler);
        self.pointer_low == missing_ref.pointer_low && self.pointer_middle
            == missing_ref.pointer_middle && self.pointer_high == missing_ref.pointer_high
    }

    /// Whether the descriptor leads nowhere.
    pub fn is_null(&self) -> (r: bool)
        ensures
            r == (self.handler() == 0),
    {
        self.pointer_low == 0 && self.pointer_middle == 0 && self.pointer_high == 0
    }

    /// What is wrong with the descriptor, if anything: a selector that
    /// names entry 0 of the descriptor table at whatever level, reserved
    /// bits that are set, or options that are all clear.
    pub open spec fn fault(&self) -> Option<Seq<char>> {
        if self.gdt_selector == selector_word(0, CpuPrivilege::Ring0) || self.gdt_selector
            == selector_word(0, CpuPrivilege::Ring1) || self.gdt_selector == selector_word(
            0,
            CpuPrivilege::Ring2,
        ) || self.gdt_selector == selector_word(0, CpuPrivilege::Ring3) {
            Some("GDT_Selector is malformed and does not contain a valid index"@)
        } else if self.reserved != 0 {
            Some("Reserved bits are set, this can cause a protection fault when loaded"@)
        } else if self.options@ == 0 {
            Some("'Must be 1 bits' are unset in EntryOptions"@)
        } else {
            None
        }
    }

    fn check(&self) -> (r: Option<&'static str>)
        ensures
            match r {
                Some(message) => self.fault() == Some(message@),
                None => self.fault() is None,
            },
    {
        if self.gdt_selector == selector_bits(0, CpuPrivilege::Ring0) || self.gdt_selector
            == selector_bits(0, CpuPrivilege::Ring1) || self.gdt_selector == selector_bits(
            0,
            CpuPrivilege::Ring2,
        ) || self.gdt_selector == selector_bits(0, CpuPrivilege::Ring3) {
            return Some("GDT_Selector is malformed and does not contain a valid index");
        }
        if self.reserved != 0 {
            return Some("Reserved bits are set, this can cause a protection fault when loaded");
        }
        if self.options.bits() == 0 {
            return Some("'Must be 1 bits' are unset in EntryOptions");
        }
        None
    }
}

/// The interrupt descriptor table. It remembers the address of the handler
/// that stands in for every handler that nobody has set.
#[derive(Debug, Clone, Copy)]
pub struct Idt {
    entries: [Entry; 255],
    missing_handler: u64,
}

/// The fault of the first descriptor from `from` on that has a handler of
/// its own and a fault.
pub open spec fn first_fault(entries: Seq<Entry>, missing_handler: u64, from: int) -> Option<Seq<char>>
    decreases entries.len() - from,
{
    if from < 0 || from >= entries.len() {
        None
    } else if entries[from].handler() != missing_handler && entries[from].fault() is Some {
        entries[from].fault()
    } else {
        first_fault(entries, missing_handler, from + 1)
    }
}

impl Idt {
    /// The descriptors, in the order of the interrupts.
    pub closed spec fn view(&self) -> Seq<Entry> {
        self.entries@
    }

    pub closed spec fn missing_handler(&self) -> u64 {
        self.missing_handler
    }

    /// The last byte of the table, counted from its first.
    pub open spec fn limit() -> u16 {
        (IDT_ENTRIES * ENTRY_BYTES - 1) as u16
    }

    /// A table in which every interrupt leads to `missing_handler`.
    pub fn new(missing_handler: u64) -> (r: Idt)
        ensures
            r@.len() == IDT_ENTRIES,
            r.missing_handler() == missing_handler,
            forall|i: int| 0 <= i < IDT_ENTRIES ==> (#[trigger] r@[i]).handler() == missing_handler,
    {
        Idt { entries: [Entry::missing(missing_handler); 255], missing_handler }
    }

    /// The descriptor of the given interrupt.
    pub fn entry(&self, interrupt: u8) -> (r: Entry)
        requires
            interrupt < IDT_ENTRIES,
        ensures
            self@.len() == IDT_ENTRIES,
            r == self@[interrupt as int],
    {
        self.entries[interrupt as usize]
    }

    fn set_entry(&mut self, interrupt: u8, entry: Entry)
        requires
            interrupt < IDT_ENTRIES,
        ensures
            final(self)@ == old(self)@.update(interrupt as int, entry),
            final(self).missing_handler() == old(self).missing_handler(),
    {
        self.entries[interrupt as usize] = entry;
    }

    /// Sets the handler of an interrupt without an error code. `code_segment`
    /// is the selector of the code segment that is in use.
    pub fn raw_set_handler_ne(&mut self, entry: u8, code_segment: u16, handler: u64)
        requires
            entry < IDT_ENTRIES,
        ensures
            final(self).missing_handler() == old(self).missing_handler(),
            final(self)@.len() == old(self)@.len(),
            forall|i: int| 0 <= i < IDT_ENTRIES && i != entry ==> final(self)@[i] == old(self)@[i],
            final(self)@[entry as int].gdt_selector == code_segment,
            final(self)@[entry as int].handler() == handler,
            final(self)@[entry as int].options@ == 0x8E00,
            final(self)@[entry as int].reserved == 0,
    {
        self.set_entry(entry, Entry::new_raw_ne(code_segment, handler));
    }

    /// Sets the handler of an interrupt with an error code.
    pub fn raw_set_handler_e(&mut self, entry: u8, code_segment: u16, handler: u64)
        requires
            entry < IDT_ENTRIES,
        ensures
            final(self).missing_handler() == old(self).missing_handler(),
            final(self)@.len() == old(self)@.len(),
            forall|i: int| 0 <= i < IDT_ENTRIES && i != entry ==> final(self)@[i] == old(self)@[i],
            final(self)@[entry as int].gdt_selector == code_segment,
            final(self)@[entry as int].handler() == handler,
            final(self)@[entry as int].options@ == 0x8E00,
            final(self)@[entry as int].reserved == 0,
    {
        self.set_entry(entry, Entry::new_raw_e(code_segment, handler));
    }

    /// Sets the handler, which never returns, of an interrupt without an
    /// error code.
    pub fn raw_set_handler_dne(&mut self, entry: u8, code_segment: u16, handler: u64)
        requires
            entry < IDT_ENTRIES,
        ensures
            final(self).missing_handler() == old(self).missing_handler(),
            final(self)@.len() == old(self)@.len(),
            forall|i: int| 0 <= i < IDT_ENTRIES && i != entry ==> final(self)@[i] == old(self)@[i],
            final(self)@[entry as int].gdt_selector == code_segment,
            final(self)@[entry as int].handler() == handler,
            final(self)@[entry as int].options@ == 0x8E00,
            final(self)@[entry as int].reserved == 0,
    {
        self.set_entry(entry, Entry::new_raw_dne(code_segment, handler));
    }

    /// Sets the handler, which never returns, of an interrupt with an
    /// error code.
    pub fn raw_set_handler_de(&mut self, entry: u8, code_segment: u16, handler: u64)
        requires
            entry < IDT_ENTRIES,
        ensures
            final(self).missing_handler() == old(self).missing_handler(),
            final(self)@.len() == old(self)@.len(),
            forall|i: int| 0 <= i < IDT_ENTRIES && i != entry ==> final(self)@[i] == old(self)@[i],
            final(self)@[entry as int].gdt_selector == code_segment,
            final(self)@[entry as int].handler() == handler,
            final(self)@[entry as int].options@ == 0x8E00,
            final(self)@[entry as int].reserved == 0,
    {
        self.set_entry(entry, Entry::new_raw_de(code_segment, handler));
    }

    /// Checks every descriptor that has a handler of its own, and hands
    /// out what the processor needs to load the table, which stands at
    /// address `base`, or says what is wrong with the first descriptor
    /// that has a fault.
    pub fn submit_entries(&self, base: u64) -> (r: Result<IdtTablePointer, &'static str>)
        ensures
            match first_fault(self@, self.missing_handler(), 0) {
                Some(message) => r is Err && r->Err_0@ == message,
                None => r is Ok && r->Ok_0.limit == Self::limit() && r->Ok_0.base@ == base,
            },
    {
        let mut i: usize = 0;
        while i < 255
            invariant
                i <= 255,
                self@.len() == 255,
                first_fault(self@, self.missing_handler(), i as int) == first_fault(
                    self@,
                    self.missing_handler(),
                    0,
                ),
            decreases 255 - i,
        {
            let entry = self.entries[i];
            if !entry.is_missing(self.missing_handler) {
                match entry.check() {
                    Some(message) => {
                        return Err(message);
                    },
                    None => {},
                }
            }
            i += 1;
        }
        Ok(IdtTablePointer { base: VirtAddr::from(base), limit: 4079 })
    }

    /// Hands out what the processor needs to load the table, whether or
    /// not the table is sound, and says whether it is.
    pub fn unsafe_submit_entries(&self, base: u64) -> (r: (IdtTablePointer, bool))
        ensures
            r.0.limit == Self::limit(),
            r.0.base@ == base,
            r.1 == (first_fault(self@, self.missing_handler(), 0) is None),
    {
        match self.submit_entries(base) {
            Ok(valid) => (valid, true),
            Err(_) => (IdtTablePointer { base: VirtAddr::from(base), limit: 4079 }, false),
        }
    }

    /// Whether the interrupt has a handler of its own.
    pub fn check_for_entry(&self, interrupt: u8) -> (r: bool)
        requires
            interrupt < IDT_ENTRIES,
        ensures
            r == (self@[interrupt as int].handler() != self.missing_handler() && self@[interrupt as int].handler()
                != 0),
    {
        let entry = self.entries[interrupt as usize];
        !(entry.is_missing(self.missing_handler) || entry.is_null())
    }

    /// Takes the handler of the interrupt away, if it has one of its own.
    pub fn remove_entry(&mut self, interrupt: u8)
        requires
            interrupt < IDT_ENTRIES,
        ensures
            final(self).missing_handler() == old(self).missing_handler(),
            final(self)@.len() == old(self)@.len(),
            forall|i: int| 0 <= i < IDT_ENTRIES && i != interrupt ==> final(self)@[i] == old(self)@[i],
            old(self)@[interrupt as int].handler() != old(self).missing_handler() && old(
                self,
            )@[interrupt as int].handler() != 0 ==> final(self)@[interrupt as int].handler() == old(
                self,
            ).missing_handler() && final(self)@[interrupt as int].gdt_selector == selector_word(
                1,
                CpuPrivilege::Ring0,
            ),
            !(old(self)@[interrupt as int].handler() != old(self).missing_handler() && old(
                self,
            )@[interrupt as int].handler() != 0) ==> final(self)@[interrupt as int] == old(
                self,
            )@[interrupt as int],
    {
        if self.check_for_entry(interrupt) {
            let missing = Entry::missing(self.missing_handler);
            self.set_entry(interrupt, missing);
        }
    }
}

} // verus!
