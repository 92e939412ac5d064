//! Page-table entries and tables, bit for bit as the processor reads them.
//!
//! Every entry is one 64-bit word. The accessors below name each field of
//! the word and say, in their contracts, which bits it occupies.

use crate::addr::PhysPage;
use crate::bits::bit_is_set;
use crate::bits::field_of;
use crate::bits::get_bit;
use crate::bits::get_bit_range;
use crate::bits::lemma_low_mask_values;
use crate::bits::low_mask;
use crate::bits::set_bit;
use crate::bits::set_bit_range;
use crate::bits::with_bit;
use crate::bits::with_field;
use crate::error::MemoryError;
use vstd::prelude::*;

verus! {

/// The widest physical address, in bits, that the tables can hold.
pub const MAX_PHY_MEMORY_WIDTH: usize = 48;

/// The number of entries in a table of any level.
pub const TABLE_ENTRIES: usize = 512;

/// A leaf entry of a level-1 table: it maps one 4 KiB page.
#[derive(Clone, Copy, Debug)]
pub struct PageEntry4K(u64);

impl PageEntry4K {
    /// The entry as the 64-bit word that goes into the table.
    pub closed spec fn view(&self) -> u64 {
        self.0
    }

    /// The entry with every bit clear: not present.
    pub fn zero() -> (r: Self)
        ensures
            r@ == 0,
    {
        Self(0)
    }

    /// A fresh entry: every bit clear.
    pub fn new() -> (r: Self)
        ensures
            r@ == 0,
    {
        Self::zero()
    }

    /// The entry that a table holds as the word `raw`.
    pub fn from_bits(raw: u64) -> (r: Self)
        ensures
            r@ == raw,
    {
        Self(raw)
    }

    /// The word that stands for the entry in a table.
    pub fn bits(&self) -> (r: u64)
        ensures
            r == self@,
    {
        self.0
    }

    /// Bit 0.
    pub fn is_present_set(&self) -> (r: bool)
        ensures
            r == bit_is_set(self@, 0),
    {
        get_bit(self.0, 0)
    }

    /// Bit 0.
    pub fn set_present_flag(self, flag: bool) -> (r: Self)
        ensures
            r@ == with_bit(self@, 0, flag),
    {
        Self(set_bit(self.0, 0, flag))
    }

    /// Bit 1.
    pub fn is_read_write_set(&self) -> (r: bool)
        ensures
            r == bit_is_set(self@, 1),
    {
        get_bit(self.0, 1)
    }

    /// Bit 1.
    pub fn set_read_write_flag(self, flag: bool) -> (r: Self)
        ensures
            r@ == with_bit(self@, 1, flag),
    {
        Self(set_bit(self.0, 1, flag))
    }

    /// Bit 2.
    pub fn is_user_accessed_set(&self) -> (r: bool)
        ensures
            r == bit_is_set(self@, 2),
    {
        get_bit(self.0, 2)
    }

    /// Bit 2.
    pub fn set_user_accessed_flag(self, flag: bool) -> (r: Self)
        ensures
            r@ == with_bit(self@, 2, flag),
    {
        Self(set_bit(self.0, 2, flag))
    }

    /// Bit 3.
    pub fn is_write_though_set(&self) -> (r: bool)
        ensures
            r == bit_is_set(self@, 3),
    {
        get_bit(self.0, 3)
    }

    /// Bit 3.
    pub fn set_write_though_flag(self, flag: bool) -> (r: Self)
        ensures
            r@ == with_bit(self@, 3, flag),
    {
        Self(set_bit(self.0, 3, flag))
    }

    /// Bit 4.
    pub fn is_cache_disable_set(&self) -> (r: bool)
        ensures
            r == bit_is_set(self@, 4),
    {
        get_bit(self.0, 4)
    }

    /// Bit 4.
    pub fn set_cache_disable_flag(self, flag: bool) -> (r: Self)
        ensures
            r@ == with_bit(self@, 4, flag),
    {
        Self(set_bit(self.0, 4, flag))
    }

    /// Bit 5.
    pub fn is_accessed_set(&self) -> (r: bool)
        ensures
            r == bit_is_set(self@, 5),
    {
        get_bit(self.0, 5)
    }

    /// Bit 5.
    pub fn set_accessed_flag(self, flag: bool) -> (r: Self)
        ensures
            r@ == with_bit(self@, 5, flag),
    {
        Self(set_bit(self.0, 5, flag))
    }

    /// Bit 6.
    pub fn is_dirty_set(&self) -> (r: bool)
        ensures
            r == bit_is_set(self@, 6),
    {
        get_bit(self.0, 6)
    }

    /// Bit 6.
    pub fn set_dirty_flag(self, flag: bool) -> (r: Self)
        ensures
            r@ == with_bit(self@, 6, flag),
    {
        Self(set_bit(self.0, 6, flag))
    }

    /// Bit 7.
    pub fn is_page_attribute_table_set(&self) -> (r: bool)
        ensures
            r == bit_is_set(self@, 7),
    {
        get_bit(self.0, 7)
    }

    /// Bit 7.
    pub fn set_page_attribute_table_flag(self, flag: bool) -> (r: Self)
        ensures
            r@ == with_bit(self@, 7, flag),
    {
        Self(set_bit(self.0, 7, flag))
    }

    /// Bit 8.
    pub fn is_global_set(&self) -> (r: bool)
        ensures
            r == bit_is_set(self@, 8),
    {
        get_bit(self.0, 8)
    }

    /// Bit 8.
    pub fn set_global_flag(self, flag: bool) -> (r: Self)
        ensures
            r@ == with_bit(self@, 8, flag),
    {
        Self(set_bit(self.0, 8, flag))
    }

    /// Bits 12 to 47.
    pub fn get_virt_address(&self) -> (r: u64)
        ensures
            r == field_of(self@, 12, 48),
    {
        get_bit_range(self.0, 12, 48)
    }

    /// Bits 12 to 47. The value must fit into the field.
    pub fn set_virt_address(self, value: u64) -> (r: Self)
        requires
            value <= low_mask(36),
        ensures
            r@ == with_field(self@, 12, 48, value),
    {
        Self(set_bit_range(self.0, 12, 48, value))
    }

    /// Bits 59 to 61.
    pub fn get_protection_key(&self) -> (r: u64)
        ensures
            r == field_of(self@, 59, 62),
    {
        get_bit_range(self.0, 59, 62)
    }

    /// Bits 59 to 61. The value must fit into the field.
    pub fn set_protection_key(self, value: u64) -> (r: Self)
        requires
            value <= low_mask(3),
        ensures
            r@ == with_field(self@, 59, 62, value),
    {
        Self(set_bit_range(self.0, 59, 62, value))
    }

    /// Bit 63.
    pub fn is_execute_disable_set(&self) -> (r: bool)
        ensures
            r == bit_is_set(self@, 63),
    {
        get_bit(self.0, 63)
    }

    /// Bit 63.
    pub fn set_execute_disable_flag(self, flag: bool) -> (r: Self)
        ensures
            r@ == with_bit(self@, 63, flag),
    {
        Self(set_bit(self.0, 63, flag))
    }

}

/// A leaf entry of a level-2 table: it maps one 2 MiB page. The page-size
/// bit must be set for the processor to read it as a leaf.
#[derive(Clone, Copy, Debug)]
pub struct PageEntry2M(u64);

impl PageEntry2M {
    /// The entry as the 64-bit word that goes into the table.
    pub closed spec fn view(&self) -> u64 {
        self.0
    }

    /// The entry with every bit clear: not present.
    pub fn zero() -> (r: Self)
        ensures
            r@ == 0,
    {
        Self(0)
    }

    /// A fresh entry: every bit clear but the page-size bit.
    pub fn new() -> (r: Self)
        ensures
            r@ == with_bit(0, 7, true),
    {
        Self::zero().set_page_size_flag(true)
    }

    /// The entry that a table holds as the word `raw`.
    pub fn from_bits(raw: u64) -> (r: Self)
        ensures
            r@ == raw,
    {
        Self(raw)
    }

    /// The word that stands for the entry in a table.
    pub fn bits(&self) -> (r: u64)
        ensures
            r == self@,
    {
        self.0
    }

    /// Bit 0.
    pub fn is_present_set(&self) -> (r: bool)
        ensures
            r == bit_is_set(self@, 0),
    {
        get_bit(self.0, 0)
    }

    /// Bit 0.
    pub fn set_present_flag(self, flag: bool) -> (r: Self)
        ensures
            r@ == with_bit(self@, 0, flag),
    {
        Self(set_bit(self.0, 0, flag))
    }

    /// Bit 1.
    pub fn is_read_write_set(&self) -> (r: bool)
        ensures
            r == bit_is_set(self@, 1),
    {
        get_bit(self.0, 1)
    }

    /// Bit 1.
    pub fn set_read_write_flag(self, flag: bool) -> (r: Self)
        ensures
            r@ == with_bit(self@, 1, flag),
    {
        Self(set_bit(self.0, 1, flag))
    }

    /// Bit 2.
    pub fn is_user_accessed_set(&self) -> (r: bool)
        ensures
            r == bit_is_set(self@, 2),
    {
        get_bit(self.0, 2)
    }

    /// Bit 2.
    pub fn set_user_accessed_flag(self, flag: bool) -> (r: Self)
        ensures
            r@ == with_bit(self@, 2, flag),
    {
        Self(set_bit(self.0, 2, flag))
    }

    /// Bit 3.
    pub fn is_write_though_set(&self) -> (r: bool)
        ensures
            r == bit_is_set(self@, 3),
    {
        get_bit(self.0, 3)
    }

    /// Bit 3.
    pub fn set_write_though_flag(self, flag: bool) -> (r: Self)
        ensures
            r@ == with_bit(self@, 3, flag),
    {
        Self(set_bit(self.0, 3, flag))
    }

    /// Bit 4.
    pub fn is_cache_disable_set(&self) -> (r: bool)
        ensures
            r == bit_is_set(self@, 4),
    {
        get_bit(self.0, 4)
    }

    /// Bit 4.
    pub fn set_cache_disable_flag(self, flag: bool) -> (r: Self)
        ensures
            r@ == with_bit(self@, 4, flag),
    {
        Self(set_bit(self.0, 4, flag))
    }

    /// Bit 5.
    pub fn is_accessed_set(&self) -> (r: bool)
        ensures
            r == bit_is_set(self@, 5),
    {
        get_bit(self.0, 5)
    }

    /// Bit 5.
    pub fn set_accessed_flag(self, flag: bool) -> (r: Self)
        ensures
            r@ == with_bit(self@, 5, flag),
    {
        Self(set_bit(self.0, 5, flag))
    }

    /// Bit 6.
    pub fn is_dirty_set(&self) -> (r: bool)
        ensures
            r == bit_is_set(self@, 6),
    {
        get_bit(self.0, 6)
    }

    /// Bit 6.
    pub fn set_dirty_flag(self, flag: bool) -> (r: Self)
        ensures
            r@ == with_bit(self@, 6, flag),
    {
        Self(set_bit(self.0, 6, flag))
    }

    /// Bit 7.
    pub fn is_page_size_set(&self) -> (r: bool)
        ensures
            r == bit_is_set(self@, 7),
    {
        get_bit(self.0, 7)
    }

    /// Bit 7.
    pub fn set_page_size_flag(self, flag: bool) -> (r: Self)
        ensures
            r@ == with_bit(self@, 7, flag),
    {
        Self(set_bit(self.0, 7, flag))
    }

    /// Bit 8.
    pub fn is_global_set(&self) -> (r: bool)
        ensures
            r == bit_is_set(self@, 8),
    {
        get_bit(self.0, 8)
    }

    /// Bit 8.
    pub fn set_global_flag(self, flag: bool) -> (r: Self)
        ensures
            r@ == with_bit(self@, 8, flag),
    {
        Self(set_bit(self.0, 8, flag))
    }

    /// Bit 12.
    pub fn is_page_attribute_table_set(&self) -> (r: bool)
        ensures
            r == bit_is_set(self@, 12),
    {
        get_bit(self.0, 12)
    }

    /// Bit 12.
    pub fn set_page_attribute_table_flag(self, flag: bool) -> (r: Self)
        ensures
            r@ == with_bit(self@, 12, flag),
    {
        Self(set_bit(self.0, 12, flag))
    }

    /// Bits 21 to 47.
    pub fn get_virt_address(&self) -> (r: u64)
        ensures
            r == field_of(self@, 21, 48),
    {
        get_bit_range(self.0, 21, 48)
    }

    /// Bits 21 to 47. The value must fit into the field.
    pub fn set_virt_address(self, value: u64) -> (r: Self)
        requires
            value <= low_mask(27),
        ensures
            r@ == with_field(self@, 21, 48, value),
    {
        Self(set_bit_range(self.0, 21, 48, value))
    }

    /// Bits 59 to 61.
    pub fn get_protection_key(&self) -> (r: u64)
        ensures
            r == field_of(self@, 59, 62),
    {
        get_bit_range(self.0, 59, 62)
    }

    /// Bits 59 to 61. The value must fit into the field.
    pub fn set_protection_key(self, value: u64) -> (r: Self)
        requires
            value <= low_mask(3),
        ensures
            r@ == with_field(self@, 59, 62, value),
    {
        Self(set_bit_range(self.0, 59, 62, value))
    }

    /// Bit 63.
    pub fn is_execute_disable_set(&self) -> (r: bool)
        ensures
            r == bit_is_set(self@, 63),
    {
        get_bit(self.0, 63)
    }

    /// Bit 63.
    pub fn set_execute_disable_flag(self, flag: bool) -> (r: Self)
        ensures
            r@ == with_bit(self@, 63, flag),
    {
        Self(set_bit(self.0, 63, flag))
    }

}

/// A leaf entry of a level-3 table: it maps one 1 GiB page. The page-size
/// bit must be set for the processor to read it as a leaf.
#[derive(Clone, Copy, Debug)]
pub struct PageEntry1G(u64);

impl PageEntry1G {
    /// The entry as the 64-bit word that goes into the table.
    pub closed spec fn view(&self) -> u64 {
        self.0
    }

    /// The entry with every bit clear: not present.
    pub fn zero() -> (r: Self)
        ensures
            r@ == 0,
    {
        Self(0)
    }

    /// A fresh entry: every bit clear but the page-size bit.
    pub fn new() -> (r: Self)
        ensures
            r@ == with_bit(0, 7, true),
    {
        Self::zero().set_page_size_flag(true)
    }

    /// The entry that a table holds as the word `raw`.
    pub fn from_bits(raw: u64) -> (r: Self)
        ensures
            r@ == raw,
    {
        Self(raw)
    }

    /// The word that stands for the entry in a table.
    pub fn bits(&self) -> (r: u64)
        ensures
            r == self@,
    {
        self.0
    }

    /// Bit 0.
    pub fn is_present_set(&self) -> (r: bool)
        ensures
            r == bit_is_set(self@, 0),
    {
        get_bit(self.0, 0)
    }

    /// Bit 0.
    pub fn set_present_flag(self, flag: bool) -> (r: Self)
        ensures
            r@ == with_bit(self@, 0, flag),
    {
        Self(set_bit(self.0, 0, flag))
    }

    /// Bit 1.
    pub fn is_read_write_set(&self) -> (r: bool)
        ensures
            r == bit_is_set(self@, 1),
    {
        get_bit(self.0, 1)
    }

    /// Bit 1.
    pub fn set_read_write_flag(self, flag: bool) -> (r: Self)
        ensures
            r@ == with_bit(self@, 1, flag),
    {
        Self(set_bit(self.0, 1, flag))
    }

    /// Bit 2.
    pub fn is_user_accessed_set(&self) -> (r: bool)
        ensures
            r == bit_is_set(self@, 2),
    {
        get_bit(self.0, 2)
    }

    /// Bit 2.
    pub fn set_user_accessed_flag(self, flag: bool) -> (r: Self)
        ensures
            r@ == with_bit(self@, 2, flag),
    {
        Self(set_bit(self.0, 2, flag))
    }

    /// Bit 3.
    pub fn is_write_though_set(&self) -> (r: bool)
        ensures
            r == bit_is_set(self@, 3),
    {
        get_bit(self.0, 3)
    }

    /// Bit 3.
    pub fn set_write_though_flag(self, flag: bool) -> (r: Self)
        ensures
            r@ == with_bit(self@, 3, flag),
    {
        Self(set_bit(self.0, 3, flag))
    }

    /// Bit 4.
    pub fn is_cache_disable_set(&self) -> (r: bool)
        ensures
            r == bit_is_set(self@, 4),
    {
        get_bit(self.0, 4)
    }

    /// Bit 4.
    pub fn set_cache_disable_flag(self, flag: bool) -> (r: Self)
        ensures
            r@ == with_bit(self@, 4, flag),
    {
        Self(set_bit(self.0, 4, flag))
    }

    /// Bit 5.
    pub fn is_accessed_set(&self) -> (r: bool)
        ensures
            r == bit_is_set(self@, 5),
    {
        get_bit(self.0, 5)
    }

    /// Bit 5.
    pub fn set_accessed_flag(self, flag: bool) -> (r: Self)
        ensures
            r@ == with_bit(self@, 5, flag),
    {
        Self(set_bit(self.0, 5, flag))
    }

    /// Bit 6.
    pub fn is_dirty_set(&self) -> (r: bool)
        ensures
            r == bit_is_set(self@, 6),
    {
        get_bit(self.0, 6)
    }

    /// Bit 6.
    pub fn set_dirty_flag(self, flag: bool) -> (r: Self)
        ensures
            r@ == with_bit(self@, 6, flag),
    {
        Self(set_bit(self.0, 6, flag))
    }

    /// Bit 7.
    pub fn is_page_size_set(&self) -> (r: bool)
        ensures
            r == bit_is_set(self@, 7),
    {
        get_bit(self.0, 7)
    }

    /// Bit 7.
    pub fn set_page_size_flag(self, flag: bool) -> (r: Self)
        ensures
            r@ == with_bit(self@, 7, flag),
    {
        Self(set_bit(self.0, 7, flag))
    }

    /// Bit 8.
    pub fn is_global_set(&self) -> (r: bool)
        ensures
            r == bit_is_set(self@, 8),
    {
        get_bit(self.0, 8)
    }

    /// Bit 8.
    pub fn set_global_flag(self, flag: bool) -> (r: Self)
        ensures
            r@ == with_bit(self@, 8, flag),
    {
        Self(set_bit(self.0, 8, flag))
    }

    /// Bit 12.
    pub fn is_page_attribute_table_set(&self) -> (r: bool)
        ensures
            r == bit_is_set(self@, 12),
    {
        get_bit(self.0, 12)
    }

    /// Bit 12.
    pub fn set_page_attribute_table_flag(self, flag: bool) -> (r: Self)
        ensures
            r@ == with_bit(self@, 12, flag),
    {
        Self(set_bit(self.0, 12, flag))
    }

    /// Bits 21 to 47.
    pub fn get_virt_address(&self) -> (r: u64)
        ensures
            r == field_of(self@, 21, 48),
    {
        get_bit_range(self.0, 21, 48)
    }

    /// Bits 21 to 47. The value must fit into the field.
    pub fn set_virt_address(self, value: u64) -> (r: Self)
        requires
            value <= low_mask(27),
        ensures
            r@ == with_field(self@, 21, 48, value),
    {
        Self(set_bit_range(self.0, 21, 48, value))
    }

    /// Bits 59 to 61.
    pub fn get_protection_key(&self) -> (r: u64)
        ensures
            r == field_of(self@, 59, 62),
    {
        get_bit_range(self.0, 59, 62)
    }

    /// Bits 59 to 61. The value must fit into the field.
    pub fn set_protection_key(self, value: u64) -> (r: Self)
        requires
            value <= low_mask(3),
        ensures
            r@ == with_field(self@, 59, 62, value),
    {
        Self(set_bit_range(self.0, 59, 62, value))
    }

    /// Bit 63.
    pub fn is_execute_disable_set(&self) -> (r: bool)
        ensures
            r == bit_is_set(self@, 63),
    {
        get_bit(self.0, 63)
    }

    /// Bit 63.
    pub fn set_execute_disable_flag(self, flag: bool) -> (r: Self)
        ensures
            r@ == with_bit(self@, 63, flag),
    {
        Self(set_bit(self.0, 63, flag))
    }

}

/// An entry of a level-2 table that points to a level-1 table. The page-size bit
/// must be clear.
#[derive(Clone, Copy, Debug)]
pub struct PageEntryLvl2(u64);

impl PageEntryLvl2 {
    /// The entry as the 64-bit word that goes into the table.
    pub closed spec fn view(&self) -> u64 {
        self.0
    }

    /// The entry with every bit clear: not present.
    pub fn zero() -> (r: Self)
        ensures
            r@ == 0,
    {
        Self(0)
    }

    /// A fresh entry: every bit clear.
    pub fn new() -> (r: Self)
        ensures
            r@ == 0,
    {
        Self::zero()
    }

    /// The entry that a table holds as the word `raw`.
    pub fn from_bits(raw: u64) -> (r: Self)
        ensures
            r@ == raw,
    {
        Self(raw)
    }

    /// The word that stands for the entry in a table.
    pub fn bits(&self) -> (r: u64)
        ensures
            r == self@,
    {
        self.0
    }

    /// Bit 0.
    pub fn is_present_set(&self) -> (r: bool)
        ensures
            r == bit_is_set(self@, 0),
    {
        get_bit(self.0, 0)
    }

    /// Bit 0.
    pub fn set_present_flag(self, flag: bool) -> (r: Self)
        ensures
            r@ == with_bit(self@, 0, flag),
    {
        Self(set_bit(self.0, 0, flag))
    }

    /// Bit 1.
    pub fn is_read_write_set(&self) -> (r: bool)
        ensures
            r == bit_is_set(self@, 1),
    {
        get_bit(self.0, 1)
    }

    /// Bit 1.
    pub fn set_read_write_flag(self, flag: bool) -> (r: Self)
        ensures
            r@ == with_bit(self@, 1, flag),
    {
        Self(set_bit(self.0, 1, flag))
    }

    /// Bit 2.
    pub fn is_user_access_set(&self) -> (r: bool)
        ensures
            r == bit_is_set(self@, 2),
    {
        get_bit(self.0, 2)
    }

    /// Bit 2.
    pub fn set_user_access_flag(self, flag: bool) -> (r: Self)
        ensures
            r@ == with_bit(self@, 2, flag),
    {
        Self(set_bit(self.0, 2, flag))
    }

    /// Bit 3.
    pub fn is_write_though_set(&self) -> (r: bool)
        ensures
            r == bit_is_set(self@, 3),
    {
        get_bit(self.0, 3)
    }

    /// Bit 3.
    pub fn set_write_though_flag(self, flag: bool) -> (r: Self)
        ensures
            r@ == with_bit(self@, 3, flag),
    {
        Self(set_bit(self.0, 3, flag))
    }

    /// Bit 4.
    pub fn is_cache_disable_set(&self) -> (r: bool)
        ensures
            r == bit_is_set(self@, 4),
    {
        get_bit(self.0, 4)
    }

    /// Bit 4.
    pub fn set_cache_disable_flag(self, flag: bool) -> (r: Self)
        ensures
            r@ == with_bit(self@, 4, flag),
    {
        Self(set_bit(self.0, 4, flag))
    }

    /// Bit 5.
    pub fn is_accessed_set(&self) -> (r: bool)
        ensures
            r == bit_is_set(self@, 5),
    {
        get_bit(self.0, 5)
    }

    /// Bit 5.
    pub fn set_accessed_flag(self, flag: bool) -> (r: Self)
        ensures
            r@ == with_bit(self@, 5, flag),
    {
        Self(set_bit(self.0, 5, flag))
    }

    /// Bit 7.
    pub fn is_page_size_set(&self) -> (r: bool)
        ensures
            r == bit_is_set(self@, 7),
    {
        get_bit(self.0, 7)
    }

    /// Bit 7.
    pub fn set_page_size_flag(self, flag: bool) -> (r: Self)
        ensures
            r@ == with_bit(self@, 7, flag),
    {
        Self(set_bit(self.0, 7, flag))
    }

    /// Bits 12 to 47.
    pub fn get_next_entry_phy_address(&self) -> (r: u64)
        ensures
            r == field_of(self@, 12, 48),
    {
        get_bit_range(self.0, 12, 48)
    }

    /// Bits 12 to 47. The value must fit into the field.
    pub fn set_next_entry_phy_address(self, value: u64) -> (r: Self)
        requires
            value <= low_mask(36),
        ensures
            r@ == with_field(self@, 12, 48, value),
    {
        Self(set_bit_range(self.0, 12, 48, value))
    }

    /// Bit 63.
    pub fn is_execute_disable_set(&self) -> (r: bool)
        ensures
            r == bit_is_set(self@, 63),
    {
        get_bit(self.0, 63)
    }

    /// Bit 63.
    pub fn set_execute_disable_flag(self, flag: bool) -> (r: Self)
        ensures
            r@ == with_bit(self@, 63, flag),
    {
        Self(set_bit(self.0, 63, flag))
    }

}

/// An entry of a level-3 table that points to a level-2 table. The page-size bit
/// must be clear.
#[derive(Clone, Copy, Debug)]
pub struct PageEntryLvl3(u64);

impl PageEntryLvl3 {
    /// The entry as the 64-bit word that goes into the table.
    pub closed spec fn view(&self) -> u64 {
        self.0
    }

    /// The entry with every bit clear: not present.
    pub fn zero() -> (r: Self)
        ensures
            r@ == 0,
    {
        Self(0)
    }

    /// A fresh entry: every bit clear.
    pub fn new() -> (r: Self)
        ensures
            r@ == 0,
    {
        Self::zero()
    }

    /// The entry that a table holds as the word `raw`.
    pub fn from_bits(raw: u64) -> (r: Self)
        ensures
            r@ == raw,
    {
        Self(raw)
    }

    /// The word that stands for the entry in a table.
    pub fn bits(&self) -> (r: u64)
        ensures
            r == self@,
    {
        self.0
    }

    /// Bit 0.
    pub fn is_present_set(&self) -> (r: bool)
        ensures
            r == bit_is_set(self@, 0),
    {
        get_bit(self.0, 0)
    }

    /// Bit 0.
    pub fn set_present_flag(self, flag: bool) -> (r: Self)
        ensures
            r@ == with_bit(self@, 0, flag),
    {
        Self(set_bit(self.0, 0, flag))
    }

    /// Bit 1.
    pub fn is_read_write_set(&self) -> (r: bool)
        ensures
            r == bit_is_set(self@, 1),
    {
        get_bit(self.0, 1)
    }

    /// Bit 1.
    pub fn set_read_write_flag(self, flag: bool) -> (r: Self)
        ensures
            r@ == with_bit(self@, 1, flag),
    {
        Self(set_bit(self.0, 1, flag))
    }

    /// Bit 2.
    pub fn is_user_access_set(&self) -> (r: bool)
        ensures
            r == bit_is_set(self@, 2),
    {
        get_bit(self.0, 2)
    }

    /// Bit 2.
    pub fn set_user_access_flag(self, flag: bool) -> (r: Self)
        ensures
            r@ == with_bit(self@, 2, flag),
    {
        Self(set_bit(self.0, 2, flag))
    }

    /// Bit 3.
    pub fn is_write_though_set(&self) -> (r: bool)
        ensures
            r == bit_is_set(self@, 3),
    {
        get_bit(self.0, 3)
    }

    /// Bit 3.
    pub fn set_write_though_flag(self, flag: bool) -> (r: Self)
        ensures
            r@ == with_bit(self@, 3, flag),
    {
        Self(set_bit(self.0, 3, flag))
    }

    /// Bit 4.
    pub fn is_cache_disable_set(&self) -> (r: bool)
        ensures
            r == bit_is_set(self@, 4),
    {
        get_bit(self.0, 4)
    }

    /// Bit 4.
    pub fn set_cache_disable_flag(self, flag: bool) -> (r: Self)
        ensures
            r@ == with_bit(self@, 4, flag),
    {
        Self(set_bit(self.0, 4, flag))
    }

    /// Bit 5.
    pub fn is_accessed_set(&self) -> (r: bool)
        ensures
            r == bit_is_set(self@, 5),
    {
        get_bit(self.0, 5)
    }

    /// Bit 5.
    pub fn set_accessed_flag(self, flag: bool) -> (r: Self)
        ensures
            r@ == with_bit(self@, 5, flag),
    {
        Self(set_bit(self.0, 5, flag))
    }

    /// Bit 7.
    pub fn is_page_size_set(&self) -> (r: bool)
        ensures
            r == bit_is_set(self@, 7),
    {
        get_bit(self.0, 7)
    }

    /// Bit 7.
    pub fn set_page_size_flag(self, flag: bool) -> (r: Self)
        ensures
            r@ == with_bit(self@, 7, flag),
    {
        Self(set_bit(self.0, 7, flag))
    }

    /// Bits 12 to 47.
    pub fn get_next_entry_phy_address(&self) -> (r: u64)
        ensures
            r == field_of(self@, 12, 48),
    {
        get_bit_range(self.0, 12, 48)
    }

    /// Bits 12 to 47. The value must fit into the field.
    pub fn set_next_entry_phy_address(self, value: u64) -> (r: Self)
        requires
            value <= low_mask(36),
        ensures
            r@ == with_field(self@, 12, 48, value),
    {
        Self(set_bit_range(self.0, 12, 48, value))
    }

    /// Bit 63.
    pub fn is_execute_disable_set(&self) -> (r: bool)
        ensures
            r == bit_is_set(self@, 63),
    {
        get_bit(self.0, 63)
    }

    /// Bit 63.
    pub fn set_execute_disable_flag(self, flag: bool) -> (r: Self)
        ensures
            r@ == with_bit(self@, 63, flag),
    {
        Self(set_bit(self.0, 63, flag))
    }

}

/// An entry of a level-4 table that points to a level-3 table. The page-size bit
/// must be clear.
#[derive(Clone, Copy, Debug)]
pub struct PageEntryLvl4(u64);

impl PageEntryLvl4 {
    /// The entry as the 64-bit word that goes into the table.
    pub closed spec fn view(&self) -> u64 {
        self.0
    }

    /// The entry with every bit clear: not present.
    pub fn zero() -> (r: Self)
        ensures
            r@ == 0,
    {
        Self(0)
    }

    /// A fresh entry: every bit clear.
    pub fn new() -> (r: Self)
        ensures
            r@ == 0,
    {
        Self::zero()
    }

    /// The entry that a table holds as the word `raw`.
    pub fn from_bits(raw: u64) -> (r: Self)
        ensures
            r@ == raw,
    {
        Self(raw)
    }

    /// The word that stands for the entry in a table.
    pub fn bits(&self) -> (r: u64)
        ensures
            r == self@,
    {
        self.0
    }

    /// Bit 0.
    pub fn is_present_set(&self) -> (r: bool)
        ensures
            r == bit_is_set(self@, 0),
    {
        get_bit(self.0, 0)
    }

    /// Bit 0.
    pub fn set_present_flag(self, flag: bool) -> (r: Self)
        ensures
            r@ == with_bit(self@, 0, flag),
    {
        Self(set_bit(self.0, 0, flag))
    }

    /// Bit 1.
    pub fn is_read_write_set(&self) -> (r: bool)
        ensures
            r == bit_is_set(self@, 1),
    {
        get_bit(self.0, 1)
    }

    /// Bit 1.
    pub fn set_read_write_flag(self, flag: bool) -> (r: Self)
        ensures
            r@ == with_bit(self@, 1, flag),
    {
        Self(set_bit(self.0, 1, flag))
    }

    /// Bit 2.
    pub fn is_user_access_set(&self) -> (r: bool)
        ensures
            r == bit_is_set(self@, 2),
    {
        get_bit(self.0, 2)
    }

    /// Bit 2.
    pub fn set_user_access_flag(self, flag: bool) -> (r: Self)
        ensures
            r@ == with_bit(self@, 2, flag),
    {
        Self(set_bit(self.0, 2, flag))
    }

    /// Bit 3.
    pub fn is_write_though_set(&self) -> (r: bool)
        ensures
            r == bit_is_set(self@, 3),
    {
        get_bit(self.0, 3)
    }

    /// Bit 3.
    pub fn set_write_though_flag(self, flag: bool) -> (r: Self)
        ensures
            r@ == with_bit(self@, 3, flag),
    {
        Self(set_bit(self.0, 3, flag))
    }

    /// Bit 4.
    pub fn is_cache_disable_set(&self) -> (r: bool)
        ensures
            r == bit_is_set(self@, 4),
    {
        get_bit(self.0, 4)
    }

    /// Bit 4.
    pub fn set_cache_disable_flag(self, flag: bool) -> (r: Self)
        ensures
            r@ == with_bit(self@, 4, flag),
    {
        Self(set_bit(self.0, 4, flag))
    }

    /// Bit 5.
    pub fn is_accessed_set(&self) -> (r: bool)
        ensures
            r == bit_is_set(self@, 5),
    {
        get_bit(self.0, 5)
    }

    /// Bit 5.
    pub fn set_accessed_flag(self, flag: bool) -> (r: Self)
        ensures
            r@ == with_bit(self@, 5, flag),
    {
        Self(set_bit(self.0, 5, flag))
    }

    /// Bit 7.
    pub fn is_page_size_set(&self) -> (r: bool)
        ensures
            r == bit_is_set(self@, 7),
    {
        get_bit(self.0, 7)
    }

    /// Bit 7.
    pub fn set_page_size_flag(self, flag: bool) -> (r: Self)
        ensures
            r@ == with_bit(self@, 7, flag),
    {
        Self(set_bit(self.0, 7, flag))
    }

    /// Bits 12 to 47.
    pub fn get_next_entry_phy_address(&self) -> (r: u64)
        ensures
            r == field_of(self@, 12, 48),
    {
        get_bit_range(self.0, 12, 48)
    }

    /// Bits 12 to 47. The value must fit into the field.
    pub fn set_next_entry_phy_address(self, value: u64) -> (r: Self)
        requires
            value <= low_mask(36),
        ensures
            r@ == with_field(self@, 12, 48, value),
    {
        Self(set_bit_range(self.0, 12, 48, value))
    }

    /// Bit 63.
    pub fn is_execute_disable_set(&self) -> (r: bool)
        ensures
            r == bit_is_set(self@, 63),
    {
        get_bit(self.0, 63)
    }

    /// Bit 63.
    pub fn set_execute_disable_flag(self, flag: bool) -> (r: Self)
        ensures
            r@ == with_bit(self@, 63, flag),
    {
        Self(set_bit(self.0, 63, flag))
    }

}

/// An entry of a level-5 table that points to a level-4 table. The page-size bit
/// must be clear.
#[derive(Clone, Copy, Debug)]
pub struct PageEntryLvl5(u64);

impl PageEntryLvl5 {
    /// The entry as the 64-bit word that goes into the table.
    pub closed spec fn view(&self) -> u64 {
        self.0
    }

    /// The entry with every bit clear: not present.
    pub fn zero() -> (r: Self)
        ensures
            r@ == 0,
    {
        Self(0)
    }

    /// A fresh entry: every bit clear.
    pub fn new() -> (r: Self)
        ensures
            r@ == 0,
    {
        Self::zero()
    }

    /// The entry that a table holds as the word `raw`.
    pub fn from_bits(raw: u64) -> (r: Self)
        ensures
            r@ == raw,
    {
        Self(raw)
    }

    /// The word that stands for the entry in a table.
    pub fn bits(&self) -> (r: u64)
        ensures
            r == self@,
    {
        self.0
    }

    /// Bit 0.
    pub fn is_present_set(&self) -> (r: bool)
        ensures
            r == bit_is_set(self@, 0),
    {
        get_bit(self.0, 0)
    }

    /// Bit 0.
    pub fn set_present_flag(self, flag: bool) -> (r: Self)
        ensures
            r@ == with_bit(self@, 0, flag),
    {
        Self(set_bit(self.0, 0, flag))
    }

    /// Bit 1.
    pub fn is_read_write_set(&self) -> (r: bool)
        ensures
            r == bit_is_set(self@, 1),
    {
        get_bit(self.0, 1)
    }

    /// Bit 1.
    pub fn set_read_write_flag(self, flag: bool) -> (r: Self)
        ensures
            r@ == with_bit(self@, 1, flag),
    {
        Self(set_bit(self.0, 1, flag))
    }

    /// Bit 2.
    pub fn is_user_access_set(&self) -> (r: bool)
        ensures
            r == bit_is_set(self@, 2),
    {
        get_bit(self.0, 2)
    }

    /// Bit 2.
    pub fn set_user_access_flag(self, flag: bool) -> (r: Self)
        ensures
            r@ == with_bit(self@, 2, flag),
    {
        Self(set_bit(self.0, 2, flag))
    }

    /// Bit 3.
    pub fn is_write_though_set(&self) -> (r: bool)
        ensures
            r == bit_is_set(self@, 3),
    {
        get_bit(self.0, 3)
    }

    /// Bit 3.
    pub fn set_write_though_flag(self, flag: bool) -> (r: Self)
        ensures
            r@ == with_bit(self@, 3, flag),
    {
        Self(set_bit(self.0, 3, flag))
    }

    /// Bit 4.
    pub fn is_cache_disable_set(&self) -> (r: bool)
        ensures
            r == bit_is_set(self@, 4),
    {
        get_bit(self.0, 4)
    }

    /// Bit 4.
    pub fn set_cache_disable_flag(self, flag: bool) -> (r: Self)
        ensures
            r@ == with_bit(self@, 4, flag),
    {
        Self(set_bit(self.0, 4, flag))
    }

    /// Bit 5.
    pub fn is_accessed_set(&self) -> (r: bool)
        ensures
            r == bit_is_set(self@, 5),
    {
        get_bit(self.0, 5)
    }

    /// Bit 5.
    pub fn set_accessed_flag(self, flag: bool) -> (r: Self)
        ensures
            r@ == with_bit(self@, 5, flag),
    {
        Self(set_bit(self.0, 5, flag))
    }

    /// Bit 7.
    pub fn is_page_size_set(&self) -> (r: bool)
        ensures
            r == bit_is_set(self@, 7),
    {
        get_bit(self.0, 7)
    }

    /// Bit 7.
    pub fn set_page_size_flag(self, flag: bool) -> (r: Self)
        ensures
            r@ == with_bit(self@, 7, flag),
    {
        Self(set_bit(self.0, 7, flag))
    }

    /// Bits 12 to 47.
    pub fn get_next_entry_phy_address(&self) -> (r: u64)
        ensures
            r == field_of(self@, 12, 48),
    {
        get_bit_range(self.0, 12, 48)
    }

    /// Bits 12 to 47. The value must fit into the field.
    pub fn set_next_entry_phy_address(self, value: u64) -> (r: Self)
        requires
            value <= low_mask(36),
        ensures
            r@ == with_field(self@, 12, 48, value),
    {
        Self(set_bit_range(self.0, 12, 48, value))
    }

    /// Bit 63.
    pub fn is_execute_disable_set(&self) -> (r: bool)
        ensures
            r == bit_is_set(self@, 63),
    {
        get_bit(self.0, 63)
    }

    /// Bit 63.
    pub fn set_execute_disable_flag(self, flag: bool) -> (r: Self)
        ensures
            r@ == with_bit(self@, 63, flag),
    {
        Self(set_bit(self.0, 63, flag))
    }

}

impl PageEntry4K {
    /// Points the entry at the 4 KiB page that starts at `page`. The type of
    /// the address vouches for its alignment; beyond that, the address
    /// must fit into 48 bits.
    pub fn set_page_address(self, page: PhysPage<4096>) -> (r: Self)
        requires
            page.wf(),
            page@ < 0x1_0000_0000_0000,
        ensures
            r@ == with_field(self@, 12, 48, (page@ / 4096) as u64),
            field_of(r@, 12, 48) * 4096 == page@,
    {
        let raw: u64 = page.get();
        proof {
            lemma_low_mask_values();
            crate::bits::lemma_with_field(self@, 12, 48, (raw / 4096) as u64, 0);
        }
        assert(raw / 4096 <= 0xfffffffffu64 && (raw / 4096) & 0xfffffffffu64 == raw / 4096) by (bit_vector)
            requires
                raw < 0x1_0000_0000_0000u64,
        ;
        self.set_virt_address(raw / 4096)
    }
}

impl PageEntry2M {
    /// Points the entry at the 2 MiB page that starts at `page`. The type of
    /// the address vouches for its alignment; beyond that, the address
    /// must fit into 48 bits.
    pub fn set_page_address(self, page: PhysPage<2097152>) -> (r: Self)
        requires
            page.wf(),
            page@ < 0x1_0000_0000_0000,
        ensures
            r@ == with_field(self@, 21, 48, (page@ / 2097152) as u64),
            field_of(r@, 21, 48) * 2097152 == page@,
    {
        let raw: u64 = page.get();
        proof {
            lemma_low_mask_values();
            crate::bits::lemma_with_field(self@, 21, 48, (raw / 2097152) as u64, 0);
        }
        assert(raw / 2097152 <= 0x7ffffffu64 && (raw / 2097152) & 0x7ffffffu64 == raw / 2097152) by (bit_vector)
            requires
                raw < 0x1_0000_0000_0000u64,
        ;
        self.set_virt_address(raw / 2097152)
    }
}

impl PageEntryLvl2 {
    /// Points the entry at the table that starts at `table`. The type of
    /// the address vouches for its alignment; beyond that, the address
    /// must fit into 48 bits.
    pub fn set_next_table(self, table: PhysPage<4096>) -> (r: Self)
        requires
            table.wf(),
            table@ < 0x1_0000_0000_0000,
        ensures
            r@ == with_field(self@, 12, 48, (table@ / 4096) as u64),
            field_of(r@, 12, 48) * 4096 == table@,
    {
        let raw: u64 = table.get();
        proof {
            lemma_low_mask_values();
            crate::bits::lemma_with_field(self@, 12, 48, (raw / 4096) as u64, 0);
        }
        assert(raw / 4096 <= 0xf_ffff_ffffu64 && (raw / 4096) & 0xf_ffff_ffffu64 == raw / 4096)
            by (bit_vector)
            requires
                raw < 0x1_0000_0000_0000u64,
        ;
        self.set_next_entry_phy_address(raw / 4096)
    }
}

impl PageEntryLvl3 {
    /// Points the entry at the table that starts at `table`. The type of
    /// the address vouches for its alignment; beyond that, the address
    /// must fit into 48 bits.
    pub fn set_next_table(self, table: PhysPage<4096>) -> (r: Self)
        requires
            table.wf(),
            table@ < 0x1_0000_0000_0000,
        ensures
            r@ == with_field(self@, 12, 48, (table@ / 4096) as u64),
            field_of(r@, 12, 48) * 4096 == table@,
    {
        let raw: u64 = table.get();
        proof {
            lemma_low_mask_values();
            crate::bits::lemma_with_field(self@, 12, 48, (raw / 4096) as u64, 0);
        }
        assert(raw / 4096 <= 0xf_ffff_ffffu64 && (raw / 4096) & 0xf_ffff_ffffu64 == raw / 4096)
            by (bit_vector)
            requires
                raw < 0x1_0000_0000_0000u64,
        ;
        self.set_next_entry_phy_address(raw / 4096)
    }
}

impl PageEntryLvl4 {
    /// Points the entry at the table that starts at `table`. The type of
    /// the address vouches for its alignment; beyond that, the address
    /// must fit into 48 bits.
    pub fn set_next_table(self, table: PhysPage<4096>) -> (r: Self)
        requires
            table.wf(),
            table@ < 0x1_0000_0000_0000,
        ensures
            r@ == with_field(self@, 12, 48, (table@ / 4096) as u64),
            field_of(r@, 12, 48) * 4096 == table@,
    {
        let raw: u64 = table.get();
        proof {
            lemma_low_mask_values();
            crate::bits::lemma_with_field(self@, 12, 48, (raw / 4096) as u64, 0);
        }
        assert(raw / 4096 <= 0xf_ffff_ffffu64 && (raw / 4096) & 0xf_ffff_ffffu64 == raw / 4096)
            by (bit_vector)
            requires
                raw < 0x1_0000_0000_0000u64,
        ;
        self.set_next_entry_phy_address(raw / 4096)
    }
}

impl PageEntryLvl5 {
    /// Points the entry at the table that starts at `table`. The type of
    /// the address vouches for its alignment; beyond that, the address
    /// must fit into 48 bits.
    pub fn set_next_table(self, table: PhysPage<4096>) -> (r: Self)
        requires
            table.wf(),
            table@ < 0x1_0000_0000_0000,
        ensures
            r@ == with_field(self@, 12, 48, (table@ / 4096) as u64),
            field_of(r@, 12, 48) * 4096 == table@,
    {
        let raw: u64 = table.get();
        proof {
            lemma_low_mask_values();
            crate::bits::lemma_with_field(self@, 12, 48, (raw / 4096) as u64, 0);
        }
        assert(raw / 4096 <= 0xf_ffff_ffffu64 && (raw / 4096) & 0xf_ffff_ffffu64 == raw / 4096)
            by (bit_vector)
            requires
                raw < 0x1_0000_0000_0000u64,
        ;
        self.set_next_entry_phy_address(raw / 4096)
    }
}

/// The word of a present, writable, supervisor-only, executable 2 MiB leaf
/// entry for the 2 MiB page with index `page`.
pub open spec fn huge_page_bits(page: u64) -> u64 {
    0x83 | (page << 21)
}

/// The word of a present, writable, supervisor-only, executable entry that
/// points to the table at physical address `table`.
pub open spec fn table_pointer_bits(table: u64) -> u64 {
    0x3 | table
}

/// Whether the address of a table can stand in an entry: it is aligned to
/// 4 KiB and no wider than the entry's address field.
pub open spec fn is_table_address(table: u64) -> bool {
    table % 4096 == 0 && table < 0x1_0000_0000_0000
}

impl PageEntry2M {
    /// The entry that maps the 2 MiB page with index `page` for the kernel:
    /// present, writable, executable, not accessible to user code.
    pub fn kernel_huge_page(page: u64) -> (r: Self)
        requires
            page <= low_mask(27),
        ensures
            r@ == huge_page_bits(page),
    {
        proof {
            lemma_low_mask_values();
        }
        let r = Self::new().set_present_flag(true).set_read_write_flag(true).set_execute_disable_flag(
            false,
        ).set_user_accessed_flag(false).set_virt_address(page);
        assert(r@ == huge_page_bits(page)) by {
            let raw = r@;
            assert(raw == 0x83 | (page << 21)) by (bit_vector)
                requires
                    page <= 0x7ff_ffffu64,
                    raw == ((((((0u64 | (1u64 << 7)) | (1u64 << 0)) | (1u64 << 1)) & !(1u64 << 63))
                        & !(1u64 << 2)) & !(0x7ff_ffffu64 << 21)) | ((page & 0x7ff_ffffu64) << 21),
            ;
        }
        r
    }
}

impl PageEntryLvl3 {
    /// The entry that points to the table at physical address `table` for
    /// the kernel: present, writable, executable, not accessible to user
    /// code.
    pub fn kernel_table_pointer(table: u64) -> (r: Self)
        requires
            is_table_address(table),
        ensures
            r@ == table_pointer_bits(table),
    {
        assert(table >> 12 <= 0xf_ffff_ffffu64) by (bit_vector)
            requires
                table < 0x1_0000_0000_0000u64,
        ;
        proof {
            lemma_low_mask_values();
        }
        let r = Self::new().set_present_flag(true).set_read_write_flag(true).set_execute_disable_flag(
            false,
        ).set_user_access_flag(false).set_next_entry_phy_address(table >> 12);
        assert(r@ == table_pointer_bits(table)) by {
            let raw = r@;
            assert(raw == 0x3 | table) by (bit_vector)
                requires
                    table % 4096 == 0,
                    table < 0x1_0000_0000_0000u64,
                    raw == (((((0u64 | (1u64 << 0)) | (1u64 << 1)) & !(1u64 << 63)) & !(1u64 << 2))
                        & !(0xf_ffff_ffffu64 << 12)) | (((table >> 12) & 0xf_ffff_ffffu64) << 12),
            ;
        }
        r
    }
}

impl PageEntryLvl4 {
    /// The entry that points to the table at physical address `table` for
    /// the kernel: present, writable, executable, not accessible to user
    /// code.
    pub fn kernel_table_pointer(table: u64) -> (r: Self)
        requires
            is_table_address(table),
        ensures
            r@ == table_pointer_bits(table),
    {
        assert(table >> 12 <= 0xf_ffff_ffffu64) by (bit_vector)
            requires
                table < 0x1_0000_0000_0000u64,
        ;
        proof {
            lemma_low_mask_values();
        }
        let r = Self::new().set_present_flag(true).set_read_write_flag(true).set_execute_disable_flag(
            false,
        ).set_user_access_flag(false).set_next_entry_phy_address(table >> 12);
        assert(r@ == table_pointer_bits(table)) by {
            let raw = r@;
            assert(raw == 0x3 | table) by (bit_vector)
                requires
                    table % 4096 == 0,
                    table < 0x1_0000_0000_0000u64,
                    raw == (((((0u64 | (1u64 << 0)) | (1u64 << 1)) & !(1u64 << 63)) & !(1u64 << 2))
                        & !(0xf_ffff_ffffu64 << 12)) | (((table >> 12) & 0xf_ffff_ffffu64) << 12),
            ;
        }
        r
    }
}

/// A level-5 table: 512 entries, each one 64-bit word.
#[derive(Clone, Copy, Debug)]
pub struct PageMapLvl5([u64; 512]);

impl PageMapLvl5 {
    /// The words of the table, in entry order.
    pub closed spec fn view(&self) -> Seq<u64> {
        self.0@
    }

    /// A table in which no entry is present.
    pub fn new() -> (r: Self)
        ensures
            r@.len() == 512,
            forall|i: int| 0 <= i < 512 ==> r@[i] == 0,
    {
        Self([0u64; 512])
    }

    /// The word of entry `index`.
    pub fn entry_bits(&self, index: usize) -> (r: u64)
        requires
            index < 512,
        ensures
            r == self@[index as int],
    {
        self.0[index]
    }

    /// Writes `raw` as entry `index`; there is no entry 512 or beyond.
    pub fn set_entry_bits(&mut self, index: usize, raw: u64) -> (r: Result<(), MemoryError>)
        ensures
            old(self)@.len() == 512,
            index < 512 ==> r is Ok && final(self)@ == old(self)@.update(index as int, raw),
            index >= 512 ==> r == Err::<(), MemoryError>(MemoryError::InvalidSize) && final(self)@
                == old(self)@,
    {
        if index >= 512 {
            return Err(MemoryError::InvalidSize);
        }
        let mut words = self.0;
        words[index] = raw;
        *self = Self(words);
        Ok(())
    }
}

/// A level-4 table: 512 entries, each one 64-bit word.
#[derive(Clone, Copy, Debug)]
pub struct PageMapLvl4([u64; 512]);

impl PageMapLvl4 {
    /// The words of the table, in entry order.
    pub closed spec fn view(&self) -> Seq<u64> {
        self.0@
    }

    /// A table in which no entry is present.
    pub fn new() -> (r: Self)
        ensures
            r@.len() == 512,
            forall|i: int| 0 <= i < 512 ==> r@[i] == 0,
    {
        Self([0u64; 512])
    }

    /// The word of entry `index`.
    pub fn entry_bits(&self, index: usize) -> (r: u64)
        requires
            index < 512,
        ensures
            r == self@[index as int],
    {
        self.0[index]
    }

    /// Writes `raw` as entry `index`; there is no entry 512 or beyond.
    pub fn set_entry_bits(&mut self, index: usize, raw: u64) -> (r: Result<(), MemoryError>)
        ensures
            old(self)@.len() == 512,
            index < 512 ==> r is Ok && final(self)@ == old(self)@.update(index as int, raw),
            index >= 512 ==> r == Err::<(), MemoryError>(MemoryError::InvalidSize) && final(self)@
                == old(self)@,
    {
        if index >= 512 {
            return Err(MemoryError::InvalidSize);
        }
        let mut words = self.0;
        words[index] = raw;
        *self = Self(words);
        Ok(())
    }
}

/// A level-3 table: 512 entries, each one 64-bit word.
#[derive(Clone, Copy, Debug)]
pub struct PageMapLvl3([u64; 512]);

impl PageMapLvl3 {
    /// The words of the table, in entry order.
    pub closed spec fn view(&self) -> Seq<u64> {
        self.0@
    }

    /// A table in which no entry is present.
    pub fn new() -> (r: Self)
        ensures
            r@.len() == 512,
            forall|i: int| 0 <= i < 512 ==> r@[i] == 0,
    {
        Self([0u64; 512])
    }

    /// The word of entry `index`.
    pub fn entry_bits(&self, index: usize) -> (r: u64)
        requires
            index < 512,
        ensures
            r == self@[index as int],
    {
        self.0[index]
    }

    /// Writes `raw` as entry `index`; there is no entry 512 or beyond.
    pub fn set_entry_bits(&mut self, index: usize, raw: u64) -> (r: Result<(), MemoryError>)
        ensures
            old(self)@.len() == 512,
            index < 512 ==> r is Ok && final(self)@ == old(self)@.update(index as int, raw),
            index >= 512 ==> r == Err::<(), MemoryError>(MemoryError::InvalidSize) && final(self)@
                == old(self)@,
    {
        if index >= 512 {
            return Err(MemoryError::InvalidSize);
        }
        let mut words = self.0;
        words[index] = raw;
        *self = Self(words);
        Ok(())
    }
}

/// A level-2 table: 512 entries, each one 64-bit word.
#[derive(Clone, Copy, Debug)]
pub struct PageMapLvl2([u64; 512]);

impl PageMapLvl2 {
    /// The words of the table, in entry order.
    pub closed spec fn view(&self) -> Seq<u64> {
        self.0@
    }

    /// A table in which no entry is present.
    pub fn new() -> (r: Self)
        ensures
            r@.len() == 512,
            forall|i: int| 0 <= i < 512 ==> r@[i] == 0,
    {
        Self([0u64; 512])
    }

    /// The word of entry `index`.
    pub fn entry_bits(&self, index: usize) -> (r: u64)
        requires
            index < 512,
        ensures
            r == self@[index as int],
    {
        self.0[index]
    }

    /// Writes `raw` as entry `index`; there is no entry 512 or beyond.
    pub fn set_entry_bits(&mut self, index: usize, raw: u64) -> (r: Result<(), MemoryError>)
        ensures
            old(self)@.len() == 512,
            index < 512 ==> r is Ok && final(self)@ == old(self)@.update(index as int, raw),
            index >= 512 ==> r == Err::<(), MemoryError>(MemoryError::InvalidSize) && final(self)@
                == old(self)@,
    {
        if index >= 512 {
            return Err(MemoryError::InvalidSize);
        }
        let mut words = self.0;
        words[index] = raw;
        *self = Self(words);
        Ok(())
    }
}

/// The tables that map the first gibibytes of memory onto themselves with
/// 2 MiB pages.
pub struct BootPageTables {
    pub level4: PageMapLvl4,
    pub level3: PageMapLvl3,
    pub level2: Vec<PageMapLvl2>,
}

impl PageMapLvl2 {
    /// Fills the table with the 512 kernel leaf entries that cover gibibyte
    /// `gib` of memory.
    pub fn fill_identity(&mut self, gib: u64)
        requires
            gib < 0x4_0000,
        ensures
            final(self)@.len() == 512,
            forall|i: int| 0 <= i < 512 ==> final(self)@[i] == huge_page_bits((gib * 512 + i) as u64),
    {
        let mut i: usize = 0;
        while i < 512
            invariant
                i <= 512,
                gib < 0x4_0000,
                self@.len() == 512,
                forall|j: int| 0 <= j < i ==> self@[j] == huge_page_bits((gib * 512 + j) as u64),
            decreases 512 - i,
        {
            proof {
                lemma_low_mask_values();
            }
            let page: u64 = gib * 512 + i as u64;
            let entry = PageEntry2M::kernel_huge_page(page);
            let _ = self.set_entry_bits(i, entry.bits());
            i += 1;
        }
    }
}

/// Builds the boot tables in the fixed order: first every level-2 table,
/// then the level-3 entries that point to them, then the one level-4 entry
/// that points to the level-3 table. `level2_tables` gives, for each
/// gibibyte to map, the physical address where its level-2 table will
/// stand, and `level3_table` the address of the level-3 table.
pub fn build_boot_tables(level3_table: u64, level2_tables: &Vec<u64>) -> (r: BootPageTables)
    requires
        is_table_address(level3_table),
        level2_tables@.len() <= 512,
        forall|t: int| 0 <= t < level2_tables@.len() ==> is_table_address(#[trigger] level2_tables@[t]),
    ensures
        r.level2@.len() == level2_tables@.len(),
        forall|t: int, i: int|
            0 <= t < level2_tables@.len() && 0 <= i < 512 ==> #[trigger] r.level2@[t]@[i]
                == huge_page_bits((t * 512 + i) as u64),
        r.level3@.len() == 512,
        forall|t: int|
            0 <= t < 512 ==> #[trigger] r.level3@[t] == if t < level2_tables@.len() {
                table_pointer_bits(level2_tables@[t])
            } else {
                0
            },
        r.level4@.len() == 512,
        r.level4@[0] == table_pointer_bits(level3_table),
        forall|t: int| 1 <= t < 512 ==> #[trigger] r.level4@[t] == 0,
{
    let mut level4 = PageMapLvl4::new();
    let mut level3 = PageMapLvl3::new();
    let mut level2: Vec<PageMapLvl2> = Vec::new();
    let mut offset: usize = 0;
    while offset < level2_tables.len()
        invariant
            offset <= level2_tables@.len() <= 512,
            forall|t: int| 0 <= t < level2_tables@.len() ==> is_table_address(#[trigger] level2_tables@[t]),
            level2@.len() == offset,
            forall|t: int, i: int|
                0 <= t < offset && 0 <= i < 512 ==> #[trigger] level2@[t]@[i] == huge_page_bits(
                    (t * 512 + i) as u64,
                ),
            level3@.len() == 512,
            forall|t: int|
                0 <= t < 512 ==> #[trigger] level3@[t] == if t < offset {
                    table_pointer_bits(level2_tables@[t])
                } else {
                    0
                },
        decreases level2_tables@.len() - offset,
    {
        let mut table = PageMapLvl2::new();
        table.fill_identity(offset as u64);
        level2.push(table);
        let pointer = PageEntryLvl3::kernel_table_pointer(level2_tables[offset]);
        let _ = level3.set_entry_bits(offset, pointer.bits());
        offset += 1;
    }
    let root = PageEntryLvl4::kernel_table_pointer(level3_table);
    let _ = level4.set_entry_bits(0, root.bits());
    BootPageTables { level4, level3, level2 }
}

/// One step of the switch from the tables that are live to the boot
/// tables.
#[derive(Clone, Copy, Debug, PartialEq, Eq, Structural)]
pub enum PagingStep {
    /// Clear the paging bit of CR0.
    DisablePaging,
    /// Set the physical-address-extension bit of CR4.
    EnablePhysicalAddressExtension,
    /// Set the page-size-extension bit of CR4.
    EnablePageSizeExtension,
    /// Set the long-mode-enable bit of IA32_EFER.
    EnableLongMode,
    /// Load CR3 with the physical address of the level-4 table.
    LoadPageDirectoryBase(u64),
    /// Set the protected-mode bit of CR0.
    EnableProtectedMode,
    /// Set the paging bit of CR0.
    EnablePaging,
    /// Reload every segment register with the given selector.
    ReloadSegments(u16),
}

/// The selector of the kernel data segment.
pub const KERNEL_DATA_SELECTOR: u16 = 0x10;

/// The steps of the switch, in the order in which the hardware wants them.
pub open spec fn paging_switch_plan(level4_table: u64) -> Seq<PagingStep> {
    seq![
        PagingStep::DisablePaging,
        PagingStep::EnablePhysicalAddressExtension,
        PagingStep::EnablePageSizeExtension,
        PagingStep::EnableLongMode,
        PagingStep::LoadPageDirectoryBase(level4_table),
        PagingStep::EnableProtectedMode,
        PagingStep::EnablePaging,
        PagingStep::ReloadSegments(KERNEL_DATA_SELECTOR),
    ]
}

/// The step to take after `done` steps have been taken, or nothing when the
/// switch is complete.
pub fn paging_switch_step(done: usize, level4_table: u64) -> (r: Option<PagingStep>)
    ensures
        r == if done < paging_switch_plan(level4_table).len() {
            Some(paging_switch_plan(level4_table)[done as int])
        } else {
            None
        },
{
    if done == 0 {
        Some(PagingStep::DisablePaging)
    } else if done == 1 {
        Some(PagingStep::EnablePhysicalAddressExtension)
    } else if done == 2 {
        Some(PagingStep::EnablePageSizeExtension)
    } else if done == 3 {
        Some(PagingStep::EnableLongMode)
    } else if done == 4 {
        Some(PagingStep::LoadPageDirectoryBase(level4_table))
    } else if done == 5 {
        Some(PagingStep::EnableProtectedMode)
    } else if done == 6 {
        Some(PagingStep::EnablePaging)
    } else if done == 7 {
        Some(PagingStep::ReloadSegments(KERNEL_DATA_SELECTOR))
    } else {
        None
    }
}

/// The level-4 table is loaded only while paging is off, and only after
/// physical address extension and long mode are on; paging comes back on
/// after the load, and the segment registers are reloaded last.
pub proof fn lemma_paging_switch_order(level4_table: u64, i: int)
    requires
        0 <= i < paging_switch_plan(level4_table).len(),
    ensures
        paging_switch_plan(level4_table)[i] == PagingStep::LoadPageDirectoryBase(level4_table)
            ==> {
            &&& exists|j: int| 0 <= j < i && paging_switch_plan(level4_table)[j] == PagingStep::DisablePaging
            &&& exists|j: int|
                0 <= j < i && paging_switch_plan(level4_table)[j]
                    == PagingStep::EnablePhysicalAddressExtension
            &&& exists|j: int| 0 <= j < i && paging_switch_plan(level4_table)[j] == PagingStep::EnableLongMode
            &&& forall|j: int|
                0 <= j < i ==> paging_switch_plan(level4_table)[j] != PagingStep::EnablePaging
            &&& exists|j: int|
                i < j < paging_switch_plan(level4_table).len() && paging_switch_plan(level4_table)[j]
                    == PagingStep::EnablePaging
        },
        paging_switch_plan(level4_table).last() == PagingStep::ReloadSegments(KERNEL_DATA_SELECTOR),
{
    let plan = paging_switch_plan(level4_table);
    if plan[i] == PagingStep::LoadPageDirectoryBase(level4_table) {
        assert(i == 4);
        assert(plan[0] == PagingStep::DisablePaging);
        assert(plan[1] == PagingStep::EnablePhysicalAddressExtension);
        assert(plan[3] == PagingStep::EnableLongMode);
        assert(plan[6] == PagingStep::EnablePaging);
    }
}

} // verus!
