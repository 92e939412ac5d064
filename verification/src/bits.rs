//! Single bits and bit ranges of a 64-bit word.
//!
//! Bit 0 is the least significant bit. A range `lo..hi` holds the bits from
//! `lo` up to, but not including, `hi`.

use vstd::prelude::*;

verus! {

/// Whether bit `bit` of `raw` is one.
pub open spec fn bit_is_set(raw: u64, bit: u64) -> bool {
    raw & (1u64 << bit) != 0
}

/// `raw` with bit `bit` made one or zero.
pub open spec fn with_bit(raw: u64, bit: u64, flag: bool) -> u64 {
    if flag {
        raw | (1u64 << bit)
    } else {
        raw & !(1u64 << bit)
    }
}

/// Ones in the lowest `width` bits.
pub open spec fn low_mask(width: u64) -> u64 {
    if width >= 64 {
        u64::MAX
    } else {
        ((1u64 << width) - 1) as u64
    }
}

/// The bits `lo..hi` of `raw`, moved down to bit 0.
pub open spec fn field_of(raw: u64, lo: u64, hi: u64) -> u64 {
    (raw >> lo) & low_mask((hi - lo) as u64)
}

/// `raw` with the bits `lo..hi` replaced by the low bits of `value`.
pub open spec fn with_field(raw: u64, lo: u64, hi: u64, value: u64) -> u64 {
    (raw & !(low_mask((hi - lo) as u64) << lo)) | ((value & low_mask((hi - lo) as u64)) << lo)
}

pub fn get_bit(raw: u64, bit: u64) -> (r: bool)
    requires
        bit < 64,
    ensures
        r == bit_is_set(raw, bit),
{
    raw & (1u64 << bit) != 0
}

pub fn set_bit(raw: u64, bit: u64, flag: bool) -> (r: u64)
    requires
        bit < 64,
    ensures
        r == with_bit(raw, bit, flag),
{
    if flag {
        raw | (1u64 << bit)
    } else {
        raw & !(1u64 << bit)
    }
}

fn mask_of(width: u64) -> (r: u64)
    ensures
        r == low_mask(width),
{
    if width >= 64 {
        u64::MAX
    } else {
        assert((1u64 << width) >= 1) by (bit_vector)
            requires
                width < 64,
        ;
        (1u64 << width) - 1
    }
}

pub fn get_bit_range(raw: u64, lo: u64, hi: u64) -> (r: u64)
    requires
        lo < hi <= 64,
    ensures
        r == field_of(raw, lo, hi),
{
    (raw >> lo) & mask_of(hi - lo)
}

pub fn set_bit_range(raw: u64, lo: u64, hi: u64, value: u64) -> (r: u64)
    requires
        lo < hi <= 64,
    ensures
        r == with_field(raw, lo, hi, value),
{
    let mask: u64 = mask_of(hi - lo);
    (raw & !(mask << lo)) | ((value & mask) << lo)
}

/// The masks of the field widths that page-table entries use.
pub proof fn lemma_low_mask_values()
    ensures
        low_mask(3) == 0x7,
        low_mask(27) == 0x7ff_ffff,
        low_mask(36) == 0xf_ffff_ffff,
{
    assert((1u64 << 3) == 0x8) by (bit_vector);
    assert((1u64 << 27) == 0x800_0000) by (bit_vector);
    assert((1u64 << 36) == 0x10_0000_0000) by (bit_vector);
}

/// A bit that was written reads back as written, and no other bit moves.
pub proof fn lemma_with_bit(raw: u64, bit: u64, flag: bool, other: u64)
    requires
        bit < 64,
        other < 64,
    ensures
        bit_is_set(with_bit(raw, bit, flag), bit) == flag,
        other != bit ==> bit_is_set(with_bit(raw, bit, flag), other) == bit_is_set(raw, other),
{
    assert(bit < 64 ==> (raw | (1u64 << bit)) & (1u64 << bit) != 0) by (bit_vector);
    assert(bit < 64 ==> (raw & !(1u64 << bit)) & (1u64 << bit) == 0) by (bit_vector);
    assert(bit < 64 && other < 64 && other != bit ==> (raw | (1u64 << bit)) & (1u64 << other) == raw
        & (1u64 << other)) by (bit_vector);
    assert(bit < 64 && other < 64 && other != bit ==> (raw & !(1u64 << bit)) & (1u64 << other)
        == raw & (1u64 << other)) by (bit_vector);
}

/// A range that was written reads back as the low bits of what was
/// written, and a bit outside the range does not move.
pub proof fn lemma_with_field(raw: u64, lo: u64, hi: u64, value: u64, other: u64)
    requires
        lo < hi <= 64,
        other < 64,
    ensures
        field_of(with_field(raw, lo, hi, value), lo, hi) == value & low_mask((hi - lo) as u64),
        other < lo || other >= hi ==> bit_is_set(with_field(raw, lo, hi, value), other)
            == bit_is_set(raw, other),
{
    let mask = low_mask((hi - lo) as u64);
    let width = (hi - lo) as u64;
    assert((((raw & !(mask << lo)) | ((value & mask) << lo)) >> lo) & mask == value & mask)
        by (bit_vector)
        requires
            lo < hi <= 64,
            width == hi - lo,
            mask == if width >= 64 {
                0xffff_ffff_ffff_ffffu64
            } else {
                ((1u64 << width) - 1) as u64
            },
    ;
    assert((other < lo || other >= hi) ==> ((raw & !(mask << lo)) | ((value & mask) << lo)) & (1u64
        << other) == raw & (1u64 << other)) by (bit_vector)
        requires
            lo < hi <= 64,
            other < 64,
            width == hi - lo,
            mask == if width >= 64 {
                0xffff_ffff_ffff_ffffu64
            } else {
                ((1u64 << width) - 1) as u64
            },
    ;
}

} // verus!
