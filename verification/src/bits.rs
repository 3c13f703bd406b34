//! Bit ranges of a 64-bit word: reading a field and replacing one.
//!
//! A field is given by the index of its lowest bit and its width. Every
//! register and command word of the display hardware is described with
//! these two operations; a 32-bit register is a 64-bit word whose upper
//! half is zero.

use vstd::prelude::*;

verus! {

/// The word whose low `width` bits are set and whose other bits are clear.
pub open spec fn low_mask(width: u32) -> u64 {
    if width >= 64 {
        0xFFFF_FFFF_FFFF_FFFF
    } else {
        ((1u64 << width) - 1) as u64
    }
}

/// The field of `raw` that starts at bit `start` and is `width` bits wide,
/// moved down to bit 0.
pub open spec fn field(raw: u64, start: u32, width: u32) -> u64 {
    (raw >> start) & low_mask(width)
}

/// `raw` with the field at `start` of `width` bits replaced by the low
/// `width` bits of `value`.
pub open spec fn with_field(raw: u64, start: u32, width: u32, value: u64) -> u64 {
    (raw & !(low_mask(width) << start)) | ((value & low_mask(width)) << start)
}

/// Whether bit `index` of `raw` is set.
pub open spec fn flag(raw: u64, index: u32) -> bool {
    field(raw, index, 1) == 1
}

/// `raw` with bit `index` set or cleared.
pub open spec fn with_flag(raw: u64, index: u32, value: bool) -> u64 {
    with_field(raw, index, 1, if value { 1 } else { 0 })
}

/// A field lies within a word of `bits` bits.
pub open spec fn fits(start: u32, width: u32, bits: u32) -> bool {
    1 <= width && start + width <= bits
}

/// Computes the mask of the low `width` bits.
pub fn mask_of(width: u32) -> (mask: u64)
    ensures
        mask == low_mask(width),
{
    if width >= 64 {
        0xFFFF_FFFF_FFFF_FFFF
    } else {
        assert((1u64 << width) >= 1) by (bit_vector)
            requires
                width < 64,
        ;
        (1u64 << width) - 1
    }
}

/// Reads the field at `start` of `width` bits.
pub fn get_bits(raw: u64, start: u32, width: u32) -> (value: u64)
    requires
        fits(start, width, 64),
    ensures
        value == field(raw, start, width),
        value <= low_mask(width),
{
    let mask: u64 = mask_of(width);
    let moved: u64 = raw >> start;
    assert(moved & mask <= mask) by (bit_vector);
    moved & mask
}

/// Replaces the field at `start` of `width` bits by the low `width` bits
/// of `value`.
pub fn with_bits(raw: u64, start: u32, width: u32, value: u64) -> (out: u64)
    requires
        fits(start, width, 64),
    ensures
        out == with_field(raw, start, width, value),
{
    let mask: u64 = mask_of(width);
    (raw & !(mask << start)) | ((value & mask) << start)
}

/// Reads bit `index`.
pub fn get_bit(raw: u64, index: u32) -> (value: bool)
    requires
        index < 64,
    ensures
        value == flag(raw, index),
{
    get_bits(raw, index, 1) == 1
}

/// Sets or clears bit `index`.
pub fn with_bit(raw: u64, index: u32, value: bool) -> (out: u64)
    requires
        index < 64,
    ensures
        out == with_flag(raw, index, value),
{
    with_bits(raw, index, 1, if value { 1 } else { 0 })
}

/// Replaces a field of a 32-bit word; the result is a 32-bit word again.
pub fn with_bits32(raw: u32, start: u32, width: u32, value: u32) -> (out: u32)
    requires
        fits(start, width, 32),
    ensures
        out == with_field(raw as u64, start, width, value as u64),
{
    proof {
        lemma_with_field_stays_narrow(raw as u64, start, width, value as u64);
    }
    with_bits(raw as u64, start, width, value as u64) as u32
}

/// A field that has been written reads back as the low bits of the value
/// written.
pub proof fn lemma_field_reads_back(raw: u64, start: u32, width: u32, value: u64)
    requires
        fits(start, width, 64),
    ensures
        field(with_field(raw, start, width, value), start, width) == value & low_mask(width),
        value <= low_mask(width) ==> field(with_field(raw, start, width, value), start, width)
            == value,
{
    let mask = low_mask(width);
    assert((((raw & !(mask << start)) | ((value & mask) << start)) >> start) & mask == value
        & mask && (value <= mask ==> value & mask == value)) by (bit_vector)
        requires
            start < 64,
            mask == (if width >= 64 {
                0xFFFF_FFFF_FFFF_FFFFu64
            } else {
                ((1u64 << width) - 1) as u64
            }),
            1 <= width,
            start + width <= 64,
    ;
}

/// Writing a field leaves every field that does not overlap it as it was.
pub proof fn lemma_field_elsewhere_kept(
    raw: u64,
    start: u32,
    width: u32,
    value: u64,
    other_start: u32,
    other_width: u32,
)
    requires
        fits(start, width, 64),
        fits(other_start, other_width, 64),
        other_start + other_width <= start || start + width <= other_start,
    ensures
        field(with_field(raw, start, width, value), other_start, other_width) == field(
            raw,
            other_start,
            other_width,
        ),
{
    let mask = low_mask(width);
    let other = low_mask(other_width);
    assert((((raw & !(mask << start)) | ((value & mask) << start)) >> other_start) & other == (raw
        >> other_start) & other) by (bit_vector)
        requires
            mask == (if width >= 64 {
                0xFFFF_FFFF_FFFF_FFFFu64
            } else {
                ((1u64 << width) - 1) as u64
            }),
            other == (if other_width >= 64 {
                0xFFFF_FFFF_FFFF_FFFFu64
            } else {
                ((1u64 << other_width) - 1) as u64
            }),
            1 <= width,
            start + width <= 64,
            1 <= other_width,
            other_start + other_width <= 64,
            other_start + other_width <= start || start + width <= other_start,
    ;
}

/// Writing a field that lies in the low 32 bits of a word whose upper half
/// is zero leaves the upper half zero.
pub proof fn lemma_with_field_stays_narrow(raw: u64, start: u32, width: u32, value: u64)
    requires
        fits(start, width, 32),
        raw <= 0xFFFF_FFFF,
    ensures
        with_field(raw, start, width, value) <= 0xFFFF_FFFF,
{
    let mask = low_mask(width);
    assert(((raw & !(mask << start)) | ((value & mask) << start)) <= 0xFFFF_FFFFu64)
        by (bit_vector)
        requires
            mask == (if width >= 64 {
                0xFFFF_FFFF_FFFF_FFFFu64
            } else {
                ((1u64 << width) - 1) as u64
            }),
            1 <= width,
            start + width <= 32,
            raw <= 0xFFFF_FFFFu64,
    ;
}

/// A field of at most eight bits fits a byte, one of at most sixteen bits a
/// half word, and one of at most thirty-two bits a word.
pub proof fn lemma_field_width(raw: u64, start: u32, width: u32)
    requires
        fits(start, width, 64),
    ensures
        width <= 8 ==> field(raw, start, width) <= 0xFF,
        width <= 16 ==> field(raw, start, width) <= 0xFFFF,
        width <= 32 ==> field(raw, start, width) <= 0xFFFF_FFFF,
        width == 1 ==> field(raw, start, width) <= 1,
{
    let mask = low_mask(width);
    let moved = raw >> start;
    assert((width <= 8 ==> moved & mask <= 0xFFu64) && (width <= 16 ==> moved & mask <= 0xFFFFu64)
        && (width <= 32 ==> moved & mask <= 0xFFFF_FFFFu64) && (width == 1 ==> moved & mask
        <= 1u64)) by (bit_vector)
        requires
            mask == (if width >= 64 {
                0xFFFF_FFFF_FFFF_FFFFu64
            } else {
                ((1u64 << width) - 1) as u64
            }),
            1 <= width,
    ;
}

} // verus!
