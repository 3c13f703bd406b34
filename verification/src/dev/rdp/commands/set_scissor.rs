//! RDP command "Set Scissor".

use vstd::prelude::*;
use vstd::std_specs::convert::FromSpecImpl;
use crate::bits::{field, flag, get_bit, get_bits, lemma_field_width, with_bits, with_field};

verus! {

/// Sets the scissor box with respect to the canvas. Coordinates are relative to
/// the canvas, in 10.2 fixed-point format.
#[derive(Clone, Copy, Debug, PartialEq, Eq, Structural)]
pub struct SetScissor(pub u64);

impl From<u64> for SetScissor {
    fn from(raw: u64) -> (out: SetScissor) {
        SetScissor(raw)
    }
}

impl FromSpecImpl<u64> for SetScissor {
    open spec fn obeys_from_spec() -> bool {
        true
    }

    open spec fn from_spec(raw: u64) -> SetScissor {
        SetScissor(raw)
    }
}

impl From<SetScissor> for u64 {
    fn from(value: SetScissor) -> (out: u64) {
        value.0
    }
}

impl FromSpecImpl<SetScissor> for u64 {
    open spec fn obeys_from_spec() -> bool {
        true
    }

    open spec fn from_spec(value: SetScissor) -> u64 {
        value.0
    }
}

impl SetScissor {
    /// Opcode of the command (bits 56 to 61).
    pub fn opcode(&self) -> (value: u8)
        ensures
            value == field(self.0, 56, 6),
    {
        proof {
            lemma_field_width(self.0, 56, 6);
        }
        get_bits(self.0, 56, 6) as u8
    }

    /// The word with this field replaced by `value`; where `value` is
    /// wider than the field, its low bits are taken.
    pub fn with_opcode(self, value: u8) -> (out: SetScissor)
        ensures
            out.0 == with_field(self.0, 56, 6, value as u64),
    {
        SetScissor(with_bits(self.0, 56, 6, value as u64))
    }

    /// Replaces this field by `value` in place.
    pub fn set_opcode(&mut self, value: u8)
        ensures
            final(self).0 == with_field(old(self).0, 56, 6, value as u64),
    {
        self.0 = with_bits(self.0, 56, 6, value as u64);
    }

    /// X coordinate of the upper left corner of the scissor box (bits 44 to
    /// 55).
    pub fn x_upper_left(&self) -> (value: u16)
        ensures
            value == field(self.0, 44, 12),
    {
        proof {
            lemma_field_width(self.0, 44, 12);
        }
        get_bits(self.0, 44, 12) as u16
    }

    /// The word with this field replaced by `value`; where `value` is
    /// wider than the field, its low bits are taken.
    pub fn with_x_upper_left(self, value: u16) -> (out: SetScissor)
        ensures
            out.0 == with_field(self.0, 44, 12, value as u64),
    {
        SetScissor(with_bits(self.0, 44, 12, value as u64))
    }

    /// Replaces this field by `value` in place.
    pub fn set_x_upper_left(&mut self, value: u16)
        ensures
            final(self).0 == with_field(old(self).0, 44, 12, value as u64),
    {
        self.0 = with_bits(self.0, 44, 12, value as u64);
    }

    /// Y coordinate of the upper left corner of the scissor box (bits 32 to
    /// 43).
    pub fn y_upper_left(&self) -> (value: u16)
        ensures
            value == field(self.0, 32, 12),
    {
        proof {
            lemma_field_width(self.0, 32, 12);
        }
        get_bits(self.0, 32, 12) as u16
    }

    /// The word with this field replaced by `value`; where `value` is
    /// wider than the field, its low bits are taken.
    pub fn with_y_upper_left(self, value: u16) -> (out: SetScissor)
        ensures
            out.0 == with_field(self.0, 32, 12, value as u64),
    {
        SetScissor(with_bits(self.0, 32, 12, value as u64))
    }

    /// Replaces this field by `value` in place.
    pub fn set_y_upper_left(&mut self, value: u16)
        ensures
            final(self).0 == with_field(old(self).0, 32, 12, value as u64),
    {
        self.0 = with_bits(self.0, 32, 12, value as u64);
    }

    /// Whether odd or even lines, as `scissor_line_skip` says, are scissored
    /// (bit 25).
    pub fn interlaced_scissoring(&self) -> (value: bool)
        ensures
            value == flag(self.0, 25),
    {
        get_bit(self.0, 25)
    }

    /// The word with this field replaced by `value`; where `value` is
    /// wider than the field, its low bits are taken.
    pub fn with_interlaced_scissoring(self, value: bool) -> (out: SetScissor)
        ensures
            out.0 == with_field(self.0, 25, 1, if value { 1 } else { 0 }),
    {
        SetScissor(with_bits(self.0, 25, 1, if value { 1 } else { 0 }))
    }

    /// Replaces this field by `value` in place.
    pub fn set_interlaced_scissoring(&mut self, value: bool)
        ensures
            final(self).0 == with_field(old(self).0, 25, 1, if value { 1 } else { 0 }),
    {
        self.0 = with_bits(self.0, 25, 1, if value { 1 } else { 0 });
    }

    /// Which lines are skipped when interlaced scissoring is on (bit 24).
    pub fn scissor_line_skip(&self) -> (value: ScissorLineSkip)
        ensures
            value == ScissorLineSkip::of_bit(flag(self.0, 24)),
    {
        ScissorLineSkip::from(get_bit(self.0, 24))
    }

    /// The word with this field replaced by `value`; where `value` is
    /// wider than the field, its low bits are taken.
    pub fn with_scissor_line_skip(self, value: ScissorLineSkip) -> (out: SetScissor)
        ensures
            out.0 == with_field(self.0, 24, 1, if value.bit() { 1 } else { 0 }),
    {
        SetScissor(with_bits(self.0, 24, 1, if bool::from(value) { 1 } else { 0 }))
    }

    /// Replaces this field by `value` in place.
    pub fn set_scissor_line_skip(&mut self, value: ScissorLineSkip)
        ensures
            final(self).0 == with_field(old(self).0, 24, 1, if value.bit() { 1 } else { 0 }),
    {
        self.0 = with_bits(self.0, 24, 1, if bool::from(value) { 1 } else { 0 });
    }

    /// X coordinate of the lower right corner of the scissor box (bits 12 to
    /// 23).
    pub fn x_lower_right(&self) -> (value: u16)
        ensures
            value == field(self.0, 12, 12),
    {
        proof {
            lemma_field_width(self.0, 12, 12);
        }
        get_bits(self.0, 12, 12) as u16
    }

    /// The word with this field replaced by `value`; where `value` is
    /// wider than the field, its low bits are taken.
    pub fn with_x_lower_right(self, value: u16) -> (out: SetScissor)
        ensures
            out.0 == with_field(self.0, 12, 12, value as u64),
    {
        SetScissor(with_bits(self.0, 12, 12, value as u64))
    }

    /// Replaces this field by `value` in place.
    pub fn set_x_lower_right(&mut self, value: u16)
        ensures
            final(self).0 == with_field(old(self).0, 12, 12, value as u64),
    {
        self.0 = with_bits(self.0, 12, 12, value as u64);
    }

    /// Y coordinate of the lower right corner of the scissor box (bits 0 to
    /// 11).
    pub fn y_lower_right(&self) -> (value: u16)
        ensures
            value == field(self.0, 0, 12),
    {
        proof {
            lemma_field_width(self.0, 0, 12);
        }
        get_bits(self.0, 0, 12) as u16
    }

    /// The word with this field replaced by `value`; where `value` is
    /// wider than the field, its low bits are taken.
    pub fn with_y_lower_right(self, value: u16) -> (out: SetScissor)
        ensures
            out.0 == with_field(self.0, 0, 12, value as u64),
    {
        SetScissor(with_bits(self.0, 0, 12, value as u64))
    }

    /// Replaces this field by `value` in place.
    pub fn set_y_lower_right(&mut self, value: u16)
        ensures
            final(self).0 == with_field(old(self).0, 0, 12, value as u64),
    {
        self.0 = with_bits(self.0, 0, 12, value as u64);
    }
}

/// Lines that interlaced scissoring skips.
#[allow(non_camel_case_types)]
#[derive(Clone, Copy, Debug, PartialEq, Eq, Structural)]
pub enum ScissorLineSkip {
    /// Skip odd lines.
    SKIP_ODD_LINES,
    /// Skip even lines.
    SKIP_EVEN_LINES,
}

impl ScissorLineSkip {
    /// The bit that stands for the variant: clear for `SKIP_ODD_LINES`, set for
    /// `SKIP_EVEN_LINES`.
    pub open spec fn bit(self) -> bool {
        self == ScissorLineSkip::SKIP_EVEN_LINES
    }

    /// The variant that a bit stands for.
    pub open spec fn of_bit(bit: bool) -> ScissorLineSkip {
        if bit {
            ScissorLineSkip::SKIP_EVEN_LINES
        } else {
            ScissorLineSkip::SKIP_ODD_LINES
        }
    }

    /// The two conversions undo each other.
    pub proof fn lemma_bit_round_trip(self, bit: bool)
        ensures
            ScissorLineSkip::of_bit(self.bit()) == self,
            ScissorLineSkip::of_bit(bit).bit() == bit,
    {
    }
}

impl From<bool> for ScissorLineSkip {
    fn from(value: bool) -> (out: ScissorLineSkip) {
        match value {
            true => ScissorLineSkip::SKIP_EVEN_LINES,
            false => ScissorLineSkip::SKIP_ODD_LINES,
        }
    }
}

impl FromSpecImpl<bool> for ScissorLineSkip {
    open spec fn obeys_from_spec() -> bool {
        true
    }

    open spec fn from_spec(value: bool) -> ScissorLineSkip {
        ScissorLineSkip::of_bit(value)
    }
}

impl From<ScissorLineSkip> for bool {
    fn from(value: ScissorLineSkip) -> (out: bool) {
        match value {
            ScissorLineSkip::SKIP_ODD_LINES => false,
            ScissorLineSkip::SKIP_EVEN_LINES => true,
        }
    }
}

impl FromSpecImpl<ScissorLineSkip> for bool {
    open spec fn obeys_from_spec() -> bool {
        true
    }

    open spec fn from_spec(value: ScissorLineSkip) -> bool {
        value.bit()
    }
}

} // verus!
