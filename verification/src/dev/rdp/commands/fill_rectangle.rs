//! RDP command "Fill Rectangle".

use vstd::prelude::*;
use vstd::std_specs::convert::FromSpecImpl;
use crate::bits::{field, get_bits, lemma_field_width, with_bits, with_field};

verus! {

/// Draws a rectangle filled with the fill color to the canvas. Fill color and
/// canvas are those set by earlier commands. Coordinates are in 10.2 fixed-
/// point format.
#[derive(Clone, Copy, Debug, PartialEq, Eq, Structural)]
pub struct FillRectangle(pub u64);

impl From<u64> for FillRectangle {
    fn from(raw: u64) -> (out: FillRectangle) {
        FillRectangle(raw)
    }
}

impl FromSpecImpl<u64> for FillRectangle {
    open spec fn obeys_from_spec() -> bool {
        true
    }

    open spec fn from_spec(raw: u64) -> FillRectangle {
        FillRectangle(raw)
    }
}

impl From<FillRectangle> for u64 {
    fn from(value: FillRectangle) -> (out: u64) {
        value.0
    }
}

impl FromSpecImpl<FillRectangle> for u64 {
    open spec fn obeys_from_spec() -> bool {
        true
    }

    open spec fn from_spec(value: FillRectangle) -> u64 {
        value.0
    }
}

impl FillRectangle {
    /// Opcode of the command (bits 56 to 61).
    pub fn opcode(&self) -> (value: u8)
        ensures
            value == field(self.0, 56, 6),
    {
        proof {
            lemma_field_width(self.0, 56, 6);
        }
        get_bits(self.0, 56, 6) as u8
    }

    /// The word with this field replaced by `value`; where `value` is
    /// wider than the field, its low bits are taken.
    pub fn with_opcode(self, value: u8) -> (out: FillRectangle)
        ensures
            out.0 == with_field(self.0, 56, 6, value as u64),
    {
        FillRectangle(with_bits(self.0, 56, 6, value as u64))
    }

    /// Replaces this field by `value` in place.
    pub fn set_opcode(&mut self, value: u8)
        ensures
            final(self).0 == with_field(old(self).0, 56, 6, value as u64),
    {
        self.0 = with_bits(self.0, 56, 6, value as u64);
    }

    /// X coordinate of the lower right corner of the rectangle (bits 44 to 55).
    pub fn x_lower_right(&self) -> (value: u16)
        ensures
            value == field(self.0, 44, 12),
    {
        proof {
            lemma_field_width(self.0, 44, 12);
        }
        get_bits(self.0, 44, 12) as u16
    }

    /// The word with this field replaced by `value`; where `value` is
    /// wider than the field, its low bits are taken.
    pub fn with_x_lower_right(self, value: u16) -> (out: FillRectangle)
        ensures
            out.0 == with_field(self.0, 44, 12, value as u64),
    {
        FillRectangle(with_bits(self.0, 44, 12, value as u64))
    }

    /// Replaces this field by `value` in place.
    pub fn set_x_lower_right(&mut self, value: u16)
        ensures
            final(self).0 == with_field(old(self).0, 44, 12, value as u64),
    {
        self.0 = with_bits(self.0, 44, 12, value as u64);
    }

    /// Y coordinate of the lower right corner of the rectangle (bits 32 to 43).
    pub fn y_lower_right(&self) -> (value: u16)
        ensures
            value == field(self.0, 32, 12),
    {
        proof {
            lemma_field_width(self.0, 32, 12);
        }
        get_bits(self.0, 32, 12) as u16
    }

    /// The word with this field replaced by `value`; where `value` is
    /// wider than the field, its low bits are taken.
    pub fn with_y_lower_right(self, value: u16) -> (out: FillRectangle)
        ensures
            out.0 == with_field(self.0, 32, 12, value as u64),
    {
        FillRectangle(with_bits(self.0, 32, 12, value as u64))
    }

    /// Replaces this field by `value` in place.
    pub fn set_y_lower_right(&mut self, value: u16)
        ensures
            final(self).0 == with_field(old(self).0, 32, 12, value as u64),
    {
        self.0 = with_bits(self.0, 32, 12, value as u64);
    }

    /// X coordinate of the upper left corner of the rectangle (bits 12 to 23).
    pub fn x_upper_left(&self) -> (value: u16)
        ensures
            value == field(self.0, 12, 12),
    {
        proof {
            lemma_field_width(self.0, 12, 12);
        }
        get_bits(self.0, 12, 12) as u16
    }

    /// The word with this field replaced by `value`; where `value` is
    /// wider than the field, its low bits are taken.
    pub fn with_x_upper_left(self, value: u16) -> (out: FillRectangle)
        ensures
            out.0 == with_field(self.0, 12, 12, value as u64),
    {
        FillRectangle(with_bits(self.0, 12, 12, value as u64))
    }

    /// Replaces this field by `value` in place.
    pub fn set_x_upper_left(&mut self, value: u16)
        ensures
            final(self).0 == with_field(old(self).0, 12, 12, value as u64),
    {
        self.0 = with_bits(self.0, 12, 12, value as u64);
    }

    /// Y coordinate of the upper left corner of the rectangle (bits 0 to 11).
    pub fn y_upper_left(&self) -> (value: u16)
        ensures
            value == field(self.0, 0, 12),
    {
        proof {
            lemma_field_width(self.0, 0, 12);
        }
        get_bits(self.0, 0, 12) as u16
    }

    /// The word with this field replaced by `value`; where `value` is
    /// wider than the field, its low bits are taken.
    pub fn with_y_upper_left(self, value: u16) -> (out: FillRectangle)
        ensures
            out.0 == with_field(self.0, 0, 12, value as u64),
    {
        FillRectangle(with_bits(self.0, 0, 12, value as u64))
    }

    /// Replaces this field by `value` in place.
    pub fn set_y_upper_left(&mut self, value: u16)
        ensures
            final(self).0 == with_field(old(self).0, 0, 12, value as u64),
    {
        self.0 = with_bits(self.0, 0, 12, value as u64);
    }
}

} // verus!
