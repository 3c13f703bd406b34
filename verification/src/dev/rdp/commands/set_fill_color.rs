//! RDP command "Set Fill Color".

use vstd::prelude::*;
use vstd::std_specs::convert::FromSpecImpl;
use crate::bits::{field, get_bits, lemma_field_width, with_bits, with_field};

verus! {

/// Sets the color with which fill commands draw.
#[derive(Clone, Copy, Debug, PartialEq, Eq, Structural)]
pub struct SetFillColor(pub u64);

impl From<u64> for SetFillColor {
    fn from(raw: u64) -> (out: SetFillColor) {
        SetFillColor(raw)
    }
}

impl FromSpecImpl<u64> for SetFillColor {
    open spec fn obeys_from_spec() -> bool {
        true
    }

    open spec fn from_spec(raw: u64) -> SetFillColor {
        SetFillColor(raw)
    }
}

impl From<SetFillColor> for u64 {
    fn from(value: SetFillColor) -> (out: u64) {
        value.0
    }
}

impl FromSpecImpl<SetFillColor> for u64 {
    open spec fn obeys_from_spec() -> bool {
        true
    }

    open spec fn from_spec(value: SetFillColor) -> u64 {
        value.0
    }
}

impl SetFillColor {
    /// Opcode of the command (bits 56 to 63).
    pub fn opcode(&self) -> (value: u8)
        ensures
            value == field(self.0, 56, 8),
    {
        proof {
            lemma_field_width(self.0, 56, 8);
        }
        get_bits(self.0, 56, 8) as u8
    }

    /// The word with this field replaced by `value`; where `value` is
    /// wider than the field, its low bits are taken.
    pub fn with_opcode(self, value: u8) -> (out: SetFillColor)
        ensures
            out.0 == with_field(self.0, 56, 8, value as u64),
    {
        SetFillColor(with_bits(self.0, 56, 8, value as u64))
    }

    /// Replaces this field by `value` in place.
    pub fn set_opcode(&mut self, value: u8)
        ensures
            final(self).0 == with_field(old(self).0, 56, 8, value as u64),
    {
        self.0 = with_bits(self.0, 56, 8, value as u64);
    }

    /// The fill color, packed as the color model and pixel size of the canvas
    /// ask; pixels smaller than a word are repeated (bits 0 to 31).
    pub fn packed_color(&self) -> (value: u32)
        ensures
            value == field(self.0, 0, 32),
    {
        proof {
            lemma_field_width(self.0, 0, 32);
        }
        get_bits(self.0, 0, 32) as u32
    }

    /// The word with this field replaced by `value`; where `value` is
    /// wider than the field, its low bits are taken.
    pub fn with_packed_color(self, value: u32) -> (out: SetFillColor)
        ensures
            out.0 == with_field(self.0, 0, 32, value as u64),
    {
        SetFillColor(with_bits(self.0, 0, 32, value as u64))
    }

    /// Replaces this field by `value` in place.
    pub fn set_packed_color(&mut self, value: u32)
        ensures
            final(self).0 == with_field(old(self).0, 0, 32, value as u64),
    {
        self.0 = with_bits(self.0, 0, 32, value as u64);
    }
}

} // verus!
