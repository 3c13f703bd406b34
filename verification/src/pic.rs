//! Values for drawing.

use vstd::prelude::*;
use vstd::std_specs::convert::FromSpecImpl;
use crate::bits::{field, get_bits, lemma_field_width, with_bits32, with_field};

verus! {

/// A 32-bit color: red, green, blue and alpha, eight bits each.
#[derive(Clone, Copy, Debug, PartialEq, Eq, Structural)]
pub struct RGBA(pub u32);

impl From<u32> for RGBA {
    fn from(raw: u32) -> (out: RGBA) {
        RGBA(raw)
    }
}

impl FromSpecImpl<u32> for RGBA {
    open spec fn obeys_from_spec() -> bool {
        true
    }

    open spec fn from_spec(raw: u32) -> RGBA {
        RGBA(raw)
    }
}

impl From<RGBA> for u32 {
    fn from(value: RGBA) -> (out: u32) {
        value.0
    }
}

impl FromSpecImpl<RGBA> for u32 {
    open spec fn obeys_from_spec() -> bool {
        true
    }

    open spec fn from_spec(value: RGBA) -> u32 {
        value.0
    }
}

impl RGBA {
    /// Red (bits 24 to 31).
    pub fn red(&self) -> (value: u8)
        ensures
            value == field(self.0 as u64, 24, 8),
    {
        proof {
            lemma_field_width(self.0 as u64, 24, 8);
        }
        get_bits(self.0 as u64, 24, 8) as u8
    }

    /// The word with this field replaced by `value`; where `value` is
    /// wider than the field, its low bits are taken.
    pub fn with_red(self, value: u8) -> (out: RGBA)
        ensures
            out.0 == with_field(self.0 as u64, 24, 8, value as u64),
    {
        RGBA(with_bits32(self.0, 24, 8, value as u32))
    }

    /// Replaces this field by `value` in place.
    pub fn set_red(&mut self, value: u8)
        ensures
            final(self).0 == with_field(old(self).0 as u64, 24, 8, value as u64),
    {
        self.0 = with_bits32(self.0, 24, 8, value as u32);
    }

    /// Green (bits 16 to 23).
    pub fn green(&self) -> (value: u8)
        ensures
            value == field(self.0 as u64, 16, 8),
    {
        proof {
            lemma_field_width(self.0 as u64, 16, 8);
        }
        get_bits(self.0 as u64, 16, 8) as u8
    }

    /// The word with this field replaced by `value`; where `value` is
    /// wider than the field, its low bits are taken.
    pub fn with_green(self, value: u8) -> (out: RGBA)
        ensures
            out.0 == with_field(self.0 as u64, 16, 8, value as u64),
    {
        RGBA(with_bits32(self.0, 16, 8, value as u32))
    }

    /// Replaces this field by `value` in place.
    pub fn set_green(&mut self, value: u8)
        ensures
            final(self).0 == with_field(old(self).0 as u64, 16, 8, value as u64),
    {
        self.0 = with_bits32(self.0, 16, 8, value as u32);
    }

    /// Blue (bits 8 to 15).
    pub fn blue(&self) -> (value: u8)
        ensures
            value == field(self.0 as u64, 8, 8),
    {
        proof {
            lemma_field_width(self.0 as u64, 8, 8);
        }
        get_bits(self.0 as u64, 8, 8) as u8
    }

    /// The word with this field replaced by `value`; where `value` is
    /// wider than the field, its low bits are taken.
    pub fn with_blue(self, value: u8) -> (out: RGBA)
        ensures
            out.0 == with_field(self.0 as u64, 8, 8, value as u64),
    {
        RGBA(with_bits32(self.0, 8, 8, value as u32))
    }

    /// Replaces this field by `value` in place.
    pub fn set_blue(&mut self, value: u8)
        ensures
            final(self).0 == with_field(old(self).0 as u64, 8, 8, value as u64),
    {
        self.0 = with_bits32(self.0, 8, 8, value as u32);
    }

    /// Alpha (bits 0 to 7).
    pub fn alpha(&self) -> (value: u8)
        ensures
            value == field(self.0 as u64, 0, 8),
    {
        proof {
            lemma_field_width(self.0 as u64, 0, 8);
        }
        get_bits(self.0 as u64, 0, 8) as u8
    }

    /// The word with this field replaced by `value`; where `value` is
    /// wider than the field, its low bits are taken.
    pub fn with_alpha(self, value: u8) -> (out: RGBA)
        ensures
            out.0 == with_field(self.0 as u64, 0, 8, value as u64),
    {
        RGBA(with_bits32(self.0, 0, 8, value as u32))
    }

    /// Replaces this field by `value` in place.
    pub fn set_alpha(&mut self, value: u8)
        ensures
            final(self).0 == with_field(old(self).0 as u64, 0, 8, value as u64),
    {
        self.0 = with_bits32(self.0, 0, 8, value as u32);
    }
}

} // verus!
