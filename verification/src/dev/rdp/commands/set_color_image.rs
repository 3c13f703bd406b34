//! RDP command "Set Color Image".

use vstd::prelude::*;
use vstd::std_specs::convert::FromSpecImpl;
use crate::bits::{field, get_bits, lemma_field_width, with_bits, with_field};

verus! {

/// Defines the canvas to which the RDP draws.
#[derive(Clone, Copy, Debug, PartialEq, Eq, Structural)]
pub struct SetColorImage(pub u64);

impl From<u64> for SetColorImage {
    fn from(raw: u64) -> (out: SetColorImage) {
        SetColorImage(raw)
    }
}

impl FromSpecImpl<u64> for SetColorImage {
    open spec fn obeys_from_spec() -> bool {
        true
    }

    open spec fn from_spec(raw: u64) -> SetColorImage {
        SetColorImage(raw)
    }
}

impl From<SetColorImage> for u64 {
    fn from(value: SetColorImage) -> (out: u64) {
        value.0
    }
}

impl FromSpecImpl<SetColorImage> for u64 {
    open spec fn obeys_from_spec() -> bool {
        true
    }

    open spec fn from_spec(value: SetColorImage) -> u64 {
        value.0
    }
}

impl SetColorImage {
    /// Opcode of the command (bits 56 to 61).
    pub fn opcode(&self) -> (value: u8)
        ensures
            value == field(self.0, 56, 6),
    {
        proof {
            lemma_field_width(self.0, 56, 6);
        }
        get_bits(self.0, 56, 6) as u8
    }

    /// The word with this field replaced by `value`; where `value` is
    /// wider than the field, its low bits are taken.
    pub fn with_opcode(self, value: u8) -> (out: SetColorImage)
        ensures
            out.0 == with_field(self.0, 56, 6, value as u64),
    {
        SetColorImage(with_bits(self.0, 56, 6, value as u64))
    }

    /// Replaces this field by `value` in place.
    pub fn set_opcode(&mut self, value: u8)
        ensures
            final(self).0 == with_field(old(self).0, 56, 6, value as u64),
    {
        self.0 = with_bits(self.0, 56, 6, value as u64);
    }

    /// Color model of the data drawn to the canvas (bits 53 to 55).
    pub fn model(&self) -> (value: CanvasColorModel)
        ensures
            value == CanvasColorModel::of_code(field(self.0, 53, 3) as u8),
    {
        proof {
            lemma_field_width(self.0, 53, 3);
        }
        CanvasColorModel::from(get_bits(self.0, 53, 3) as u8)
    }

    /// The word with this field replaced by `value`; where `value` is
    /// wider than the field, its low bits are taken.
    pub fn with_model(self, value: CanvasColorModel) -> (out: SetColorImage)
        ensures
            out.0 == with_field(self.0, 53, 3, value.code() as u64),
    {
        SetColorImage(with_bits(self.0, 53, 3, u8::from(value) as u64))
    }

    /// Replaces this field by `value` in place.
    pub fn set_model(&mut self, value: CanvasColorModel)
        ensures
            final(self).0 == with_field(old(self).0, 53, 3, value.code() as u64),
    {
        self.0 = with_bits(self.0, 53, 3, u8::from(value) as u64);
    }

    /// Size of a pixel of the canvas (bits 51 to 52).
    pub fn pixel_size(&self) -> (value: CanvasPixelSize)
        ensures
            value == CanvasPixelSize::of_code(field(self.0, 51, 2) as u8),
    {
        proof {
            lemma_field_width(self.0, 51, 2);
        }
        CanvasPixelSize::from(get_bits(self.0, 51, 2) as u8)
    }

    /// The word with this field replaced by `value`; where `value` is
    /// wider than the field, its low bits are taken.
    pub fn with_pixel_size(self, value: CanvasPixelSize) -> (out: SetColorImage)
        ensures
            out.0 == with_field(self.0, 51, 2, value.code() as u64),
    {
        SetColorImage(with_bits(self.0, 51, 2, u8::from(value) as u64))
    }

    /// Replaces this field by `value` in place.
    pub fn set_pixel_size(&mut self, value: CanvasPixelSize)
        ensures
            final(self).0 == with_field(old(self).0, 51, 2, value.code() as u64),
    {
        self.0 = with_bits(self.0, 51, 2, u8::from(value) as u64);
    }

    /// Width of the canvas in pixels, less one (bits 32 to 41).
    pub fn width(&self) -> (value: u16)
        ensures
            value == field(self.0, 32, 10),
    {
        proof {
            lemma_field_width(self.0, 32, 10);
        }
        get_bits(self.0, 32, 10) as u16
    }

    /// The word with this field replaced by `value`; where `value` is
    /// wider than the field, its low bits are taken.
    pub fn with_width(self, value: u16) -> (out: SetColorImage)
        ensures
            out.0 == with_field(self.0, 32, 10, value as u64),
    {
        SetColorImage(with_bits(self.0, 32, 10, value as u64))
    }

    /// Replaces this field by `value` in place.
    pub fn set_width(&mut self, value: u16)
        ensures
            final(self).0 == with_field(old(self).0, 32, 10, value as u64),
    {
        self.0 = with_bits(self.0, 32, 10, value as u64);
    }

    /// Address of the first pixel of the canvas, its top left corner (bits 0 to
    /// 25).
    pub fn address(&self) -> (value: u32)
        ensures
            value == field(self.0, 0, 26),
    {
        proof {
            lemma_field_width(self.0, 0, 26);
        }
        get_bits(self.0, 0, 26) as u32
    }

    /// The word with this field replaced by `value`; where `value` is
    /// wider than the field, its low bits are taken.
    pub fn with_address(self, value: u32) -> (out: SetColorImage)
        ensures
            out.0 == with_field(self.0, 0, 26, value as u64),
    {
        SetColorImage(with_bits(self.0, 0, 26, value as u64))
    }

    /// Replaces this field by `value` in place.
    pub fn set_address(&mut self, value: u32)
        ensures
            final(self).0 == with_field(old(self).0, 0, 26, value as u64),
    {
        self.0 = with_bits(self.0, 0, 26, value as u64);
    }
}

/// Color model of the data that the RDP draws to the canvas.
#[derive(Clone, Copy, Debug, PartialEq, Eq, Structural)]
pub enum CanvasColorModel {
    /// Red, green, blue and alpha.
    RGBA,
}

impl CanvasColorModel {
    /// The number that stands for the variant in a register or command word.
    pub open spec fn code(self) -> u8 {
        match self {
            CanvasColorModel::RGBA => 0,
        }
    }

    /// The variant that a number stands for; a number that names no
    /// variant stands for `RGBA`.
    pub open spec fn of_code(code: u8) -> CanvasColorModel {
        CanvasColorModel::RGBA
    }

    /// Every variant is found again from its number, and its number fits
    /// a field of 3 bits.
    pub proof fn lemma_code_round_trip(self)
        ensures
            CanvasColorModel::of_code(self.code()) == self,
            self.code() < 8,
    {
    }

    /// A number that names a variant is that variant's number; any other
    /// number gives `RGBA`.
    pub proof fn lemma_of_code(code: u8)
        ensures
            (code == 0)
                ==> CanvasColorModel::of_code(code).code() == code,
            !(code == 0)
                ==> CanvasColorModel::of_code(code) == CanvasColorModel::RGBA,
    {
    }
}

impl From<u8> for CanvasColorModel {
    fn from(code: u8) -> (out: CanvasColorModel) {
        CanvasColorModel::RGBA
    }
}

impl FromSpecImpl<u8> for CanvasColorModel {
    open spec fn obeys_from_spec() -> bool {
        true
    }

    open spec fn from_spec(code: u8) -> CanvasColorModel {
        CanvasColorModel::of_code(code)
    }
}

impl From<CanvasColorModel> for u8 {
    fn from(value: CanvasColorModel) -> (out: u8) {
        match value {
            CanvasColorModel::RGBA => 0,
        }
    }
}

impl FromSpecImpl<CanvasColorModel> for u8 {
    open spec fn obeys_from_spec() -> bool {
        true
    }

    open spec fn from_spec(value: CanvasColorModel) -> u8 {
        value.code()
    }
}

/// Size of a pixel of the canvas.
#[derive(Clone, Copy, Debug, PartialEq, Eq, Structural)]
pub enum CanvasPixelSize {
    /// 32 bits.
    WORD,
}

impl CanvasPixelSize {
    /// The number that stands for the variant in a register or command word.
    pub open spec fn code(self) -> u8 {
        match self {
            CanvasPixelSize::WORD => 3,
        }
    }

    /// The variant that a number stands for; a number that names no
    /// variant stands for `WORD`.
    pub open spec fn of_code(code: u8) -> CanvasPixelSize {
        CanvasPixelSize::WORD
    }

    /// Every variant is found again from its number, and its number fits
    /// a field of 2 bits.
    pub proof fn lemma_code_round_trip(self)
        ensures
            CanvasPixelSize::of_code(self.code()) == self,
            self.code() < 4,
    {
    }

    /// A number that names a variant is that variant's number; any other
    /// number gives `WORD`.
    pub proof fn lemma_of_code(code: u8)
        ensures
            (code == 3)
                ==> CanvasPixelSize::of_code(code).code() == code,
            !(code == 3)
                ==> CanvasPixelSize::of_code(code) == CanvasPixelSize::WORD,
    {
    }
}

impl From<u8> for CanvasPixelSize {
    fn from(code: u8) -> (out: CanvasPixelSize) {
        CanvasPixelSize::WORD
    }
}

impl FromSpecImpl<u8> for CanvasPixelSize {
    open spec fn obeys_from_spec() -> bool {
        true
    }

    open spec fn from_spec(code: u8) -> CanvasPixelSize {
        CanvasPixelSize::of_code(code)
    }
}

impl From<CanvasPixelSize> for u8 {
    fn from(value: CanvasPixelSize) -> (out: u8) {
        match value {
            CanvasPixelSize::WORD => 3,
        }
    }
}

impl FromSpecImpl<CanvasPixelSize> for u8 {
    open spec fn obeys_from_spec() -> bool {
        true
    }

    open spec fn from_spec(value: CanvasPixelSize) -> u8 {
        value.code()
    }
}

} // verus!
