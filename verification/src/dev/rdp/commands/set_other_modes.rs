//! RDP command "Set Other Modes".

use vstd::prelude::*;
use vstd::std_specs::convert::FromSpecImpl;
use crate::bits::{field, flag, get_bit, get_bits, lemma_field_width, with_bits, with_field};

verus! {

/// General configuration of the RDP.
#[derive(Clone, Copy, Debug, PartialEq, Eq, Structural)]
pub struct SetOtherModes(pub u64);

impl From<u64> for SetOtherModes {
    fn from(raw: u64) -> (out: SetOtherModes) {
        SetOtherModes(raw)
    }
}

impl FromSpecImpl<u64> for SetOtherModes {
    open spec fn obeys_from_spec() -> bool {
        true
    }

    open spec fn from_spec(raw: u64) -> SetOtherModes {
        SetOtherModes(raw)
    }
}

impl From<SetOtherModes> for u64 {
    fn from(value: SetOtherModes) -> (out: u64) {
        value.0
    }
}

impl FromSpecImpl<SetOtherModes> for u64 {
    open spec fn obeys_from_spec() -> bool {
        true
    }

    open spec fn from_spec(value: SetOtherModes) -> u64 {
        value.0
    }
}

impl SetOtherModes {
    /// Opcode of the command (bits 56 to 63).
    pub fn opcode(&self) -> (value: u8)
        ensures
            value == field(self.0, 56, 8),
    {
        proof {
            lemma_field_width(self.0, 56, 8);
        }
        get_bits(self.0, 56, 8) as u8
    }

    /// The word with this field replaced by `value`; where `value` is
    /// wider than the field, its low bits are taken.
    pub fn with_opcode(self, value: u8) -> (out: SetOtherModes)
        ensures
            out.0 == with_field(self.0, 56, 8, value as u64),
    {
        SetOtherModes(with_bits(self.0, 56, 8, value as u64))
    }

    /// Replaces this field by `value` in place.
    pub fn set_opcode(&mut self, value: u8)
        ensures
            final(self).0 == with_field(old(self).0, 56, 8, value as u64),
    {
        self.0 = with_bits(self.0, 56, 8, value as u64);
    }

    /// Complete the drawing of each command before the next is begun (bit 55).
    pub fn atomic_primitive_enable(&self) -> (value: bool)
        ensures
            value == flag(self.0, 55),
    {
        get_bit(self.0, 55)
    }

    /// The word with this field replaced by `value`; where `value` is
    /// wider than the field, its low bits are taken.
    pub fn with_atomic_primitive_enable(self, value: bool) -> (out: SetOtherModes)
        ensures
            out.0 == with_field(self.0, 55, 1, if value { 1 } else { 0 }),
    {
        SetOtherModes(with_bits(self.0, 55, 1, if value { 1 } else { 0 }))
    }

    /// Replaces this field by `value` in place.
    pub fn set_atomic_primitive_enable(&mut self, value: bool)
        ensures
            final(self).0 == with_field(old(self).0, 55, 1, if value { 1 } else { 0 }),
    {
        self.0 = with_bits(self.0, 55, 1, if value { 1 } else { 0 });
    }

    /// The main rendering mode (bits 52 to 53).
    pub fn cycle_type(&self) -> (value: CycleType)
        ensures
            value == CycleType::of_code(field(self.0, 52, 2) as u8),
    {
        proof {
            lemma_field_width(self.0, 52, 2);
        }
        CycleType::from(get_bits(self.0, 52, 2) as u8)
    }

    /// The word with this field replaced by `value`; where `value` is
    /// wider than the field, its low bits are taken.
    pub fn with_cycle_type(self, value: CycleType) -> (out: SetOtherModes)
        ensures
            out.0 == with_field(self.0, 52, 2, value.code() as u64),
    {
        SetOtherModes(with_bits(self.0, 52, 2, u8::from(value) as u64))
    }

    /// Replaces this field by `value` in place.
    pub fn set_cycle_type(&mut self, value: CycleType)
        ensures
            final(self).0 == with_field(old(self).0, 52, 2, value.code() as u64),
    {
        self.0 = with_bits(self.0, 52, 2, u8::from(value) as u64);
    }

    /// Perspective correction during texture sampling (bit 51).
    pub fn enable_perspective_correction_for_textures(&self) -> (value: bool)
        ensures
            value == flag(self.0, 51),
    {
        get_bit(self.0, 51)
    }

    /// The word with this field replaced by `value`; where `value` is
    /// wider than the field, its low bits are taken.
    pub fn with_enable_perspective_correction_for_textures(self, value: bool) -> (out:
        SetOtherModes)
        ensures
            out.0 == with_field(self.0, 51, 1, if value { 1 } else { 0 }),
    {
        SetOtherModes(with_bits(self.0, 51, 1, if value { 1 } else { 0 }))
    }

    /// Replaces this field by `value` in place.
    pub fn set_enable_perspective_correction_for_textures(&mut self, value: bool)
        ensures
            final(self).0 == with_field(old(self).0, 51, 1, if value { 1 } else { 0 }),
    {
        self.0 = with_bits(self.0, 51, 1, if value { 1 } else { 0 });
    }

    /// The detail texture during texture sampling (bit 50).
    pub fn enable_detail_texture(&self) -> (value: bool)
        ensures
            value == flag(self.0, 50),
    {
        get_bit(self.0, 50)
    }

    /// The word with this field replaced by `value`; where `value` is
    /// wider than the field, its low bits are taken.
    pub fn with_enable_detail_texture(self, value: bool) -> (out: SetOtherModes)
        ensures
            out.0 == with_field(self.0, 50, 1, if value { 1 } else { 0 }),
    {
        SetOtherModes(with_bits(self.0, 50, 1, if value { 1 } else { 0 }))
    }

    /// Replaces this field by `value` in place.
    pub fn set_enable_detail_texture(&mut self, value: bool)
        ensures
            final(self).0 == with_field(old(self).0, 50, 1, if value { 1 } else { 0 }),
    {
        self.0 = with_bits(self.0, 50, 1, if value { 1 } else { 0 });
    }

    /// Sharpening during texture sampling (bit 49).
    pub fn enable_sharpened_texture(&self) -> (value: bool)
        ensures
            value == flag(self.0, 49),
    {
        get_bit(self.0, 49)
    }

    /// The word with this field replaced by `value`; where `value` is
    /// wider than the field, its low bits are taken.
    pub fn with_enable_sharpened_texture(self, value: bool) -> (out: SetOtherModes)
        ensures
            out.0 == with_field(self.0, 49, 1, if value { 1 } else { 0 }),
    {
        SetOtherModes(with_bits(self.0, 49, 1, if value { 1 } else { 0 }))
    }

    /// Replaces this field by `value` in place.
    pub fn set_enable_sharpened_texture(&mut self, value: bool)
        ensures
            final(self).0 == with_field(old(self).0, 49, 1, if value { 1 } else { 0 }),
    {
        self.0 = with_bits(self.0, 49, 1, if value { 1 } else { 0 });
    }

    /// Level of detail during texture sampling (bit 48).
    pub fn enable_texture_level_of_detail(&self) -> (value: bool)
        ensures
            value == flag(self.0, 48),
    {
        get_bit(self.0, 48)
    }

    /// The word with this field replaced by `value`; where `value` is
    /// wider than the field, its low bits are taken.
    pub fn with_enable_texture_level_of_detail(self, value: bool) -> (out: SetOtherModes)
        ensures
            out.0 == with_field(self.0, 48, 1, if value { 1 } else { 0 }),
    {
        SetOtherModes(with_bits(self.0, 48, 1, if value { 1 } else { 0 }))
    }

    /// Replaces this field by `value` in place.
    pub fn set_enable_texture_level_of_detail(&mut self, value: bool)
        ensures
            final(self).0 == with_field(old(self).0, 48, 1, if value { 1 } else { 0 }),
    {
        self.0 = with_bits(self.0, 48, 1, if value { 1 } else { 0 });
    }

    /// The texture lookup table (TLUT) (bit 47).
    pub fn enable_texture_lookup_table(&self) -> (value: bool)
        ensures
            value == flag(self.0, 47),
    {
        get_bit(self.0, 47)
    }

    /// The word with this field replaced by `value`; where `value` is
    /// wider than the field, its low bits are taken.
    pub fn with_enable_texture_lookup_table(self, value: bool) -> (out: SetOtherModes)
        ensures
            out.0 == with_field(self.0, 47, 1, if value { 1 } else { 0 }),
    {
        SetOtherModes(with_bits(self.0, 47, 1, if value { 1 } else { 0 }))
    }

    /// Replaces this field by `value` in place.
    pub fn set_enable_texture_lookup_table(&mut self, value: bool)
        ensures
            final(self).0 == with_field(old(self).0, 47, 1, if value { 1 } else { 0 }),
    {
        self.0 = with_bits(self.0, 47, 1, if value { 1 } else { 0 });
    }

    /// Color model and pixel size of the texels in the TLUT (bit 46).
    pub fn tlut_texel_type(&self) -> (value: TexelTypeInTLUT)
        ensures
            value == TexelTypeInTLUT::of_bit(flag(self.0, 46)),
    {
        TexelTypeInTLUT::from(get_bit(self.0, 46))
    }

    /// The word with this field replaced by `value`; where `value` is
    /// wider than the field, its low bits are taken.
    pub fn with_tlut_texel_type(self, value: TexelTypeInTLUT) -> (out: SetOtherModes)
        ensures
            out.0 == with_field(self.0, 46, 1, if value.bit() { 1 } else { 0 }),
    {
        SetOtherModes(with_bits(self.0, 46, 1, if bool::from(value) { 1 } else { 0 }))
    }

    /// Replaces this field by `value` in place.
    pub fn set_tlut_texel_type(&mut self, value: TexelTypeInTLUT)
        ensures
            final(self).0 == with_field(old(self).0, 46, 1, if value.bit() { 1 } else { 0 }),
    {
        self.0 = with_bits(self.0, 46, 1, if bool::from(value) { 1 } else { 0 });
    }

    /// Whether one texel or a group of texels is sampled (bit 45).
    pub fn texture_sample_method(&self) -> (value: TextureSampleMethod)
        ensures
            value == TextureSampleMethod::of_bit(flag(self.0, 45)),
    {
        TextureSampleMethod::from(get_bit(self.0, 45))
    }

    /// The word with this field replaced by `value`; where `value` is
    /// wider than the field, its low bits are taken.
    pub fn with_texture_sample_method(self, value: TextureSampleMethod) -> (out: SetOtherModes)
        ensures
            out.0 == with_field(self.0, 45, 1, if value.bit() { 1 } else { 0 }),
    {
        SetOtherModes(with_bits(self.0, 45, 1, if bool::from(value) { 1 } else { 0 }))
    }

    /// Replaces this field by `value` in place.
    pub fn set_texture_sample_method(&mut self, value: TextureSampleMethod)
        ensures
            final(self).0 == with_field(old(self).0, 45, 1, if value.bit() { 1 } else { 0 }),
    {
        self.0 = with_bits(self.0, 45, 1, if bool::from(value) { 1 } else { 0 });
    }

    /// Interpolation over 2x2 texels during texel filtering (bit 44).
    pub fn enable_half_texel_interpolation(&self) -> (value: bool)
        ensures
            value == flag(self.0, 44),
    {
        get_bit(self.0, 44)
    }

    /// The word with this field replaced by `value`; where `value` is
    /// wider than the field, its low bits are taken.
    pub fn with_enable_half_texel_interpolation(self, value: bool) -> (out: SetOtherModes)
        ensures
            out.0 == with_field(self.0, 44, 1, if value { 1 } else { 0 }),
    {
        SetOtherModes(with_bits(self.0, 44, 1, if value { 1 } else { 0 }))
    }

    /// Replaces this field by `value` in place.
    pub fn set_enable_half_texel_interpolation(&mut self, value: bool)
        ensures
            final(self).0 == with_field(old(self).0, 44, 1, if value { 1 } else { 0 }),
    {
        self.0 = with_bits(self.0, 44, 1, if value { 1 } else { 0 });
    }

    /// Bilinear interpolation in cycle 0, in one-cycle and two-cycle mode (bit
    /// 43).
    pub fn enable_bilinear_interpolation_in_cycle_0(&self) -> (value: bool)
        ensures
            value == flag(self.0, 43),
    {
        get_bit(self.0, 43)
    }

    /// The word with this field replaced by `value`; where `value` is
    /// wider than the field, its low bits are taken.
    pub fn with_enable_bilinear_interpolation_in_cycle_0(self, value: bool) -> (out: SetOtherModes)
        ensures
            out.0 == with_field(self.0, 43, 1, if value { 1 } else { 0 }),
    {
        SetOtherModes(with_bits(self.0, 43, 1, if value { 1 } else { 0 }))
    }

    /// Replaces this field by `value` in place.
    pub fn set_enable_bilinear_interpolation_in_cycle_0(&mut self, value: bool)
        ensures
            final(self).0 == with_field(old(self).0, 43, 1, if value { 1 } else { 0 }),
    {
        self.0 = with_bits(self.0, 43, 1, if value { 1 } else { 0 });
    }

    /// Bilinear interpolation in cycle 1, in one-cycle and two-cycle mode (bit
    /// 42).
    pub fn enable_bilinear_interpolation_in_cycle_1(&self) -> (value: bool)
        ensures
            value == flag(self.0, 42),
    {
        get_bit(self.0, 42)
    }

    /// The word with this field replaced by `value`; where `value` is
    /// wider than the field, its low bits are taken.
    pub fn with_enable_bilinear_interpolation_in_cycle_1(self, value: bool) -> (out: SetOtherModes)
        ensures
            out.0 == with_field(self.0, 42, 1, if value { 1 } else { 0 }),
    {
        SetOtherModes(with_bits(self.0, 42, 1, if value { 1 } else { 0 }))
    }

    /// Replaces this field by `value` in place.
    pub fn set_enable_bilinear_interpolation_in_cycle_1(&mut self, value: bool)
        ensures
            final(self).0 == with_field(old(self).0, 42, 1, if value { 1 } else { 0 }),
    {
        self.0 = with_bits(self.0, 42, 1, if value { 1 } else { 0 });
    }

    /// Color conversion in cycle 0 of the texel that the texture filter puts
    /// out (bit 41).
    pub fn enable_color_convert_in_cycle_0(&self) -> (value: bool)
        ensures
            value == flag(self.0, 41),
    {
        get_bit(self.0, 41)
    }

    /// The word with this field replaced by `value`; where `value` is
    /// wider than the field, its low bits are taken.
    pub fn with_enable_color_convert_in_cycle_0(self, value: bool) -> (out: SetOtherModes)
        ensures
            out.0 == with_field(self.0, 41, 1, if value { 1 } else { 0 }),
    {
        SetOtherModes(with_bits(self.0, 41, 1, if value { 1 } else { 0 }))
    }

    /// Replaces this field by `value` in place.
    pub fn set_enable_color_convert_in_cycle_0(&mut self, value: bool)
        ensures
            final(self).0 == with_field(old(self).0, 41, 1, if value { 1 } else { 0 }),
    {
        self.0 = with_bits(self.0, 41, 1, if value { 1 } else { 0 });
    }

    /// Chroma keying (bit 40).
    pub fn enable_chroma_keying(&self) -> (value: bool)
        ensures
            value == flag(self.0, 40),
    {
        get_bit(self.0, 40)
    }

    /// The word with this field replaced by `value`; where `value` is
    /// wider than the field, its low bits are taken.
    pub fn with_enable_chroma_keying(self, value: bool) -> (out: SetOtherModes)
        ensures
            out.0 == with_field(self.0, 40, 1, if value { 1 } else { 0 }),
    {
        SetOtherModes(with_bits(self.0, 40, 1, if value { 1 } else { 0 }))
    }

    /// Replaces this field by `value` in place.
    pub fn set_enable_chroma_keying(&mut self, value: bool)
        ensures
            final(self).0 == with_field(old(self).0, 40, 1, if value { 1 } else { 0 }),
    {
        self.0 = with_bits(self.0, 40, 1, if value { 1 } else { 0 });
    }

    /// Dithering of RGB values in one-cycle and two-cycle mode (bits 38 to 39).
    pub fn rgb_dither_type(&self) -> (value: RGBDitherType)
        ensures
            value == RGBDitherType::of_code(field(self.0, 38, 2) as u8),
    {
        proof {
            lemma_field_width(self.0, 38, 2);
        }
        RGBDitherType::from(get_bits(self.0, 38, 2) as u8)
    }

    /// The word with this field replaced by `value`; where `value` is
    /// wider than the field, its low bits are taken.
    pub fn with_rgb_dither_type(self, value: RGBDitherType) -> (out: SetOtherModes)
        ensures
            out.0 == with_field(self.0, 38, 2, value.code() as u64),
    {
        SetOtherModes(with_bits(self.0, 38, 2, u8::from(value) as u64))
    }

    /// Replaces this field by `value` in place.
    pub fn set_rgb_dither_type(&mut self, value: RGBDitherType)
        ensures
            final(self).0 == with_field(old(self).0, 38, 2, value.code() as u64),
    {
        self.0 = with_bits(self.0, 38, 2, u8::from(value) as u64);
    }

    /// Dithering of alpha values in one-cycle and two-cycle mode (bits 36 to
    /// 37).
    pub fn alpha_dither_type(&self) -> (value: AlphaDitherType)
        ensures
            value == AlphaDitherType::of_code(field(self.0, 36, 2) as u8),
    {
        proof {
            lemma_field_width(self.0, 36, 2);
        }
        AlphaDitherType::from(get_bits(self.0, 36, 2) as u8)
    }

    /// The word with this field replaced by `value`; where `value` is
    /// wider than the field, its low bits are taken.
    pub fn with_alpha_dither_type(self, value: AlphaDitherType) -> (out: SetOtherModes)
        ensures
            out.0 == with_field(self.0, 36, 2, value.code() as u64),
    {
        SetOtherModes(with_bits(self.0, 36, 2, u8::from(value) as u64))
    }

    /// Replaces this field by `value` in place.
    pub fn set_alpha_dither_type(&mut self, value: AlphaDitherType)
        ensures
            final(self).0 == with_field(old(self).0, 36, 2, value.code() as u64),
    {
        self.0 = with_bits(self.0, 36, 2, u8::from(value) as u64);
    }

    /// Multiply blend 1a input in cycle 0 (bits 30 to 31).
    pub fn mul_blend_1a_in_cycle_0(&self) -> (value: u8)
        ensures
            value == field(self.0, 30, 2),
    {
        proof {
            lemma_field_width(self.0, 30, 2);
        }
        get_bits(self.0, 30, 2) as u8
    }

    /// The word with this field replaced by `value`; where `value` is
    /// wider than the field, its low bits are taken.
    pub fn with_mul_blend_1a_in_cycle_0(self, value: u8) -> (out: SetOtherModes)
        ensures
            out.0 == with_field(self.0, 30, 2, value as u64),
    {
        SetOtherModes(with_bits(self.0, 30, 2, value as u64))
    }

    /// Replaces this field by `value` in place.
    pub fn set_mul_blend_1a_in_cycle_0(&mut self, value: u8)
        ensures
            final(self).0 == with_field(old(self).0, 30, 2, value as u64),
    {
        self.0 = with_bits(self.0, 30, 2, value as u64);
    }

    /// Multiply blend 1a input in cycle 1 (bits 28 to 29).
    pub fn mul_blend_1a_in_cycle_1(&self) -> (value: u8)
        ensures
            value == field(self.0, 28, 2),
    {
        proof {
            lemma_field_width(self.0, 28, 2);
        }
        get_bits(self.0, 28, 2) as u8
    }

    /// The word with this field replaced by `value`; where `value` is
    /// wider than the field, its low bits are taken.
    pub fn with_mul_blend_1a_in_cycle_1(self, value: u8) -> (out: SetOtherModes)
        ensures
            out.0 == with_field(self.0, 28, 2, value as u64),
    {
        SetOtherModes(with_bits(self.0, 28, 2, value as u64))
    }

    /// Replaces this field by `value` in place.
    pub fn set_mul_blend_1a_in_cycle_1(&mut self, value: u8)
        ensures
            final(self).0 == with_field(old(self).0, 28, 2, value as u64),
    {
        self.0 = with_bits(self.0, 28, 2, value as u64);
    }

    /// Multiply blend 1b input in cycle 0 (bits 26 to 27).
    pub fn mul_blend_1b_in_cycle_0(&self) -> (value: u8)
        ensures
            value == field(self.0, 26, 2),
    {
        proof {
            lemma_field_width(self.0, 26, 2);
        }
        get_bits(self.0, 26, 2) as u8
    }

    /// The word with this field replaced by `value`; where `value` is
    /// wider than the field, its low bits are taken.
    pub fn with_mul_blend_1b_in_cycle_0(self, value: u8) -> (out: SetOtherModes)
        ensures
            out.0 == with_field(self.0, 26, 2, value as u64),
    {
        SetOtherModes(with_bits(self.0, 26, 2, value as u64))
    }

    /// Replaces this field by `value` in place.
    pub fn set_mul_blend_1b_in_cycle_0(&mut self, value: u8)
        ensures
            final(self).0 == with_field(old(self).0, 26, 2, value as u64),
    {
        self.0 = with_bits(self.0, 26, 2, value as u64);
    }

    /// Multiply blend 1b input in cycle 1 (bits 24 to 25).
    pub fn mul_blend_1b_in_cycle_1(&self) -> (value: u8)
        ensures
            value == field(self.0, 24, 2),
    {
        proof {
            lemma_field_width(self.0, 24, 2);
        }
        get_bits(self.0, 24, 2) as u8
    }

    /// The word with this field replaced by `value`; where `value` is
    /// wider than the field, its low bits are taken.
    pub fn with_mul_blend_1b_in_cycle_1(self, value: u8) -> (out: SetOtherModes)
        ensures
            out.0 == with_field(self.0, 24, 2, value as u64),
    {
        SetOtherModes(with_bits(self.0, 24, 2, value as u64))
    }

    /// Replaces this field by `value` in place.
    pub fn set_mul_blend_1b_in_cycle_1(&mut self, value: u8)
        ensures
            final(self).0 == with_field(old(self).0, 24, 2, value as u64),
    {
        self.0 = with_bits(self.0, 24, 2, value as u64);
    }

    /// Multiply blend 2a input in cycle 0 (bits 22 to 23).
    pub fn mul_blend_2a_in_cycle_0(&self) -> (value: u8)
        ensures
            value == field(self.0, 22, 2),
    {
        proof {
            lemma_field_width(self.0, 22, 2);
        }
        get_bits(self.0, 22, 2) as u8
    }

    /// The word with this field replaced by `value`; where `value` is
    /// wider than the field, its low bits are taken.
    pub fn with_mul_blend_2a_in_cycle_0(self, value: u8) -> (out: SetOtherModes)
        ensures
            out.0 == with_field(self.0, 22, 2, value as u64),
    {
        SetOtherModes(with_bits(self.0, 22, 2, value as u64))
    }

    /// Replaces this field by `value` in place.
    pub fn set_mul_blend_2a_in_cycle_0(&mut self, value: u8)
        ensures
            final(self).0 == with_field(old(self).0, 22, 2, value as u64),
    {
        self.0 = with_bits(self.0, 22, 2, value as u64);
    }

    /// Multiply blend 2a input in cycle 1 (bits 20 to 21).
    pub fn mul_blend_2a_in_cycle_1(&self) -> (value: u8)
        ensures
            value == field(self.0, 20, 2),
    {
        proof {
            lemma_field_width(self.0, 20, 2);
        }
        get_bits(self.0, 20, 2) as u8
    }

    /// The word with this field replaced by `value`; where `value` is
    /// wider than the field, its low bits are taken.
    pub fn with_mul_blend_2a_in_cycle_1(self, value: u8) -> (out: SetOtherModes)
        ensures
            out.0 == with_field(self.0, 20, 2, value as u64),
    {
        SetOtherModes(with_bits(self.0, 20, 2, value as u64))
    }

    /// Replaces this field by `value` in place.
    pub fn set_mul_blend_2a_in_cycle_1(&mut self, value: u8)
        ensures
            final(self).0 == with_field(old(self).0, 20, 2, value as u64),
    {
        self.0 = with_bits(self.0, 20, 2, value as u64);
    }

    /// Multiply blend 2b input in cycle 0 (bits 18 to 19).
    pub fn mul_blend_2b_in_cycle_0(&self) -> (value: u8)
        ensures
            value == field(self.0, 18, 2),
    {
        proof {
            lemma_field_width(self.0, 18, 2);
        }
        get_bits(self.0, 18, 2) as u8
    }

    /// The word with this field replaced by `value`; where `value` is
    /// wider than the field, its low bits are taken.
    pub fn with_mul_blend_2b_in_cycle_0(self, value: u8) -> (out: SetOtherModes)
        ensures
            out.0 == with_field(self.0, 18, 2, value as u64),
    {
        SetOtherModes(with_bits(self.0, 18, 2, value as u64))
    }

    /// Replaces this field by `value` in place.
    pub fn set_mul_blend_2b_in_cycle_0(&mut self, value: u8)
        ensures
            final(self).0 == with_field(old(self).0, 18, 2, value as u64),
    {
        self.0 = with_bits(self.0, 18, 2, value as u64);
    }

    /// Multiply blend 2b input in cycle 1 (bits 16 to 17).
    pub fn mul_blend_2b_in_cycle_1(&self) -> (value: u8)
        ensures
            value == field(self.0, 16, 2),
    {
        proof {
            lemma_field_width(self.0, 16, 2);
        }
        get_bits(self.0, 16, 2) as u8
    }

    /// The word with this field replaced by `value`; where `value` is
    /// wider than the field, its low bits are taken.
    pub fn with_mul_blend_2b_in_cycle_1(self, value: u8) -> (out: SetOtherModes)
        ensures
            out.0 == with_field(self.0, 16, 2, value as u64),
    {
        SetOtherModes(with_bits(self.0, 16, 2, value as u64))
    }

    /// Replaces this field by `value` in place.
    pub fn set_mul_blend_2b_in_cycle_1(&mut self, value: u8)
        ensures
            final(self).0 == with_field(old(self).0, 16, 2, value as u64),
    {
        self.0 = with_bits(self.0, 16, 2, value as u64);
    }

    /// Force blend (bit 14).
    pub fn force_blend(&self) -> (value: bool)
        ensures
            value == flag(self.0, 14),
    {
        get_bit(self.0, 14)
    }

    /// The word with this field replaced by `value`; where `value` is
    /// wider than the field, its low bits are taken.
    pub fn with_force_blend(self, value: bool) -> (out: SetOtherModes)
        ensures
            out.0 == with_field(self.0, 14, 1, if value { 1 } else { 0 }),
    {
        SetOtherModes(with_bits(self.0, 14, 1, if value { 1 } else { 0 }))
    }

    /// Replaces this field by `value` in place.
    pub fn set_force_blend(&mut self, value: bool)
        ensures
            final(self).0 == with_field(old(self).0, 14, 1, if value { 1 } else { 0 }),
    {
        self.0 = with_bits(self.0, 14, 1, if value { 1 } else { 0 });
    }

    /// Use of the coverage bits in the alpha calculation (bit 13).
    pub fn alpha_cvg_select(&self) -> (value: bool)
        ensures
            value == flag(self.0, 13),
    {
        get_bit(self.0, 13)
    }

    /// The word with this field replaced by `value`; where `value` is
    /// wider than the field, its low bits are taken.
    pub fn with_alpha_cvg_select(self, value: bool) -> (out: SetOtherModes)
        ensures
            out.0 == with_field(self.0, 13, 1, if value { 1 } else { 0 }),
    {
        SetOtherModes(with_bits(self.0, 13, 1, if value { 1 } else { 0 }))
    }

    /// Replaces this field by `value` in place.
    pub fn set_alpha_cvg_select(&mut self, value: bool)
        ensures
            final(self).0 == with_field(old(self).0, 13, 1, if value { 1 } else { 0 }),
    {
        self.0 = with_bits(self.0, 13, 1, if value { 1 } else { 0 });
    }

    /// Multiplication of the coverage bits by the alpha value for the final
    /// alpha of a pixel (bit 12).
    pub fn cvg_times_alpha(&self) -> (value: bool)
        ensures
            value == flag(self.0, 12),
    {
        get_bit(self.0, 12)
    }

    /// The word with this field replaced by `value`; where `value` is
    /// wider than the field, its low bits are taken.
    pub fn with_cvg_times_alpha(self, value: bool) -> (out: SetOtherModes)
        ensures
            out.0 == with_field(self.0, 12, 1, if value { 1 } else { 0 }),
    {
        SetOtherModes(with_bits(self.0, 12, 1, if value { 1 } else { 0 }))
    }

    /// Replaces this field by `value` in place.
    pub fn set_cvg_times_alpha(&mut self, value: bool)
        ensures
            final(self).0 == with_field(old(self).0, 12, 1, if value { 1 } else { 0 }),
    {
        self.0 = with_bits(self.0, 12, 1, if value { 1 } else { 0 });
    }

    /// Mode of the Z buffer (bits 10 to 11).
    pub fn z_mode(&self) -> (value: ZMode)
        ensures
            value == ZMode::of_code(field(self.0, 10, 2) as u8),
    {
        proof {
            lemma_field_width(self.0, 10, 2);
        }
        ZMode::from(get_bits(self.0, 10, 2) as u8)
    }

    /// The word with this field replaced by `value`; where `value` is
    /// wider than the field, its low bits are taken.
    pub fn with_z_mode(self, value: ZMode) -> (out: SetOtherModes)
        ensures
            out.0 == with_field(self.0, 10, 2, value.code() as u64),
    {
        SetOtherModes(with_bits(self.0, 10, 2, u8::from(value) as u64))
    }

    /// Replaces this field by `value` in place.
    pub fn set_z_mode(&mut self, value: ZMode)
        ensures
            final(self).0 == with_field(old(self).0, 10, 2, value.code() as u64),
    {
        self.0 = with_bits(self.0, 10, 2, u8::from(value) as u64);
    }

    /// Handling of coverage values (bits 8 to 9).
    pub fn cvg_mode(&self) -> (value: CoverageMode)
        ensures
            value == CoverageMode::of_code(field(self.0, 8, 2) as u8),
    {
        proof {
            lemma_field_width(self.0, 8, 2);
        }
        CoverageMode::from(get_bits(self.0, 8, 2) as u8)
    }

    /// The word with this field replaced by `value`; where `value` is
    /// wider than the field, its low bits are taken.
    pub fn with_cvg_mode(self, value: CoverageMode) -> (out: SetOtherModes)
        ensures
            out.0 == with_field(self.0, 8, 2, value.code() as u64),
    {
        SetOtherModes(with_bits(self.0, 8, 2, u8::from(value) as u64))
    }

    /// Replaces this field by `value` in place.
    pub fn set_cvg_mode(&mut self, value: CoverageMode)
        ensures
            final(self).0 == with_field(old(self).0, 8, 2, value.code() as u64),
    {
        self.0 = with_bits(self.0, 8, 2, u8::from(value) as u64);
    }

    /// Update of the color on coverage overflow only (bit 7).
    pub fn update_color_on_cvg_overflow(&self) -> (value: bool)
        ensures
            value == flag(self.0, 7),
    {
        get_bit(self.0, 7)
    }

    /// The word with this field replaced by `value`; where `value` is
    /// wider than the field, its low bits are taken.
    pub fn with_update_color_on_cvg_overflow(self, value: bool) -> (out: SetOtherModes)
        ensures
            out.0 == with_field(self.0, 7, 1, if value { 1 } else { 0 }),
    {
        SetOtherModes(with_bits(self.0, 7, 1, if value { 1 } else { 0 }))
    }

    /// Replaces this field by `value` in place.
    pub fn set_update_color_on_cvg_overflow(&mut self, value: bool)
        ensures
            final(self).0 == with_field(old(self).0, 7, 1, if value { 1 } else { 0 }),
    {
        self.0 = with_bits(self.0, 7, 1, if value { 1 } else { 0 });
    }

    /// Read, modify and write access of coverage to the canvas (bit 6).
    pub fn enable_rw_on_canvas_for_coverage(&self) -> (value: bool)
        ensures
            value == flag(self.0, 6),
    {
        get_bit(self.0, 6)
    }

    /// The word with this field replaced by `value`; where `value` is
    /// wider than the field, its low bits are taken.
    pub fn with_enable_rw_on_canvas_for_coverage(self, value: bool) -> (out: SetOtherModes)
        ensures
            out.0 == with_field(self.0, 6, 1, if value { 1 } else { 0 }),
    {
        SetOtherModes(with_bits(self.0, 6, 1, if value { 1 } else { 0 }))
    }

    /// Replaces this field by `value` in place.
    pub fn set_enable_rw_on_canvas_for_coverage(&mut self, value: bool)
        ensures
            final(self).0 == with_field(old(self).0, 6, 1, if value { 1 } else { 0 }),
    {
        self.0 = with_bits(self.0, 6, 1, if value { 1 } else { 0 });
    }

    /// Writing of a new Z value where the color write is on (bit 5).
    pub fn z_update_en(&self) -> (value: bool)
        ensures
            value == flag(self.0, 5),
    {
        get_bit(self.0, 5)
    }

    /// The word with this field replaced by `value`; where `value` is
    /// wider than the field, its low bits are taken.
    pub fn with_z_update_en(self, value: bool) -> (out: SetOtherModes)
        ensures
            out.0 == with_field(self.0, 5, 1, if value { 1 } else { 0 }),
    {
        SetOtherModes(with_bits(self.0, 5, 1, if value { 1 } else { 0 }))
    }

    /// Replaces this field by `value` in place.
    pub fn set_z_update_en(&mut self, value: bool)
        ensures
            final(self).0 == with_field(old(self).0, 5, 1, if value { 1 } else { 0 }),
    {
        self.0 = with_bits(self.0, 5, 1, if value { 1 } else { 0 });
    }

    /// Color write on condition of the depth comparison (bit 4).
    pub fn z_compare_en(&self) -> (value: bool)
        ensures
            value == flag(self.0, 4),
    {
        get_bit(self.0, 4)
    }

    /// The word with this field replaced by `value`; where `value` is
    /// wider than the field, its low bits are taken.
    pub fn with_z_compare_en(self, value: bool) -> (out: SetOtherModes)
        ensures
            out.0 == with_field(self.0, 4, 1, if value { 1 } else { 0 }),
    {
        SetOtherModes(with_bits(self.0, 4, 1, if value { 1 } else { 0 }))
    }

    /// Replaces this field by `value` in place.
    pub fn set_z_compare_en(&mut self, value: bool)
        ensures
            final(self).0 == with_field(old(self).0, 4, 1, if value { 1 } else { 0 }),
    {
        self.0 = with_bits(self.0, 4, 1, if value { 1 } else { 0 });
    }

    /// Anti-aliasing by coverage bits where force blend is off (bit 3).
    pub fn enable_antialiasing_on_cvg(&self) -> (value: bool)
        ensures
            value == flag(self.0, 3),
    {
        get_bit(self.0, 3)
    }

    /// The word with this field replaced by `value`; where `value` is
    /// wider than the field, its low bits are taken.
    pub fn with_enable_antialiasing_on_cvg(self, value: bool) -> (out: SetOtherModes)
        ensures
            out.0 == with_field(self.0, 3, 1, if value { 1 } else { 0 }),
    {
        SetOtherModes(with_bits(self.0, 3, 1, if value { 1 } else { 0 }))
    }

    /// Replaces this field by `value` in place.
    pub fn set_enable_antialiasing_on_cvg(&mut self, value: bool)
        ensures
            final(self).0 == with_field(old(self).0, 3, 1, if value { 1 } else { 0 }),
    {
        self.0 = with_bits(self.0, 3, 1, if value { 1 } else { 0 });
    }

    /// Source of the Z value (bit 2).
    pub fn source_of_z(&self) -> (value: ZSource)
        ensures
            value == ZSource::of_bit(flag(self.0, 2)),
    {
        ZSource::from(get_bit(self.0, 2))
    }

    /// The word with this field replaced by `value`; where `value` is
    /// wider than the field, its low bits are taken.
    pub fn with_source_of_z(self, value: ZSource) -> (out: SetOtherModes)
        ensures
            out.0 == with_field(self.0, 2, 1, if value.bit() { 1 } else { 0 }),
    {
        SetOtherModes(with_bits(self.0, 2, 1, if bool::from(value) { 1 } else { 0 }))
    }

    /// Replaces this field by `value` in place.
    pub fn set_source_of_z(&mut self, value: ZSource)
        ensures
            final(self).0 == with_field(old(self).0, 2, 1, if value.bit() { 1 } else { 0 }),
    {
        self.0 = with_bits(self.0, 2, 1, if bool::from(value) { 1 } else { 0 });
    }

    /// Source for alpha comparisons (bit 1).
    pub fn alpha_compare_source(&self) -> (value: AlphaCompareSource)
        ensures
            value == AlphaCompareSource::of_bit(flag(self.0, 1)),
    {
        AlphaCompareSource::from(get_bit(self.0, 1))
    }

    /// The word with this field replaced by `value`; where `value` is
    /// wider than the field, its low bits are taken.
    pub fn with_alpha_compare_source(self, value: AlphaCompareSource) -> (out: SetOtherModes)
        ensures
            out.0 == with_field(self.0, 1, 1, if value.bit() { 1 } else { 0 }),
    {
        SetOtherModes(with_bits(self.0, 1, 1, if bool::from(value) { 1 } else { 0 }))
    }

    /// Replaces this field by `value` in place.
    pub fn set_alpha_compare_source(&mut self, value: AlphaCompareSource)
        ensures
            final(self).0 == with_field(old(self).0, 1, 1, if value.bit() { 1 } else { 0 }),
    {
        self.0 = with_bits(self.0, 1, 1, if bool::from(value) { 1 } else { 0 });
    }

    /// Color write on condition of the alpha comparison (bit 0).
    pub fn alpha_compare_enable(&self) -> (value: bool)
        ensures
            value == flag(self.0, 0),
    {
        get_bit(self.0, 0)
    }

    /// The word with this field replaced by `value`; where `value` is
    /// wider than the field, its low bits are taken.
    pub fn with_alpha_compare_enable(self, value: bool) -> (out: SetOtherModes)
        ensures
            out.0 == with_field(self.0, 0, 1, if value { 1 } else { 0 }),
    {
        SetOtherModes(with_bits(self.0, 0, 1, if value { 1 } else { 0 }))
    }

    /// Replaces this field by `value` in place.
    pub fn set_alpha_compare_enable(&mut self, value: bool)
        ensures
            final(self).0 == with_field(old(self).0, 0, 1, if value { 1 } else { 0 }),
    {
        self.0 = with_bits(self.0, 0, 1, if value { 1 } else { 0 });
    }
}

/// Rendering modes of the RDP. The two standard modes serve for triangles, the
/// two fast modes, which write four pixels at a time, for rectangles.
#[derive(Clone, Copy, Debug, PartialEq, Eq, Structural)]
pub enum CycleType {
    /// A standard mode: one RDP cycle per pixel.
    OneCycle,
    /// A standard mode: two RDP cycles per pixel, that is two passes over
    /// stages of the pipeline.
    TwoCycle,
    /// A fast mode, mostly for textured rectangles.
    Copy,
    /// A fast mode that skips the texture pipeline.
    Fill,
}

impl CycleType {
    /// The number that stands for the variant in a register or command word.
    pub open spec fn code(self) -> u8 {
        match self {
            CycleType::OneCycle => 0,
            CycleType::TwoCycle => 1,
            CycleType::Copy => 2,
            CycleType::Fill => 3,
        }
    }

    /// The variant that a number stands for; a number that names no
    /// variant stands for `OneCycle`.
    pub open spec fn of_code(code: u8) -> CycleType {
        if code == 1 {
            CycleType::TwoCycle
        } else if code == 2 {
            CycleType::Copy
        } else if code == 3 {
            CycleType::Fill
        } else {
            CycleType::OneCycle
        }
    }

    /// Every variant is found again from its number, and its number fits
    /// a field of 2 bits.
    pub proof fn lemma_code_round_trip(self)
        ensures
            CycleType::of_code(self.code()) == self,
            self.code() < 4,
    {
    }

    /// A number that names a variant is that variant's number; any other
    /// number gives `OneCycle`.
    pub proof fn lemma_of_code(code: u8)
        ensures
            (code == 0 || code == 1 || code == 2 || code == 3)
                ==> CycleType::of_code(code).code() == code,
            !(code == 0 || code == 1 || code == 2 || code == 3)
                ==> CycleType::of_code(code) == CycleType::OneCycle,
    {
    }
}

impl From<u8> for CycleType {
    fn from(code: u8) -> (out: CycleType) {
        if code == 1 {
            CycleType::TwoCycle
        } else if code == 2 {
            CycleType::Copy
        } else if code == 3 {
            CycleType::Fill
        } else {
            CycleType::OneCycle
        }
    }
}

impl FromSpecImpl<u8> for CycleType {
    open spec fn obeys_from_spec() -> bool {
        true
    }

    open spec fn from_spec(code: u8) -> CycleType {
        CycleType::of_code(code)
    }
}

impl From<CycleType> for u8 {
    fn from(value: CycleType) -> (out: u8) {
        match value {
            CycleType::OneCycle => 0,
            CycleType::TwoCycle => 1,
            CycleType::Copy => 2,
            CycleType::Fill => 3,
        }
    }
}

impl FromSpecImpl<CycleType> for u8 {
    open spec fn obeys_from_spec() -> bool {
        true
    }

    open spec fn from_spec(value: CycleType) -> u8 {
        value.code()
    }
}

/// Color model and pixel size of the texels in the texture lookup table.
#[derive(Clone, Copy, Debug, PartialEq, Eq, Structural)]
pub enum TexelTypeInTLUT {
    /// 16-bit RGBA (5/5/5/1).
    RGBA16b,
    /// 16-bit intensity and alpha (8/8).
    IA,
}

impl TexelTypeInTLUT {
    /// The bit that stands for the variant: clear for `RGBA16b`, set for
    /// `IA`.
    pub open spec fn bit(self) -> bool {
        self == TexelTypeInTLUT::IA
    }

    /// The variant that a bit stands for.
    pub open spec fn of_bit(bit: bool) -> TexelTypeInTLUT {
        if bit {
            TexelTypeInTLUT::IA
        } else {
            TexelTypeInTLUT::RGBA16b
        }
    }

    /// The two conversions undo each other.
    pub proof fn lemma_bit_round_trip(self, bit: bool)
        ensures
            TexelTypeInTLUT::of_bit(self.bit()) == self,
            TexelTypeInTLUT::of_bit(bit).bit() == bit,
    {
    }
}

impl From<bool> for TexelTypeInTLUT {
    fn from(value: bool) -> (out: TexelTypeInTLUT) {
        match value {
            true => TexelTypeInTLUT::IA,
            false => TexelTypeInTLUT::RGBA16b,
        }
    }
}

impl FromSpecImpl<bool> for TexelTypeInTLUT {
    open spec fn obeys_from_spec() -> bool {
        true
    }

    open spec fn from_spec(value: bool) -> TexelTypeInTLUT {
        TexelTypeInTLUT::of_bit(value)
    }
}

impl From<TexelTypeInTLUT> for bool {
    fn from(value: TexelTypeInTLUT) -> (out: bool) {
        match value {
            TexelTypeInTLUT::RGBA16b => false,
            TexelTypeInTLUT::IA => true,
        }
    }
}

impl FromSpecImpl<TexelTypeInTLUT> for bool {
    open spec fn obeys_from_spec() -> bool {
        true
    }

    open spec fn from_spec(value: TexelTypeInTLUT) -> bool {
        value.bit()
    }
}

/// Ways to sample a texture.
#[derive(Clone, Copy, Debug, PartialEq, Eq, Structural)]
pub enum TextureSampleMethod {
    /// One texel (1x1).
    Point,
    /// Four texels (2x2).
    Bilinear,
}

impl TextureSampleMethod {
    /// The bit that stands for the variant: clear for `Point`, set for
    /// `Bilinear`.
    pub open spec fn bit(self) -> bool {
        self == TextureSampleMethod::Bilinear
    }

    /// The variant that a bit stands for.
    pub open spec fn of_bit(bit: bool) -> TextureSampleMethod {
        if bit {
            TextureSampleMethod::Bilinear
        } else {
            TextureSampleMethod::Point
        }
    }

    /// The two conversions undo each other.
    pub proof fn lemma_bit_round_trip(self, bit: bool)
        ensures
            TextureSampleMethod::of_bit(self.bit()) == self,
            TextureSampleMethod::of_bit(bit).bit() == bit,
    {
    }
}

impl From<bool> for TextureSampleMethod {
    fn from(value: bool) -> (out: TextureSampleMethod) {
        match value {
            true => TextureSampleMethod::Bilinear,
            false => TextureSampleMethod::Point,
        }
    }
}

impl FromSpecImpl<bool> for TextureSampleMethod {
    open spec fn obeys_from_spec() -> bool {
        true
    }

    open spec fn from_spec(value: bool) -> TextureSampleMethod {
        TextureSampleMethod::of_bit(value)
    }
}

impl From<TextureSampleMethod> for bool {
    fn from(value: TextureSampleMethod) -> (out: bool) {
        match value {
            TextureSampleMethod::Point => false,
            TextureSampleMethod::Bilinear => true,
        }
    }
}

impl FromSpecImpl<TextureSampleMethod> for bool {
    open spec fn obeys_from_spec() -> bool {
        true
    }

    open spec fn from_spec(value: TextureSampleMethod) -> bool {
        value.bit()
    }
}

/// Dithering of RGB values in one-cycle and two-cycle mode.
#[derive(Clone, Copy, Debug, PartialEq, Eq, Structural)]
pub enum RGBDitherType {
    /// Magic square matrix.
    MagicSquareMatrix,
    /// Bayer matrix.
    BayerMatrix,
    /// Noise.
    Noise,
    /// No dithering.
    NoDither,
}

impl RGBDitherType {
    /// The number that stands for the variant in a register or command word.
    pub open spec fn code(self) -> u8 {
        match self {
            RGBDitherType::MagicSquareMatrix => 0,
            RGBDitherType::BayerMatrix => 1,
            RGBDitherType::Noise => 2,
            RGBDitherType::NoDither => 3,
        }
    }

    /// The variant that a number stands for; a number that names no
    /// variant stands for `NoDither`.
    pub open spec fn of_code(code: u8) -> RGBDitherType {
        if code == 0 {
            RGBDitherType::MagicSquareMatrix
        } else if code == 1 {
            RGBDitherType::BayerMatrix
        } else if code == 2 {
            RGBDitherType::Noise
        } else {
            RGBDitherType::NoDither
        }
    }

    /// Every variant is found again from its number, and its number fits
    /// a field of 2 bits.
    pub proof fn lemma_code_round_trip(self)
        ensures
            RGBDitherType::of_code(self.code()) == self,
            self.code() < 4,
    {
    }

    /// A number that names a variant is that variant's number; any other
    /// number gives `NoDither`.
    pub proof fn lemma_of_code(code: u8)
        ensures
            (code == 0 || code == 1 || code == 2 || code == 3)
                ==> RGBDitherType::of_code(code).code() == code,
            !(code == 0 || code == 1 || code == 2 || code == 3)
                ==> RGBDitherType::of_code(code) == RGBDitherType::NoDither,
    {
    }
}

impl From<u8> for RGBDitherType {
    fn from(code: u8) -> (out: RGBDitherType) {
        if code == 0 {
            RGBDitherType::MagicSquareMatrix
        } else if code == 1 {
            RGBDitherType::BayerMatrix
        } else if code == 2 {
            RGBDitherType::Noise
        } else {
            RGBDitherType::NoDither
        }
    }
}

impl FromSpecImpl<u8> for RGBDitherType {
    open spec fn obeys_from_spec() -> bool {
        true
    }

    open spec fn from_spec(code: u8) -> RGBDitherType {
        RGBDitherType::of_code(code)
    }
}

impl From<RGBDitherType> for u8 {
    fn from(value: RGBDitherType) -> (out: u8) {
        match value {
            RGBDitherType::MagicSquareMatrix => 0,
            RGBDitherType::BayerMatrix => 1,
            RGBDitherType::Noise => 2,
            RGBDitherType::NoDither => 3,
        }
    }
}

impl FromSpecImpl<RGBDitherType> for u8 {
    open spec fn obeys_from_spec() -> bool {
        true
    }

    open spec fn from_spec(value: RGBDitherType) -> u8 {
        value.code()
    }
}

/// Dithering of alpha values in one-cycle and two-cycle mode.
#[derive(Clone, Copy, Debug, PartialEq, Eq, Structural)]
pub enum AlphaDitherType {
    /// The pattern of the RGB dither.
    Pattern,
    /// The inverse of that pattern.
    AntiPattern,
    /// Noise.
    Noise,
    /// No dithering.
    NoDither,
}

impl AlphaDitherType {
    /// The number that stands for the variant in a register or command word.
    pub open spec fn code(self) -> u8 {
        match self {
            AlphaDitherType::Pattern => 0,
            AlphaDitherType::AntiPattern => 1,
            AlphaDitherType::Noise => 2,
            AlphaDitherType::NoDither => 3,
        }
    }

    /// The variant that a number stands for; a number that names no
    /// variant stands for `NoDither`.
    pub open spec fn of_code(code: u8) -> AlphaDitherType {
        if code == 0 {
            AlphaDitherType::Pattern
        } else if code == 1 {
            AlphaDitherType::AntiPattern
        } else if code == 2 {
            AlphaDitherType::Noise
        } else {
            AlphaDitherType::NoDither
        }
    }

    /// Every variant is found again from its number, and its number fits
    /// a field of 2 bits.
    pub proof fn lemma_code_round_trip(self)
        ensures
            AlphaDitherType::of_code(self.code()) == self,
            self.code() < 4,
    {
    }

    /// A number that names a variant is that variant's number; any other
    /// number gives `NoDither`.
    pub proof fn lemma_of_code(code: u8)
        ensures
            (code == 0 || code == 1 || code == 2 || code == 3)
                ==> AlphaDitherType::of_code(code).code() == code,
            !(code == 0 || code == 1 || code == 2 || code == 3)
                ==> AlphaDitherType::of_code(code) == AlphaDitherType::NoDither,
    {
    }
}

impl From<u8> for AlphaDitherType {
    fn from(code: u8) -> (out: AlphaDitherType) {
        if code == 0 {
            AlphaDitherType::Pattern
        } else if code == 1 {
            AlphaDitherType::AntiPattern
        } else if code == 2 {
            AlphaDitherType::Noise
        } else {
            AlphaDitherType::NoDither
        }
    }
}

impl FromSpecImpl<u8> for AlphaDitherType {
    open spec fn obeys_from_spec() -> bool {
        true
    }

    open spec fn from_spec(code: u8) -> AlphaDitherType {
        AlphaDitherType::of_code(code)
    }
}

impl From<AlphaDitherType> for u8 {
    fn from(value: AlphaDitherType) -> (out: u8) {
        match value {
            AlphaDitherType::Pattern => 0,
            AlphaDitherType::AntiPattern => 1,
            AlphaDitherType::Noise => 2,
            AlphaDitherType::NoDither => 3,
        }
    }
}

impl FromSpecImpl<AlphaDitherType> for u8 {
    open spec fn obeys_from_spec() -> bool {
        true
    }

    open spec fn from_spec(value: AlphaDitherType) -> u8 {
        value.code()
    }
}

/// Modes of the Z buffer.
#[derive(Clone, Copy, Debug, PartialEq, Eq, Structural)]
pub enum ZMode {
    /// Opaque surfaces.
    Opaque,
    /// Surfaces that pass through each other.
    Interpenetrating,
    /// Transparent surfaces.
    Transparent,
    /// Decals.
    Decal,
}

impl ZMode {
    /// The number that stands for the variant in a register or command word.
    pub open spec fn code(self) -> u8 {
        match self {
            ZMode::Opaque => 0,
            ZMode::Interpenetrating => 1,
            ZMode::Transparent => 2,
            ZMode::Decal => 3,
        }
    }

    /// The variant that a number stands for; a number that names no
    /// variant stands for `Opaque`.
    pub open spec fn of_code(code: u8) -> ZMode {
        if code == 1 {
            ZMode::Interpenetrating
        } else if code == 2 {
            ZMode::Transparent
        } else if code == 3 {
            ZMode::Decal
        } else {
            ZMode::Opaque
        }
    }

    /// Every variant is found again from its number, and its number fits
    /// a field of 2 bits.
    pub proof fn lemma_code_round_trip(self)
        ensures
            ZMode::of_code(self.code()) == self,
            self.code() < 4,
    {
    }

    /// A number that names a variant is that variant's number; any other
    /// number gives `Opaque`.
    pub proof fn lemma_of_code(code: u8)
        ensures
            (code == 0 || code == 1 || code == 2 || code == 3)
                ==> ZMode::of_code(code).code() == code,
            !(code == 0 || code == 1 || code == 2 || code == 3)
                ==> ZMode::of_code(code) == ZMode::Opaque,
    {
    }
}

impl From<u8> for ZMode {
    fn from(code: u8) -> (out: ZMode) {
        if code == 1 {
            ZMode::Interpenetrating
        } else if code == 2 {
            ZMode::Transparent
        } else if code == 3 {
            ZMode::Decal
        } else {
            ZMode::Opaque
        }
    }
}

impl FromSpecImpl<u8> for ZMode {
    open spec fn obeys_from_spec() -> bool {
        true
    }

    open spec fn from_spec(code: u8) -> ZMode {
        ZMode::of_code(code)
    }
}

impl From<ZMode> for u8 {
    fn from(value: ZMode) -> (out: u8) {
        match value {
            ZMode::Opaque => 0,
            ZMode::Interpenetrating => 1,
            ZMode::Transparent => 2,
            ZMode::Decal => 3,
        }
    }
}

impl FromSpecImpl<ZMode> for u8 {
    open spec fn obeys_from_spec() -> bool {
        true
    }

    open spec fn from_spec(value: ZMode) -> u8 {
        value.code()
    }
}

/// Handling of coverage values.
#[derive(Clone, Copy, Debug, PartialEq, Eq, Structural)]
pub enum CoverageMode {
    /// Clamp.
    Clamp,
    /// Wrap.
    Wrap,
    /// Force to full coverage.
    ForceToFullCoverage,
    /// Do not write back.
    NoWriteback,
}

impl CoverageMode {
    /// The number that stands for the variant in a register or command word.
    pub open spec fn code(self) -> u8 {
        match self {
            CoverageMode::Clamp => 0,
            CoverageMode::Wrap => 1,
            CoverageMode::ForceToFullCoverage => 2,
            CoverageMode::NoWriteback => 3,
        }
    }

    /// The variant that a number stands for; a number that names no
    /// variant stands for `Clamp`.
    pub open spec fn of_code(code: u8) -> CoverageMode {
        if code == 1 {
            CoverageMode::Wrap
        } else if code == 2 {
            CoverageMode::ForceToFullCoverage
        } else if code == 3 {
            CoverageMode::NoWriteback
        } else {
            CoverageMode::Clamp
        }
    }

    /// Every variant is found again from its number, and its number fits
    /// a field of 2 bits.
    pub proof fn lemma_code_round_trip(self)
        ensures
            CoverageMode::of_code(self.code()) == self,
            self.code() < 4,
    {
    }

    /// A number that names a variant is that variant's number; any other
    /// number gives `Clamp`.
    pub proof fn lemma_of_code(code: u8)
        ensures
            (code == 0 || code == 1 || code == 2 || code == 3)
                ==> CoverageMode::of_code(code).code() == code,
            !(code == 0 || code == 1 || code == 2 || code == 3)
                ==> CoverageMode::of_code(code) == CoverageMode::Clamp,
    {
    }
}

impl From<u8> for CoverageMode {
    fn from(code: u8) -> (out: CoverageMode) {
        if code == 1 {
            CoverageMode::Wrap
        } else if code == 2 {
            CoverageMode::ForceToFullCoverage
        } else if code == 3 {
            CoverageMode::NoWriteback
        } else {
            CoverageMode::Clamp
        }
    }
}

impl FromSpecImpl<u8> for CoverageMode {
    open spec fn obeys_from_spec() -> bool {
        true
    }

    open spec fn from_spec(code: u8) -> CoverageMode {
        CoverageMode::of_code(code)
    }
}

impl From<CoverageMode> for u8 {
    fn from(value: CoverageMode) -> (out: u8) {
        match value {
            CoverageMode::Clamp => 0,
            CoverageMode::Wrap => 1,
            CoverageMode::ForceToFullCoverage => 2,
            CoverageMode::NoWriteback => 3,
        }
    }
}

impl FromSpecImpl<CoverageMode> for u8 {
    open spec fn obeys_from_spec() -> bool {
        true
    }

    open spec fn from_spec(value: CoverageMode) -> u8 {
        value.code()
    }
}

/// Source of Z values.
#[derive(Clone, Copy, Debug, PartialEq, Eq, Structural)]
pub enum ZSource {
    /// Each pixel has its own.
    Pixel,
    /// The primitive has one.
    Primitive,
}

impl ZSource {
    /// The bit that stands for the variant: clear for `Pixel`, set for
    /// `Primitive`.
    pub open spec fn bit(self) -> bool {
        self == ZSource::Primitive
    }

    /// The variant that a bit stands for.
    pub open spec fn of_bit(bit: bool) -> ZSource {
        if bit {
            ZSource::Primitive
        } else {
            ZSource::Pixel
        }
    }

    /// The two conversions undo each other.
    pub proof fn lemma_bit_round_trip(self, bit: bool)
        ensures
            ZSource::of_bit(self.bit()) == self,
            ZSource::of_bit(bit).bit() == bit,
    {
    }
}

impl From<bool> for ZSource {
    fn from(value: bool) -> (out: ZSource) {
        match value {
            true => ZSource::Primitive,
            false => ZSource::Pixel,
        }
    }
}

impl FromSpecImpl<bool> for ZSource {
    open spec fn obeys_from_spec() -> bool {
        true
    }

    open spec fn from_spec(value: bool) -> ZSource {
        ZSource::of_bit(value)
    }
}

impl From<ZSource> for bool {
    fn from(value: ZSource) -> (out: bool) {
        match value {
            ZSource::Pixel => false,
            ZSource::Primitive => true,
        }
    }
}

impl FromSpecImpl<ZSource> for bool {
    open spec fn obeys_from_spec() -> bool {
        true
    }

    open spec fn from_spec(value: ZSource) -> bool {
        value.bit()
    }
}

/// Source for alpha comparisons.
#[derive(Clone, Copy, Debug, PartialEq, Eq, Structural)]
pub enum AlphaCompareSource {
    /// A random value.
    Noise,
    /// The blend alpha.
    Blend,
}

impl AlphaCompareSource {
    /// The bit that stands for the variant: clear for `Noise`, set for
    /// `Blend`.
    pub open spec fn bit(self) -> bool {
        self == AlphaCompareSource::Blend
    }

    /// The variant that a bit stands for.
    pub open spec fn of_bit(bit: bool) -> AlphaCompareSource {
        if bit {
            AlphaCompareSource::Blend
        } else {
            AlphaCompareSource::Noise
        }
    }

    /// The two conversions undo each other.
    pub proof fn lemma_bit_round_trip(self, bit: bool)
        ensures
            AlphaCompareSource::of_bit(self.bit()) == self,
            AlphaCompareSource::of_bit(bit).bit() == bit,
    {
    }
}

impl From<bool> for AlphaCompareSource {
    fn from(value: bool) -> (out: AlphaCompareSource) {
        match value {
            true => AlphaCompareSource::Blend,
            false => AlphaCompareSource::Noise,
        }
    }
}

impl FromSpecImpl<bool> for AlphaCompareSource {
    open spec fn obeys_from_spec() -> bool {
        true
    }

    open spec fn from_spec(value: bool) -> AlphaCompareSource {
        AlphaCompareSource::of_bit(value)
    }
}

impl From<AlphaCompareSource> for bool {
    fn from(value: AlphaCompareSource) -> (out: bool) {
        match value {
            AlphaCompareSource::Noise => false,
            AlphaCompareSource::Blend => true,
        }
    }
}

impl FromSpecImpl<AlphaCompareSource> for bool {
    open spec fn obeys_from_spec() -> bool {
        true
    }

    open spec fn from_spec(value: AlphaCompareSource) -> bool {
        value.bit()
    }
}

} // verus!
