//! Register values of the video interface (VI).
//!
//! The VI makes a video signal out of the pixels of a frame buffer and the
//! values in its registers. Each register value is a 32-bit word with named
//! fields; the timing fields are to be filled from the video standard in
//! use (NTSC or PAL).

#![allow(non_camel_case_types)]

use vstd::prelude::*;
use vstd::std_specs::convert::FromSpecImpl;
use crate::bits::{field, flag, get_bit, get_bits, lemma_field_width, with_bits32, with_field};

verus! {

/// Address of the first register of the video interface.
pub const VIDEO_INTERFACE_BASE_ADDRESS: usize = 0xA440_0000;

/// Features and options of the VI that do not depend on the video standard.
#[derive(Clone, Copy, Debug, PartialEq, Eq, Structural)]
pub struct VI_CTRL(pub u32);

impl From<u32> for VI_CTRL {
    fn from(raw: u32) -> (out: VI_CTRL) {
        VI_CTRL(raw)
    }
}

impl FromSpecImpl<u32> for VI_CTRL {
    open spec fn obeys_from_spec() -> bool {
        true
    }

    open spec fn from_spec(raw: u32) -> VI_CTRL {
        VI_CTRL(raw)
    }
}

impl From<VI_CTRL> for u32 {
    fn from(value: VI_CTRL) -> (out: u32) {
        value.0
    }
}

impl FromSpecImpl<VI_CTRL> for u32 {
    open spec fn obeys_from_spec() -> bool {
        true
    }

    open spec fn from_spec(value: VI_CTRL) -> u32 {
        value.0
    }
}

impl VI_CTRL {
    /// De-dithering of the bitmap (bit 16).
    pub fn enable_dither_filter(&self) -> (value: bool)
        ensures
            value == flag(self.0 as u64, 16),
    {
        get_bit(self.0 as u64, 16)
    }

    /// The word with this field replaced by `value`; where `value` is
    /// wider than the field, its low bits are taken.
    pub fn with_enable_dither_filter(self, value: bool) -> (out: VI_CTRL)
        ensures
            out.0 == with_field(self.0 as u64, 16, 1, if value { 1 } else { 0 }),
    {
        VI_CTRL(with_bits32(self.0, 16, 1, if value { 1 } else { 0 }))
    }

    /// Replaces this field by `value` in place.
    pub fn set_enable_dither_filter(&mut self, value: bool)
        ensures
            final(self).0 == with_field(old(self).0 as u64, 16, 1, if value { 1 } else { 0 }),
    {
        self.0 = with_bits32(self.0, 16, 1, if value { 1 } else { 0 });
    }

    /// Pixel advance; `0b11` is the value to use (bits 12 to 15).
    pub fn pixel_advance(&self) -> (value: u8)
        ensures
            value == field(self.0 as u64, 12, 4),
    {
        proof {
            lemma_field_width(self.0 as u64, 12, 4);
        }
        get_bits(self.0 as u64, 12, 4) as u8
    }

    /// The word with this field replaced by `value`; where `value` is
    /// wider than the field, its low bits are taken.
    pub fn with_pixel_advance(self, value: u8) -> (out: VI_CTRL)
        ensures
            out.0 == with_field(self.0 as u64, 12, 4, value as u64),
    {
        VI_CTRL(with_bits32(self.0, 12, 4, value as u32))
    }

    /// Replaces this field by `value` in place.
    pub fn set_pixel_advance(&mut self, value: u8)
        ensures
            final(self).0 == with_field(old(self).0 as u64, 12, 4, value as u64),
    {
        self.0 = with_bits32(self.0, 12, 4, value as u32);
    }

    /// How the VI interpolates pixels (bits 8 to 9).
    pub fn aa_mode(&self) -> (value: AntiAliasMode)
        ensures
            value == AntiAliasMode::of_code(field(self.0 as u64, 8, 2) as u8),
    {
        proof {
            lemma_field_width(self.0 as u64, 8, 2);
        }
        AntiAliasMode::from(get_bits(self.0 as u64, 8, 2) as u8)
    }

    /// The word with this field replaced by `value`; where `value` is
    /// wider than the field, its low bits are taken.
    pub fn with_aa_mode(self, value: AntiAliasMode) -> (out: VI_CTRL)
        ensures
            out.0 == with_field(self.0 as u64, 8, 2, value.code() as u64),
    {
        VI_CTRL(with_bits32(self.0, 8, 2, u8::from(value) as u32))
    }

    /// Replaces this field by `value` in place.
    pub fn set_aa_mode(&mut self, value: AntiAliasMode)
        ensures
            final(self).0 == with_field(old(self).0 as u64, 8, 2, value.code() as u64),
    {
        self.0 = with_bits32(self.0, 8, 2, u8::from(value) as u32);
    }

    /// Serration pulses within the vertical sync, on which interlaced scanning
    /// depends (bit 6).
    pub fn enable_serrate(&self) -> (value: bool)
        ensures
            value == flag(self.0 as u64, 6),
    {
        get_bit(self.0 as u64, 6)
    }

    /// The word with this field replaced by `value`; where `value` is
    /// wider than the field, its low bits are taken.
    pub fn with_enable_serrate(self, value: bool) -> (out: VI_CTRL)
        ensures
            out.0 == with_field(self.0 as u64, 6, 1, if value { 1 } else { 0 }),
    {
        VI_CTRL(with_bits32(self.0, 6, 1, if value { 1 } else { 0 }))
    }

    /// Replaces this field by `value` in place.
    pub fn set_enable_serrate(&mut self, value: bool)
        ensures
            final(self).0 == with_field(old(self).0 as u64, 6, 1, if value { 1 } else { 0 }),
    {
        self.0 = with_bits32(self.0, 6, 1, if value { 1 } else { 0 });
    }

    /// The divot circuit, which reduces artifacts of anti-aliasing (bit 4).
    pub fn enable_divot(&self) -> (value: bool)
        ensures
            value == flag(self.0 as u64, 4),
    {
        get_bit(self.0 as u64, 4)
    }

    /// The word with this field replaced by `value`; where `value` is
    /// wider than the field, its low bits are taken.
    pub fn with_enable_divot(self, value: bool) -> (out: VI_CTRL)
        ensures
            out.0 == with_field(self.0 as u64, 4, 1, if value { 1 } else { 0 }),
    {
        VI_CTRL(with_bits32(self.0, 4, 1, if value { 1 } else { 0 }))
    }

    /// Replaces this field by `value` in place.
    pub fn set_enable_divot(&mut self, value: bool)
        ensures
            final(self).0 == with_field(old(self).0 as u64, 4, 1, if value { 1 } else { 0 }),
    {
        self.0 = with_bits32(self.0, 4, 1, if value { 1 } else { 0 });
    }

    /// Gamma correction (bit 3).
    pub fn enable_gamma_boost(&self) -> (value: bool)
        ensures
            value == flag(self.0 as u64, 3),
    {
        get_bit(self.0 as u64, 3)
    }

    /// The word with this field replaced by `value`; where `value` is
    /// wider than the field, its low bits are taken.
    pub fn with_enable_gamma_boost(self, value: bool) -> (out: VI_CTRL)
        ensures
            out.0 == with_field(self.0 as u64, 3, 1, if value { 1 } else { 0 }),
    {
        VI_CTRL(with_bits32(self.0, 3, 1, if value { 1 } else { 0 }))
    }

    /// Replaces this field by `value` in place.
    pub fn set_enable_gamma_boost(&mut self, value: bool)
        ensures
            final(self).0 == with_field(old(self).0 as u64, 3, 1, if value { 1 } else { 0 }),
    {
        self.0 = with_bits32(self.0, 3, 1, if value { 1 } else { 0 });
    }

    /// Gamma dithering (bit 2).
    pub fn enable_gamma_dither(&self) -> (value: bool)
        ensures
            value == flag(self.0 as u64, 2),
    {
        get_bit(self.0 as u64, 2)
    }

    /// The word with this field replaced by `value`; where `value` is
    /// wider than the field, its low bits are taken.
    pub fn with_enable_gamma_dither(self, value: bool) -> (out: VI_CTRL)
        ensures
            out.0 == with_field(self.0 as u64, 2, 1, if value { 1 } else { 0 }),
    {
        VI_CTRL(with_bits32(self.0, 2, 1, if value { 1 } else { 0 }))
    }

    /// Replaces this field by `value` in place.
    pub fn set_enable_gamma_dither(&mut self, value: bool)
        ensures
            final(self).0 == with_field(old(self).0 as u64, 2, 1, if value { 1 } else { 0 }),
    {
        self.0 = with_bits32(self.0, 2, 1, if value { 1 } else { 0 });
    }

    /// Color depth of the frame buffer (bits 0 to 1).
    pub fn color_depth(&self) -> (value: ColorDepth)
        ensures
            value == ColorDepth::of_code(field(self.0 as u64, 0, 2) as u8),
    {
        proof {
            lemma_field_width(self.0 as u64, 0, 2);
        }
        ColorDepth::from(get_bits(self.0 as u64, 0, 2) as u8)
    }

    /// The word with this field replaced by `value`; where `value` is
    /// wider than the field, its low bits are taken.
    pub fn with_color_depth(self, value: ColorDepth) -> (out: VI_CTRL)
        ensures
            out.0 == with_field(self.0 as u64, 0, 2, value.code() as u64),
    {
        VI_CTRL(with_bits32(self.0, 0, 2, u8::from(value) as u32))
    }

    /// Replaces this field by `value` in place.
    pub fn set_color_depth(&mut self, value: ColorDepth)
        ensures
            final(self).0 == with_field(old(self).0 as u64, 0, 2, value.code() as u64),
    {
        self.0 = with_bits32(self.0, 0, 2, u8::from(value) as u32);
    }
}

/// Anti-aliasing and resampling.
#[derive(Clone, Copy, Debug, PartialEq, Eq, Structural)]
pub enum AntiAliasMode {
    /// Anti-aliasing and resampling; extra lines are always fetched.
    Always,
    /// Anti-aliasing and resampling; extra lines are fetched as needed.
    Enabled,
    /// Resampling without anti-aliasing.
    ResampleOnly,
    /// Neither: pixels are replicated without interpolation.
    Disabled,
}

impl AntiAliasMode {
    /// The number that stands for the variant in a register or command word.
    pub open spec fn code(self) -> u8 {
        match self {
            AntiAliasMode::Always => 0,
            AntiAliasMode::Enabled => 1,
            AntiAliasMode::ResampleOnly => 2,
            AntiAliasMode::Disabled => 3,
        }
    }

    /// The variant that a number stands for; a number that names no
    /// variant stands for `Disabled`.
    pub open spec fn of_code(code: u8) -> AntiAliasMode {
        if code == 0 {
            AntiAliasMode::Always
        } else if code == 1 {
            AntiAliasMode::Enabled
        } else if code == 2 {
            AntiAliasMode::ResampleOnly
        } else {
            AntiAliasMode::Disabled
        }
    }

    /// Every variant is found again from its number, and its number fits
    /// a field of 2 bits.
    pub proof fn lemma_code_round_trip(self)
        ensures
            AntiAliasMode::of_code(self.code()) == self,
            self.code() < 4,
    {
    }

    /// A number that names a variant is that variant's number; any other
    /// number gives `Disabled`.
    pub proof fn lemma_of_code(code: u8)
        ensures
            (code == 0 || code == 1 || code == 2 || code == 3)
                ==> AntiAliasMode::of_code(code).code() == code,
            !(code == 0 || code == 1 || code == 2 || code == 3)
                ==> AntiAliasMode::of_code(code) == AntiAliasMode::Disabled,
    {
    }
}

impl From<u8> for AntiAliasMode {
    fn from(code: u8) -> (out: AntiAliasMode) {
        if code == 0 {
            AntiAliasMode::Always
        } else if code == 1 {
            AntiAliasMode::Enabled
        } else if code == 2 {
            AntiAliasMode::ResampleOnly
        } else {
            AntiAliasMode::Disabled
        }
    }
}

impl FromSpecImpl<u8> for AntiAliasMode {
    open spec fn obeys_from_spec() -> bool {
        true
    }

    open spec fn from_spec(code: u8) -> AntiAliasMode {
        AntiAliasMode::of_code(code)
    }
}

impl From<AntiAliasMode> for u8 {
    fn from(value: AntiAliasMode) -> (out: u8) {
        match value {
            AntiAliasMode::Always => 0,
            AntiAliasMode::Enabled => 1,
            AntiAliasMode::ResampleOnly => 2,
            AntiAliasMode::Disabled => 3,
        }
    }
}

impl FromSpecImpl<AntiAliasMode> for u8 {
    open spec fn obeys_from_spec() -> bool {
        true
    }

    open spec fn from_spec(value: AntiAliasMode) -> u8 {
        value.code()
    }
}

/// Color depth of the frame buffer, or a blank screen.
#[derive(Clone, Copy, Debug, PartialEq, Eq, Structural)]
pub enum ColorDepth {
    /// No signal.
    Blank,
    /// 16 bits per pixel, 5/5/5/1 RGBA.
    HighColor,
    /// 32 bits per pixel, 8/8/8/8 RGBA.
    TrueColor,
}

impl ColorDepth {
    /// The number that stands for the variant in a register or command word.
    pub open spec fn code(self) -> u8 {
        match self {
            ColorDepth::Blank => 0,
            ColorDepth::HighColor => 2,
            ColorDepth::TrueColor => 3,
        }
    }

    /// The variant that a number stands for; a number that names no
    /// variant stands for `Blank`.
    pub open spec fn of_code(code: u8) -> ColorDepth {
        if code == 2 {
            ColorDepth::HighColor
        } else if code == 3 {
            ColorDepth::TrueColor
        } else {
            ColorDepth::Blank
        }
    }

    /// Every variant is found again from its number, and its number fits
    /// a field of 2 bits.
    pub proof fn lemma_code_round_trip(self)
        ensures
            ColorDepth::of_code(self.code()) == self,
            self.code() < 4,
    {
    }

    /// A number that names a variant is that variant's number; any other
    /// number gives `Blank`.
    pub proof fn lemma_of_code(code: u8)
        ensures
            (code == 0 || code == 2 || code == 3)
                ==> ColorDepth::of_code(code).code() == code,
            !(code == 0 || code == 2 || code == 3)
                ==> ColorDepth::of_code(code) == ColorDepth::Blank,
    {
    }
}

impl From<u8> for ColorDepth {
    fn from(code: u8) -> (out: ColorDepth) {
        if code == 2 {
            ColorDepth::HighColor
        } else if code == 3 {
            ColorDepth::TrueColor
        } else {
            ColorDepth::Blank
        }
    }
}

impl FromSpecImpl<u8> for ColorDepth {
    open spec fn obeys_from_spec() -> bool {
        true
    }

    open spec fn from_spec(code: u8) -> ColorDepth {
        ColorDepth::of_code(code)
    }
}

impl From<ColorDepth> for u8 {
    fn from(value: ColorDepth) -> (out: u8) {
        match value {
            ColorDepth::Blank => 0,
            ColorDepth::HighColor => 2,
            ColorDepth::TrueColor => 3,
        }
    }
}

impl FromSpecImpl<ColorDepth> for u8 {
    open spec fn obeys_from_spec() -> bool {
        true
    }

    open spec fn from_spec(value: ColorDepth) -> u8 {
        value.code()
    }
}

/// Address of the frame buffer.
#[derive(Clone, Copy, Debug, PartialEq, Eq, Structural)]
pub struct VI_ORIGIN(pub u32);

impl From<u32> for VI_ORIGIN {
    fn from(raw: u32) -> (out: VI_ORIGIN) {
        VI_ORIGIN(raw)
    }
}

impl FromSpecImpl<u32> for VI_ORIGIN {
    open spec fn obeys_from_spec() -> bool {
        true
    }

    open spec fn from_spec(raw: u32) -> VI_ORIGIN {
        VI_ORIGIN(raw)
    }
}

impl From<VI_ORIGIN> for u32 {
    fn from(value: VI_ORIGIN) -> (out: u32) {
        value.0
    }
}

impl FromSpecImpl<VI_ORIGIN> for u32 {
    open spec fn obeys_from_spec() -> bool {
        true
    }

    open spec fn from_spec(value: VI_ORIGIN) -> u32 {
        value.0
    }
}

impl VI_ORIGIN {
    /// Address of the frame buffer (bits 0 to 23).
    pub fn vaddr(&self) -> (value: u32)
        ensures
            value == field(self.0 as u64, 0, 24),
    {
        proof {
            lemma_field_width(self.0 as u64, 0, 24);
        }
        get_bits(self.0 as u64, 0, 24) as u32
    }

    /// The word with this field replaced by `value`; where `value` is
    /// wider than the field, its low bits are taken.
    pub fn with_vaddr(self, value: u32) -> (out: VI_ORIGIN)
        ensures
            out.0 == with_field(self.0 as u64, 0, 24, value as u64),
    {
        VI_ORIGIN(with_bits32(self.0, 0, 24, value))
    }

    /// Replaces this field by `value` in place.
    pub fn set_vaddr(&mut self, value: u32)
        ensures
            final(self).0 == with_field(old(self).0 as u64, 0, 24, value as u64),
    {
        self.0 = with_bits32(self.0, 0, 24, value);
    }
}

/// Width of the frame buffer.
#[derive(Clone, Copy, Debug, PartialEq, Eq, Structural)]
pub struct VI_WIDTH(pub u32);

impl From<u32> for VI_WIDTH {
    fn from(raw: u32) -> (out: VI_WIDTH) {
        VI_WIDTH(raw)
    }
}

impl FromSpecImpl<u32> for VI_WIDTH {
    open spec fn obeys_from_spec() -> bool {
        true
    }

    open spec fn from_spec(raw: u32) -> VI_WIDTH {
        VI_WIDTH(raw)
    }
}

impl From<VI_WIDTH> for u32 {
    fn from(value: VI_WIDTH) -> (out: u32) {
        value.0
    }
}

impl FromSpecImpl<VI_WIDTH> for u32 {
    open spec fn obeys_from_spec() -> bool {
        true
    }

    open spec fn from_spec(value: VI_WIDTH) -> u32 {
        value.0
    }
}

impl VI_WIDTH {
    /// Width of the frame buffer in pixels (bits 0 to 11).
    pub fn width(&self) -> (value: u16)
        ensures
            value == field(self.0 as u64, 0, 12),
    {
        proof {
            lemma_field_width(self.0 as u64, 0, 12);
        }
        get_bits(self.0 as u64, 0, 12) as u16
    }

    /// The word with this field replaced by `value`; where `value` is
    /// wider than the field, its low bits are taken.
    pub fn with_width(self, value: u16) -> (out: VI_WIDTH)
        ensures
            out.0 == with_field(self.0 as u64, 0, 12, value as u64),
    {
        VI_WIDTH(with_bits32(self.0, 0, 12, value as u32))
    }

    /// Replaces this field by `value` in place.
    pub fn set_width(&mut self, value: u16)
        ensures
            final(self).0 == with_field(old(self).0 as u64, 0, 12, value as u64),
    {
        self.0 = with_bits32(self.0, 0, 12, value as u32);
    }
}

/// The half-line at which the VI raises its interrupt.
#[derive(Clone, Copy, Debug, PartialEq, Eq, Structural)]
pub struct VI_V_INTR(pub u32);

impl From<u32> for VI_V_INTR {
    fn from(raw: u32) -> (out: VI_V_INTR) {
        VI_V_INTR(raw)
    }
}

impl FromSpecImpl<u32> for VI_V_INTR {
    open spec fn obeys_from_spec() -> bool {
        true
    }

    open spec fn from_spec(raw: u32) -> VI_V_INTR {
        VI_V_INTR(raw)
    }
}

impl From<VI_V_INTR> for u32 {
    fn from(value: VI_V_INTR) -> (out: u32) {
        value.0
    }
}

impl FromSpecImpl<VI_V_INTR> for u32 {
    open spec fn obeys_from_spec() -> bool {
        true
    }

    open spec fn from_spec(value: VI_V_INTR) -> u32 {
        value.0
    }
}

impl VI_V_INTR {
    /// Half-line at which the interrupt is raised (bits 0 to 9).
    pub fn half_line(&self) -> (value: u16)
        ensures
            value == field(self.0 as u64, 0, 10),
    {
        proof {
            lemma_field_width(self.0 as u64, 0, 10);
        }
        get_bits(self.0 as u64, 0, 10) as u16
    }

    /// The word with this field replaced by `value`; where `value` is
    /// wider than the field, its low bits are taken.
    pub fn with_half_line(self, value: u16) -> (out: VI_V_INTR)
        ensures
            out.0 == with_field(self.0 as u64, 0, 10, value as u64),
    {
        VI_V_INTR(with_bits32(self.0, 0, 10, value as u32))
    }

    /// Replaces this field by `value` in place.
    pub fn set_half_line(&mut self, value: u16)
        ensures
            final(self).0 == with_field(old(self).0 as u64, 0, 10, value as u64),
    {
        self.0 = with_bits32(self.0, 0, 10, value as u32);
    }
}

/// The half-line that the VI is at. With interlacing, the lowest bit tells the
/// field.
#[derive(Clone, Copy, Debug, PartialEq, Eq, Structural)]
pub struct VI_V_CURRENT(pub u32);

impl From<u32> for VI_V_CURRENT {
    fn from(raw: u32) -> (out: VI_V_CURRENT) {
        VI_V_CURRENT(raw)
    }
}

impl FromSpecImpl<u32> for VI_V_CURRENT {
    open spec fn obeys_from_spec() -> bool {
        true
    }

    open spec fn from_spec(raw: u32) -> VI_V_CURRENT {
        VI_V_CURRENT(raw)
    }
}

impl From<VI_V_CURRENT> for u32 {
    fn from(value: VI_V_CURRENT) -> (out: u32) {
        value.0
    }
}

impl FromSpecImpl<VI_V_CURRENT> for u32 {
    open spec fn obeys_from_spec() -> bool {
        true
    }

    open spec fn from_spec(value: VI_V_CURRENT) -> u32 {
        value.0
    }
}

impl VI_V_CURRENT {
    /// Current half-line (bits 0 to 9).
    pub fn half_line(&self) -> (value: u16)
        ensures
            value == field(self.0 as u64, 0, 10),
    {
        proof {
            lemma_field_width(self.0 as u64, 0, 10);
        }
        get_bits(self.0 as u64, 0, 10) as u16
    }

    /// The word with this field replaced by `value`; where `value` is
    /// wider than the field, its low bits are taken.
    pub fn with_half_line(self, value: u16) -> (out: VI_V_CURRENT)
        ensures
            out.0 == with_field(self.0 as u64, 0, 10, value as u64),
    {
        VI_V_CURRENT(with_bits32(self.0, 0, 10, value as u32))
    }

    /// Replaces this field by `value` in place.
    pub fn set_half_line(&mut self, value: u16)
        ensures
            final(self).0 == with_field(old(self).0 as u64, 0, 10, value as u64),
    {
        self.0 = with_bits32(self.0, 0, 10, value as u32);
    }
}

/// Timing of sections of the video signal.
#[derive(Clone, Copy, Debug, PartialEq, Eq, Structural)]
pub struct VI_BURST(pub u32);

impl From<u32> for VI_BURST {
    fn from(raw: u32) -> (out: VI_BURST) {
        VI_BURST(raw)
    }
}

impl FromSpecImpl<u32> for VI_BURST {
    open spec fn obeys_from_spec() -> bool {
        true
    }

    open spec fn from_spec(raw: u32) -> VI_BURST {
        VI_BURST(raw)
    }
}

impl From<VI_BURST> for u32 {
    fn from(value: VI_BURST) -> (out: u32) {
        value.0
    }
}

impl FromSpecImpl<VI_BURST> for u32 {
    open spec fn obeys_from_spec() -> bool {
        true
    }

    open spec fn from_spec(value: VI_BURST) -> u32 {
        value.0
    }
}

impl VI_BURST {
    /// Start of the color burst in pixels (bits 20 to 29).
    pub fn color_burst_start(&self) -> (value: u16)
        ensures
            value == field(self.0 as u64, 20, 10),
    {
        proof {
            lemma_field_width(self.0 as u64, 20, 10);
        }
        get_bits(self.0 as u64, 20, 10) as u16
    }

    /// The word with this field replaced by `value`; where `value` is
    /// wider than the field, its low bits are taken.
    pub fn with_color_burst_start(self, value: u16) -> (out: VI_BURST)
        ensures
            out.0 == with_field(self.0 as u64, 20, 10, value as u64),
    {
        VI_BURST(with_bits32(self.0, 20, 10, value as u32))
    }

    /// Replaces this field by `value` in place.
    pub fn set_color_burst_start(&mut self, value: u16)
        ensures
            final(self).0 == with_field(old(self).0 as u64, 20, 10, value as u64),
    {
        self.0 = with_bits32(self.0, 20, 10, value as u32);
    }

    /// Length of the vertical sync in half-lines (bits 16 to 19).
    pub fn vsync_width(&self) -> (value: u8)
        ensures
            value == field(self.0 as u64, 16, 4),
    {
        proof {
            lemma_field_width(self.0 as u64, 16, 4);
        }
        get_bits(self.0 as u64, 16, 4) as u8
    }

    /// The word with this field replaced by `value`; where `value` is
    /// wider than the field, its low bits are taken.
    pub fn with_vsync_width(self, value: u8) -> (out: VI_BURST)
        ensures
            out.0 == with_field(self.0 as u64, 16, 4, value as u64),
    {
        VI_BURST(with_bits32(self.0, 16, 4, value as u32))
    }

    /// Replaces this field by `value` in place.
    pub fn set_vsync_width(&mut self, value: u8)
        ensures
            final(self).0 == with_field(old(self).0 as u64, 16, 4, value as u64),
    {
        self.0 = with_bits32(self.0, 16, 4, value as u32);
    }

    /// Length of the color burst in pixels (bits 8 to 15).
    pub fn color_burst_width(&self) -> (value: u8)
        ensures
            value == field(self.0 as u64, 8, 8),
    {
        proof {
            lemma_field_width(self.0 as u64, 8, 8);
        }
        get_bits(self.0 as u64, 8, 8) as u8
    }

    /// The word with this field replaced by `value`; where `value` is
    /// wider than the field, its low bits are taken.
    pub fn with_color_burst_width(self, value: u8) -> (out: VI_BURST)
        ensures
            out.0 == with_field(self.0 as u64, 8, 8, value as u64),
    {
        VI_BURST(with_bits32(self.0, 8, 8, value as u32))
    }

    /// Replaces this field by `value` in place.
    pub fn set_color_burst_width(&mut self, value: u8)
        ensures
            final(self).0 == with_field(old(self).0 as u64, 8, 8, value as u64),
    {
        self.0 = with_bits32(self.0, 8, 8, value as u32);
    }

    /// Length of the horizontal sync in pixels (bits 0 to 7).
    pub fn hsync_width(&self) -> (value: u8)
        ensures
            value == field(self.0 as u64, 0, 8),
    {
        proof {
            lemma_field_width(self.0 as u64, 0, 8);
        }
        get_bits(self.0 as u64, 0, 8) as u8
    }

    /// The word with this field replaced by `value`; where `value` is
    /// wider than the field, its low bits are taken.
    pub fn with_hsync_width(self, value: u8) -> (out: VI_BURST)
        ensures
            out.0 == with_field(self.0 as u64, 0, 8, value as u64),
    {
        VI_BURST(with_bits32(self.0, 0, 8, value as u32))
    }

    /// Replaces this field by `value` in place.
    pub fn set_hsync_width(&mut self, value: u8)
        ensures
            final(self).0 == with_field(old(self).0 as u64, 0, 8, value as u64),
    {
        self.0 = with_bits32(self.0, 0, 8, value as u32);
    }
}

/// Number of half-lines per field.
#[derive(Clone, Copy, Debug, PartialEq, Eq, Structural)]
pub struct VI_V_SYNC(pub u32);

impl From<u32> for VI_V_SYNC {
    fn from(raw: u32) -> (out: VI_V_SYNC) {
        VI_V_SYNC(raw)
    }
}

impl FromSpecImpl<u32> for VI_V_SYNC {
    open spec fn obeys_from_spec() -> bool {
        true
    }

    open spec fn from_spec(raw: u32) -> VI_V_SYNC {
        VI_V_SYNC(raw)
    }
}

impl From<VI_V_SYNC> for u32 {
    fn from(value: VI_V_SYNC) -> (out: u32) {
        value.0
    }
}

impl FromSpecImpl<VI_V_SYNC> for u32 {
    open spec fn obeys_from_spec() -> bool {
        true
    }

    open spec fn from_spec(value: VI_V_SYNC) -> u32 {
        value.0
    }
}

impl VI_V_SYNC {
    /// Half-lines per field (bits 0 to 9).
    pub fn v_sync(&self) -> (value: u16)
        ensures
            value == field(self.0 as u64, 0, 10),
    {
        proof {
            lemma_field_width(self.0 as u64, 0, 10);
        }
        get_bits(self.0 as u64, 0, 10) as u16
    }

    /// The word with this field replaced by `value`; where `value` is
    /// wider than the field, its low bits are taken.
    pub fn with_v_sync(self, value: u16) -> (out: VI_V_SYNC)
        ensures
            out.0 == with_field(self.0 as u64, 0, 10, value as u64),
    {
        VI_V_SYNC(with_bits32(self.0, 0, 10, value as u32))
    }

    /// Replaces this field by `value` in place.
    pub fn set_v_sync(&mut self, value: u16)
        ensures
            final(self).0 == with_field(old(self).0 as u64, 0, 10, value as u64),
    {
        self.0 = with_bits32(self.0, 0, 10, value as u32);
    }
}

/// Timing of horizontal lines, in quarter pixels.
#[derive(Clone, Copy, Debug, PartialEq, Eq, Structural)]
pub struct VI_H_SYNC(pub u32);

impl From<u32> for VI_H_SYNC {
    fn from(raw: u32) -> (out: VI_H_SYNC) {
        VI_H_SYNC(raw)
    }
}

impl FromSpecImpl<u32> for VI_H_SYNC {
    open spec fn obeys_from_spec() -> bool {
        true
    }

    open spec fn from_spec(raw: u32) -> VI_H_SYNC {
        VI_H_SYNC(raw)
    }
}

impl From<VI_H_SYNC> for u32 {
    fn from(value: VI_H_SYNC) -> (out: u32) {
        value.0
    }
}

impl FromSpecImpl<VI_H_SYNC> for u32 {
    open spec fn obeys_from_spec() -> bool {
        true
    }

    open spec fn from_spec(value: VI_H_SYNC) -> u32 {
        value.0
    }
}

impl VI_H_SYNC {
    /// Which of the two leap values each vertical sync uses, in a pattern of
    /// five (bits 16 to 20).
    pub fn leap_pattern(&self) -> (value: u8)
        ensures
            value == field(self.0 as u64, 16, 5),
    {
        proof {
            lemma_field_width(self.0 as u64, 16, 5);
        }
        get_bits(self.0 as u64, 16, 5) as u8
    }

    /// The word with this field replaced by `value`; where `value` is
    /// wider than the field, its low bits are taken.
    pub fn with_leap_pattern(self, value: u8) -> (out: VI_H_SYNC)
        ensures
            out.0 == with_field(self.0 as u64, 16, 5, value as u64),
    {
        VI_H_SYNC(with_bits32(self.0, 16, 5, value as u32))
    }

    /// Replaces this field by `value` in place.
    pub fn set_leap_pattern(&mut self, value: u8)
        ensures
            final(self).0 == with_field(old(self).0 as u64, 16, 5, value as u64),
    {
        self.0 = with_bits32(self.0, 16, 5, value as u32);
    }

    /// Length of a line in quarter pixels, less one (bits 0 to 11).
    pub fn line_duration(&self) -> (value: u16)
        ensures
            value == field(self.0 as u64, 0, 12),
    {
        proof {
            lemma_field_width(self.0 as u64, 0, 12);
        }
        get_bits(self.0 as u64, 0, 12) as u16
    }

    /// The word with this field replaced by `value`; where `value` is
    /// wider than the field, its low bits are taken.
    pub fn with_line_duration(self, value: u16) -> (out: VI_H_SYNC)
        ensures
            out.0 == with_field(self.0 as u64, 0, 12, value as u64),
    {
        VI_H_SYNC(with_bits32(self.0, 0, 12, value as u32))
    }

    /// Replaces this field by `value` in place.
    pub fn set_line_duration(&mut self, value: u16)
        ensures
            final(self).0 == with_field(old(self).0 as u64, 0, 12, value as u64),
    {
        self.0 = with_bits32(self.0, 0, 12, value as u32);
    }
}

/// Length of a horizontal line during vertical sync, per field, in quarter
/// pixels.
#[derive(Clone, Copy, Debug, PartialEq, Eq, Structural)]
pub struct VI_H_SYNC_LEAP(pub u32);

impl From<u32> for VI_H_SYNC_LEAP {
    fn from(raw: u32) -> (out: VI_H_SYNC_LEAP) {
        VI_H_SYNC_LEAP(raw)
    }
}

impl FromSpecImpl<u32> for VI_H_SYNC_LEAP {
    open spec fn obeys_from_spec() -> bool {
        true
    }

    open spec fn from_spec(raw: u32) -> VI_H_SYNC_LEAP {
        VI_H_SYNC_LEAP(raw)
    }
}

impl From<VI_H_SYNC_LEAP> for u32 {
    fn from(value: VI_H_SYNC_LEAP) -> (out: u32) {
        value.0
    }
}

impl FromSpecImpl<VI_H_SYNC_LEAP> for u32 {
    open spec fn obeys_from_spec() -> bool {
        true
    }

    open spec fn from_spec(value: VI_H_SYNC_LEAP) -> u32 {
        value.0
    }
}

impl VI_H_SYNC_LEAP {
    /// Line length on even fields (bits 16 to 27).
    pub fn leap_a(&self) -> (value: u16)
        ensures
            value == field(self.0 as u64, 16, 12),
    {
        proof {
            lemma_field_width(self.0 as u64, 16, 12);
        }
        get_bits(self.0 as u64, 16, 12) as u16
    }

    /// The word with this field replaced by `value`; where `value` is
    /// wider than the field, its low bits are taken.
    pub fn with_leap_a(self, value: u16) -> (out: VI_H_SYNC_LEAP)
        ensures
            out.0 == with_field(self.0 as u64, 16, 12, value as u64),
    {
        VI_H_SYNC_LEAP(with_bits32(self.0, 16, 12, value as u32))
    }

    /// Replaces this field by `value` in place.
    pub fn set_leap_a(&mut self, value: u16)
        ensures
            final(self).0 == with_field(old(self).0 as u64, 16, 12, value as u64),
    {
        self.0 = with_bits32(self.0, 16, 12, value as u32);
    }

    /// Line length on odd fields (bits 0 to 11).
    pub fn leap_b(&self) -> (value: u16)
        ensures
            value == field(self.0 as u64, 0, 12),
    {
        proof {
            lemma_field_width(self.0 as u64, 0, 12);
        }
        get_bits(self.0 as u64, 0, 12) as u16
    }

    /// The word with this field replaced by `value`; where `value` is
    /// wider than the field, its low bits are taken.
    pub fn with_leap_b(self, value: u16) -> (out: VI_H_SYNC_LEAP)
        ensures
            out.0 == with_field(self.0 as u64, 0, 12, value as u64),
    {
        VI_H_SYNC_LEAP(with_bits32(self.0, 0, 12, value as u32))
    }

    /// Replaces this field by `value` in place.
    pub fn set_leap_b(&mut self, value: u16)
        ensures
            final(self).0 == with_field(old(self).0 as u64, 0, 12, value as u64),
    {
        self.0 = with_bits32(self.0, 0, 12, value as u32);
    }
}

/// Start and end of the active video on a line, in pixels.
#[derive(Clone, Copy, Debug, PartialEq, Eq, Structural)]
pub struct VI_H_VIDEO(pub u32);

impl From<u32> for VI_H_VIDEO {
    fn from(raw: u32) -> (out: VI_H_VIDEO) {
        VI_H_VIDEO(raw)
    }
}

impl FromSpecImpl<u32> for VI_H_VIDEO {
    open spec fn obeys_from_spec() -> bool {
        true
    }

    open spec fn from_spec(raw: u32) -> VI_H_VIDEO {
        VI_H_VIDEO(raw)
    }
}

impl From<VI_H_VIDEO> for u32 {
    fn from(value: VI_H_VIDEO) -> (out: u32) {
        value.0
    }
}

impl FromSpecImpl<VI_H_VIDEO> for u32 {
    open spec fn obeys_from_spec() -> bool {
        true
    }

    open spec fn from_spec(value: VI_H_VIDEO) -> u32 {
        value.0
    }
}

impl VI_H_VIDEO {
    /// Start of the active video (bits 16 to 25).
    pub fn h_start(&self) -> (value: u16)
        ensures
            value == field(self.0 as u64, 16, 10),
    {
        proof {
            lemma_field_width(self.0 as u64, 16, 10);
        }
        get_bits(self.0 as u64, 16, 10) as u16
    }

    /// The word with this field replaced by `value`; where `value` is
    /// wider than the field, its low bits are taken.
    pub fn with_h_start(self, value: u16) -> (out: VI_H_VIDEO)
        ensures
            out.0 == with_field(self.0 as u64, 16, 10, value as u64),
    {
        VI_H_VIDEO(with_bits32(self.0, 16, 10, value as u32))
    }

    /// Replaces this field by `value` in place.
    pub fn set_h_start(&mut self, value: u16)
        ensures
            final(self).0 == with_field(old(self).0 as u64, 16, 10, value as u64),
    {
        self.0 = with_bits32(self.0, 16, 10, value as u32);
    }

    /// End of the active video (bits 0 to 9).
    pub fn h_end(&self) -> (value: u16)
        ensures
            value == field(self.0 as u64, 0, 10),
    {
        proof {
            lemma_field_width(self.0 as u64, 0, 10);
        }
        get_bits(self.0 as u64, 0, 10) as u16
    }

    /// The word with this field replaced by `value`; where `value` is
    /// wider than the field, its low bits are taken.
    pub fn with_h_end(self, value: u16) -> (out: VI_H_VIDEO)
        ensures
            out.0 == with_field(self.0 as u64, 0, 10, value as u64),
    {
        VI_H_VIDEO(with_bits32(self.0, 0, 10, value as u32))
    }

    /// Replaces this field by `value` in place.
    pub fn set_h_end(&mut self, value: u16)
        ensures
            final(self).0 == with_field(old(self).0 as u64, 0, 10, value as u64),
    {
        self.0 = with_bits32(self.0, 0, 10, value as u32);
    }
}

/// Start and end of the active video in a field, in half-lines.
#[derive(Clone, Copy, Debug, PartialEq, Eq, Structural)]
pub struct VI_V_VIDEO(pub u32);

impl From<u32> for VI_V_VIDEO {
    fn from(raw: u32) -> (out: VI_V_VIDEO) {
        VI_V_VIDEO(raw)
    }
}

impl FromSpecImpl<u32> for VI_V_VIDEO {
    open spec fn obeys_from_spec() -> bool {
        true
    }

    open spec fn from_spec(raw: u32) -> VI_V_VIDEO {
        VI_V_VIDEO(raw)
    }
}

impl From<VI_V_VIDEO> for u32 {
    fn from(value: VI_V_VIDEO) -> (out: u32) {
        value.0
    }
}

impl FromSpecImpl<VI_V_VIDEO> for u32 {
    open spec fn obeys_from_spec() -> bool {
        true
    }

    open spec fn from_spec(value: VI_V_VIDEO) -> u32 {
        value.0
    }
}

impl VI_V_VIDEO {
    /// Start of the active video (bits 16 to 25).
    pub fn v_start(&self) -> (value: u16)
        ensures
            value == field(self.0 as u64, 16, 10),
    {
        proof {
            lemma_field_width(self.0 as u64, 16, 10);
        }
        get_bits(self.0 as u64, 16, 10) as u16
    }

    /// The word with this field replaced by `value`; where `value` is
    /// wider than the field, its low bits are taken.
    pub fn with_v_start(self, value: u16) -> (out: VI_V_VIDEO)
        ensures
            out.0 == with_field(self.0 as u64, 16, 10, value as u64),
    {
        VI_V_VIDEO(with_bits32(self.0, 16, 10, value as u32))
    }

    /// Replaces this field by `value` in place.
    pub fn set_v_start(&mut self, value: u16)
        ensures
            final(self).0 == with_field(old(self).0 as u64, 16, 10, value as u64),
    {
        self.0 = with_bits32(self.0, 16, 10, value as u32);
    }

    /// End of the active video (bits 0 to 9).
    pub fn v_end(&self) -> (value: u16)
        ensures
            value == field(self.0 as u64, 0, 10),
    {
        proof {
            lemma_field_width(self.0 as u64, 0, 10);
        }
        get_bits(self.0 as u64, 0, 10) as u16
    }

    /// The word with this field replaced by `value`; where `value` is
    /// wider than the field, its low bits are taken.
    pub fn with_v_end(self, value: u16) -> (out: VI_V_VIDEO)
        ensures
            out.0 == with_field(self.0 as u64, 0, 10, value as u64),
    {
        VI_V_VIDEO(with_bits32(self.0, 0, 10, value as u32))
    }

    /// Replaces this field by `value` in place.
    pub fn set_v_end(&mut self, value: u16)
        ensures
            final(self).0 == with_field(old(self).0 as u64, 0, 10, value as u64),
    {
        self.0 = with_bits32(self.0, 0, 10, value as u32);
    }
}

/// Start and end of the color burst in a field, in half-lines.
#[derive(Clone, Copy, Debug, PartialEq, Eq, Structural)]
pub struct VI_V_BURST(pub u32);

impl From<u32> for VI_V_BURST {
    fn from(raw: u32) -> (out: VI_V_BURST) {
        VI_V_BURST(raw)
    }
}

impl FromSpecImpl<u32> for VI_V_BURST {
    open spec fn obeys_from_spec() -> bool {
        true
    }

    open spec fn from_spec(raw: u32) -> VI_V_BURST {
        VI_V_BURST(raw)
    }
}

impl From<VI_V_BURST> for u32 {
    fn from(value: VI_V_BURST) -> (out: u32) {
        value.0
    }
}

impl FromSpecImpl<VI_V_BURST> for u32 {
    open spec fn obeys_from_spec() -> bool {
        true
    }

    open spec fn from_spec(value: VI_V_BURST) -> u32 {
        value.0
    }
}

impl VI_V_BURST {
    /// Start of the color burst (bits 16 to 25).
    pub fn v_burst_start(&self) -> (value: u16)
        ensures
            value == field(self.0 as u64, 16, 10),
    {
        proof {
            lemma_field_width(self.0 as u64, 16, 10);
        }
        get_bits(self.0 as u64, 16, 10) as u16
    }

    /// The word with this field replaced by `value`; where `value` is
    /// wider than the field, its low bits are taken.
    pub fn with_v_burst_start(self, value: u16) -> (out: VI_V_BURST)
        ensures
            out.0 == with_field(self.0 as u64, 16, 10, value as u64),
    {
        VI_V_BURST(with_bits32(self.0, 16, 10, value as u32))
    }

    /// Replaces this field by `value` in place.
    pub fn set_v_burst_start(&mut self, value: u16)
        ensures
            final(self).0 == with_field(old(self).0 as u64, 16, 10, value as u64),
    {
        self.0 = with_bits32(self.0, 16, 10, value as u32);
    }

    /// End of the color burst (bits 0 to 9).
    pub fn v_burst_end(&self) -> (value: u16)
        ensures
            value == field(self.0 as u64, 0, 10),
    {
        proof {
            lemma_field_width(self.0 as u64, 0, 10);
        }
        get_bits(self.0 as u64, 0, 10) as u16
    }

    /// The word with this field replaced by `value`; where `value` is
    /// wider than the field, its low bits are taken.
    pub fn with_v_burst_end(self, value: u16) -> (out: VI_V_BURST)
        ensures
            out.0 == with_field(self.0 as u64, 0, 10, value as u64),
    {
        VI_V_BURST(with_bits32(self.0, 0, 10, value as u32))
    }

    /// Replaces this field by `value` in place.
    pub fn set_v_burst_end(&mut self, value: u16)
        ensures
            final(self).0 == with_field(old(self).0 as u64, 0, 10, value as u64),
    {
        self.0 = with_bits32(self.0, 0, 10, value as u32);
    }
}

/// Horizontal offset and scale, both in 2.10 fixed-point format.
#[derive(Clone, Copy, Debug, PartialEq, Eq, Structural)]
pub struct VI_X_SCALE(pub u32);

impl From<u32> for VI_X_SCALE {
    fn from(raw: u32) -> (out: VI_X_SCALE) {
        VI_X_SCALE(raw)
    }
}

impl FromSpecImpl<u32> for VI_X_SCALE {
    open spec fn obeys_from_spec() -> bool {
        true
    }

    open spec fn from_spec(raw: u32) -> VI_X_SCALE {
        VI_X_SCALE(raw)
    }
}

impl From<VI_X_SCALE> for u32 {
    fn from(value: VI_X_SCALE) -> (out: u32) {
        value.0
    }
}

impl FromSpecImpl<VI_X_SCALE> for u32 {
    open spec fn obeys_from_spec() -> bool {
        true
    }

    open spec fn from_spec(value: VI_X_SCALE) -> u32 {
        value.0
    }
}

impl VI_X_SCALE {
    /// Offset in sub-pixels (bits 16 to 27).
    pub fn offset(&self) -> (value: u16)
        ensures
            value == field(self.0 as u64, 16, 12),
    {
        proof {
            lemma_field_width(self.0 as u64, 16, 12);
        }
        get_bits(self.0 as u64, 16, 12) as u16
    }

    /// The word with this field replaced by `value`; where `value` is
    /// wider than the field, its low bits are taken.
    pub fn with_offset(self, value: u16) -> (out: VI_X_SCALE)
        ensures
            out.0 == with_field(self.0 as u64, 16, 12, value as u64),
    {
        VI_X_SCALE(with_bits32(self.0, 16, 12, value as u32))
    }

    /// Replaces this field by `value` in place.
    pub fn set_offset(&mut self, value: u16)
        ensures
            final(self).0 == with_field(old(self).0 as u64, 16, 12, value as u64),
    {
        self.0 = with_bits32(self.0, 16, 12, value as u32);
    }

    /// Source pixels to advance per pixel put out (bits 0 to 11).
    pub fn scale(&self) -> (value: u16)
        ensures
            value == field(self.0 as u64, 0, 12),
    {
        proof {
            lemma_field_width(self.0 as u64, 0, 12);
        }
        get_bits(self.0 as u64, 0, 12) as u16
    }

    /// The word with this field replaced by `value`; where `value` is
    /// wider than the field, its low bits are taken.
    pub fn with_scale(self, value: u16) -> (out: VI_X_SCALE)
        ensures
            out.0 == with_field(self.0 as u64, 0, 12, value as u64),
    {
        VI_X_SCALE(with_bits32(self.0, 0, 12, value as u32))
    }

    /// Replaces this field by `value` in place.
    pub fn set_scale(&mut self, value: u16)
        ensures
            final(self).0 == with_field(old(self).0 as u64, 0, 12, value as u64),
    {
        self.0 = with_bits32(self.0, 0, 12, value as u32);
    }
}

/// Vertical offset and scale, both in 2.10 fixed-point format.
#[derive(Clone, Copy, Debug, PartialEq, Eq, Structural)]
pub struct VI_Y_SCALE(pub u32);

impl From<u32> for VI_Y_SCALE {
    fn from(raw: u32) -> (out: VI_Y_SCALE) {
        VI_Y_SCALE(raw)
    }
}

impl FromSpecImpl<u32> for VI_Y_SCALE {
    open spec fn obeys_from_spec() -> bool {
        true
    }

    open spec fn from_spec(raw: u32) -> VI_Y_SCALE {
        VI_Y_SCALE(raw)
    }
}

impl From<VI_Y_SCALE> for u32 {
    fn from(value: VI_Y_SCALE) -> (out: u32) {
        value.0
    }
}

impl FromSpecImpl<VI_Y_SCALE> for u32 {
    open spec fn obeys_from_spec() -> bool {
        true
    }

    open spec fn from_spec(value: VI_Y_SCALE) -> u32 {
        value.0
    }
}

impl VI_Y_SCALE {
    /// Offset in sub-pixels (bits 16 to 27).
    pub fn offset(&self) -> (value: u16)
        ensures
            value == field(self.0 as u64, 16, 12),
    {
        proof {
            lemma_field_width(self.0 as u64, 16, 12);
        }
        get_bits(self.0 as u64, 16, 12) as u16
    }

    /// The word with this field replaced by `value`; where `value` is
    /// wider than the field, its low bits are taken.
    pub fn with_offset(self, value: u16) -> (out: VI_Y_SCALE)
        ensures
            out.0 == with_field(self.0 as u64, 16, 12, value as u64),
    {
        VI_Y_SCALE(with_bits32(self.0, 16, 12, value as u32))
    }

    /// Replaces this field by `value` in place.
    pub fn set_offset(&mut self, value: u16)
        ensures
            final(self).0 == with_field(old(self).0 as u64, 16, 12, value as u64),
    {
        self.0 = with_bits32(self.0, 16, 12, value as u32);
    }

    /// Source lines to advance per line put out (bits 0 to 11).
    pub fn scale(&self) -> (value: u16)
        ensures
            value == field(self.0 as u64, 0, 12),
    {
        proof {
            lemma_field_width(self.0 as u64, 0, 12);
        }
        get_bits(self.0 as u64, 0, 12) as u16
    }

    /// The word with this field replaced by `value`; where `value` is
    /// wider than the field, its low bits are taken.
    pub fn with_scale(self, value: u16) -> (out: VI_Y_SCALE)
        ensures
            out.0 == with_field(self.0 as u64, 0, 12, value as u64),
    {
        VI_Y_SCALE(with_bits32(self.0, 0, 12, value as u32))
    }

    /// Replaces this field by `value` in place.
    pub fn set_scale(&mut self, value: u16)
        ensures
            final(self).0 == with_field(old(self).0 as u64, 0, 12, value as u64),
    {
        self.0 = with_bits32(self.0, 0, 12, value as u32);
    }
}

} // verus!
