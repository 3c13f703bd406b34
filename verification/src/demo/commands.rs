//! The command words that the demonstrations send to the RDP, each built
//! from its fields and stated as the word that results.

use vstd::prelude::*;
use crate::bits::with_field;
use crate::dev::rdp::commands::fill_rectangle::FillRectangle;
use crate::dev::rdp::commands::full_sync::FullSync;
use crate::dev::rdp::commands::set_color_image::{CanvasColorModel, CanvasPixelSize, SetColorImage};
use crate::dev::rdp::commands::set_fill_color::SetFillColor;
use crate::dev::rdp::commands::set_other_modes::{CycleType, SetOtherModes};
use crate::dev::rdp::commands::set_scissor::SetScissor;
use crate::dev::rdp::commands::RDPCommands;

verus! {

/// A rectangle on the canvas, corners given in whole pixels.
#[derive(Clone, Copy, Debug, PartialEq, Eq, Structural)]
pub struct Rectangle {
    pub left: u16,
    pub top: u16,
    pub right: u16,
    pub bottom: u16,
}

/// Largest coordinate that the 10.2 fixed-point format of the commands
/// holds in whole pixels.
pub const MAX_PIXEL: u16 = 1023;

impl Rectangle {
    /// All corners lie within what a command can express.
    pub open spec fn expressible(self) -> bool {
        self.left <= MAX_PIXEL && self.top <= MAX_PIXEL && self.right <= MAX_PIXEL && self.bottom
            <= MAX_PIXEL
    }
}

/// A pixel coordinate in 10.2 fixed-point format.
pub open spec fn fixed_of(pixels: u16) -> u64 {
    (pixels * 4) as u64
}

/// "Set Other Modes" for filling: each command is completed before the
/// next, and the cycle type is `Fill`; everything else is zero.
pub open spec fn other_modes_word() -> u64 {
    0x2FB0_0000_0000_0000
}

/// "Set Scissor" with the box `area` and no interlaced scissoring.
pub open spec fn scissor_word(area: Rectangle) -> u64 {
    (0x2Du64 << 56) | (fixed_of(area.left) << 44) | (fixed_of(area.top) << 32) | (fixed_of(
        area.right,
    ) << 12) | fixed_of(area.bottom)
}

/// "Set Fill Color" with the packed color `color`.
pub open spec fn fill_color_word(color: u32) -> u64 {
    (0x37u64 << 56) | (color as u64)
}

/// "Set Color Image" for a canvas of 32-bit RGBA pixels, `width` pixels
/// wide, at the low 26 bits of `address`.
pub open spec fn color_image_word(address: u32, width: u16) -> u64 {
    (0x3Fu64 << 56) | (3u64 << 51) | (((width - 1) as u64) << 32) | ((address & 0x03FF_FFFF) as u64)
}

/// "Fill Rectangle" over `area`.
pub open spec fn fill_rectangle_word(area: Rectangle) -> u64 {
    (0x36u64 << 56) | (fixed_of(area.right) << 44) | (fixed_of(area.bottom) << 32) | (fixed_of(
        area.left,
    ) << 12) | fixed_of(area.top)
}

/// "Full Sync".
pub open spec fn full_sync_word() -> u64 {
    0x2900_0000_0000_0000
}

/// Converts whole pixels to 10.2 fixed-point format.
pub fn fixed(pixels: u16) -> (value: u16)
    requires
        pixels <= MAX_PIXEL,
    ensures
        value == fixed_of(pixels),
        value < 4096,
{
    pixels * 4
}

/// Builds "Set Other Modes" for filling.
pub fn set_other_modes_fill() -> (word: u64)
    ensures
        word == other_modes_word(),
{
    let modes: SetOtherModes = SetOtherModes(0).with_opcode(
        RDPCommands::SET_OTHER_MODES.opcode(),
    ).with_atomic_primitive_enable(true).with_cycle_type(CycleType::Fill);
    assert(with_field(with_field(with_field(0, 56, 8, 0x2F), 55, 1, 1), 52, 2, 3)
        == 0x2FB0_0000_0000_0000u64) by (bit_vector);
    modes.0
}

/// Builds "Set Scissor" for the box `area`.
pub fn set_scissor(area: Rectangle) -> (word: u64)
    requires
        area.expressible(),
    ensures
        word == scissor_word(area),
{
    let left: u16 = fixed(area.left);
    let top: u16 = fixed(area.top);
    let right: u16 = fixed(area.right);
    let bottom: u16 = fixed(area.bottom);
    let scissor: SetScissor = SetScissor(0).with_opcode(
        RDPCommands::SET_SCISSOR.opcode(),
    ).with_x_upper_left(left).with_y_upper_left(top).with_x_lower_right(right).with_y_lower_right(
        bottom,
    );
    let (a, b, c, d) = (left as u64, top as u64, right as u64, bottom as u64);
    assert(with_field(
        with_field(
            with_field(with_field(with_field(0, 56, 6, 0x2D), 44, 12, a), 32, 12, b),
            12,
            12,
            c,
        ),
        0,
        12,
        d,
    ) == (0x2Du64 << 56) | (a << 44) | (b << 32) | (c << 12) | d) by (bit_vector)
        requires
            a < 4096,
            b < 4096,
            c < 4096,
            d < 4096,
    ;
    scissor.0
}

/// Builds "Set Fill Color".
pub fn set_fill_color(color: u32) -> (word: u64)
    ensures
        word == fill_color_word(color),
{
    let fill: SetFillColor = SetFillColor(0).with_opcode(
        RDPCommands::SET_FILL_COLOR.opcode(),
    ).with_packed_color(color);
    let c = color as u64;
    assert(with_field(with_field(0, 56, 8, 0x37), 0, 32, c) == (0x37u64 << 56) | c) by (bit_vector)
        requires
            c <= 0xFFFF_FFFF,
    ;
    fill.0
}

/// Builds "Set Color Image" for a canvas of 32-bit RGBA pixels.
pub fn set_color_image(address: u32, width: u16) -> (word: u64)
    requires
        1 <= width <= 1024,
    ensures
        word == color_image_word(address, width),
{
    let image: SetColorImage = SetColorImage(0).with_opcode(
        RDPCommands::SET_COLOR_IMAGE.opcode(),
    ).with_address(address).with_model(CanvasColorModel::RGBA).with_pixel_size(
        CanvasPixelSize::WORD,
    ).with_width(width - 1);
    let a = address as u64;
    let low = (address & 0x03FF_FFFF) as u64;
    let w = (width - 1) as u64;
    assert(low == a & 0x03FF_FFFF) by (bit_vector)
        requires
            a == address as u64,
            low == (address & 0x03FF_FFFF) as u64,
    ;
    assert(with_field(
        with_field(
            with_field(with_field(with_field(0, 56, 6, 0x3F), 0, 26, a), 53, 3, 0),
            51,
            2,
            3,
        ),
        32,
        10,
        w,
    ) == (0x3Fu64 << 56) | (3u64 << 51) | (w << 32) | (a & 0x03FF_FFFF)) by (bit_vector)
        requires
            w < 1024,
            a <= 0xFFFF_FFFF,
    ;
    image.0
}

/// Builds "Fill Rectangle" over `area`.
pub fn fill_rectangle(area: Rectangle) -> (word: u64)
    requires
        area.expressible(),
    ensures
        word == fill_rectangle_word(area),
{
    let left: u16 = fixed(area.left);
    let top: u16 = fixed(area.top);
    let right: u16 = fixed(area.right);
    let bottom: u16 = fixed(area.bottom);
    let rectangle: FillRectangle = FillRectangle(0).with_opcode(
        RDPCommands::FILL_RECTANGLE.opcode(),
    ).with_x_upper_left(left).with_y_upper_left(top).with_x_lower_right(right).with_y_lower_right(
        bottom,
    );
    let (a, b, c, d) = (left as u64, top as u64, right as u64, bottom as u64);
    assert(with_field(
        with_field(
            with_field(with_field(with_field(0, 56, 6, 0x36), 12, 12, a), 0, 12, b),
            44,
            12,
            c,
        ),
        32,
        12,
        d,
    ) == (0x36u64 << 56) | (c << 44) | (d << 32) | (a << 12) | b) by (bit_vector)
        requires
            a < 4096,
            b < 4096,
            c < 4096,
            d < 4096,
    ;
    rectangle.0
}

/// Builds "Full Sync".
pub fn full_sync() -> (word: u64)
    ensures
        word == full_sync_word(),
{
    let sync: FullSync = FullSync(0).with_opcode(RDPCommands::FULL_SYNC.opcode());
    assert(with_field(0, 56, 8, 0x29) == 0x2900_0000_0000_0000u64) by (bit_vector);
    sync.0
}

} // verus!
