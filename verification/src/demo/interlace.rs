//! The pattern that shows how the display copes with interlacing: four
//! upright stripes through the middle of the frame, four level stripes
//! across it, and a square of blended colors where they meet. Also the
//! choice of the field that the video interface shows next.

use vstd::prelude::*;
use crate::bits::with_field;
use crate::dev::vi::VI_ORIGIN;
use crate::pic::RGBA;

verus! {

/// Width of the frame in pixels.
pub const WIDTH: u32 = 640;

/// Height of the frame in pixels.
pub const HEIGHT: u32 = 480;

/// Number of pixels in the frame.
pub const PIXELS: usize = 307_200;

pub const WHITE: u32 = 0xFFFF_FF00;

pub const BLACK: u32 = 0x0000_0000;

/// The color word with the given red, green, blue and alpha.
pub open spec fn color_of(red: u8, green: u8, blue: u8, alpha: u8) -> u32 {
    ((red as u32) << 24) | ((green as u32) << 16) | ((blue as u32) << 8) | (alpha as u32)
}

/// The grey of the gradient in row `row`: it darkens by one step every
/// two rows, from full white at the top.
pub open spec fn grey_of(row: int) -> u32 {
    let level = (255 - row / 2) as u8;
    color_of(level, level, level, 0)
}

/// A pixel of the upright stripes, which span the columns 288 to 351.
/// From left to right: white on even rows and black on odd ones; the
/// reverse; the gradient on even rows and white on odd ones; the reverse.
pub open spec fn upright_of(col: int, row: int) -> u32 {
    if col < 304 {
        if row % 2 == 0 {
            WHITE
        } else {
            BLACK
        }
    } else if col < 320 {
        if row % 2 == 0 {
            BLACK
        } else {
            WHITE
        }
    } else if col < 336 {
        if row % 2 == 0 {
            grey_of(row)
        } else {
            WHITE
        }
    } else {
        if row % 2 == 0 {
            WHITE
        } else {
            grey_of(row)
        }
    }
}

/// A pixel of the level stripes, which span the rows 208 to 271: two
/// colors that alternate from column to column, one pair above the middle
/// of the frame and another below.
pub open spec fn level_of(col: int, row: int) -> u32 {
    if row < 240 {
        if col % 2 == 0 {
            0x33FF_3300
        } else {
            0x3333_3300
        }
    } else {
        if col % 2 == 0 {
            0xCCCC_CC00
        } else {
            0xFF33_FF00
        }
    }
}

/// A pixel of the square in the middle, columns 288 to 351 and rows 208
/// to 271: red grows towards the top, blue towards the left, green towards
/// both, each cut to eight bits.
pub open spec fn center_of(col: int, row: int) -> u32 {
    let down = 272 - row;
    let across = 352 - col;
    color_of(
        ((down * 4) % 256) as u8,
        (((down + across) * 2) % 256) as u8,
        ((across * 4) % 256) as u8,
        0,
    )
}

/// The pixel that the pattern puts at a place, or `None` where it leaves
/// the frame as it is. The level stripes lie over the upright ones, and
/// the square over both.
pub open spec fn pixel_of(col: int, row: int) -> Option<u32> {
    if 208 <= row < 272 {
        if 288 <= col < 352 {
            Some(center_of(col, row))
        } else {
            Some(level_of(col, row))
        }
    } else if 288 <= col < 352 {
        Some(upright_of(col, row))
    } else {
        None
    }
}

/// The frame `before` with the pattern drawn over it. Pixels are stored
/// row by row.
pub open spec fn painted(before: Seq<u32>) -> Seq<u32> {
    Seq::new(
        before.len(),
        |i: int|
            match pixel_of(i % 640, i / 640) {
                Some(color) => color,
                None => before[i],
            },
    )
}

/// Packs a color.
pub fn color(red: u8, green: u8, blue: u8, alpha: u8) -> (word: u32)
    ensures
        word == color_of(red, green, blue, alpha),
{
    let packed: RGBA = RGBA(0).with_red(red).with_green(green).with_blue(blue).with_alpha(alpha);
    let (r, g, b, a) = (red as u64, green as u64, blue as u64, alpha as u64);
    let (r32, g32, b32, a32) = (red as u32, green as u32, blue as u32, alpha as u32);
    assert(with_field(with_field(with_field(with_field(0, 24, 8, r), 16, 8, g), 8, 8, b), 0, 8, a)
        == ((r32 << 24) | (g32 << 16) | (b32 << 8) | a32) as u64) by (bit_vector)
        requires
            r == r32,
            g == g32,
            b == b32,
            a == a32,
            r32 < 256,
            g32 < 256,
            b32 < 256,
            a32 < 256,
    ;
    packed.0
}

/// The pixel that the pattern puts at column `col` of row `row`.
pub fn pixel(col: u32, row: u32) -> (out: Option<u32>)
    requires
        col < WIDTH,
        row < HEIGHT,
    ensures
        out == pixel_of(col as int, row as int),
{
    if 208 <= row && row < 272 {
        if 288 <= col && col < 352 {
            let down: u32 = 272 - row;
            let across: u32 = 352 - col;
            let red: u8 = ((down * 4) % 256) as u8;
            let green: u8 = (((down + across) * 2) % 256) as u8;
            let blue: u8 = ((across * 4) % 256) as u8;
            Some(color(red, green, blue, 0))
        } else if row < 240 {
            if col % 2 == 0 {
                Some(0x33FF_3300)
            } else {
                Some(0x3333_3300)
            }
        } else {
            if col % 2 == 0 {
                Some(0xCCCC_CC00)
            } else {
                Some(0xFF33_FF00)
            }
        }
    } else if 288 <= col && col < 352 {
        let even: bool = row % 2 == 0;
        if col < 304 {
            Some(if even { WHITE } else { BLACK })
        } else if col < 320 {
            Some(if even { BLACK } else { WHITE })
        } else {
            let level: u8 = (255 - row / 2) as u8;
            let grey: u32 = color(level, level, level, 0);
            if col < 336 {
                Some(if even { grey } else { WHITE })
            } else {
                Some(if even { WHITE } else { grey })
            }
        }
    } else {
        None
    }
}

/// Draws the pattern over a frame of 640 by 480 pixels, stored row by row.
pub fn draw_interlace_pattern(frame: &mut Vec<u32>)
    requires
        old(frame)@.len() == PIXELS,
    ensures
        final(frame)@ == painted(old(frame)@),
{
    let ghost before = frame@;
    let mut at: usize = 0;
    while at < PIXELS
        invariant
            at <= PIXELS,
            frame@.len() == PIXELS,
            before.len() == PIXELS,
            forall|i: int| 0 <= i < at ==> frame@[i] == #[trigger] painted(before)[i],
            forall|i: int| at <= i < PIXELS ==> frame@[i] == #[trigger] before[i],
        decreases PIXELS - at,
    {
        let col: u32 = (at % 640) as u32;
        let row: u32 = (at / 640) as u32;
        match pixel(col, row) {
            Some(value) => {
                frame.set(at, value);
            },
            None => {},
        }
        at = at + 1;
    }
    assert(frame@ =~= painted(before));
}

/// Which field the video interface is to show, and how often the choice
/// has changed.
#[derive(Clone, Copy, Debug, PartialEq, Eq, Structural)]
pub struct FieldState {
    /// Pixels by which the frame buffer address is advanced: none to show
    /// the even lines, one line of 640 pixels to show the odd ones.
    pub offset: u32,
    /// Changes of field so far, counted up to three.
    pub swaps: u8,
}

/// What is to be done after a look at the current half-line.
#[derive(Clone, Copy, Debug, PartialEq, Eq, Structural)]
pub struct FieldAction {
    /// The frame buffer address to write to the video interface, where the
    /// field changes.
    pub origin: Option<VI_ORIGIN>,
    /// Whether the pattern is to be drawn again: at the second change of
    /// field and at no other.
    pub redraw: bool,
}

/// The offset that follows a half-line: a line of 640 pixels after an even
/// half-line, none after an odd one.
pub open spec fn offset_after(half_line: u16) -> u32 {
    if half_line % 2 == 0 {
        640
    } else {
        0
    }
}

/// The field changes where an even half-line is seen with no offset in
/// place, or an odd one with an offset in place.
pub open spec fn swaps_at(state: FieldState, half_line: u16) -> bool {
    if half_line % 2 == 0 {
        state.offset == 0
    } else {
        state.offset > 0
    }
}

/// The state after a look at `half_line`.
pub open spec fn state_after(state: FieldState, half_line: u16) -> FieldState {
    FieldState {
        offset: offset_after(half_line),
        swaps: if swaps_at(state, half_line) && state.swaps < 3 {
            (state.swaps + 1) as u8
        } else {
            state.swaps
        },
    }
}

/// The register value that points the video interface at the frame buffer
/// at `base`, advanced by `offset` pixels of four bytes.
pub open spec fn origin_of(base: u32, offset: u32) -> VI_ORIGIN {
    VI_ORIGIN(with_field(0, 0, 24, (base + offset * 4) as u64) as u32)
}

/// What a look at `half_line` leads to.
pub open spec fn action_at(state: FieldState, half_line: u16, base: u32) -> FieldAction {
    if swaps_at(state, half_line) {
        FieldAction {
            origin: Some(origin_of(base, offset_after(half_line))),
            redraw: state.swaps == 1,
        }
    } else {
        FieldAction { origin: None, redraw: false }
    }
}

impl FieldState {
    /// The state before the first look: no offset, no change yet.
    pub fn new() -> (state: FieldState)
        ensures
            state == (FieldState { offset: 0, swaps: 0 }),
    {
        FieldState { offset: 0, swaps: 0 }
    }

    /// Takes the current half-line of the video interface and decides
    /// whether the field changes. `base` is the address of the frame
    /// buffer.
    pub fn poll(&mut self, half_line: u16, base: u32) -> (action: FieldAction)
        requires
            base <= 0xFFFF_F000,
        ensures
            *final(self) == state_after(*old(self), half_line),
            action == action_at(*old(self), half_line, base),
    {
        let swap: bool;
        let offset: u32;
        if half_line % 2 == 0 {
            swap = self.offset == 0;
            offset = 640;
        } else {
            swap = self.offset > 0;
            offset = 0;
        }
        self.offset = offset;
        if swap {
            let redraw: bool = self.swaps == 1;
            if self.swaps < 3 {
                self.swaps = self.swaps + 1;
            }
            let origin: VI_ORIGIN = VI_ORIGIN(0).with_vaddr(base + offset * 4);
            FieldAction { origin: Some(origin), redraw }
        } else {
            FieldAction { origin: None, redraw: false }
        }
    }
}

} // verus!
