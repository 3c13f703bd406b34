//! A square that runs along the edges of a frame of 320 by 240 pixels and
//! changes its color as it goes: the state of the square, its color, and
//! the commands and register values that put it on the screen.

use vstd::prelude::*;
use crate::demo::commands::{
    color_image_word, fill_color_word, fill_rectangle, fill_rectangle_word, full_sync,
    full_sync_word, other_modes_word, scissor_word, set_color_image, set_fill_color,
    set_other_modes_fill, set_scissor, Rectangle,
};
use crate::demo::interlace::{color, color_of};

verus! {

/// Width of the frame in pixels.
pub const WIDTH: u16 = 320;

/// Height of the frame in pixels.
pub const HEIGHT: u16 = 240;

/// Length of a side of the square in pixels.
pub const SIDE: u16 = 16;

/// Largest distance of the square's left edge from the left of the frame.
pub const X_MAX: u16 = 304;

/// Largest distance of the square's top edge from the top of the frame.
pub const Y_MAX: u16 = 224;

/// Number of steps after which the colors repeat: six transitions of 256
/// steps each.
pub const COLOR_STEPS: u32 = 1536;

/// The color at `step`. Over 1536 steps the color runs from black to
/// blue, to cyan, to green, to yellow, to red and back to black, one
/// channel rising or falling by one per step. Alpha is 1.
pub open spec fn cycle_color_of(step: u32) -> u32 {
    let turn = (step % 1536) / 256;
    let level = (step % 256) as u8;
    let back = (255 - level) as u8;
    if turn == 0 {
        color_of(0, 0, level, 1)
    } else if turn == 1 {
        color_of(0, level, 255, 1)
    } else if turn == 2 {
        color_of(0, 255, back, 1)
    } else if turn == 3 {
        color_of(level, 255, 0, 1)
    } else if turn == 4 {
        color_of(255, back, 0, 1)
    } else {
        color_of(back, 0, 0, 1)
    }
}

/// The color at `step`.
pub fn cycle_color(step: u32) -> (word: u32)
    ensures
        word == cycle_color_of(step),
{
    let turn: u32 = (step % COLOR_STEPS) / 256;
    let level: u8 = (step % 256) as u8;
    let back: u8 = 255 - level;
    if turn == 0 {
        color(0, 0, level, 1)
    } else if turn == 1 {
        color(0, level, 255, 1)
    } else if turn == 2 {
        color(0, 255, back, 1)
    } else if turn == 3 {
        color(level, 255, 0, 1)
    } else if turn == 4 {
        color(255, back, 0, 1)
    } else {
        color(back, 0, 0, 1)
    }
}

/// Where the square is and where it is heading.
#[derive(Clone, Copy, Debug, PartialEq, Eq, Structural)]
pub struct Square {
    /// 0 down, 1 right, 2 up, 3 left.
    pub direction: u16,
    /// Distance of the square's left edge from the left of the frame.
    pub x_offset: u16,
    /// Distance of the square's top edge from the top of the frame.
    pub y_offset: u16,
    /// Distance that the square keeps from the left and right edge.
    pub x_padding: u16,
    /// Distance that the square keeps from the top and bottom edge.
    pub y_padding: u16,
}

impl Square {
    /// The states that a run from the top left corner passes through, and
    /// from which a step cannot leave the range of the coordinates: while
    /// the square heads up or left it is not yet at the edge it heads for,
    /// and it is never more than one pixel past the far edge.
    pub open spec fn steady(self) -> bool {
        if self.direction == 0 {
            self.x_offset <= X_MAX && self.y_offset <= Y_MAX && self.x_padding <= 160
                && self.y_padding <= 120
        } else if self.direction == 1 {
            self.x_offset <= X_MAX && 1 <= self.y_offset <= Y_MAX + 1 && self.x_padding <= 160
                && self.y_padding <= 120
        } else if self.direction == 2 {
            1 <= self.x_offset <= X_MAX + 1 && 1 <= self.y_offset <= Y_MAX + 1 && self.x_padding
                <= 160 && self.y_padding <= 120
        } else if self.direction == 3 {
            1 <= self.x_offset <= X_MAX + 1 && self.y_offset <= Y_MAX && self.x_padding <= 160
                && self.y_padding <= 120
        } else {
            true
        }
    }

    /// The square one step on, paddings not yet brought back into range.
    /// It moves by one pixel in its direction and turns when it has come
    /// within the padding of the edge ahead. When it has gone round once,
    /// the paddings grow by half a side. A direction that is none of the
    /// four puts the square back into the top left corner, heading down.
    pub open spec fn moved(self) -> Square {
        if self.direction == 0 {
            let y = (self.y_offset + 1) as u16;
            Square {
                y_offset: y,
                direction: if y >= Y_MAX - self.y_padding {
                    1
                } else {
                    0
                },
                ..self
            }
        } else if self.direction == 1 {
            let x = (self.x_offset + 1) as u16;
            Square {
                x_offset: x,
                direction: if x >= X_MAX - self.x_padding {
                    2
                } else {
                    1
                },
                ..self
            }
        } else if self.direction == 2 {
            let y = (self.y_offset - 1) as u16;
            Square {
                y_offset: y,
                direction: if y <= self.y_padding {
                    3
                } else {
                    2
                },
                ..self
            }
        } else if self.direction == 3 {
            let x = (self.x_offset - 1) as u16;
            if x <= self.x_padding {
                Square {
                    direction: 0,
                    x_offset: x,
                    y_offset: self.y_offset,
                    x_padding: (self.x_padding + 8) as u16,
                    y_padding: (self.y_padding + 8) as u16,
                }
            } else {
                Square { x_offset: x, ..self }
            }
        } else {
            Square { direction: 0, x_offset: 0, y_offset: 0, ..self }
        }
    }

    /// The square one step on: moved, and a padding that has grown beyond
    /// half the frame set back to zero.
    pub open spec fn advanced(self) -> Square {
        let next = self.moved();
        Square {
            x_padding: if next.x_padding > 160 {
                0
            } else {
                next.x_padding
            },
            y_padding: if next.y_padding > 120 {
                0
            } else {
                next.y_padding
            },
            ..next
        }
    }

    /// The area that the square covers.
    pub open spec fn area(self) -> Rectangle {
        Rectangle {
            left: self.x_offset,
            top: self.y_offset,
            right: (self.x_offset + SIDE) as u16,
            bottom: (self.y_offset + SIDE) as u16,
        }
    }

    /// The square in the top left corner, heading down.
    pub fn new() -> (square: Square)
        ensures
            square == (Square {
                direction: 0,
                x_offset: 0,
                y_offset: 0,
                x_padding: 0,
                y_padding: 0,
            }),
            square.steady(),
    {
        Square { direction: 0, x_offset: 0, y_offset: 0, x_padding: 0, y_padding: 0 }
    }

    /// Whether a step from this state stays within the range of the
    /// coordinates.
    pub fn is_steady(&self) -> (ok: bool)
        ensures
            ok == self.steady(),
    {
        let pads: bool = self.x_padding <= 160 && self.y_padding <= 120;
        if self.direction == 0 {
            self.x_offset <= X_MAX && self.y_offset <= Y_MAX && pads
        } else if self.direction == 1 {
            self.x_offset <= X_MAX && 1 <= self.y_offset && self.y_offset <= Y_MAX + 1 && pads
        } else if self.direction == 2 {
            1 <= self.x_offset && self.x_offset <= X_MAX + 1 && 1 <= self.y_offset && self.y_offset
                <= Y_MAX + 1 && pads
        } else if self.direction == 3 {
            1 <= self.x_offset && self.x_offset <= X_MAX + 1 && self.y_offset <= Y_MAX && pads
        } else {
            true
        }
    }

    /// Moves the square one step on.
    pub fn advance(&mut self)
        requires
            old(self).steady(),
        ensures
            *final(self) == old(self).advanced(),
            final(self).steady(),
    {
        if self.direction == 0 {
            self.y_offset = self.y_offset + 1;
            if self.y_offset >= Y_MAX - self.y_padding {
                self.direction = 1;
            }
        } else if self.direction == 1 {
            self.x_offset = self.x_offset + 1;
            if self.x_offset >= X_MAX - self.x_padding {
                self.direction = 2;
            }
        } else if self.direction == 2 {
            self.y_offset = self.y_offset - 1;
            if self.y_offset <= self.y_padding {
                self.direction = 3;
            }
        } else if self.direction == 3 {
            self.x_offset = self.x_offset - 1;
            if self.x_offset <= self.x_padding {
                self.direction = 0;
                self.y_padding = self.y_padding + SIDE / 2;
                self.x_padding = self.x_padding + SIDE / 2;
            }
        } else {
            self.direction = 0;
            self.x_offset = 0;
            self.y_offset = 0;
        }
        if self.x_padding > WIDTH / 2 {
            self.x_padding = 0;
        }
        if self.y_padding > HEIGHT / 2 {
            self.y_padding = 0;
        }
    }
}

/// The commands that draw the square in a color: the fill color, the
/// rectangle, a full sync and a closing zero.
pub open spec fn draw_list(fill: u32, square: Square) -> Seq<u64> {
    seq![fill_color_word(fill), fill_rectangle_word(square.area()), full_sync_word(), 0u64]
}

/// The commands that prepare the RDP for drawing to the frame buffer at
/// the low 24 bits of `frame_buffer`: fill mode, the canvas, the scissor
/// box over the whole frame, a full sync and a closing zero.
pub open spec fn setup_list(frame_buffer: u32) -> Seq<u64> {
    seq![
        other_modes_word(),
        color_image_word(frame_buffer & 0x00FF_FFFF, WIDTH),
        scissor_word(Rectangle { left: 0, top: 0, right: WIDTH, bottom: HEIGHT }),
        full_sync_word(),
        0u64,
    ]
}

/// One step of the show: moves `square` one step on and returns the
/// commands that draw it there in the color of `step`.
pub fn rdp_draw(step: u32, square: &mut Square) -> (list: Vec<u64>)
    requires
        old(square).steady(),
    ensures
        *final(square) == old(square).advanced(),
        final(square).steady(),
        list@ == draw_list(cycle_color_of(step), old(square).advanced()),
{
    let fill: u32 = cycle_color(step);
    square.advance();
    let area: Rectangle = Rectangle {
        left: square.x_offset,
        top: square.y_offset,
        right: square.x_offset + SIDE,
        bottom: square.y_offset + SIDE,
    };
    let mut list: Vec<u64> = Vec::new();
    list.push(set_fill_color(fill));
    list.push(fill_rectangle(area));
    list.push(full_sync());
    list.push(0);
    assert(list@ =~= draw_list(cycle_color_of(step), *square));
    list
}

/// Builds the commands that prepare the RDP for drawing.
pub fn rdp_setup(frame_buffer: u32) -> (list: Vec<u64>)
    ensures
        list@ == setup_list(frame_buffer),
{
    let mut list: Vec<u64> = Vec::new();
    list.push(set_other_modes_fill());
    list.push(set_color_image(frame_buffer & 0x00FF_FFFF, WIDTH));
    list.push(set_scissor(Rectangle { left: 0, top: 0, right: WIDTH, bottom: HEIGHT }));
    list.push(full_sync());
    list.push(0);
    assert(list@ =~= setup_list(frame_buffer));
    list
}

/// The start and the end of a transfer of `commands` commands of eight
/// bytes that lie at `address`, as the RDP interface takes them: the low 24
/// bits of the address of the first command and of the address just past
/// the last.
pub open spec fn transfer_of(address: u32, commands: u32) -> (u32, u32) {
    (address & 0x00FF_FFFF, ((address + 8 * commands) as u32) & 0x00FF_FFFF)
}

/// Computes the start and the end of a transfer of commands.
pub fn transfer_window(address: u32, commands: u32) -> (window: (u32, u32))
    requires
        address + 8 * commands <= u32::MAX,
    ensures
        window == transfer_of(address, commands),
{
    let end: u32 = address + 8 * commands;
    (address & 0x00FF_FFFF, end & 0x00FF_FFFF)
}

/// A word for one register of the video interface.
#[derive(Clone, Copy, Debug, PartialEq, Eq, Structural)]
pub struct RegisterWord {
    /// Index of the register, counted in words from the first.
    pub index: u8,
    /// Word to write.
    pub word: u32,
}

/// The register words for NTSC, 320 by 240 pixels, 32-bit color, frame
/// buffer at `frame_buffer`, in the order of writing.
pub open spec fn ntsc_240p(frame_buffer: u32) -> Seq<RegisterWord> {
    seq![
        RegisterWord { index: 0x00, word: 0x0000_3303 },
        RegisterWord { index: 0x01, word: frame_buffer },
        RegisterWord { index: 0x02, word: 320 },
        RegisterWord { index: 0x05, word: 0x03E5_2239 },
        RegisterWord { index: 0x06, word: 525 },
        RegisterWord { index: 0x07, word: 0x0000_0C15 },
        RegisterWord { index: 0x08, word: 0x0C15_0C15 },
        RegisterWord { index: 0x09, word: 0x006C_02EC },
        RegisterWord { index: 0x0A, word: 0x0025_01FF },
        RegisterWord { index: 0x0B, word: 0x000E_0204 },
        RegisterWord { index: 0x0C, word: 0x0000_0200 },
        RegisterWord { index: 0x0D, word: 0x0000_0400 },
    ]
}

/// Builds the register words that set the video interface up for NTSC,
/// 320 by 240 pixels.
pub fn vi_draw(frame_buffer: u32) -> (words: Vec<RegisterWord>)
    ensures
        words@ == ntsc_240p(frame_buffer),
{
    let mut words: Vec<RegisterWord> = Vec::new();
    words.push(RegisterWord { index: 0x00, word: 0x0000_3303 });
    words.push(RegisterWord { index: 0x01, word: frame_buffer });
    words.push(RegisterWord { index: 0x02, word: 320 });
    words.push(RegisterWord { index: 0x05, word: 0x03E5_2239 });
    words.push(RegisterWord { index: 0x06, word: 525 });
    words.push(RegisterWord { index: 0x07, word: 0x0000_0C15 });
    words.push(RegisterWord { index: 0x08, word: 0x0C15_0C15 });
    words.push(RegisterWord { index: 0x09, word: 0x006C_02EC });
    words.push(RegisterWord { index: 0x0A, word: 0x0025_01FF });
    words.push(RegisterWord { index: 0x0B, word: 0x000E_0204 });
    words.push(RegisterWord { index: 0x0C, word: 0x0000_0200 });
    words.push(RegisterWord { index: 0x0D, word: 0x0000_0400 });
    assert(words@ =~= ntsc_240p(frame_buffer));
    words
}

} // verus!
