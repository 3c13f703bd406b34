//! The display list with which the game clears its two frame buffers and
//! draws color bars along the four edges of the second.

use vstd::prelude::*;
use crate::demo::commands::{
    color_image_word, fill_color_word, fill_rectangle, fill_rectangle_word, full_sync,
    full_sync_word, other_modes_word, scissor_word, set_color_image, set_fill_color,
    set_other_modes_fill, set_scissor, Rectangle,
};

verus! {

/// Width of a frame buffer in pixels.
pub const FRAME_WIDTH: u16 = 640;

/// Height of a frame buffer in pixels.
pub const FRAME_HEIGHT: u16 = 480;

/// The near-black with which both frame buffers are cleared: just light
/// enough to tell the frame from a black border.
pub const CLEAR_COLOR: u32 = 0x0101_0100;

/// Mask that dims a color.
pub const DIM: u32 = 0x0F0F_0F00;

/// Number of bars along each edge.
pub const BARS: u8 = 8;

/// Number of commands in the display list, the closing zero counted.
pub const DISPLAY_LIST_LENGTH: usize = 73;

/// The four sets of bars.
#[derive(Clone, Copy, Debug, PartialEq, Eq, Structural)]
pub enum Edge {
    /// Bright bars that stand at the left edge.
    Left,
    /// Dim bars that stand at the right edge.
    Right,
    /// Bright bars that lie at the top edge.
    Top,
    /// Dim bars that lie at the bottom edge.
    Bottom,
}

/// The whole frame.
pub open spec fn frame() -> Rectangle {
    Rectangle { left: 0, top: 0, right: 639, bottom: 479 }
}

/// The colors of the bars, from the edge inwards: white, grey, red, green,
/// blue, yellow, cyan, magenta. An index past the last bar has the last
/// bar's color.
pub open spec fn bright_of(index: int) -> u32 {
    if index == 0 {
        0xFFFF_FF00
    } else if index == 1 {
        0x7F7F_7F00
    } else if index == 2 {
        0xFF00_0000
    } else if index == 3 {
        0x00FF_0000
    } else if index == 4 {
        0x0000_FF00
    } else if index == 5 {
        0xFFFF_0000
    } else if index == 6 {
        0x00FF_FF00
    } else {
        0xFF00_FF00
    }
}

/// The color of bar `index` at `edge`: bright at the left and at the top,
/// dimmed at the right and at the bottom.
pub open spec fn color_of(edge: Edge, index: int) -> u32 {
    match edge {
        Edge::Left | Edge::Top => bright_of(index),
        Edge::Right | Edge::Bottom => bright_of(index) & DIM,
    }
}

/// The area of bar `index` at `edge`. Bars are sixteen pixels apart. At the
/// left, top and right they are eight pixels thick, at the bottom nine.
pub open spec fn area_of(edge: Edge, index: int) -> Rectangle {
    match edge {
        Edge::Left => Rectangle {
            left: (16 * index) as u16,
            top: 0,
            right: (7 + 16 * index) as u16,
            bottom: 479,
        },
        Edge::Right => Rectangle {
            left: (639 - (7 + 16 * index)) as u16,
            top: 0,
            right: (639 - 16 * index) as u16,
            bottom: 479,
        },
        Edge::Top => Rectangle {
            left: 0,
            top: (16 * index) as u16,
            right: 639,
            bottom: (7 + 16 * index) as u16,
        },
        Edge::Bottom => Rectangle {
            left: 0,
            top: (479 - (8 + 16 * index)) as u16,
            right: 639,
            bottom: (479 - 16 * index) as u16,
        },
    }
}

/// The commands that open the list: fill mode, the scissor box over the
/// whole frame, and both frame buffers filled with the clear color. The
/// second frame buffer stays the canvas.
pub open spec fn opening(first: u32, second: u32) -> Seq<u64> {
    seq![
        other_modes_word(),
        scissor_word(frame()),
        fill_color_word(CLEAR_COLOR),
        color_image_word(first, FRAME_WIDTH),
        fill_rectangle_word(frame()),
        color_image_word(second, FRAME_WIDTH),
        fill_rectangle_word(frame()),
    ]
}

/// The commands for the bars at one edge: for each bar its color, then its
/// rectangle.
pub open spec fn bar_commands(edge: Edge) -> Seq<u64> {
    Seq::new(
        16,
        |k: int|
            if k % 2 == 0 {
                fill_color_word(color_of(edge, k / 2))
            } else {
                fill_rectangle_word(area_of(edge, k / 2))
            },
    )
}

/// The whole display list for frame buffers at `first` and `second`.
pub open spec fn display_list(first: u32, second: u32) -> Seq<u64> {
    opening(first, second) + bar_commands(Edge::Left) + bar_commands(Edge::Right) + bar_commands(
        Edge::Top,
    ) + bar_commands(Edge::Bottom) + seq![full_sync_word(), 0u64]
}

/// The bright color of bar `index`.
pub fn bright(index: u8) -> (color: u32)
    ensures
        color == bright_of(index as int),
{
    if index == 0 {
        0xFFFF_FF00
    } else if index == 1 {
        0x7F7F_7F00
    } else if index == 2 {
        0xFF00_0000
    } else if index == 3 {
        0x00FF_0000
    } else if index == 4 {
        0x0000_FF00
    } else if index == 5 {
        0xFFFF_0000
    } else if index == 6 {
        0x00FF_FF00
    } else {
        0xFF00_FF00
    }
}

/// The color of bar `index` at `edge`.
pub fn bar_color(edge: Edge, index: u8) -> (color: u32)
    ensures
        color == color_of(edge, index as int),
{
    match edge {
        Edge::Left | Edge::Top => bright(index),
        Edge::Right | Edge::Bottom => bright(index) & DIM,
    }
}

/// The area of bar `index` at `edge`.
pub fn bar_area(edge: Edge, index: u8) -> (area: Rectangle)
    requires
        index < BARS,
    ensures
        area == area_of(edge, index as int),
        area.expressible(),
{
    let step: u16 = 16 * (index as u16);
    match edge {
        Edge::Left => Rectangle { left: step, top: 0, right: 7 + step, bottom: 479 },
        Edge::Right => Rectangle { left: 639 - (7 + step), top: 0, right: 639 - step, bottom: 479 },
        Edge::Top => Rectangle { left: 0, top: step, right: 639, bottom: 7 + step },
        Edge::Bottom => Rectangle {
            left: 0,
            top: 479 - (8 + step),
            right: 639,
            bottom: 479 - step,
        },
    }
}

/// Appends the commands for the bars at `edge`.
pub fn push_bars(list: &mut Vec<u64>, edge: Edge)
    ensures
        final(list)@ == old(list)@ + bar_commands(edge),
{
    let ghost before = list@;
    let mut index: u8 = 0;
    while index < BARS
        invariant
            index <= BARS,
            list@ == before + bar_commands(edge).take(2 * index as int),
        decreases BARS - index,
    {
        let color: u32 = bar_color(edge, index);
        let area: Rectangle = bar_area(edge, index);
        list.push(set_fill_color(color));
        list.push(fill_rectangle(area));
        proof {
            let all = bar_commands(edge);
            let k = 2 * index as int;
            assert(all[k] == fill_color_word(color));
            assert(all[k + 1] == fill_rectangle_word(area));
            assert(all.take(k).push(all[k]).push(all[k + 1]) =~= all.take(k + 2));
            assert(list@ =~= before + all.take(k + 2));
        }
        index = index + 1;
    }
    proof {
        assert(bar_commands(edge).take(16) =~= bar_commands(edge));
    }
}

/// Builds the display list that clears the frame buffers at `first` and
/// `second` and draws the bars to the second: 73 commands, of which the
/// last is zero.
pub fn init_fbs(first: u32, second: u32) -> (list: Vec<u64>)
    ensures
        list@ == display_list(first, second),
        list@.len() == DISPLAY_LIST_LENGTH,
{
    let whole: Rectangle = Rectangle { left: 0, top: 0, right: 639, bottom: 479 };
    let mut list: Vec<u64> = Vec::new();
    list.push(set_other_modes_fill());
    list.push(set_scissor(whole));
    list.push(set_fill_color(CLEAR_COLOR));
    list.push(set_color_image(first, FRAME_WIDTH));
    list.push(fill_rectangle(whole));
    list.push(set_color_image(second, FRAME_WIDTH));
    list.push(fill_rectangle(whole));
    assert(list@ =~= opening(first, second));
    push_bars(&mut list, Edge::Left);
    push_bars(&mut list, Edge::Right);
    push_bars(&mut list, Edge::Top);
    push_bars(&mut list, Edge::Bottom);
    let ghost bars = list@;
    list.push(full_sync());
    list.push(0);
    assert(list@ =~= bars + seq![full_sync_word(), 0u64]);
    list
}

} // verus!
