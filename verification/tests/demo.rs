use raku::demo::bars::{bar_area, bar_color, init_fbs, Edge};
use raku::demo::commands::{
    fill_rectangle, fixed, full_sync, set_color_image, set_fill_color, set_other_modes_fill,
    set_scissor, Rectangle,
};
use raku::demo::interlace::{color, draw_interlace_pattern, pixel, FieldAction, FieldState};
use raku::demo::square::{
    cycle_color, rdp_draw, rdp_setup, transfer_window, vi_draw, RegisterWord, Square,
};
use raku::demo::video::init_vi;
use raku::dev::vi::VI_ORIGIN;

const FB1: u32 = 0xA010_0000;
const FB2: u32 = 0xA02D_4000;

fn rectangle_word(x_lr: u64, y_lr: u64, x_ul: u64, y_ul: u64) -> u64 {
    0x36 << 56 | (x_lr << 2) << 44 | (y_lr << 2) << 32 | (x_ul << 2) << 12 | (y_ul << 2)
}

#[test]
fn command_words() {
    assert_eq!(set_other_modes_fill(), 0x2FB0_0000_0000_0000);
    assert_eq!(full_sync(), 0x2900_0000_0000_0000);
    assert_eq!(set_fill_color(0x0101_0100), 0x3700_0000_0101_0100);
    assert_eq!(set_fill_color(0xFFFF_FFFF), 0x3700_0000_FFFF_FFFF);
    assert_eq!(set_color_image(0x0010_0000, 320), 0x3F18_013F_0010_0000);
    assert_eq!(set_color_image(FB2, 640), 0x3F18_027F_002D_4000);
    assert_eq!(set_color_image(0xFFFF_FFFF, 1), 0x3F18_0000_03FF_FFFF);
    assert_eq!(
        set_scissor(Rectangle { left: 0, top: 0, right: 320, bottom: 240 }),
        0x2D00_0000_0050_03C0
    );
    assert_eq!(
        set_scissor(Rectangle { left: 1, top: 2, right: 3, bottom: 4 }),
        0x2D00_4008_0000_C010
    );
    assert_eq!(
        fill_rectangle(Rectangle { left: 0, top: 0, right: 639, bottom: 479 }),
        0x369F_C77C_0000_0000
    );
    assert_eq!(
        fill_rectangle(Rectangle { left: 1023, top: 1023, right: 1023, bottom: 1023 }),
        0x36FF_CFFC_00FF_CFFC
    );
    assert_eq!(fixed(0), 0);
    assert_eq!(fixed(639), 2556);
    assert_eq!(fixed(1023), 4092);
}

#[test]
fn display_list_shape() {
    let list = init_fbs(FB1, FB2);
    assert_eq!(list.len(), 73);
    assert_eq!(list[0], 0x2FB0_0000_0000_0000);
    assert_eq!(list[1], 0x2D00_0000_009F_C77C);
    assert_eq!(list[2], 0x3700_0000_0101_0100);
    assert_eq!(list[3], 0x3F18_027F_0010_0000);
    assert_eq!(list[4], 0x369F_C77C_0000_0000);
    assert_eq!(list[5], 0x3F18_027F_002D_4000);
    assert_eq!(list[6], 0x369F_C77C_0000_0000);
    assert_eq!(list[71], 0x2900_0000_0000_0000);
    assert_eq!(list[72], 0);
}

#[test]
fn display_list_bars() {
    let list = init_fbs(FB1, FB2);
    let bright: [u64; 8] = [
        0xFFFFFF00, 0x7F7F7F00, 0xFF000000, 0x00FF0000, 0x0000FF00, 0xFFFF0000, 0x00FFFF00,
        0xFF00FF00,
    ];
    for i in 0..8u64 {
        let k = i as usize;
        // left
        assert_eq!(list[7 + 2 * k], 0x37 << 56 | bright[k]);
        assert_eq!(list[8 + 2 * k], rectangle_word(7 + 16 * i, 479, 16 * i, 0));
        // right
        assert_eq!(list[23 + 2 * k], 0x37 << 56 | (bright[k] & 0x0F0F0F00));
        assert_eq!(list[24 + 2 * k], rectangle_word(639 - 16 * i, 479, 639 - (7 + 16 * i), 0));
        // top
        assert_eq!(list[39 + 2 * k], 0x37 << 56 | bright[k]);
        assert_eq!(list[40 + 2 * k], rectangle_word(639, 7 + 16 * i, 0, 16 * i));
        // bottom
        assert_eq!(list[55 + 2 * k], 0x37 << 56 | (bright[k] & 0x0F0F0F00));
        assert_eq!(list[56 + 2 * k], rectangle_word(639, 479 - 16 * i, 0, 479 - (8 + 16 * i)));
    }
    assert_eq!(list[8], 0x3601_C77C_0000_0000);
    assert_eq!(list[29], 0x3700_0000_000F_0000);
}

#[test]
fn bar_colors_and_areas() {
    assert_eq!(bar_color(Edge::Left, 0), 0xFFFF_FF00);
    assert_eq!(bar_color(Edge::Top, 7), 0xFF00_FF00);
    assert_eq!(bar_color(Edge::Right, 1), 0x0F0F_0F00);
    assert_eq!(bar_color(Edge::Bottom, 5), 0x0F0F_0000);
    assert_eq!(
        bar_area(Edge::Left, 7),
        Rectangle { left: 112, top: 0, right: 119, bottom: 479 }
    );
    assert_eq!(
        bar_area(Edge::Right, 0),
        Rectangle { left: 632, top: 0, right: 639, bottom: 479 }
    );
    assert_eq!(
        bar_area(Edge::Top, 1),
        Rectangle { left: 0, top: 16, right: 639, bottom: 23 }
    );
    assert_eq!(
        bar_area(Edge::Bottom, 7),
        Rectangle { left: 0, top: 359, right: 639, bottom: 367 }
    );
}

#[test]
fn video_setup_words() {
    let setup = init_vi(FB1);
    assert_eq!(setup.ctrl_blank.0, 0x3340);
    assert_eq!(setup.ctrl.0, 0x3343);
    assert_eq!(setup.origin.0, 0x0010_0000);
    assert_eq!(setup.width.0, 1280);
    assert_eq!(setup.v_intr.0, 0x3FF);
    assert_eq!(setup.burst.0, 0x03E5_2239);
    assert_eq!(setup.v_sync.0, 524);
    assert_eq!(setup.h_sync.0, 0x0C15);
    assert_eq!(setup.h_sync_leap.0, 0x0C15_0C15);
    assert_eq!(setup.h_video.0, 0x006C_02EC);
    assert_eq!(setup.v_video.0, 0x0025_01FF);
    assert_eq!(setup.v_burst.0, 0x000E_0204);
    assert_eq!(setup.x_scale.0, 0x400);
    assert_eq!(setup.y_scale.0, 0x400);
    assert!(setup.ctrl.enable_serrate());
    assert_eq!(init_vi(0xFFFF_FFFF).origin.0, 0x00FF_FFFF);
}

#[test]
fn low_resolution_register_words() {
    let words = vi_draw(FB1);
    let expected: Vec<RegisterWord> = [
        (0x00u8, 0b0011_0011_0000_0011u32),
        (0x01, FB1),
        (0x02, 320),
        (0x05, 0x03E5_2239),
        (0x06, 525),
        (0x07, 0x0000_0C15),
        (0x08, 0x0C15_0C15),
        (0x09, 0x006C_02EC),
        (0x0A, 0x0025_01FF),
        (0x0B, 0x000E_0204),
        (0x0C, 0b10_0000_0000),
        (0x0D, 0b100_0000_0000),
    ]
    .iter()
    .map(|(index, word)| RegisterWord { index: *index, word: *word })
    .collect();
    assert_eq!(words, expected);
}

#[test]
fn setup_commands() {
    assert_eq!(
        rdp_setup(FB1),
        vec![
            0b0010_1111_1011_0000_0000_0000_0000_0000_0000_0000_0000_0000_0000_0000_0000_0000,
            (0b0011_1111_0001_1000_0000_0001_0011_1111u64 << 32) | 0x0010_0000,
            0b0010_1101_0000_0000_0000_0000_0000_0000_0000_0000_0101_0000_0000_0011_1100_0000,
            0b0010_1001_0000_0000_0000_0000_0000_0000_0000_0000_0000_0000_0000_0000_0000_0000,
            0,
        ]
    );
}

#[test]
fn transfer_windows() {
    assert_eq!(transfer_window(0xA020_0000, 4), (0x0020_0000, 0x0020_0020));
    assert_eq!(transfer_window(0xA0FF_FFF8, 1), (0x00FF_FFF8, 0));
    assert_eq!(transfer_window(0, 0), (0, 0));
}

#[test]
fn colors_of_the_cycle() {
    assert_eq!(cycle_color(0), 0x0000_0001);
    assert_eq!(cycle_color(1), 0x0000_0101);
    assert_eq!(cycle_color(255), 0x0000_FF01);
    assert_eq!(cycle_color(256), 0x0000_FF01);
    assert_eq!(cycle_color(257), 0x0001_FF01);
    assert_eq!(cycle_color(511), 0x00FF_FF01);
    assert_eq!(cycle_color(512), 0x00FF_FF01);
    assert_eq!(cycle_color(513), 0x00FF_FE01);
    assert_eq!(cycle_color(768), 0x00FF_0001);
    assert_eq!(cycle_color(1023), 0xFFFF_0001);
    assert_eq!(cycle_color(1024), 0xFFFF_0001);
    assert_eq!(cycle_color(1279), 0xFF00_0001);
    assert_eq!(cycle_color(1280), 0xFF00_0001);
    assert_eq!(cycle_color(1535), 0x0000_0001);
    assert_eq!(cycle_color(1536), 0x0000_0001);
    assert_eq!(cycle_color(1536 + 300), cycle_color(300));
    assert_eq!(cycle_color(u32::MAX), cycle_color(u32::MAX % 1536));
}

/// The square's step written out on an array, with every operation
/// checked.
fn step_array(square: &mut [u16; 5]) {
    let (x_size, y_size): (u16, u16) = (0x10, 0x10);
    let (x_max, y_max): (u16, u16) = (320 - x_size, 240 - y_size);
    let [mut direction, mut x_offset, mut y_offset, mut x_padding, mut y_padding] = *square;
    match direction {
        0 => {
            y_offset = y_offset.checked_add(1).unwrap();
            if y_offset >= y_max.checked_sub(y_padding).unwrap() {
                direction += 1;
            }
        }
        1 => {
            x_offset = x_offset.checked_add(1).unwrap();
            if x_offset >= x_max.checked_sub(x_padding).unwrap() {
                direction += 1;
            }
        }
        2 => {
            y_offset = y_offset.checked_sub(1).unwrap();
            if y_offset <= y_padding {
                direction += 1;
            }
        }
        3 => {
            x_offset = x_offset.checked_sub(1).unwrap();
            if x_offset <= x_padding {
                direction = 0;
                y_padding += y_size / 2;
                x_padding += x_size / 2;
            }
        }
        _ => {
            direction = 0;
            x_offset = 0;
            y_offset = 0;
        }
    }
    if x_padding > 320 / 2 {
        x_padding = 0;
    }
    if y_padding > 240 / 2 {
        y_padding = 0;
    }
    *square = [direction, x_offset, y_offset, x_padding, y_padding];
}

#[test]
fn square_runs_round_the_frame() {
    let mut square = Square::new();
    let mut array: [u16; 5] = [0; 5];
    for _ in 0..200_000 {
        assert!(square.is_steady());
        square.advance();
        step_array(&mut array);
        assert_eq!(
            [
                square.direction,
                square.x_offset,
                square.y_offset,
                square.x_padding,
                square.y_padding
            ],
            array
        );
    }
}

#[test]
fn square_first_steps_and_turns() {
    let mut square = Square::new();
    square.advance();
    assert_eq!(
        square,
        Square { direction: 0, x_offset: 0, y_offset: 1, x_padding: 0, y_padding: 0 }
    );
    for _ in 0..223 {
        square.advance();
    }
    assert_eq!(
        square,
        Square { direction: 1, x_offset: 0, y_offset: 224, x_padding: 0, y_padding: 0 }
    );
    for _ in 0..304 {
        square.advance();
    }
    assert_eq!(
        square,
        Square { direction: 2, x_offset: 304, y_offset: 224, x_padding: 0, y_padding: 0 }
    );
    for _ in 0..224 {
        square.advance();
    }
    assert_eq!(
        square,
        Square { direction: 3, x_offset: 304, y_offset: 0, x_padding: 0, y_padding: 0 }
    );
    for _ in 0..304 {
        square.advance();
    }
    assert_eq!(
        square,
        Square { direction: 0, x_offset: 0, y_offset: 0, x_padding: 8, y_padding: 8 }
    );
}

#[test]
fn square_with_unknown_direction_starts_over() {
    let mut square =
        Square { direction: 9, x_offset: 7000, y_offset: 65535, x_padding: 500, y_padding: 3 };
    assert!(square.is_steady());
    square.advance();
    assert_eq!(
        square,
        Square { direction: 0, x_offset: 0, y_offset: 0, x_padding: 0, y_padding: 3 }
    );
}

#[test]
fn square_out_of_range_is_told_apart() {
    let at_edge = Square { direction: 2, x_offset: 10, y_offset: 0, x_padding: 0, y_padding: 0 };
    assert!(!at_edge.is_steady());
    let wide = Square { direction: 0, x_offset: 0, y_offset: 0, x_padding: 161, y_padding: 0 };
    assert!(!wide.is_steady());
}

#[test]
fn draw_commands_of_a_step() {
    let mut square = Square::new();
    let list = rdp_draw(300, &mut square);
    assert_eq!(square.y_offset, 1);
    assert_eq!(
        list,
        vec![
            0x3700_0000_0000_0000 | cycle_color(300) as u64,
            rectangle_word(16, 17, 0, 1),
            0x2900_0000_0000_0000,
            0,
        ]
    );
    assert_eq!(list[0], 0x3700_0000_002C_FF01);
}

#[test]
fn packed_colors() {
    assert_eq!(color(0x12, 0x34, 0x56, 0x78), 0x1234_5678);
    assert_eq!(color(0xFF, 0, 0, 0), 0xFF00_0000);
    assert_eq!(color(0, 0, 0, 0xFF), 0xFF);
}

/// The pattern drawn in three passes, each over the last.
fn pattern_in_passes(frame: &mut Vec<u32>) {
    for col in (320 - 32)..(320 + 32) as isize {
        for row in 0..480 as isize {
            let offset = (col + 640 * row) as usize;
            if col < 320 {
                if col < 320 - 16 {
                    frame[offset] = if row & 0x1 == 0 { 0xFFFFFF00 } else { 0 };
                } else {
                    frame[offset] = if row & 0x1 == 0 { 0 } else { 0xFFFFFF00 };
                }
            } else {
                let level: u8 = 0xFFu8.saturating_sub((row >> 1) as u8);
                let grey: u32 = (level as u32) << 24 | (level as u32) << 16 | (level as u32) << 8;
                if col < 320 + 16 {
                    frame[offset] = if row & 0x1 == 0 { grey } else { 0xFFFFFF00 };
                } else {
                    frame[offset] = if row & 0x1 == 0 { 0xFFFFFF00 } else { grey };
                }
            }
        }
    }
    for row in (240 - 32)..(240 + 32) as isize {
        for col in 0..640 as isize {
            let offset = (col + 640 * row) as usize;
            if row < 240 {
                frame[offset] = if col & 0x1 == 0 { 0x33FF3300 } else { 0x33333300 };
            } else {
                frame[offset] = if col & 0x1 == 0 { 0xCCCCCC00 } else { 0xFF33FF00 };
            }
        }
    }
    let (row_start, row_end, col_start, col_end) = (240 - 32, 240 + 32, 320 - 32, 320 + 32);
    for row in row_start..row_end as isize {
        for col in col_start..col_end as isize {
            let offset = (col + 640 * row) as usize;
            let r: u8 = ((row_end - row) * 4) as u8;
            let g: u8 = (((row_end - row) + (col_end - col)) * 2) as u8;
            let b: u8 = ((col_end - col) * 4) as u8;
            frame[offset] = (r as u32) << 24 | (g as u32) << 16 | (b as u32) << 8;
        }
    }
}

#[test]
fn pattern_equals_the_three_passes() {
    let before: Vec<u32> = (0..640 * 480u32).map(|i| i.wrapping_mul(2_654_435_761) | 1).collect();
    let mut drawn = before.clone();
    draw_interlace_pattern(&mut drawn);
    let mut passes = before.clone();
    pattern_in_passes(&mut passes);
    assert!(drawn == passes);
    let touched = drawn.iter().zip(before.iter()).filter(|(a, b)| a != b).count();
    assert_eq!(touched, 64 * 480 + 64 * 640 - 64 * 64);
}

#[test]
fn pattern_pixels() {
    assert_eq!(pixel(0, 0), None);
    assert_eq!(pixel(287, 100), None);
    assert_eq!(pixel(352, 100), None);
    assert_eq!(pixel(100, 207), None);
    assert_eq!(pixel(100, 272), None);
    assert_eq!(pixel(288, 0), Some(0xFFFF_FF00));
    assert_eq!(pixel(288, 1), Some(0));
    assert_eq!(pixel(304, 0), Some(0));
    assert_eq!(pixel(304, 1), Some(0xFFFF_FF00));
    assert_eq!(pixel(320, 0), Some(0xFFFF_FF00));
    assert_eq!(pixel(320, 2), Some(0xFEFE_FE00));
    assert_eq!(pixel(320, 3), Some(0xFFFF_FF00));
    assert_eq!(pixel(351, 479), Some(0x1010_1000));
    assert_eq!(pixel(351, 478), Some(0xFFFF_FF00));
    assert_eq!(pixel(0, 208), Some(0x33FF_3300));
    assert_eq!(pixel(1, 239), Some(0x3333_3300));
    assert_eq!(pixel(0, 240), Some(0xCCCC_CC00));
    assert_eq!(pixel(639, 271), Some(0xFF33_FF00));
    assert_eq!(pixel(288, 208), Some(0x0000_0000));
    assert_eq!(pixel(289, 208), Some(0x00FE_FC00));
    assert_eq!(pixel(351, 271), Some(0x0404_0400));
    assert_eq!(pixel(320, 240), Some(0x8080_8000));
}

#[test]
fn field_changes() {
    let mut state = FieldState::new();
    // an even half-line with no offset in place: the odd lines come next
    let action = state.poll(10, FB2);
    assert_eq!(
        action,
        FieldAction { origin: Some(VI_ORIGIN((FB2 + 2560) & 0x00FF_FFFF)), redraw: false }
    );
    assert_eq!(state, FieldState { offset: 640, swaps: 1 });
    // still even: nothing to do
    assert_eq!(state.poll(12, FB2), FieldAction { origin: None, redraw: false });
    assert_eq!(state, FieldState { offset: 640, swaps: 1 });
    // odd with the offset in place: back to the even lines, and the second change
    let action = state.poll(13, FB2);
    assert_eq!(
        action,
        FieldAction { origin: Some(VI_ORIGIN(FB2 & 0x00FF_FFFF)), redraw: true }
    );
    assert_eq!(state, FieldState { offset: 0, swaps: 2 });
    assert_eq!(state.poll(15, FB2), FieldAction { origin: None, redraw: false });
    // later changes do not draw again
    assert!(!state.poll(16, FB2).redraw);
    assert_eq!(state.swaps, 3);
    assert!(!state.poll(17, FB2).redraw);
    assert_eq!(state.swaps, 3);
    let action = state.poll(18, FB2);
    assert!(action.origin.is_some() && !action.redraw);
}
