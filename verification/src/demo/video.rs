//! Register values that set the video interface up for an NTSC signal.

use vstd::prelude::*;
use crate::bits::with_field;
use crate::dev::vi::{
    AntiAliasMode, ColorDepth, VI_BURST, VI_CTRL, VI_H_SYNC, VI_H_SYNC_LEAP, VI_H_VIDEO,
    VI_ORIGIN, VI_V_BURST, VI_V_INTR, VI_V_SYNC, VI_V_VIDEO, VI_WIDTH, VI_X_SCALE, VI_Y_SCALE,
};

verus! {

/// Everything that is written to the video interface to set it up, in the
/// order of writing: the control word that keeps the signal off comes
/// first, the one that turns it on last.
#[derive(Clone, Copy, Debug, PartialEq, Eq, Structural)]
pub struct VideoSetup {
    pub ctrl_blank: VI_CTRL,
    pub origin: VI_ORIGIN,
    pub width: VI_WIDTH,
    pub v_intr: VI_V_INTR,
    pub burst: VI_BURST,
    pub v_sync: VI_V_SYNC,
    pub h_sync: VI_H_SYNC,
    pub h_sync_leap: VI_H_SYNC_LEAP,
    pub h_video: VI_H_VIDEO,
    pub v_video: VI_V_VIDEO,
    pub v_burst: VI_V_BURST,
    pub x_scale: VI_X_SCALE,
    pub y_scale: VI_Y_SCALE,
    pub ctrl: VI_CTRL,
}

/// The setup for NTSC, 640 by 480 pixels, interlaced, 32-bit color, with
/// the frame buffer at the low 24 bits of `frame_buffer`.
///
/// The control word has no anti-aliasing, pixel advance 3 and serration;
/// the width is two lines of 640 pixels, so that every other line is
/// shown; the timing is that of the NTSC standard: 524 half-lines to a
/// field, 3094 quarter pixels to a line, video from pixel 108 to 748 and
/// from half-line 37 to 511, scale 1.0 both ways.
pub open spec fn ntsc_480i(frame_buffer: u32) -> VideoSetup {
    VideoSetup {
        ctrl_blank: VI_CTRL(0x0000_3340),
        origin: VI_ORIGIN(frame_buffer & 0x00FF_FFFF),
        width: VI_WIDTH(1280),
        v_intr: VI_V_INTR(0x3FF),
        burst: VI_BURST(0x03E5_2239),
        v_sync: VI_V_SYNC(524),
        h_sync: VI_H_SYNC(0x0000_0C15),
        h_sync_leap: VI_H_SYNC_LEAP(0x0C15_0C15),
        h_video: VI_H_VIDEO(0x006C_02EC),
        v_video: VI_V_VIDEO(0x0025_01FF),
        v_burst: VI_V_BURST(0x000E_0204),
        x_scale: VI_X_SCALE(0x0000_0400),
        y_scale: VI_Y_SCALE(0x0000_0400),
        ctrl: VI_CTRL(0x0000_3343),
    }
}

/// Builds the setup of the video interface for NTSC, 640 by 480 pixels,
/// interlaced, 32-bit color.
pub fn init_vi(frame_buffer: u32) -> (setup: VideoSetup)
    ensures
        setup == ntsc_480i(frame_buffer),
{
    let ctrl_blank: VI_CTRL = VI_CTRL(0).with_color_depth(ColorDepth::Blank).with_aa_mode(
        AntiAliasMode::Disabled,
    ).with_pixel_advance(0b11).with_enable_serrate(true).with_enable_dither_filter(
        false,
    ).with_enable_divot(false).with_enable_gamma_boost(false).with_enable_gamma_dither(false);
    let mut ctrl: VI_CTRL = ctrl_blank;
    ctrl.set_color_depth(ColorDepth::TrueColor);
    let origin: VI_ORIGIN = VI_ORIGIN(0).with_vaddr(frame_buffer);
    let width: VI_WIDTH = VI_WIDTH(0).with_width(640 * 2);
    let v_intr: VI_V_INTR = VI_V_INTR(0).with_half_line(0x3ff);
    let burst: VI_BURST = VI_BURST(0).with_color_burst_start(62).with_color_burst_width(
        34,
    ).with_hsync_width(57).with_vsync_width(5);
    let v_sync: VI_V_SYNC = VI_V_SYNC(0).with_v_sync(524);
    let h_sync: VI_H_SYNC = VI_H_SYNC(0).with_leap_pattern(0).with_line_duration(3093);
    let h_sync_leap: VI_H_SYNC_LEAP = VI_H_SYNC_LEAP(0).with_leap_a(3093).with_leap_b(3093);
    let h_video: VI_H_VIDEO = VI_H_VIDEO(0).with_h_start(108).with_h_end(748);
    let v_video: VI_V_VIDEO = VI_V_VIDEO(0).with_v_start(37).with_v_end(511);
    let v_burst: VI_V_BURST = VI_V_BURST(0).with_v_burst_start(0x00E).with_v_burst_end(0x204);
    let x_scale: VI_X_SCALE = VI_X_SCALE(0).with_offset(0).with_scale(0x400);
    let y_scale: VI_Y_SCALE = VI_Y_SCALE(0).with_offset(0).with_scale(0x400);
    proof {
        assert(with_field(
            with_field(
                with_field(
                    with_field(
                        with_field(
                            with_field(with_field(with_field(0, 0, 2, 0), 8, 2, 3), 12, 4, 3),
                            6,
                            1,
                            1,
                        ),
                        16,
                        1,
                        0,
                    ),
                    4,
                    1,
                    0,
                ),
                3,
                1,
                0,
            ),
            2,
            1,
            0,
        ) == 0x3340 && with_field(0x3340, 0, 2, 3) == 0x3343) by (bit_vector);
        let address = frame_buffer as u64;
        let low = (frame_buffer & 0x00FF_FFFF) as u64;
        assert(with_field(0, 0, 24, address) == low) by (bit_vector)
            requires
                address == frame_buffer as u64,
                low == (frame_buffer & 0x00FF_FFFF) as u64,
        ;
        assert(with_field(0, 0, 12, 1280) == 1280 && with_field(0, 0, 10, 0x3ff) == 0x3ff
            && with_field(
            with_field(with_field(with_field(0, 20, 10, 62), 8, 8, 34), 0, 8, 57),
            16,
            4,
            5,
        ) == 0x03E5_2239 && with_field(0, 0, 10, 524) == 524 && with_field(
            with_field(0, 16, 5, 0),
            0,
            12,
            3093,
        ) == 0x0C15 && with_field(with_field(0, 16, 12, 3093), 0, 12, 3093) == 0x0C15_0C15)
            by (bit_vector);
        assert(with_field(with_field(0, 16, 10, 108), 0, 10, 748) == 0x006C_02EC && with_field(
            with_field(0, 16, 10, 37),
            0,
            10,
            511,
        ) == 0x0025_01FF && with_field(with_field(0, 16, 10, 0x00E), 0, 10, 0x204) == 0x000E_0204
            && with_field(with_field(0, 16, 12, 0), 0, 12, 0x400) == 0x400) by (bit_vector);
    }
    VideoSetup {
        ctrl_blank,
        origin,
        width,
        v_intr,
        burst,
        v_sync,
        h_sync,
        h_sync_leap,
        h_video,
        v_video,
        v_burst,
        x_scale,
        y_scale,
        ctrl,
    }
}

} // verus!
