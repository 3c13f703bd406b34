use proc_bitfield::{Bit, Bits, WithBit, WithBits};

use raku::bits::{get_bit, get_bits, mask_of, with_bit, with_bits, with_bits32};
use raku::dev::rdp::commands::fill_rectangle::FillRectangle;
use raku::dev::rdp::commands::full_sync::FullSync;
use raku::dev::rdp::commands::set_color_image::{CanvasColorModel, CanvasPixelSize, SetColorImage};
use raku::dev::rdp::commands::set_fill_color::SetFillColor;
use raku::dev::rdp::commands::set_other_modes::{
    AlphaCompareSource, AlphaDitherType, CoverageMode, CycleType, RGBDitherType, SetOtherModes,
    TexelTypeInTLUT, TextureSampleMethod, ZMode, ZSource,
};
use raku::dev::rdp::commands::set_scissor::{ScissorLineSkip, SetScissor};
use raku::dev::rdp::commands::RDPCommands;
use raku::dev::rdp::interface::{DMATransferSource, RDPStatusAsRead, RDPStatusAsWritten};
use raku::dev::vi::{
    AntiAliasMode, ColorDepth, VI_BURST, VI_CTRL, VI_H_SYNC, VI_H_SYNC_LEAP, VI_H_VIDEO,
    VI_ORIGIN, VI_V_BURST, VI_V_CURRENT, VI_V_INTR, VI_V_SYNC, VI_V_VIDEO, VI_WIDTH, VI_X_SCALE,
    VI_Y_SCALE,
};
use raku::pic::RGBA;

const SAMPLES: [u64; 6] = [
    0,
    u64::MAX,
    0x0123_4567_89AB_CDEF,
    0xFEDC_BA98_7654_3210,
    0x8000_0000_0000_0001,
    0x5555_AAAA_3333_CCCC,
];

#[test]
fn masks() {
    assert_eq!(mask_of(0), 0);
    assert_eq!(mask_of(1), 1);
    assert_eq!(mask_of(6), 0x3F);
    assert_eq!(mask_of(32), 0xFFFF_FFFF);
    assert_eq!(mask_of(63), 0x7FFF_FFFF_FFFF_FFFF);
    assert_eq!(mask_of(64), u64::MAX);
}

#[test]
fn get_bits_examples() {
    assert_eq!(get_bits(0x0123_4567_89AB_CDEF, 0, 8), 0xEF);
    assert_eq!(get_bits(0x0123_4567_89AB_CDEF, 4, 8), 0xDE);
    assert_eq!(get_bits(0x0123_4567_89AB_CDEF, 56, 6), 0x01);
    assert_eq!(get_bits(0x0123_4567_89AB_CDEF, 0, 64), 0x0123_4567_89AB_CDEF);
    assert_eq!(get_bits(u64::MAX, 63, 1), 1);
}

#[test]
fn with_bits_examples() {
    assert_eq!(with_bits(0, 56, 6, 0x3F), 0x3F00_0000_0000_0000);
    assert_eq!(with_bits(u64::MAX, 8, 8, 0), 0xFFFF_FFFF_FFFF_00FF);
    assert_eq!(with_bits(0, 4, 4, 0x1F), 0xF0);
    assert_eq!(with_bits(0x1234, 0, 64, 0x5678), 0x5678);
    assert_eq!(with_bits32(0xFFFF_FFFF, 16, 10, 0), 0xFC00_FFFF);
    assert_eq!(with_bits32(0, 24, 8, 0x1FF), 0xFF00_0000);
}

#[test]
fn bit_examples() {
    assert!(get_bit(0x40, 6));
    assert!(!get_bit(0x40, 5));
    assert_eq!(with_bit(0, 55, true), 0x0080_0000_0000_0000);
    assert_eq!(with_bit(u64::MAX, 0, false), u64::MAX - 1);
}

#[test]
fn field_written_reads_back_and_leaves_the_rest() {
    for raw in SAMPLES {
        let out = with_bits(raw, 12, 12, 0xABC);
        assert_eq!(get_bits(out, 12, 12), 0xABC);
        assert_eq!(get_bits(out, 0, 12), get_bits(raw, 0, 12));
        assert_eq!(get_bits(out, 24, 40), get_bits(raw, 24, 40));
    }
}

#[test]
fn reads_agree_with_proc_bitfield() {
    for raw in SAMPLES {
        assert_eq!(get_bits(raw, 56, 6), Bits::<u64>::bits::<56, 62>(&raw));
        assert_eq!(get_bits(raw, 56, 8) as u8, Bits::<u8>::bits::<56, 64>(&raw));
        assert_eq!(get_bits(raw, 32, 10) as u16, Bits::<u16>::bits::<32, 42>(&raw));
        assert_eq!(get_bits(raw, 0, 26) as u32, Bits::<u32>::bits::<0, 26>(&raw));
        assert_eq!(get_bits(raw, 0, 64), Bits::<u64>::bits::<0, 64>(&raw));
        assert_eq!(get_bit(raw, 25), Bit::bit::<25>(&raw));
        assert_eq!(get_bit(raw, 63), Bit::bit::<63>(&raw));
        assert_eq!(get_bit(raw, 0), Bit::bit::<0>(&raw));
    }
}

#[test]
fn writes_agree_with_proc_bitfield() {
    for raw in SAMPLES {
        for value in [0u16, 1, 0x2D, 0x3FF, 0xFFFF] {
            assert_eq!(
                with_bits(raw, 56, 6, (value as u8) as u64),
                WithBits::<u8>::with_bits::<56, 62>(raw, value as u8)
            );
            assert_eq!(
                with_bits(raw, 44, 12, value as u64),
                WithBits::<u16>::with_bits::<44, 56>(raw, value)
            );
            assert_eq!(
                with_bits(raw, 0, 64, value as u64),
                WithBits::<u64>::with_bits::<0, 64>(raw, value as u64)
            );
            let narrow = raw as u32;
            assert_eq!(
                with_bits32(narrow, 16, 10, value as u32),
                WithBits::<u16>::with_bits::<16, 26>(narrow, value)
            );
        }
        for value in [false, true] {
            assert_eq!(with_bit(raw, 55, value), WithBit::with_bit::<55>(raw, value));
            assert_eq!(with_bit(raw, 0, value), WithBit::with_bit::<0>(raw, value));
            assert_eq!(with_bit(raw, 63, value), WithBit::with_bit::<63>(raw, value));
        }
    }
}

#[test]
fn opcodes() {
    assert_eq!(RDPCommands::FILL_RECTANGLE.opcode(), 0x36);
    assert_eq!(RDPCommands::FULL_SYNC.opcode(), 0x29);
    assert_eq!(RDPCommands::SET_COLOR_IMAGE.opcode(), 0x3F);
    assert_eq!(RDPCommands::SET_FILL_COLOR.opcode(), 0x37);
    assert_eq!(RDPCommands::SET_OTHER_MODES.opcode(), 0x2F);
    assert_eq!(RDPCommands::SET_SCISSOR.opcode(), 0x2D);
}

#[test]
fn numbered_enums_from_numbers() {
    assert_eq!(CycleType::from(0), CycleType::OneCycle);
    assert_eq!(CycleType::from(1), CycleType::TwoCycle);
    assert_eq!(CycleType::from(2), CycleType::Copy);
    assert_eq!(CycleType::from(3), CycleType::Fill);
    assert_eq!(CycleType::from(4), CycleType::OneCycle);
    assert_eq!(RGBDitherType::from(0), RGBDitherType::MagicSquareMatrix);
    assert_eq!(RGBDitherType::from(1), RGBDitherType::BayerMatrix);
    assert_eq!(RGBDitherType::from(2), RGBDitherType::Noise);
    assert_eq!(RGBDitherType::from(3), RGBDitherType::NoDither);
    assert_eq!(RGBDitherType::from(200), RGBDitherType::NoDither);
    assert_eq!(AlphaDitherType::from(0), AlphaDitherType::Pattern);
    assert_eq!(AlphaDitherType::from(1), AlphaDitherType::AntiPattern);
    assert_eq!(AlphaDitherType::from(2), AlphaDitherType::Noise);
    assert_eq!(AlphaDitherType::from(9), AlphaDitherType::NoDither);
    assert_eq!(ZMode::from(1), ZMode::Interpenetrating);
    assert_eq!(ZMode::from(2), ZMode::Transparent);
    assert_eq!(ZMode::from(3), ZMode::Decal);
    assert_eq!(ZMode::from(255), ZMode::Opaque);
    assert_eq!(CoverageMode::from(1), CoverageMode::Wrap);
    assert_eq!(CoverageMode::from(2), CoverageMode::ForceToFullCoverage);
    assert_eq!(CoverageMode::from(3), CoverageMode::NoWriteback);
    assert_eq!(CoverageMode::from(4), CoverageMode::Clamp);
    assert_eq!(AntiAliasMode::from(0), AntiAliasMode::Always);
    assert_eq!(AntiAliasMode::from(1), AntiAliasMode::Enabled);
    assert_eq!(AntiAliasMode::from(2), AntiAliasMode::ResampleOnly);
    assert_eq!(AntiAliasMode::from(77), AntiAliasMode::Disabled);
    assert_eq!(ColorDepth::from(0), ColorDepth::Blank);
    assert_eq!(ColorDepth::from(1), ColorDepth::Blank);
    assert_eq!(ColorDepth::from(2), ColorDepth::HighColor);
    assert_eq!(ColorDepth::from(3), ColorDepth::TrueColor);
    assert_eq!(CanvasColorModel::from(0), CanvasColorModel::RGBA);
    assert_eq!(CanvasColorModel::from(5), CanvasColorModel::RGBA);
    assert_eq!(CanvasPixelSize::from(3), CanvasPixelSize::WORD);
    assert_eq!(CanvasPixelSize::from(0), CanvasPixelSize::WORD);
}

#[test]
fn numbered_enums_into_numbers() {
    assert_eq!(u8::from(CycleType::Fill), 3);
    assert_eq!(u8::from(CycleType::Copy), 2);
    assert_eq!(u8::from(RGBDitherType::NoDither), 3);
    assert_eq!(u8::from(AlphaDitherType::AntiPattern), 1);
    assert_eq!(u8::from(ZMode::Opaque), 0);
    assert_eq!(u8::from(CoverageMode::NoWriteback), 3);
    assert_eq!(u8::from(AntiAliasMode::Disabled), 3);
    assert_eq!(u8::from(ColorDepth::HighColor), 2);
    assert_eq!(u8::from(ColorDepth::TrueColor), 3);
    assert_eq!(u8::from(CanvasColorModel::RGBA), 0);
    assert_eq!(u8::from(CanvasPixelSize::WORD), 3);
    let through: u8 = CycleType::TwoCycle.into();
    assert_eq!(through, 1);
    for code in 0..4u8 {
        assert_eq!(u8::from(CycleType::from(code)), code);
        assert_eq!(u8::from(ZMode::from(code)), code);
    }
}

#[test]
fn flag_enums_both_ways() {
    assert_eq!(TexelTypeInTLUT::from(true), TexelTypeInTLUT::IA);
    assert_eq!(TexelTypeInTLUT::from(false), TexelTypeInTLUT::RGBA16b);
    assert!(bool::from(TexelTypeInTLUT::IA));
    assert!(!bool::from(TexelTypeInTLUT::RGBA16b));
    assert_eq!(TextureSampleMethod::from(false), TextureSampleMethod::Point);
    assert_eq!(TextureSampleMethod::from(true), TextureSampleMethod::Bilinear);
    assert!(bool::from(TextureSampleMethod::Bilinear));
    assert_eq!(ZSource::from(false), ZSource::Pixel);
    assert_eq!(ZSource::from(true), ZSource::Primitive);
    assert!(!bool::from(ZSource::Pixel));
    assert_eq!(AlphaCompareSource::from(false), AlphaCompareSource::Noise);
    assert_eq!(AlphaCompareSource::from(true), AlphaCompareSource::Blend);
    assert!(bool::from(AlphaCompareSource::Blend));
    assert_eq!(ScissorLineSkip::from(true), ScissorLineSkip::SKIP_EVEN_LINES);
    assert_eq!(ScissorLineSkip::from(false), ScissorLineSkip::SKIP_ODD_LINES);
    assert!(bool::from(ScissorLineSkip::SKIP_EVEN_LINES));
    assert_eq!(DMATransferSource::from(true), DMATransferSource::DMEM);
    assert_eq!(DMATransferSource::from(false), DMATransferSource::XBUS);
    let through: bool = DMATransferSource::DMEM.into();
    assert!(through);
}

#[test]
fn set_other_modes_word() {
    let word: u64 = SetOtherModes(0)
        .with_opcode(RDPCommands::SET_OTHER_MODES.opcode())
        .with_atomic_primitive_enable(true)
        .with_cycle_type(CycleType::Fill)
        .into();
    assert_eq!(word, 0x2FB0_0000_0000_0000);
    let modes = SetOtherModes(word);
    assert_eq!(modes.opcode(), 0x2F);
    assert!(modes.atomic_primitive_enable());
    assert_eq!(modes.cycle_type(), CycleType::Fill);
    assert_eq!(modes.z_mode(), ZMode::Opaque);
    assert_eq!(modes.rgb_dither_type(), RGBDitherType::MagicSquareMatrix);
    assert!(!modes.alpha_compare_enable());
}

#[test]
fn set_other_modes_low_fields() {
    let modes = SetOtherModes(0)
        .with_alpha_compare_enable(true)
        .with_alpha_compare_source(AlphaCompareSource::Blend)
        .with_source_of_z(ZSource::Primitive)
        .with_cvg_mode(CoverageMode::ForceToFullCoverage)
        .with_z_mode(ZMode::Decal)
        .with_force_blend(true)
        .with_mul_blend_2b_in_cycle_1(3)
        .with_mul_blend_1a_in_cycle_0(2)
        .with_alpha_dither_type(AlphaDitherType::Noise)
        .with_rgb_dither_type(RGBDitherType::BayerMatrix)
        .with_texture_sample_method(TextureSampleMethod::Bilinear)
        .with_tlut_texel_type(TexelTypeInTLUT::IA);
    let expected: u64 = 1 | 1 << 1 | 1 << 2 | 2 << 8 | 3 << 10 | 1 << 14 | 3 << 16 | 2 << 30
        | 2 << 36 | 1 << 38 | 1 << 45 | 1 << 46;
    assert_eq!(modes.0, expected);
    assert_eq!(modes.alpha_compare_source(), AlphaCompareSource::Blend);
    assert_eq!(modes.source_of_z(), ZSource::Primitive);
    assert_eq!(modes.cvg_mode(), CoverageMode::ForceToFullCoverage);
    assert_eq!(modes.z_mode(), ZMode::Decal);
    assert_eq!(modes.mul_blend_2b_in_cycle_1(), 3);
    assert_eq!(modes.mul_blend_1a_in_cycle_0(), 2);
    assert_eq!(modes.alpha_dither_type(), AlphaDitherType::Noise);
    assert_eq!(modes.rgb_dither_type(), RGBDitherType::BayerMatrix);
    assert_eq!(modes.texture_sample_method(), TextureSampleMethod::Bilinear);
    assert_eq!(modes.tlut_texel_type(), TexelTypeInTLUT::IA);
    assert!(!modes.z_update_en());
}

#[test]
fn set_scissor_word() {
    let scissor = SetScissor(0)
        .with_opcode(RDPCommands::SET_SCISSOR.opcode())
        .with_x_upper_left(0)
        .with_y_upper_left(0)
        .with_x_lower_right(320 << 2)
        .with_y_lower_right(240 << 2);
    assert_eq!(scissor.0, 0x2D00_0000_0050_03C0);
    assert_eq!(scissor.x_lower_right(), 1280);
    assert_eq!(scissor.y_lower_right(), 960);
    assert!(!scissor.interlaced_scissoring());
    assert_eq!(scissor.scissor_line_skip(), ScissorLineSkip::SKIP_ODD_LINES);
    let skipping = scissor
        .with_interlaced_scissoring(true)
        .with_scissor_line_skip(ScissorLineSkip::SKIP_EVEN_LINES);
    assert_eq!(skipping.0, 0x2D00_0000_0350_03C0);
    assert_eq!(skipping.scissor_line_skip(), ScissorLineSkip::SKIP_EVEN_LINES);
}

#[test]
fn set_color_image_word() {
    let image = SetColorImage(0)
        .with_opcode(RDPCommands::SET_COLOR_IMAGE.opcode())
        .with_address(0xA010_0000)
        .with_model(CanvasColorModel::RGBA)
        .with_pixel_size(CanvasPixelSize::WORD)
        .with_width(640 - 1);
    assert_eq!(image.0, 0x3F18_027F_0010_0000);
    assert_eq!(image.address(), 0x0010_0000);
    assert_eq!(image.width(), 639);
    assert_eq!(image.opcode(), 0x3F);
    assert_eq!(image.model(), CanvasColorModel::RGBA);
    assert_eq!(image.pixel_size(), CanvasPixelSize::WORD);
}

#[test]
fn fill_commands() {
    let color: u64 = SetFillColor(0)
        .with_opcode(RDPCommands::SET_FILL_COLOR.opcode())
        .with_packed_color(0x0101_0100)
        .into();
    assert_eq!(color, 0x3700_0000_0101_0100);
    let rectangle = FillRectangle(0)
        .with_opcode(RDPCommands::FILL_RECTANGLE.opcode())
        .with_x_upper_left(0)
        .with_y_upper_left(0)
        .with_x_lower_right(639 << 2)
        .with_y_lower_right(479 << 2);
    assert_eq!(rectangle.0, 0x369F_C77C_0000_0000);
    assert_eq!(rectangle.x_lower_right(), 639 << 2);
    assert_eq!(rectangle.y_lower_right(), 479 << 2);
    let sync: u64 = FullSync(0).with_opcode(RDPCommands::FULL_SYNC.opcode()).into();
    assert_eq!(sync, 0x2900_0000_0000_0000);
    assert_eq!(FullSync::from(sync).opcode(), 0x29);
}

#[test]
fn value_wider_than_its_field_is_cut() {
    assert_eq!(SetScissor(0).with_opcode(0xFF).0, 0x3F00_0000_0000_0000);
    assert_eq!(FillRectangle(0).with_y_upper_left(0xFFFF).0, 0xFFF);
    assert_eq!(VI_V_INTR(0).with_half_line(0xFFFF).0, 0x3FF);
    assert_eq!(VI_ORIGIN(0).with_vaddr(0xA010_0000).0, 0x0010_0000);
}

#[test]
fn setters_in_place() {
    let mut control = VI_CTRL(0).with_color_depth(ColorDepth::Blank);
    control.set_color_depth(ColorDepth::TrueColor);
    assert_eq!(control.color_depth(), ColorDepth::TrueColor);
    control.set_enable_serrate(true);
    control.set_pixel_advance(3);
    assert_eq!(control.0, 0x3043);
    let mut scissor = SetScissor(u64::MAX);
    scissor.set_x_upper_left(0);
    scissor.set_scissor_line_skip(ScissorLineSkip::SKIP_ODD_LINES);
    assert_eq!(scissor.0, 0xFF00_0FFF_FEFF_FFFF);
}

#[test]
fn vi_control_word() {
    let control = VI_CTRL(0)
        .with_color_depth(ColorDepth::TrueColor)
        .with_aa_mode(AntiAliasMode::Disabled)
        .with_pixel_advance(0b11);
    assert_eq!(control.0, 0x3303);
    assert_eq!(control.aa_mode(), AntiAliasMode::Disabled);
    assert_eq!(control.pixel_advance(), 3);
    assert!(!control.enable_dither_filter());
    let all = VI_CTRL(0)
        .with_enable_dither_filter(true)
        .with_enable_serrate(true)
        .with_enable_divot(true)
        .with_enable_gamma_boost(true)
        .with_enable_gamma_dither(true);
    assert_eq!(all.0, 0x0001_005C);
    assert!(all.enable_divot() && all.enable_gamma_boost() && all.enable_gamma_dither());
    assert_eq!(u32::from(VI_CTRL::from(0x3303)), 0x3303);
}

#[test]
fn vi_timing_words() {
    let burst = VI_BURST(0)
        .with_color_burst_start(62)
        .with_color_burst_width(34)
        .with_hsync_width(57)
        .with_vsync_width(5);
    assert_eq!(burst.0, 0x03E5_2239);
    assert_eq!(burst.color_burst_start(), 62);
    assert_eq!(burst.vsync_width(), 5);
    assert_eq!(burst.color_burst_width(), 34);
    assert_eq!(burst.hsync_width(), 57);
    assert_eq!(VI_V_SYNC(0).with_v_sync(525).0, 525);
    assert_eq!(VI_H_SYNC(0).with_leap_pattern(0).with_line_duration(3093).0, 0x0000_0C15);
    assert_eq!(VI_H_SYNC(0).with_leap_pattern(0x15).leap_pattern(), 0x15);
    assert_eq!(VI_H_SYNC_LEAP(0).with_leap_a(3093).with_leap_b(3093).0, 0x0C15_0C15);
    assert_eq!(VI_H_VIDEO(0).with_h_start(108).with_h_end(748).0, 0x006C_02EC);
    assert_eq!(VI_V_VIDEO(0).with_v_start(37).with_v_end(511).0, 0x0025_01FF);
    assert_eq!(VI_V_BURST(0).with_v_burst_start(0x00E).with_v_burst_end(0x204).0, 0x000E_0204);
    assert_eq!(VI_X_SCALE(0).with_offset(0).with_scale(0x200).0, 0x200);
    assert_eq!(VI_Y_SCALE(0).with_offset(1).with_scale(0x400).0, 0x0001_0400);
    assert_eq!(VI_WIDTH(0).with_width(320).width(), 320);
    assert_eq!(VI_V_CURRENT(0x3FF).half_line(), 0x3FF);
    assert_eq!(VI_V_CURRENT(0xFFFF_FC01).half_line(), 1);
    assert_eq!(VI_V_VIDEO(0x0025_01FF).v_start(), 37);
    assert_eq!(VI_V_VIDEO(0x0025_01FF).v_end(), 511);
}

#[test]
fn rdp_status_words() {
    let status = RDPStatusAsRead(0x0000_0641);
    assert!(status.start_pending());
    assert!(status.end_pending());
    assert!(status.busy());
    assert!(!status.flush());
    assert!(!status.freeze());
    assert_eq!(status.source(), DMATransferSource::DMEM);
    assert_eq!(RDPStatusAsRead(0).source(), DMATransferSource::XBUS);
    assert_eq!(RDPStatusAsRead(0).with_source(DMATransferSource::DMEM).0, 1);
    let written = RDPStatusAsWritten(0)
        .with_reset_clock(true)
        .with_set_flush(true)
        .with_clear_freeze(true)
        .with_set_source_xbus(true);
    assert_eq!(written.0, 0x0000_0225);
    assert!(written.reset_clock() && written.set_flush() && written.clear_freeze());
    assert!(!written.clear_flush() && !written.set_freeze() && !written.set_source_dmem());
    assert_eq!(u32::from(written), 0x225);
}

#[test]
fn rgba_word() {
    let color = RGBA(0).with_red(0x12).with_green(0x34).with_blue(0x56).with_alpha(0x78);
    assert_eq!(color.0, 0x1234_5678);
    assert_eq!(color.red(), 0x12);
    assert_eq!(color.green(), 0x34);
    assert_eq!(color.blue(), 0x56);
    assert_eq!(color.alpha(), 0x78);
    let word: u32 = color.into();
    assert_eq!(word, 0x1234_5678);
    assert_eq!(RGBA::from(0xFFFF_FF00).alpha(), 0);
}

#[test]
fn agreed_addresses() {
    assert_eq!(raku::layout::VIDEO_INTERFACE_CONTROL, 0xA4400000);
    assert_eq!(raku::layout::FRAMEBUFFER_1_ADDRESS, 0xA0100000);
    assert_eq!(raku::layout::FRAMEBUFFER_2_ADDRESS, 0xA014B000);
    assert_eq!(raku::dev::vi::VIDEO_INTERFACE_BASE_ADDRESS, 0xA4400000);
    assert_eq!(raku::dev::rdp::interface::RDP_INTERFACE_BASE_ADDRESS, 0xA4100000);
}
