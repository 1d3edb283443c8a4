use ptx_harness::arith::{
    add_s16, add_u16, add_with_saturation_s32, addc_subc, dp2a, dp4a, mad_hi_sat_s32, mad_s16,
    mad_u16, mad_wide_s16, mad_wide_u16, madc, mul24, mul_s16, mul_u16, mul_wide_s16,
    mul_wide_u16, sad, sext_or_zext_u16, sext_or_zext_u8, sub_s16, sub_u16,
    sub_with_saturation_s32, Mode,
};

#[test]
fn wrapping_16_bit() {
    assert_eq!(add_u16(0xffff, 2), 1);
    assert_eq!(add_s16(i16::MAX, 1), i16::MIN);
    assert_eq!(sub_u16(0, 1), 0xffff);
    assert_eq!(sub_s16(i16::MIN, 1), i16::MAX);
}

#[test]
fn saturating_32_bit_stays_in_range() {
    assert_eq!(add_with_saturation_s32(i32::MAX, 1, true), i32::MAX);
    assert_eq!(add_with_saturation_s32(i32::MAX, 1, false), i32::MIN);
    assert_eq!(add_with_saturation_s32(i32::MIN, -1, true), i32::MIN);
    assert_eq!(sub_with_saturation_s32(i32::MIN, 1, true), i32::MIN);
    assert_eq!(sub_with_saturation_s32(i32::MAX, -1, true), i32::MAX);
    assert_eq!(sub_with_saturation_s32(i32::MIN, 1, false), i32::MAX);
}

#[test]
fn saturating_equals_wrapping_in_range() {
    for (a, b) in [(5, 7), (-100, 40), (i32::MAX - 3, 3), (i32::MIN, 0)] {
        assert_eq!(add_with_saturation_s32(a, b, true), add_with_saturation_s32(a, b, false));
        assert_eq!(sub_with_saturation_s32(a, -b, true), sub_with_saturation_s32(a, -b, false));
    }
}

#[test]
fn multiplication_halves() {
    assert_eq!(mul_u16(0xffff, 0xffff, Mode::Low), 1);
    assert_eq!(mul_u16(0xffff, 0xffff, Mode::High), 0xfffe);
    assert_eq!(mul_s16(-1, 1, Mode::High), -1);
    assert_eq!(mul_s16(-32768, -32768, Mode::High), 0x4000);
    assert_eq!(mul_s16(300, 300, Mode::Low), 0x5f90);
    assert_eq!(mul_wide_u16(0xffff, 0xffff), 0xfffe_0001);
    assert_eq!(mul_wide_s16(-32768, 2), -65536);
    assert_eq!(Mode::High.to_ptx(), "hi");
}

#[test]
fn multiply_add() {
    assert_eq!(mad_u16(0xffff, 0xffff, 0xffff, Mode::Low), 0);
    assert_eq!(mad_u16(0x100, 0x100, 1, Mode::High), 2);
    assert_eq!(mad_s16(-1, 1, 5, Mode::High), 4);
    assert_eq!(mad_wide_u16(0xffff, 0xffff, 0x1_ffff), 0);
    assert_eq!(mad_wide_s16(-2, 3, -10), -16);
    assert_eq!(mad_hi_sat_s32(i32::MIN, i32::MIN, i32::MAX), i32::MAX);
    assert_eq!(mad_hi_sat_s32(0x1_0000, 0x1_0000, 5), 6);
}

#[test]
fn mul24_modes() {
    assert_eq!(mul24(0xff00_0002, 3, false, false), 6);
    assert_eq!(mul24(0x00ff_ffff, 0x00ff_ffff, false, true), 0xffff_fe00);
    assert_eq!(mul24(0x00ff_ffff, 2, true, false), 0xffff_fffe);
    assert_eq!(mul24(0x00ff_ffff, 1, true, true), 0xffff_ffff);
}

#[test]
fn sum_of_absolute_differences() {
    assert_eq!(sad(1, 5, 10, false), 14);
    assert_eq!(sad(0xffff, 1, 0, false), 0xfffe);
    assert_eq!(sad(0xffff, 1, 0, true), 2);
    assert_eq!(sad(0x8000, 0x7fff, 1, true), 0);
}

#[test]
fn lane_extension() {
    assert_eq!(sext_or_zext_u8(0x80ff_0102, true), [2, 1, -1, -128]);
    assert_eq!(sext_or_zext_u8(0x80ff_0102, false), [2, 1, 255, 128]);
    assert_eq!(sext_or_zext_u16(0x8000_ffff, true), [-1, -32768]);
    assert_eq!(sext_or_zext_u16(0x8000_ffff, false), [0xffff, 0x8000]);
}

#[test]
fn dot_products() {
    assert_eq!(dp4a(0x0403_0201, 0x0101_0101, 10, false, false), 20);
    assert_eq!(dp4a(0xffff_ffff, 0x0101_0101, 0, true, false), 0xffff_fffc);
    assert_eq!(dp4a(0xffff_ffff, 0xffff_ffff, 0, false, false), 4 * 255 * 255);
    assert_eq!(dp2a(0x0002_0003, 0x0405_0607, 1, false, false, false), 1 + 3 * 7 + 2 * 6);
    assert_eq!(dp2a(0x0002_0003, 0x0405_0607, 1, true, false, false), 1 + 3 * 5 + 2 * 4);
    assert_eq!(dp2a(0xffff_0001, 0x0000_0101, 0, false, true, false), 0);
}

#[test]
fn carries() {
    assert_eq!(addc_subc(0xffff_ffff, 0, 1, false, true), 0x1_0000_0000);
    assert_eq!(addc_subc(1, 2, 1, false, false), 0x1_0000_0004);
    assert_eq!(addc_subc(5, 3, 1, true, true), 0x1_0000_0002);
    assert_eq!(addc_subc(5, 3, 0, true, true), 0x1_0000_0001);
    assert_eq!(addc_subc(3, 5, 1, true, true), 0xffff_fffe);
    assert_eq!(madc(0x1_0000, 0x1_0000, 0xffff_ffff, 1, true), 0x1_0000_0000);
    assert_eq!(madc(2, 3, 4, 1, false), 0x1_0000_000b);
}
