use ptx_harness::bitfield::{bfe_s32, bfe_s64, bfe_u32, bfe_u64, bfi_b32, bfi_b64, brev_b32};
use ptx_harness::prmt::{host_prmt, PrmtMode};
use ptx_harness::shift::{shf, shl_b16, shr_s16, shr_u16, vshr};

#[test]
fn bfe_full_width_unsigned() {
    assert_eq!(bfe_u32(0xFFFF_FFFF, 0, 32), 0xFFFF_FFFF);
}

#[test]
fn bfe_sign_bit_of_minus_one() {
    assert_eq!(bfe_s32(-1, 31, 1), -1);
}

#[test]
fn bfe_field_and_sign_extension() {
    assert_eq!(bfe_u32(0x0000_ab00, 8, 8), 0xab);
    assert_eq!(bfe_s32(0x0000_ab00, 8, 8), -0x55);
    assert_eq!(bfe_s32(0x0000_ab00, 8, 0), 0);
    assert_eq!(bfe_u32(0x8000_0000, 28, 8), 0x8);
    assert_eq!(bfe_s32(i32::MIN, 28, 8), -8);
}

#[test]
fn bfe_32_bit_uses_low_byte_of_position_and_length() {
    assert_eq!(bfe_u32(0x0000_ab00, 0x108, 0x208), 0xab);
    assert_eq!(bfe_u64(0x0000_ab00, 0x108, 8), 0);
    assert_eq!(bfe_u64(0xab00_0000_0000_0000, 56, 8), 0xab);
    assert_eq!(bfe_s64(-1, 63, 1), -1);
    assert_eq!(bfe_s64(0x7f, 0, 7), -1);
}

#[test]
fn bfi_inserts_and_stops_at_width() {
    assert_eq!(bfi_b32(0xf, 0, 4, 4), 0xf0);
    assert_eq!(bfi_b32(0xffff_ffff, 0, 30, 8), 0xc000_0000);
    assert_eq!(bfi_b32(0, 0xffff_ffff, 0x100, 0x104), 0xffff_fff0);
    assert_eq!(bfi_b64(1, 0, 63, 1), 1 << 63);
    assert_eq!(bfi_b64(0, u64::MAX, 0, 0), u64::MAX);
}

#[test]
fn brev_reverses_and_twice_restores() {
    assert_eq!(brev_b32(1), 0x8000_0000);
    assert_eq!(brev_b32(0x0000_00f1), 0x8f00_0000);
    for x in [0u32, 1, 0x1234_5678, u32::MAX, 0x8000_0001] {
        assert_eq!(brev_b32(brev_b32(x)), x);
    }
}

#[test]
fn prmt_modes() {
    let a = 0x0403_0201;
    let b = 0x0807_0605;
    assert_eq!(host_prmt(PrmtMode::Generic, a, b, 0x3210), 0x0403_0201);
    assert_eq!(host_prmt(PrmtMode::Generic, a, b, 0x7654), 0x0807_0605);
    assert_eq!(host_prmt(PrmtMode::Generic, 0x80, b, 0x0008), 0x8080_80ff);
    assert_eq!(host_prmt(PrmtMode::F4e, a, b, 1), 0x0504_0302);
    assert_eq!(host_prmt(PrmtMode::B4e, a, b, 0), 0x0607_0801);
    assert_eq!(host_prmt(PrmtMode::Rc8, a, b, 2), 0x0303_0303);
    assert_eq!(host_prmt(PrmtMode::Ecl, a, b, 1), 0x0403_0202);
    assert_eq!(host_prmt(PrmtMode::Ecr, a, b, 2), 0x0303_0201);
    assert_eq!(host_prmt(PrmtMode::Rc16, a, b, 1), 0x0403_0403);
    assert_eq!(PrmtMode::Ecl.as_str(), ".ecl");
}

#[test]
fn shifts_past_width() {
    assert_eq!(shl_b16(1, 15), 0x8000);
    assert_eq!(shl_b16(0xffff, 16), 0);
    assert_eq!(shr_u16(0x8000, 15), 1);
    assert_eq!(shr_u16(0x8000, 40), 0);
    assert_eq!(shr_s16(-32768, 40), -1);
    assert_eq!(shr_s16(-5, 1), -3);
    assert_eq!(shr_s16(5, 1), 2);
}

#[test]
fn funnel_shift_clamp_and_wrap() {
    assert_eq!(shf(0x8000_0000, 0x0000_0001, 1, true, true), 0x0000_0003);
    assert_eq!(shf(0xaaaa_aaaa, 0x5555_5555, 32, true, true), 0xaaaa_aaaa);
    assert_eq!(shf(0xaaaa_aaaa, 0x5555_5555, 40, true, true), 0xaaaa_aaaa);
    assert_eq!(shf(0xaaaa_aaaa, 0x5555_5555, 32, true, false), 0x5555_5555);
    assert_eq!(shf(0x0000_0001, 0x0000_0003, 1, false, true), 0x8000_0000);
    assert_eq!(shf(0x1234_5678, 0x9abc_def0, 32, false, true), 0x9abc_def0);
    assert_eq!(shf(0x1234_5678, 0x9abc_def0, 36, false, false), 0x0123_4567);
}

#[test]
fn vector_shift_right() {
    // clamp: a shift of 32 or more leaves the sign
    assert_eq!(vshr(-8, true, 40, 0, true, true, false, false), -1);
    assert_eq!(vshr(8, true, 40, 0, true, true, false, false), 0);
    // wrap: 33 acts as 1
    assert_eq!(vshr(-8, true, 33, 0, true, false, false, false), -4);
    assert_eq!(vshr(0xffff_fff0, false, 4, 0, false, true, false, false), 0x0fff_ffff);
    // saturate a negative value into an unsigned destination
    assert_eq!(vshr(-8, true, 1, 0, false, true, true, false), 0);
    assert_eq!(vshr(-8, true, 1, 0, false, true, false, false), 0xffff_fffc);
    // saturate a large unsigned value into a signed destination, then add
    assert_eq!(vshr(0xffff_ffff, false, 0, 1, true, true, true, true), i32::MIN as i64);
    assert_eq!(vshr(0xffff_ffff, false, 0, 1, false, true, false, true), 0);
}
